use vstd::prelude::*;
use crate::Warning;
use crate::syntax::{link_open, link_close, url_prefix, url_suffix, fence_open, fence_close, marker, marker_space,
    link_open_chars, link_close_chars, url_prefix_chars, url_suffix_chars, fence_open_chars, fence_close_chars,
    marker_chars, marker_space_chars};
use crate::playground::{playground_url, encode_to_url};
use crate::text::{has_prefix, has_suffix, join_lines, lines_view, starts_with, ends_with, chars_eq, copy_chars,
    append_chars, slice_chars, join_text, string_of};

verus! {

/// Where the reader of a Markdown file stands.
#[derive(Clone, Copy, Debug, PartialEq, Eq, Structural)]
pub enum MdMode {
    /// Outside any code block.
    Prose,
    /// Inside a code block.
    Code,
    /// Just after a code block, where its playground link may stand.
    AwaitUrl,
}

/// The source line for a prose line of Markdown.
pub open spec fn prose_back(t: Seq<char>) -> Seq<char> {
    if t.len() == 0 {
        marker()
    } else {
        marker_space() + t
    }
}

/// A playground link line: the link text, the playground address with some
/// encoded code, and the closing parenthesis.
pub open spec fn is_url_line(l: Seq<char>) -> bool {
    l.len() >= link_open().len() + url_prefix().len() + url_suffix().len() + link_close().len()
        && has_prefix(l, link_open() + url_prefix())
        && has_suffix(l, url_suffix() + link_close())
}

/// The address in a link line.
pub open spec fn url_in_line(l: Seq<char>) -> Seq<char> {
    l.subrange(link_open().len() as int, l.len() - link_close().len())
}

/// A warning as the pair of the address found and the address expected.
pub open spec fn warning_view(w: Warning) -> (Seq<char>, Seq<char>) {
    match w {
        Warning::EncodedUrlMismatch { actual, expect } => (actual@, expect@),
    }
}

pub open spec fn warnings_view(ws: Seq<Warning>) -> Seq<(Seq<char>, Seq<char>)> {
    ws.map_values(|w: Warning| warning_view(w))
}

/// The source lines, and the link mismatches, for the Markdown lines `ls`,
/// read from `mode` with the lines `code` of the last code block.
pub open spec fn md_go(ls: Seq<Seq<char>>, mode: MdMode, code: Seq<Seq<char>>)
    -> (Seq<Seq<char>>, Seq<(Seq<char>, Seq<char>)>)
    decreases ls.len(),
{
    if ls.len() == 0 {
        (seq![], seq![])
    } else {
        let l = ls[0];
        let rest = ls.drop_first();
        if mode == MdMode::Code {
            if l == fence_close() {
                md_go(rest, MdMode::AwaitUrl, code)
            } else {
                let r = md_go(rest, MdMode::Code, code.push(l));
                (seq![l] + r.0, r.1)
            }
        } else if mode == MdMode::AwaitUrl && l.len() == 0 {
            let r = md_go(rest, MdMode::AwaitUrl, code);
            (seq![marker()] + r.0, r.1)
        } else if mode == MdMode::AwaitUrl && is_url_line(l) {
            let r = md_go(rest, MdMode::Prose, seq![]);
            let actual = url_in_line(l);
            let expect = playground_url(join_lines(code));
            (r.0, if actual == expect { r.1 } else { seq![(actual, expect)] + r.1 })
        } else if l == fence_open() {
            md_go(rest, MdMode::Code, seq![])
        } else {
            let r = md_go(rest, MdMode::Prose, seq![]);
            (seq![prose_back(l)] + r.0, r.1)
        }
    }
}

/// The source lines, and the link mismatches, for the Markdown lines `ls`.
pub open spec fn md2rs_spec(ls: Seq<Seq<char>>) -> (Seq<Seq<char>>, Seq<(Seq<char>, Seq<char>)>) {
    md_go(ls, MdMode::Prose, seq![])
}

fn push_line(out: &mut Vec<Vec<char>>, l: Vec<char>)
    ensures
        lines_view(final(out)@) == lines_view(old(out)@).push(l@),
{
    out.push(l);
    assert(lines_view(out@) =~= lines_view(old(out)@).push(l@));
}

pub fn is_url_line_exec(l: &Vec<char>) -> (r: bool)
    ensures
        r == is_url_line(l@),
{
    let mut head = link_open_chars();
    append_chars(&mut head, &url_prefix_chars());
    let mut tail = url_suffix_chars();
    append_chars(&mut tail, &link_close_chars());
    l.len() >= head.len() && l.len() - head.len() >= tail.len() && starts_with(l, &head) && ends_with(l, &tail)
}

/// Converts the lines of a Markdown file into the lines of its source form,
/// with a warning for each playground link that does not match its code block.
pub fn md2rs_lines(ls: &Vec<Vec<char>>) -> (r: (Vec<Vec<char>>, Vec<Warning>))
    ensures
        (lines_view(r.0@), warnings_view(r.1@)) == md2rs_spec(lines_view(ls@)),
{
    let ghost all = lines_view(ls@);
    let mut out: Vec<Vec<char>> = Vec::new();
    let mut warns: Vec<Warning> = Vec::new();
    let mut code: Vec<Vec<char>> = Vec::new();
    let mut mode = MdMode::Prose;
    let mut i: usize = 0;
    assert(all.skip(0) =~= all);
    assert(lines_view(out@) =~= Seq::<Seq<char>>::empty());
    assert(lines_view(code@) =~= Seq::<Seq<char>>::empty());
    assert(warnings_view(warns@) =~= Seq::<(Seq<char>, Seq<char>)>::empty());
    while i < ls.len()
        invariant
            i <= ls@.len(),
            all == lines_view(ls@),
            ({
                let g = md_go(all.skip(i as int), mode, lines_view(code@));
                lines_view(out@) + g.0 == md2rs_spec(all).0 && warnings_view(warns@) + g.1 == md2rs_spec(all).1
            }),
        decreases ls.len() - i,
    {
        let ghost out0 = lines_view(out@);
        let ghost warns0 = warnings_view(warns@);
        let ghost g0 = md_go(all.skip(i as int), mode, lines_view(code@));
        let l = &ls[i];
        assert(all.skip(i as int)[0] == l@);
        assert(all.skip(i as int).drop_first() =~= all.skip(i + 1));
        if mode == MdMode::Code {
            if chars_eq(l, &fence_close_chars()) {
                mode = MdMode::AwaitUrl;
            } else {
                push_line(&mut out, copy_chars(l));
                push_line(&mut code, copy_chars(l));
                assert(lines_view(out@) + md_go(all.skip(i + 1), mode, lines_view(code@)).0 =~= out0 + g0.0);
            }
        } else if mode == MdMode::AwaitUrl && l.len() == 0 {
            push_line(&mut out, marker_chars());
            assert(lines_view(out@) + md_go(all.skip(i + 1), mode, lines_view(code@)).0 =~= out0 + g0.0);
        } else if mode == MdMode::AwaitUrl && is_url_line_exec(l) {
            let expect = encode_to_url(&join_text(&code));
            let lo = link_open_chars().len();
            let actual = slice_chars(l, lo, l.len() - 1);
            assert(actual@ =~= url_in_line(l@));
            if !chars_eq(&actual, &expect) {
                let w = Warning::EncodedUrlMismatch { actual: string_of(&actual), expect: string_of(&expect) };
                warns.push(w);
                assert(warnings_view(warns@) =~= warns0.push((actual@, expect@)));
            }
            mode = MdMode::Prose;
            code = Vec::new();
            assert(lines_view(code@) =~= Seq::<Seq<char>>::empty());
            assert(warnings_view(warns@) + md_go(all.skip(i + 1), mode, lines_view(code@)).1 =~= warns0 + g0.1);
        } else if chars_eq(l, &fence_open_chars()) {
            mode = MdMode::Code;
            code = Vec::new();
            assert(lines_view(code@) =~= Seq::<Seq<char>>::empty());
        } else {
            let mut line = if l.len() == 0 { marker_chars() } else { marker_space_chars() };
            append_chars(&mut line, l);
            assert(line@ =~= prose_back(l@));
            push_line(&mut out, line);
            mode = MdMode::Prose;
            code = Vec::new();
            assert(lines_view(code@) =~= Seq::<Seq<char>>::empty());
            assert(lines_view(out@) + md_go(all.skip(i + 1), mode, lines_view(code@)).0 =~= out0 + g0.0);
        }
        i = i + 1;
    }
    assert(all.skip(i as int) =~= Seq::<Seq<char>>::empty());
    assert(lines_view(out@) =~= md2rs_spec(all).0);
    assert(warnings_view(warns@) =~= md2rs_spec(all).1);
    (out, warns)
}

} // verus!
