use vstd::prelude::*;
use crate::syntax::{link_open, link_close, fence_open, fence_close, marker, marker_space,
    link_open_chars, link_close_chars, fence_open_chars, fence_close_chars, marker_chars, marker_space_chars};
use crate::playground::{playground_url, encode_to_url};
use crate::text::{has_prefix, join_lines, lines_view, starts_with, chars_eq, copy_chars, append_chars,
    slice_chars, join_text};

verus! {

/// A source line that holds prose: the marker and a space, or the marker alone.
pub open spec fn is_prose(l: Seq<char>) -> bool {
    has_prefix(l, marker_space()) || l == marker()
}

/// The prose that a prose line holds.
pub open spec fn prose_text(l: Seq<char>) -> Seq<char> {
    if has_prefix(l, marker_space()) {
        l.skip(4)
    } else {
        seq![]
    }
}

/// The link line that follows a code block made of the lines `code`.
pub open spec fn url_line(code: Seq<Seq<char>>) -> Seq<char> {
    link_open() + playground_url(join_lines(code)) + link_close()
}

/// The lines that close a code block made of the lines `code`.
pub open spec fn close_block(code: Seq<Seq<char>>) -> Seq<Seq<char>> {
    seq![fence_close(), url_line(code)]
}

/// The Markdown lines for the source lines `ls`, starting inside a code block
/// (holding the lines `code`) or in prose.
pub open spec fn rs_go(ls: Seq<Seq<char>>, in_code: bool, code: Seq<Seq<char>>) -> Seq<Seq<char>>
    decreases ls.len(),
{
    if ls.len() == 0 {
        if in_code { close_block(code) } else { seq![] }
    } else {
        let l = ls[0];
        let rest = ls.drop_first();
        if l.len() == 0 {
            seq![l] + rs_go(rest, in_code, if in_code { code.push(l) } else { code })
        } else if is_prose(l) {
            (if in_code { close_block(code) } else { seq![] }) + seq![prose_text(l)] + rs_go(rest, false, seq![])
        } else {
            (if in_code { seq![] } else { seq![fence_open()] }) + seq![l] + rs_go(rest, true, code.push(l))
        }
    }
}

/// The Markdown lines for the source lines `ls`.
pub open spec fn rs2md_spec(ls: Seq<Seq<char>>) -> Seq<Seq<char>> {
    rs_go(ls, false, seq![])
}

pub fn is_prose_line(l: &Vec<char>) -> (r: bool)
    ensures
        r == is_prose(l@),
{
    starts_with(l, &marker_space_chars()) || chars_eq(l, &marker_chars())
}

fn push_line(out: &mut Vec<Vec<char>>, l: Vec<char>)
    ensures
        lines_view(final(out)@) == lines_view(old(out)@).push(l@),
{
    out.push(l);
    assert(lines_view(out@) =~= lines_view(old(out)@).push(l@));
}

fn push_close_block(out: &mut Vec<Vec<char>>, code: &Vec<Vec<char>>)
    ensures
        lines_view(final(out)@) == lines_view(old(out)@) + close_block(lines_view(code@)),
{
    push_line(out, fence_close_chars());
    let text = join_text(code);
    let url = encode_to_url(&text);
    let mut link = link_open_chars();
    append_chars(&mut link, &url);
    append_chars(&mut link, &link_close_chars());
    push_line(out, link);
    assert(lines_view(out@) =~= lines_view(old(out)@) + close_block(lines_view(code@)));
}

/// Converts the lines of a source file into the lines of its Markdown form.
pub fn rs2md_lines(ls: &Vec<Vec<char>>) -> (r: Vec<Vec<char>>)
    ensures
        lines_view(r@) == rs2md_spec(lines_view(ls@)),
{
    let ghost all = lines_view(ls@);
    let mut out: Vec<Vec<char>> = Vec::new();
    let mut code: Vec<Vec<char>> = Vec::new();
    let mut in_code = false;
    let mut i: usize = 0;
    assert(all.skip(0) =~= all);
    assert(lines_view(out@) =~= Seq::<Seq<char>>::empty());
    assert(lines_view(code@) =~= Seq::<Seq<char>>::empty());
    assert(lines_view(out@) + rs_go(all.skip(0), false, lines_view(code@)) =~= rs2md_spec(all));
    while i < ls.len()
        invariant
            i <= ls@.len(),
            all == lines_view(ls@),
            lines_view(out@) + rs_go(all.skip(i as int), in_code, lines_view(code@)) == rs2md_spec(all),
        decreases ls.len() - i,
    {
        let ghost before = lines_view(out@);
        let ghost code_before = lines_view(code@);
        let ghost was_in_code = in_code;
        let l = &ls[i];
        assert(all.skip(i as int)[0] == l@);
        assert(all.skip(i as int).drop_first() =~= all.skip(i + 1));
        if l.len() == 0 {
            push_line(&mut out, copy_chars(l));
            if in_code {
                push_line(&mut code, copy_chars(l));
            }
            assert(lines_view(out@) + rs_go(all.skip(i + 1), in_code, lines_view(code@))
                =~= before + rs_go(all.skip(i as int), was_in_code, code_before));
        } else if is_prose_line(l) {
            if in_code {
                push_close_block(&mut out, &code);
            }
            let ghost mid = lines_view(out@);
            let text = if starts_with(l, &marker_space_chars()) {
                slice_chars(l, 4, l.len())
            } else {
                Vec::new()
            };
            assert(text@ =~= prose_text(l@));
            push_line(&mut out, text);
            code = Vec::new();
            in_code = false;
            assert(lines_view(code@) =~= Seq::<Seq<char>>::empty());
            assert(lines_view(out@) + rs_go(all.skip(i + 1), in_code, lines_view(code@))
                =~= before + rs_go(all.skip(i as int), was_in_code, code_before));
        } else {
            if !in_code {
                push_line(&mut out, fence_open_chars());
            }
            push_line(&mut out, copy_chars(l));
            push_line(&mut code, copy_chars(l));
            in_code = true;
            assert(lines_view(out@) + rs_go(all.skip(i + 1), in_code, lines_view(code@))
                =~= before + rs_go(all.skip(i as int), was_in_code, code_before));
        }
        i = i + 1;
    }
    let ghost before = lines_view(out@);
    if in_code {
        push_close_block(&mut out, &code);
    }
    assert(lines_view(out@) =~= before + rs_go(all.skip(i as int), in_code, lines_view(code@)));
    out
}

} // verus!
