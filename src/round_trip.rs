use vstd::prelude::*;
use crate::syntax::{link_open, link_close, url_prefix, url_suffix, fence_open, fence_close, marker, marker_space};
use crate::text::{has_prefix, join_lines};
use crate::playground::{playground_url, userinfo_encoded, trimmed};
use crate::rs2md::{is_prose, prose_text, url_line, close_block, rs_go, rs2md_spec};
use crate::md2rs::{MdMode, md_go, md2rs_spec, prose_back, is_url_line, url_in_line};

verus! {

/// Source lines that survive the trip through Markdown: no code line is a
/// closing fence, and no prose line holds an opening fence.
pub open spec fn fence_free(ls: Seq<Seq<char>>) -> bool {
    forall|i: int| 0 <= i < ls.len() ==> {
        &&& (!is_prose(#[trigger] ls[i]) ==> ls[i] != fence_close())
        &&& (is_prose(ls[i]) ==> prose_text(ls[i]) != fence_open())
    }
}

/// What the trip through Markdown gives back for `ls`, read in a code block
/// or in prose: blank lines in prose come back as the bare marker, and prose
/// lines come back with the marker normalised.
pub open spec fn normalized(ls: Seq<Seq<char>>, in_code: bool) -> Seq<Seq<char>>
    decreases ls.len(),
{
    if ls.len() == 0 {
        seq![]
    } else {
        let l = ls[0];
        let rest = ls.drop_first();
        if l.len() == 0 {
            seq![if in_code { l } else { marker() }] + normalized(rest, in_code)
        } else if is_prose(l) {
            seq![prose_back(prose_text(l))] + normalized(rest, false)
        } else {
            seq![l] + normalized(rest, true)
        }
    }
}

proof fn lemma_url_line(code: Seq<Seq<char>>)
    ensures
        is_url_line(url_line(code)),
        url_in_line(url_line(code)) == playground_url(join_lines(code)),
        url_line(code).len() > 0,
        url_line(code) != fence_open(),
{
    let l = url_line(code);
    let enc = userinfo_encoded(trimmed(join_lines(code)));
    assert(l =~= link_open() + url_prefix() + enc + url_suffix() + link_close());
    assert(l.take((link_open() + url_prefix()).len() as int) =~= link_open() + url_prefix());
    assert(l.skip(l.len() - (url_suffix() + link_close()).len()) =~= url_suffix() + link_close());
    assert(url_in_line(l) =~= url_prefix() + enc + url_suffix());
    assert(l[0] == '[');
    assert(fence_open()[0] == '`');
}

proof fn lemma_close_block_read(code: Seq<Seq<char>>, rest: Seq<Seq<char>>)
    ensures
        md_go(close_block(code) + rest, MdMode::Code, code) == md_go(rest, MdMode::Prose, seq![]),
{
    let all = close_block(code) + rest;
    lemma_url_line(code);
    assert(all[0] == fence_close());
    assert(all.drop_first()[0] == url_line(code));
    assert(all.drop_first().drop_first() =~= rest);
    assert(md_go(all, MdMode::Code, code) == md_go(all.drop_first(), MdMode::AwaitUrl, code));
    let r = md_go(rest, MdMode::Prose, seq![]);
    assert(url_in_line(url_line(code)) == playground_url(join_lines(code)));
    assert(md_go(all.drop_first(), MdMode::AwaitUrl, code) == (r.0, r.1));
}

proof fn lemma_prose_back(l: Seq<char>)
    requires
        is_prose(l),
    ensures
        prose_back(prose_text(l)) == l || (prose_back(prose_text(l)) == marker() && l == marker_space()),
{
    if has_prefix(l, marker_space()) {
        let t = l.skip(4);
        if t.len() == 0 {
            assert(l =~= marker_space());
        } else {
            assert(marker_space() + t =~= l);
        }
    }
}

proof fn lemma_trip(ls: Seq<Seq<char>>, in_code: bool, code: Seq<Seq<char>>)
    requires
        fence_free(ls),
        !in_code ==> code == Seq::<Seq<char>>::empty(),
    ensures
        md_go(rs_go(ls, in_code, code), if in_code { MdMode::Code } else { MdMode::Prose }, code)
            == (normalized(ls, in_code), Seq::<(Seq<char>, Seq<char>)>::empty()),
    decreases ls.len(),
{
    let mode = if in_code { MdMode::Code } else { MdMode::Prose };
    if ls.len() == 0 {
        if in_code {
            lemma_close_block_read(code, seq![]);
            assert(close_block(code) + Seq::<Seq<char>>::empty() =~= close_block(code));
        }
        assert(md_go(Seq::<Seq<char>>::empty(), MdMode::Prose, seq![]) == (Seq::<Seq<char>>::empty(), Seq::<(Seq<char>, Seq<char>)>::empty()));
    } else {
        let l = ls[0];
        let rest = ls.drop_first();
        assert(fence_free(rest)) by {
            assert forall|i: int| 0 <= i < rest.len() implies {
                &&& (!is_prose(#[trigger] rest[i]) ==> rest[i] != fence_close())
                &&& (is_prose(rest[i]) ==> prose_text(rest[i]) != fence_open())
            } by {
                assert(rest[i] == ls[i + 1]);
            }
        }
        assert(!is_prose(l) ==> l != fence_close());
        assert(is_prose(l) ==> prose_text(l) != fence_open());
        if l.len() == 0 {
            let code2 = if in_code { code.push(l) } else { code };
            let r = rs_go(rest, in_code, code2);
            lemma_trip(rest, in_code, code2);
            let out = seq![l] + r;
            assert(out[0] == l);
            assert(out.drop_first() =~= r);
            assert(l != fence_close());
            assert(l != fence_open());
            assert(rs_go(ls, in_code, code) == out);
            assert(normalized(ls, in_code) =~= seq![if in_code { l } else { marker() }] + normalized(rest, in_code));
            assert(md_go(out, mode, code).0 =~= normalized(ls, in_code));
        } else if is_prose(l) {
            let r = rs_go(rest, false, seq![]);
            lemma_trip(rest, false, seq![]);
            let t = prose_text(l);
            let tail = seq![t] + r;
            assert(tail[0] == t);
            assert(tail.drop_first() =~= r);
            assert(md_go(tail, MdMode::Prose, seq![]).0 =~= seq![prose_back(t)] + normalized(rest, false));
            if in_code {
                lemma_close_block_read(code, tail);
                assert(rs_go(ls, in_code, code) =~= close_block(code) + tail);
            } else {
                assert(rs_go(ls, in_code, code) =~= tail);
            }
        } else {
            let r = rs_go(rest, true, code.push(l));
            lemma_trip(rest, true, code.push(l));
            let tail = seq![l] + r;
            assert(tail[0] == l);
            assert(tail.drop_first() =~= r);
            assert(md_go(tail, MdMode::Code, code).0 =~= seq![l] + normalized(rest, true));
            if in_code {
                assert(rs_go(ls, in_code, code) =~= tail);
            } else {
                let out = seq![fence_open()] + tail;
                assert(rs_go(ls, in_code, code) =~= out);
                assert(out[0] == fence_open());
                assert(out.drop_first() =~= tail);
                assert(code.push(l) =~= seq![l]);
                assert(fence_open() != marker());
            }
        }
    }
}

proof fn lemma_normalized_lines(ls: Seq<Seq<char>>, in_code: bool)
    ensures
        normalized(ls, in_code).len() == ls.len(),
        forall|i: int| 0 <= i < ls.len() ==> #[trigger] normalized(ls, in_code)[i] == ls[i]
            || (normalized(ls, in_code)[i] == marker() && (ls[i].len() == 0 || ls[i] == marker_space())),
    decreases ls.len(),
{
    if ls.len() > 0 {
        let l = ls[0];
        let rest = ls.drop_first();
        let c2 = if l.len() == 0 { in_code } else if is_prose(l) { false } else { true };
        lemma_normalized_lines(rest, c2);
        if is_prose(l) && l.len() > 0 {
            lemma_prose_back(l);
        }
        let n = normalized(ls, in_code);
        assert forall|i: int| 0 <= i < ls.len() implies #[trigger] n[i] == ls[i]
            || (n[i] == marker() && (ls[i].len() == 0 || ls[i] == marker_space())) by {
            if i > 0 {
                assert(n[i] == normalized(rest, c2)[i - 1]);
                assert(rest[i - 1] == ls[i]);
            }
        }
    }
}

/// A source file taken to Markdown and back gives its lines again, but for
/// blank prose lines: an empty line outside code, and the marker followed by
/// a single space, come back as the bare marker. The trip raises no warning.
pub proof fn law_source_round_trip(ls: Seq<Seq<char>>)
    requires
        fence_free(ls),
    ensures
        md2rs_spec(rs2md_spec(ls)).1.len() == 0,
        md2rs_spec(rs2md_spec(ls)).0.len() == ls.len(),
        forall|i: int| 0 <= i < ls.len() ==> #[trigger] md2rs_spec(rs2md_spec(ls)).0[i] == ls[i]
            || (md2rs_spec(rs2md_spec(ls)).0[i] == marker() && (ls[i].len() == 0 || ls[i] == marker_space())),
{
    lemma_trip(ls, false, seq![]);
    lemma_normalized_lines(ls, false);
}

/// Markdown lines, read from `mode`, whose code blocks hold no prose line
/// and do not open with a blank line (`fresh`: no line of the current block
/// has been read yet).
pub open spec fn md_wf(ls: Seq<Seq<char>>, mode: MdMode, fresh: bool) -> bool
    decreases ls.len(),
{
    if ls.len() == 0 {
        true
    } else {
        let l = ls[0];
        let rest = ls.drop_first();
        if mode == MdMode::Code {
            if l == fence_close() {
                md_wf(rest, MdMode::AwaitUrl, false)
            } else {
                !is_prose(l) && (fresh ==> l.len() > 0) && md_wf(rest, MdMode::Code, false)
            }
        } else if mode == MdMode::AwaitUrl && l.len() == 0 {
            md_wf(rest, MdMode::AwaitUrl, false)
        } else if mode == MdMode::AwaitUrl && is_url_line(l) {
            md_wf(rest, MdMode::Prose, false)
        } else if l == fence_open() {
            md_wf(rest, MdMode::Code, true)
        } else {
            md_wf(rest, MdMode::Prose, false)
        }
    }
}

/// Well-formed Markdown: no code block holds a line that a source file would
/// read as prose, and none opens with a blank line.
pub open spec fn well_formed_md(m: Seq<Seq<char>>) -> bool {
    md_wf(m, MdMode::Prose, false)
}

proof fn lemma_fence_free_cons(x: Seq<char>, r: Seq<Seq<char>>)
    requires
        fence_free(r),
        !is_prose(x) ==> x != fence_close(),
        is_prose(x) ==> prose_text(x) != fence_open(),
    ensures
        fence_free(seq![x] + r),
{
    let all = seq![x] + r;
    assert forall|i: int| 0 <= i < all.len() implies {
        &&& (!is_prose(#[trigger] all[i]) ==> all[i] != fence_close())
        &&& (is_prose(all[i]) ==> prose_text(all[i]) != fence_open())
    } by {
        if i > 0 {
            assert(all[i] == r[i - 1]);
        }
    }
}

proof fn lemma_prose_back_stable(t: Seq<char>)
    requires
        t != fence_open(),
    ensures
        is_prose(prose_back(t)),
        prose_text(prose_back(t)) == t,
        prose_back(prose_text(prose_back(t))) == prose_back(t),
        prose_back(t).len() > 0,
{
    let l = prose_back(t);
    if t.len() == 0 {
        assert(!has_prefix(l, marker_space()));
        assert(l == marker());
    } else {
        assert(l.take(4) =~= marker_space());
        assert(l.skip(4) =~= t);
    }
}

proof fn lemma_md_stable(ls: Seq<Seq<char>>, mode: MdMode, fresh: bool, code: Seq<Seq<char>>, c: bool)
    requires
        md_wf(ls, mode, fresh),
        mode == MdMode::Code && !fresh ==> c,
    ensures
        fence_free(md_go(ls, mode, code).0),
        normalized(md_go(ls, mode, code).0, c) == md_go(ls, mode, code).0,
    decreases ls.len(),
{
    let out = md_go(ls, mode, code).0;
    if ls.len() == 0 {
        assert(fence_free(out));
    } else {
        let l = ls[0];
        let rest = ls.drop_first();
        if mode == MdMode::Code {
            if l == fence_close() {
                lemma_md_stable(rest, MdMode::AwaitUrl, false, code, c);
            } else {
                lemma_md_stable(rest, MdMode::Code, false, code.push(l), true);
                let r = md_go(rest, MdMode::Code, code.push(l)).0;
                assert(out == seq![l] + r);
                lemma_fence_free_cons(l, r);
                assert((seq![l] + r)[0] == l);
                assert((seq![l] + r).drop_first() =~= r);
            }
        } else if mode == MdMode::AwaitUrl && l.len() == 0 {
            lemma_md_stable(rest, MdMode::AwaitUrl, false, code, false);
            let r = md_go(rest, MdMode::AwaitUrl, code).0;
            lemma_prose_back_stable(seq![]);
            assert(prose_back(seq![]) == marker());
            assert(out == seq![marker()] + r);
            lemma_fence_free_cons(marker(), r);
            assert((seq![marker()] + r)[0] == marker());
            assert((seq![marker()] + r).drop_first() =~= r);
        } else if mode == MdMode::AwaitUrl && is_url_line(l) {
            lemma_md_stable(rest, MdMode::Prose, false, seq![], c);
        } else if l == fence_open() {
            lemma_md_stable(rest, MdMode::Code, true, seq![], c);
        } else {
            lemma_md_stable(rest, MdMode::Prose, false, seq![], false);
            let r = md_go(rest, MdMode::Prose, seq![]).0;
            lemma_prose_back_stable(l);
            assert(out == seq![prose_back(l)] + r);
            lemma_fence_free_cons(prose_back(l), r);
            assert((seq![prose_back(l)] + r)[0] == prose_back(l));
            assert((seq![prose_back(l)] + r).drop_first() =~= r);
        }
    }
}

/// Well-formed Markdown taken to source, to Markdown and back to source reads
/// as it did the first time: the same code lines and prose lines, in the same
/// order, and the regenerated Markdown raises no warning.
pub proof fn law_literate_round_trip(m: Seq<Seq<char>>)
    requires
        well_formed_md(m),
    ensures
        md2rs_spec(rs2md_spec(md2rs_spec(m).0)).0 == md2rs_spec(m).0,
        md2rs_spec(rs2md_spec(md2rs_spec(m).0)).1.len() == 0,
{
    lemma_md_stable(m, MdMode::Prose, false, seq![], false);
    lemma_trip(md2rs_spec(m).0, false, seq![]);
}

} // verus!
