use vstd::prelude::*;
use crate::text::{has_suffix, append_chars, copy_chars, chars_eq, ends_with, slice_chars, lines_view};

verus! {

/// Name of the root directory of the source tree.
pub open spec fn src_dir() -> Seq<char> {
    seq!['s', 'r', 'c']
}

/// Name of the root directory of the literate tree.
pub open spec fn lit_dir() -> Seq<char> {
    seq!['s', 'r', 'c']
}

pub open spec fn rs_ext() -> Seq<char> {
    seq!['r', 's']
}

pub open spec fn md_ext() -> Seq<char> {
    seq!['m', 'd']
}

fn src_dir_chars() -> (r: Vec<char>)
    ensures
        r@ == src_dir(),
{
    let r = vec!['s', 'r', 'c'];
    assert(r@ =~= src_dir());
    r
}

fn lit_dir_chars() -> (r: Vec<char>)
    ensures
        r@ == lit_dir(),
{
    let r = vec!['s', 'r', 'c'];
    assert(r@ =~= lit_dir());
    r
}

fn dot_ext_chars(md: bool) -> (r: Vec<char>)
    ensures
        r@ == seq!['.'] + if md { md_ext() } else { rs_ext() },
{
    let r = if md { vec!['.', 'm', 'd'] } else { vec!['.', 'r', 's'] };
    assert(r@ =~= seq!['.'] + if md { md_ext() } else { rs_ext() });
    r
}

/// `name` is a non-empty stem, a dot, then `ext` (for an `ext` without dots,
/// this is exactly when the file name's extension is `ext`).
pub open spec fn has_ext(name: Seq<char>, ext: Seq<char>) -> bool {
    name.len() > ext.len() + 1 && has_suffix(name, seq!['.'] + ext)
}

/// A path as the sequence of its components.
pub struct PathParts {
    pub parts: Vec<Vec<char>>,
}

impl View for PathParts {
    type V = Seq<Seq<char>>;

    open spec fn view(&self) -> Seq<Seq<char>> {
        lines_view(self.parts@)
    }
}

/// The path printed with `/` between its components.
pub open spec fn display_path(p: Seq<Seq<char>>) -> Seq<char>
    decreases p.len(),
{
    if p.len() == 0 {
        seq![]
    } else if p.len() == 1 {
        p[0]
    } else {
        display_path(p.drop_last()) + seq!['/'] + p.last()
    }
}

impl PathParts {
    pub fn new(parts: Vec<Vec<char>>) -> (r: PathParts)
        ensures
            r@ == lines_view(parts@),
    {
        PathParts { parts }
    }

    pub fn copy(&self) -> (r: PathParts)
        ensures
            r@ == self@,
    {
        let mut out: Vec<Vec<char>> = Vec::new();
        let mut i: usize = 0;
        while i < self.parts.len()
            invariant
                i <= self.parts@.len(),
                lines_view(out@) == self@.take(i as int),
            decreases self.parts.len() - i,
        {
            let ghost before = lines_view(out@);
            let c = copy_chars(&self.parts[i]);
            out.push(c);
            assert(lines_view(out@) =~= before.push(c@));
            assert(self@.take(i + 1) =~= self@.take(i as int).push(self@[i as int]));
            i = i + 1;
        }
        assert(self@.take(self.parts@.len() as int) =~= self@);
        PathParts { parts: out }
    }

    /// The path printed with `/` between its components.
    pub fn display(&self) -> (r: Vec<char>)
        ensures
            r@ == display_path(self@),
    {
        let mut out: Vec<char> = Vec::new();
        let mut i: usize = 0;
        while i < self.parts.len()
            invariant
                i <= self.parts@.len(),
                out@ == display_path(self@.take(i as int)),
            decreases self.parts.len() - i,
        {
            if i > 0 {
                out.push('/');
            }
            append_chars(&mut out, &self.parts[i]);
            proof {
                let t = self@.take(i + 1);
                assert(t.drop_last() =~= self@.take(i as int));
                if i == 0 {
                    assert(out@ =~= display_path(t));
                } else {
                    assert(out@ =~= display_path(t));
                }
            }
            i = i + 1;
        }
        assert(self@.take(self.parts@.len() as int) =~= self@);
        out
    }
}

/// Whether a file name is one that the planner looks at: hidden names and
/// lock files, which begin with a dot, are skipped.
pub open spec fn kept_name(name: Seq<char>) -> bool {
    name.len() == 0 || name[0] != '.'
}

pub fn keep_file_name(name: &Vec<char>) -> (r: bool)
    ensures
        r == kept_name(name@),
{
    name.len() == 0 || name[0] != '.'
}

/// A path rooted at `root` whose file name has the extension `ext`.
pub open spec fn valid_path(p: Seq<Seq<char>>, root: Seq<char>, ext: Seq<char>) -> bool {
    p.len() >= 2 && p[0] == root && has_ext(p.last(), ext)
}

pub open spec fn valid_rs(p: Seq<Seq<char>>) -> bool {
    valid_path(p, src_dir(), rs_ext())
}

pub open spec fn valid_md(p: Seq<Seq<char>>) -> bool {
    valid_path(p, lit_dir(), md_ext())
}

/// The peer of `p`: its root component replaced by `root`, and the extension
/// `from` of its file name replaced by `to`.
pub open spec fn counterpart(p: Seq<Seq<char>>, root: Seq<char>, from: Seq<char>, to: Seq<char>) -> Seq<Seq<char>> {
    let name = p.last();
    seq![root] + p.subrange(1, p.len() - 1) + seq![name.take(name.len() - from.len()) + to]
}

fn check_path(p: &PathParts, md: bool) -> (r: bool)
    ensures
        r == if md { valid_md(p@) } else { valid_rs(p@) },
{
    let n = p.parts.len();
    if n < 2 {
        return false;
    }
    let root = if md { lit_dir_chars() } else { src_dir_chars() };
    let ext = dot_ext_chars(md);
    let name = &p.parts[n - 1];
    assert(p@.last() == name@);
    chars_eq(&p.parts[0], &root) && name.len() > 3 && ends_with(name, &ext)
}

fn peer_of(p: &PathParts, md: bool) -> (r: PathParts)
    requires
        if md { valid_md(p@) } else { valid_rs(p@) },
    ensures
        if md {
            r@ == counterpart(p@, src_dir(), md_ext(), rs_ext()) && valid_rs(r@)
        } else {
            r@ == counterpart(p@, lit_dir(), rs_ext(), md_ext()) && valid_md(r@)
        },
{
    let n = p.parts.len();
    let mut out: Vec<Vec<char>> = Vec::new();
    out.push(if md { src_dir_chars() } else { lit_dir_chars() });
    let mut i: usize = 1;
    while i + 1 < n
        invariant
            n == p.parts@.len(),
            n >= 2,
            1 <= i <= n - 1,
            lines_view(out@) == seq![if md { src_dir() } else { lit_dir() }] + p@.subrange(1, i as int),
        decreases n - i,
    {
        let ghost before = lines_view(out@);
        let c = copy_chars(&p.parts[i]);
        out.push(c);
        assert(lines_view(out@) =~= before.push(c@));
        assert(lines_view(out@) =~= seq![if md { src_dir() } else { lit_dir() }] + p@.subrange(1, i + 1));
        i = i + 1;
    }
    let name = &p.parts[n - 1];
    let mut last = slice_chars(name, 0, name.len() - 2);
    let ext = dot_ext_chars(!md);
    last.push(ext[1]);
    last.push(ext[2]);
    let ghost old_out = lines_view(out@);
    out.push(last);
    proof {
        let nm = p@.last();
        assert(nm == name@);
        let to = if md { rs_ext() } else { md_ext() };
        assert(last@ =~= nm.take(nm.len() - 2) + to);
        assert(lines_view(out@) =~= old_out.push(last@));
        let r = lines_view(out@);
        assert(r.last() == last@);
        assert(r.len() >= 2);
        assert(last@.skip(last@.len() - 3) =~= seq!['.'] + to) by {
            assert(nm.skip(nm.len() - 3) =~= seq!['.'] + if md { md_ext() } else { rs_ext() });
            assert(nm.skip(nm.len() - 3)[0] == '.');
            assert(nm[nm.len() - 3] == '.');
        }
        if md {
            assert(r =~= counterpart(p@, src_dir(), md_ext(), rs_ext()));
        } else {
            assert(r =~= counterpart(p@, lit_dir(), rs_ext(), md_ext()));
        }
    }
    PathParts { parts: out }
}

/// A path into the source tree: rooted at the source root, with extension `rs`.
pub struct RsPath {
    path: PathParts,
}

/// A path into the literate tree: rooted at the literate root, with extension `md`.
pub struct MdPath {
    path: PathParts,
}

impl View for RsPath {
    type V = Seq<Seq<char>>;

    closed spec fn view(&self) -> Seq<Seq<char>> {
        self.path@
    }
}

impl View for MdPath {
    type V = Seq<Seq<char>>;

    closed spec fn view(&self) -> Seq<Seq<char>> {
        self.path@
    }
}

impl RsPath {
    pub fn new(p: PathParts) -> (r: RsPath)
        requires
            valid_rs(p@),
        ensures
            r@ == p@,
    {
        RsPath { path: p }
    }

    /// A source path for a walked entry, or `None` where the entry is not
    /// one: a hidden name, a path outside the source root, or another extension.
    pub fn from_entry(p: PathParts) -> (r: Option<RsPath>)
        ensures
            r.is_some() <==> valid_rs(p@) && kept_name(p@.last()),
            r.is_some() ==> r->0@ == p@,
    {
        if check_path(&p, false) && keep_file_name(&p.parts[p.parts.len() - 1]) {
            Some(RsPath { path: p })
        } else {
            None
        }
    }

    pub fn path(&self) -> (r: &PathParts)
        ensures
            r@ == self@,
    {
        &self.path
    }

    /// The literate file generated from this source file.
    pub fn to_md(&self) -> (r: MdPath)
        requires
            valid_rs(self@),
        ensures
            r@ == counterpart(self@, lit_dir(), rs_ext(), md_ext()),
            valid_md(r@),
    {
        MdPath::new(peer_of(&self.path, false))
    }
}

impl MdPath {
    pub fn new(p: PathParts) -> (r: MdPath)
        requires
            valid_md(p@),
        ensures
            r@ == p@,
    {
        MdPath { path: p }
    }

    /// A literate path for a walked entry, or `None` where the entry is not one.
    pub fn from_entry(p: PathParts) -> (r: Option<MdPath>)
        ensures
            r.is_some() <==> valid_md(p@) && kept_name(p@.last()),
            r.is_some() ==> r->0@ == p@,
    {
        if check_path(&p, true) && keep_file_name(&p.parts[p.parts.len() - 1]) {
            Some(MdPath { path: p })
        } else {
            None
        }
    }

    pub fn path(&self) -> (r: &PathParts)
        ensures
            r@ == self@,
    {
        &self.path
    }

    /// The source file generated from this literate file.
    pub fn to_rs(&self) -> (r: RsPath)
        requires
            valid_md(self@),
        ensures
            r@ == counterpart(self@, src_dir(), md_ext(), rs_ext()),
            valid_rs(r@),
    {
        RsPath::new(peer_of(&self.path, true))
    }
}

} // verus!
