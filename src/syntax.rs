use vstd::prelude::*;

verus! {

/// The playground address up to the encoded code.
pub open spec fn url_prefix() -> Seq<char> {
    seq!['h', 't', 't', 'p', 's', ':', '/', '/', 'p', 'l', 'a', 'y', '.', 'r', 'u', 's', 't', '-', 'l', 'a', 'n', 'g', '.', 'o', 'r', 'g', '/', '?', 'c', 'o', 'd', 'e', '=']
}

pub fn url_prefix_chars() -> (r: Vec<char>)
    ensures
        r@ == url_prefix(),
{
    let r = vec!['h', 't', 't', 'p', 's', ':', '/', '/', 'p', 'l', 'a', 'y', '.', 'r', 'u', 's', 't', '-', 'l', 'a', 'n', 'g', '.', 'o', 'r', 'g', '/', '?', 'c', 'o', 'd', 'e', '='];
    assert(r@ =~= url_prefix());
    r
}

/// What follows the encoded code in a playground address.
pub open spec fn url_suffix() -> Seq<char> {
    seq!['&', 'v', 'e', 'r', 's', 'i', 'o', 'n', '=', 'n', 'i', 'g', 'h', 't', 'l', 'y']
}

pub fn url_suffix_chars() -> (r: Vec<char>)
    ensures
        r@ == url_suffix(),
{
    let r = vec!['&', 'v', 'e', 'r', 's', 'i', 'o', 'n', '=', 'n', 'i', 'g', 'h', 't', 'l', 'y'];
    assert(r@ =~= url_suffix());
    r
}

/// The text of a playground link before its address.
pub open spec fn link_open() -> Seq<char> {
    seq!['[', 'p', 'l', 'a', 'y', 'g', 'r', 'o', 'u', 'n', 'd', ']', '(']
}

pub fn link_open_chars() -> (r: Vec<char>)
    ensures
        r@ == link_open(),
{
    let r = vec!['[', 'p', 'l', 'a', 'y', 'g', 'r', 'o', 'u', 'n', 'd', ']', '('];
    assert(r@ =~= link_open());
    r
}

/// The text of a playground link after its address.
pub open spec fn link_close() -> Seq<char> {
    seq![')']
}

pub fn link_close_chars() -> (r: Vec<char>)
    ensures
        r@ == link_close(),
{
    let r = vec![')'];
    assert(r@ =~= link_close());
    r
}

/// The line that opens a code block.
pub open spec fn fence_open() -> Seq<char> {
    seq!['`', '`', '`', 'r', 'u', 's', 't']
}

pub fn fence_open_chars() -> (r: Vec<char>)
    ensures
        r@ == fence_open(),
{
    let r = vec!['`', '`', '`', 'r', 'u', 's', 't'];
    assert(r@ =~= fence_open());
    r
}

/// The line that closes a code block.
pub open spec fn fence_close() -> Seq<char> {
    seq!['`', '`', '`']
}

pub fn fence_close_chars() -> (r: Vec<char>)
    ensures
        r@ == fence_close(),
{
    let r = vec!['`', '`', '`'];
    assert(r@ =~= fence_close());
    r
}

/// The marker of a prose line in a source file.
pub open spec fn marker() -> Seq<char> {
    seq!['/', '/', '@']
}

pub fn marker_chars() -> (r: Vec<char>)
    ensures
        r@ == marker(),
{
    let r = vec!['/', '/', '@'];
    assert(r@ =~= marker());
    r
}

/// The marker of a prose line, with the space that follows it.
pub open spec fn marker_space() -> Seq<char> {
    seq!['/', '/', '@', ' ']
}

pub fn marker_space_chars() -> (r: Vec<char>)
    ensures
        r@ == marker_space(),
{
    let r = vec!['/', '/', '@', ' '];
    assert(r@ =~= marker_space());
    r
}

} // verus!
