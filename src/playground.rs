use vstd::prelude::*;
use crate::syntax::{url_prefix, url_suffix, url_prefix_chars, url_suffix_chars};
use crate::text::append_chars;

verus! {

/// The text with leading and trailing whitespace removed, as `str::trim` does it.
pub uninterp spec fn trimmed(s: Seq<char>) -> Seq<char>;

/// The UTF-8 encoding of the text, percent-encoded with the encode set for
/// the userinfo part of a URL.
pub uninterp spec fn userinfo_encoded(s: Seq<char>) -> Seq<char>;

/// Relies on `str::trim`: the text without leading and trailing whitespace.
#[verifier::external_body]
fn trim_code(s: &Vec<char>) -> (r: Vec<char>)
    ensures
        r@ == trimmed(s@),
{
    let text: String = s.iter().collect();
    text.trim().chars().collect()
}

/// Relies on `url::percent_encoding::utf8_percent_encode` with
/// `USERINFO_ENCODE_SET`: the encoded text, collected into characters.
#[verifier::external_body]
fn encode_userinfo(s: &Vec<char>) -> (r: Vec<char>)
    ensures
        r@ == userinfo_encoded(s@),
{
    let text: String = s.iter().collect();
    let enc = url::percent_encoding::utf8_percent_encode(&text, url::percent_encoding::USERINFO_ENCODE_SET);
    enc.collect::<String>().chars().collect()
}

/// The playground address that runs the given code.
pub open spec fn playground_url(code: Seq<char>) -> Seq<char> {
    url_prefix() + userinfo_encoded(trimmed(code)) + url_suffix()
}

/// The playground address that runs the given code: the trimmed code,
/// percent-encoded, as the `code` query parameter.
pub fn encode_to_url(code: &Vec<char>) -> (r: Vec<char>)
    ensures
        r@ == playground_url(code@),
{
    let trimmed_code = trim_code(code);
    let encoded = encode_userinfo(&trimmed_code);
    let mut out = url_prefix_chars();
    append_chars(&mut out, &encoded);
    let suffix = url_suffix_chars();
    append_chars(&mut out, &suffix);
    out
}

} // verus!
