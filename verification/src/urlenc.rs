//! Percent-encoding, through the `urlencoding` crate.

use vstd::prelude::*;

verus! {

/// A character that percent-encoding passes through unchanged: ASCII
/// alphanumerics and `-`, `_`, `.`, `~`.
pub open spec fn is_unreserved(c: char) -> bool {
    ('a' <= c && c <= 'z') || ('A' <= c && c <= 'Z') || ('0' <= c && c <= '9') || c == '-' || c
        == '_' || c == '.' || c == '~'
}

/// What `urlencoding::encode` returns: every byte outside the unreserved
/// set percent-encoded.  A function of the input alone.
pub uninterp spec fn percent_encoded(s: Seq<char>) -> Seq<char>;

/// What `urlencoding::decode` returns: `%xx` sequences decoded, `None` when
/// the decoded bytes are not UTF-8.  A function of the input alone.
pub uninterp spec fn percent_decoded(s: Seq<char>) -> Option<Seq<char>>;

/// Relies on `urlencoding::encode`: percent-encodes every byte except
/// ASCII alphanumerics and `-`, `_`, `.`, `~`, which pass through
/// unchanged.
#[verifier::external_body]
pub fn percent_encode(s: &String) -> (r: String)
    ensures
        r@ == percent_encoded(s@),
        (forall|i: int| 0 <= i < s@.len() ==> is_unreserved(s@[i])) ==> r@ == s@,
{
    urlencoding::encode(s).into_owned()
}

/// Relies on `urlencoding::decode`: decodes `%xx` sequences (an unencoded
/// `+` stays literal), fails only when the decoded bytes are not UTF-8,
/// and returns a string without `%` unchanged.
#[verifier::external_body]
pub fn percent_decode(s: &String) -> (r: Option<String>)
    ensures
        r is None ==> percent_decoded(s@) is None && (exists|i: int|
            0 <= i < s@.len() && s@[i] == '%'),
        r matches Some(d) ==> percent_decoded(s@) == Some(d@) && ((forall|i: int|
            0 <= i < s@.len() ==> s@[i] != '%') ==> d@ == s@),
{
    match urlencoding::decode(s) {
        Ok(c) => Some(c.into_owned()),
        Err(_) => None,
    }
}

} // verus!
