//! String operations of the standard library that the gateway rules rely on.

use vstd::prelude::*;
use vstd::string::*;
use vstd::utf8::valid_utf8;

verus! {

/// `str::starts_with` with a string pattern: true exactly when `prefix` is a
/// prefix of `s`.
#[verifier::external_body]
pub(crate) fn starts_with(s: &str, prefix: &str) -> (b: bool)
    ensures
        b == prefix@.is_prefix_of(s@),
{
    s.starts_with(prefix)
}

/// `s` without the run of `c` at its end.
pub open spec fn trim_trailing(s: Seq<char>, c: char) -> Seq<char>
    decreases s.len(),
{
    if s.len() > 0 && s.last() == c {
        trim_trailing(s.drop_last(), c)
    } else {
        s
    }
}

/// `str::trim_end_matches` with the pattern `'/'`: the slice without the
/// slashes at its end.
#[verifier::external_body]
pub(crate) fn trim_end_slashes<'a>(s: &'a str) -> (r: &'a str)
    ensures
        r@ == trim_trailing(s@, '/'),
{
    s.trim_end_matches('/')
}

/// `std::str::from_utf8`: succeeds exactly on well-formed UTF-8, and then
/// hands back the same bytes, seen as text.
#[verifier::external_body]
pub(crate) fn text_of<'a>(bytes: &'a [u8]) -> (r: Option<&'a str>)
    ensures
        r is Some <==> valid_utf8(bytes@),
        r matches Some(text) ==> text.spec_bytes() == bytes@,
{
    std::str::from_utf8(bytes).ok()
}

} // verus!
