//! Looking headers up by name and reading their values.

use vstd::prelude::*;
use vstd::string::*;
use vstd::utf8::*;
use crate::http::{Header, HeaderView, header_views};
use crate::text::text_of;

verus! {

/// An ASCII upper-case letter becomes its lower-case letter; every other byte
/// stays.
pub open spec fn lower_byte(b: u8) -> u8 {
    if 65 <= b <= 90 {
        (b + 32) as u8
    } else {
        b
    }
}

/// `s` with its ASCII letters in lower case.
pub open spec fn lower_bytes(s: Seq<u8>) -> Seq<u8> {
    s.map_values(|b: u8| lower_byte(b))
}

/// A header name is `lower`, whatever the case of its letters.
pub open spec fn name_is(name: Seq<u8>, lower: Seq<u8>) -> bool {
    lower_bytes(name) == lower
}

/// The value of the first header named `lower`, if there is one.
pub open spec fn header_value(headers: Seq<HeaderView>, lower: Seq<u8>) -> Option<Seq<u8>>
    decreases headers.len(),
{
    if headers.len() == 0 {
        None
    } else if name_is(headers[0].name, lower) {
        Some(headers[0].value)
    } else {
        header_value(headers.drop_first(), lower)
    }
}

/// A byte that may stand in a header value read as text: printable ASCII, a
/// space or a tab.
pub open spec fn is_visible(b: u8) -> bool {
    32 <= b < 127 || b == 9
}

/// The text of a header value: its bytes as characters, when all of them are
/// visible.
pub open spec fn value_text(value: Seq<u8>) -> Option<Seq<char>> {
    if forall|i: int| 0 <= i < value.len() ==> is_visible(#[trigger] value[i]) {
        Some(value.map_values(|b: u8| b as char))
    } else {
        None
    }
}

/// The text of the first header named `lower`; none when the header is
/// missing or its value is not text.
pub open spec fn header_text(headers: Seq<HeaderView>, lower: Seq<u8>) -> Option<Seq<char>> {
    match header_value(headers, lower) {
        Some(value) => value_text(value),
        None => None,
    }
}

/// An ASCII decimal digit.
pub open spec fn is_digit(b: u8) -> bool {
    48 <= b <= 57
}

/// The number that a run of decimal digits writes.
pub open spec fn digits_value(digits: Seq<u8>) -> nat
    decreases digits.len(),
{
    if digits.len() == 0 {
        0
    } else {
        digits_value(digits.drop_last()) * 10 + (digits.last() - 48) as nat
    }
}

/// The digits of an unsigned number: what follows one leading `+`, if there
/// is one.
pub open spec fn after_plus(s: Seq<u8>) -> Seq<u8> {
    if s.len() > 0 && s[0] == 43 {
        s.drop_first()
    } else {
        s
    }
}

/// The 64-bit number written in `s`: at least one decimal digit, after an
/// optional `+`, and nothing else. None when `s` is anything else or the
/// number does not fit.
pub open spec fn parse_decimal(s: Seq<u8>) -> Option<u64> {
    let digits = after_plus(s);
    if digits.len() > 0 && (forall|i: int| 0 <= i < digits.len() ==> is_digit(#[trigger] digits[i]))
        && digits_value(digits) <= u64::MAX {
        Some(digits_value(digits) as u64)
    } else {
        None
    }
}

/// The length that a request declares: the number in its first
/// `content-length` header.
pub open spec fn declared_length(headers: Seq<HeaderView>) -> Option<u64> {
    match header_value(headers, "content-length".spec_bytes()) {
        Some(value) => parse_decimal(value),
        None => None,
    }
}

/// A number never shrinks when more digits follow.
pub proof fn lemma_digits_value_grows(digits: Seq<u8>, k: int)
    requires
        0 <= k <= digits.len(),
    ensures
        digits_value(digits.take(k)) <= digits_value(digits),
    decreases digits.len() - k,
{
    if k == digits.len() {
        assert(digits.take(k) =~= digits);
    } else {
        lemma_digits_value_grows(digits, k + 1);
        assert(digits.take(k + 1).drop_last() =~= digits.take(k));
    }
}

/// Folds an ASCII upper-case letter to lower case.
pub fn to_lower_byte(b: u8) -> (r: u8)
    ensures
        r == lower_byte(b),
{
    if 65 <= b && b <= 90 {
        b + 32
    } else {
        b
    }
}

/// Compares a header name with a name given in lower case.
pub fn name_matches(name: &[u8], lower: &[u8]) -> (b: bool)
    ensures
        b == name_is(name@, lower@),
{
    if name.len() != lower.len() {
        return false;
    }
    let mut i: usize = 0;
    while i < name.len()
        invariant
            i <= name.len(),
            name.len() == lower.len(),
            forall|j: int| 0 <= j < i ==> lower_byte(name@[j]) == lower@[j],
        decreases name.len() - i,
    {
        if to_lower_byte(name[i]) != lower[i] {
            assert(lower_bytes(name@)[i as int] != lower@[i as int]);
            return false;
        }
        i += 1;
    }
    assert(lower_bytes(name@) =~= lower@);
    true
}

/// Finds the first header named `lower` and hands out its value.
pub fn find_header<'a>(headers: &'a Vec<Header>, lower: &[u8]) -> (r: Option<&'a Vec<u8>>)
    ensures
        match r {
            Some(value) => header_value(header_views(headers@), lower@) == Some(value@),
            None => header_value(header_views(headers@), lower@) is None,
        },
{
    let ghost all = header_views(headers@);
    let mut i: usize = 0;
    assert(all.skip(0) =~= all);
    while i < headers.len()
        invariant
            i <= headers.len(),
            all == header_views(headers@),
            header_value(all, lower@) == header_value(all.skip(i as int), lower@),
        decreases headers.len() - i,
    {
        proof {
            assert(all.skip(i as int)[0] == headers@[i as int]@);
            assert(all.skip(i as int).drop_first() =~= all.skip(i as int + 1));
        }
        if name_matches(headers[i].name.as_slice(), lower) {
            return Some(&headers[i].value);
        }
        i += 1;
    }
    None
}

/// Reads a header value as text.
pub fn read_text<'a>(value: &'a [u8]) -> (r: Option<&'a str>)
    ensures
        match r {
            Some(text) => value_text(value@) == Some(text@),
            None => value_text(value@) is None,
        },
{
    let mut i: usize = 0;
    while i < value.len()
        invariant
            i <= value.len(),
            forall|j: int| 0 <= j < i ==> is_visible(#[trigger] value@[j]),
        decreases value.len() - i,
    {
        let b: u8 = value[i];
        if !((32 <= b && b < 127) || b == 9) {
            assert(!is_visible(value@[i as int]));
            return None;
        }
        i += 1;
    }
    let ghost chars = value@.map_values(|b: u8| b as char);
    proof {
        assert(is_ascii_chars(chars));
        is_ascii_chars_encode_utf8(chars);
        assert(encode_utf8(chars) =~= value@);
        encode_utf8_valid_utf8(chars);
    }
    match text_of(value) {
        Some(text) => {
            proof {
                encode_utf8_decode_utf8(chars);
                encode_utf8_decode_utf8(text@);
            }
            Some(text)
        },
        None => None,
    }
}

/// Reads an unsigned decimal number.
pub fn read_decimal(s: &[u8]) -> (r: Option<u64>)
    ensures
        r == parse_decimal(s@),
{
    let start: usize = if s.len() > 0 && s[0] == 43 { 1 } else { 0 };
    let ghost digits = after_plus(s@);
    assert(digits =~= s@.skip(start as int));
    if start == s.len() {
        return None;
    }
    let mut value: u64 = 0;
    let mut i: usize = start;
    assert(digits.take(0) =~= Seq::<u8>::empty());
    while i < s.len()
        invariant
            start <= i <= s.len(),
            digits == s@.skip(start as int),
            digits == after_plus(s@),
            forall|j: int| 0 <= j < i - start ==> is_digit(#[trigger] digits[j]),
            value == digits_value(digits.take(i - start)),
        decreases s.len() - i,
    {
        let b: u8 = s[i];
        assert(digits[i - start] == b);
        if !(48 <= b && b <= 57) {
            assert(!is_digit(digits[i - start]));
            return None;
        }
        let d: u64 = (b - 48) as u64;
        proof {
            assert(digits.take(i - start + 1).drop_last() =~= digits.take(i - start));
            assert(digits.take(i - start + 1).last() == b);
            assert(digits_value(digits.take(i - start + 1)) == value * 10 + d);
            lemma_digits_value_grows(digits, i - start + 1);
        }
        if value > (u64::MAX - d) / 10 {
            return None;
        }
        value = value * 10 + d;
        i += 1;
    }
    assert(digits.take(i - start) =~= digits);
    Some(value)
}

/// Reads the length that a request declares.
pub fn read_declared_length(headers: &Vec<Header>) -> (r: Option<u64>)
    ensures
        r == declared_length(header_views(headers@)),
{
    match find_header(headers, "content-length".as_bytes()) {
        Some(value) => read_decimal(value.as_slice()),
        None => None,
    }
}

} // verus!
