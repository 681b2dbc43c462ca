//! The byte classes of the HTTP/1.x grammar and of percent-encoding.

use vstd::prelude::*;

verus! {

/// The separator characters `"(),/:;<=>?@[\]{}`, which no token may hold.
pub open spec fn is_separator(b: u8) -> bool {
    ||| b == 0x22  // "
    ||| b == 0x28  // (
    ||| b == 0x29  // )
    ||| b == 0x2c  // ,
    ||| b == 0x2f  // /
    ||| 0x3a <= b <= 0x40  // : ; < = > ? @
    ||| 0x5b <= b <= 0x5d  // [ \ ]
    ||| b == 0x7b  // {
    ||| b == 0x7d  // }
}

/// A token character: visible US-ASCII that is no separator.
pub open spec fn is_token_byte(b: u8) -> bool {
    0x21 <= b <= 0x7e && !is_separator(b)
}

/// A token: one or more token characters.
pub open spec fn is_token(s: Seq<u8>) -> bool {
    s.len() > 0 && forall|i: int| 0 <= i < s.len() ==> is_token_byte(#[trigger] s[i])
}

/// A character of a protocol version: a token character or `/`.
pub open spec fn is_version_byte(b: u8) -> bool {
    is_token_byte(b) || b == 0x2f
}

/// A protocol version: one or more version characters.
pub open spec fn is_version(s: Seq<u8>) -> bool {
    s.len() > 0 && forall|i: int| 0 <= i < s.len() ==> is_version_byte(#[trigger] s[i])
}

/// A character of a header value: horizontal tab, space or visible US-ASCII.
pub open spec fn is_field_byte(b: u8) -> bool {
    b == 0x09 || 0x20 <= b <= 0x7e
}

/// A header value: any number of field characters.
pub open spec fn is_field_value(s: Seq<u8>) -> bool {
    forall|i: int| 0 <= i < s.len() ==> is_field_byte(#[trigger] s[i])
}

/// An unreserved URI character: a letter, a digit or one of `-._~`.
pub open spec fn is_unreserved(b: u8) -> bool {
    ||| 0x41 <= b <= 0x5a  // A-Z
    ||| 0x61 <= b <= 0x7a  // a-z
    ||| 0x30 <= b <= 0x39  // 0-9
    ||| b == 0x2d  // -
    ||| b == 0x2e  // .
    ||| b == 0x5f  // _
    ||| b == 0x7e  // ~
}

/// A delimiter of paths and queries that is written as it is: one of
/// `/ ? & = : ; , @`.
pub open spec fn is_uri_delimiter(b: u8) -> bool {
    ||| b == 0x2f  // /
    ||| b == 0x3f  // ?
    ||| b == 0x26  // &
    ||| b == 0x3d  // =
    ||| b == 0x3a  // :
    ||| b == 0x3b  // ;
    ||| b == 0x2c  // ,
    ||| b == 0x40  // @
}

/// Whether percent-encoding leaves the byte as it is.
pub open spec fn is_uri_plain(b: u8) -> bool {
    is_unreserved(b) || is_uri_delimiter(b)
}

pub(crate) fn token_byte(b: u8) -> (r: bool)
    ensures
        r == is_token_byte(b),
{
    match b {
        0x22 | 0x28 | 0x29 | 0x2c | 0x2f | 0x7b | 0x7d => false,
        0x3a..=0x40 | 0x5b..=0x5d => false,
        0x21..=0x7e => true,
        _ => false,
    }
}

pub(crate) fn uri_plain(b: u8) -> (r: bool)
    ensures
        r == is_uri_plain(b),
{
    match b {
        0x41..=0x5a | 0x61..=0x7a | 0x30..=0x39 => true,
        0x2d | 0x2e | 0x5f | 0x7e => true,
        0x2f | 0x3f | 0x26 | 0x3d | 0x3a | 0x3b | 0x2c | 0x40 => true,
        _ => false,
    }
}

/// Whether `bytes` is a legal header name: a token.
pub fn validate_header_name(bytes: &[u8]) -> (r: bool)
    ensures
        r == is_token(bytes@),
{
    if bytes.len() == 0 {
        return false;
    }
    let mut i: usize = 0;
    while i < bytes.len()
        invariant
            i <= bytes.len(),
            forall|j: int| 0 <= j < i ==> is_token_byte(#[trigger] bytes@[j]),
        decreases bytes.len() - i,
    {
        if !token_byte(bytes[i]) {
            return false;
        }
        i += 1;
    }
    true
}

/// Whether `bytes` is a legal protocol version.
pub fn validate_version(bytes: &[u8]) -> (r: bool)
    ensures
        r == is_version(bytes@),
{
    if bytes.len() == 0 {
        return false;
    }
    let mut i: usize = 0;
    while i < bytes.len()
        invariant
            i <= bytes.len(),
            forall|j: int| 0 <= j < i ==> is_version_byte(#[trigger] bytes@[j]),
        decreases bytes.len() - i,
    {
        if !token_byte(bytes[i]) && bytes[i] != 0x2f {
            return false;
        }
        i += 1;
    }
    true
}

/// Whether `bytes` is a legal header value: horizontal tabs, spaces and
/// visible US-ASCII only. The empty value is legal.
pub fn validate_header_field(bytes: &[u8]) -> (r: bool)
    ensures
        r == is_field_value(bytes@),
{
    let mut i: usize = 0;
    while i < bytes.len()
        invariant
            i <= bytes.len(),
            forall|j: int| 0 <= j < i ==> is_field_byte(#[trigger] bytes@[j]),
        decreases bytes.len() - i,
    {
        let b: u8 = bytes[i];
        if !(b == 0x09 || (0x20 <= b && b <= 0x7e)) {
            return false;
        }
        i += 1;
    }
    true
}

} // verus!
