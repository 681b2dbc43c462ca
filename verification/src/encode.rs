//! What the writers put into a sink, stated as functions on byte sequences.

use vstd::prelude::*;
use vstd::string::StringSliceAdditionalSpecFns;
use crate::grammar::{is_token, is_uri_plain, is_version};
use crate::sink::{Sink, appended, sink_bytes};
use crate::types::{Error, Method, Uri, Version};

verus! {

/// A single space.
pub open spec fn sp() -> Seq<u8> {
    seq![0x20u8]
}

/// Carriage return and line feed.
pub open spec fn crlf() -> Seq<u8> {
    seq![0x0du8, 0x0au8]
}

/// The colon and space between a header's name and its value.
pub open spec fn colon_sp() -> Seq<u8> {
    seq![0x3au8, 0x20u8]
}

/// The upper-case hexadecimal digit for `n`, which is below 16.
pub open spec fn hex_upper(n: int) -> u8 {
    if n < 10 {
        (0x30 + n) as u8
    } else {
        (0x41 + n - 10) as u8
    }
}

/// The percent-encoding of one byte: the byte itself where it is plain,
/// `%` and two upper-case hexadecimal digits otherwise.
pub open spec fn escape_byte(b: u8) -> Seq<u8> {
    if is_uri_plain(b) {
        seq![b]
    } else {
        seq![0x25u8, hex_upper(b as int / 16), hex_upper(b as int % 16)]
    }
}

/// The percent-encoding of a byte sequence.
pub open spec fn escape(s: Seq<u8>) -> Seq<u8>
    decreases s.len(),
{
    if s.len() == 0 {
        Seq::empty()
    } else {
        escape_byte(s[0]) + escape(s.skip(1))
    }
}

/// The percent-encoding of the longest prefix of `s` whose encoding is no
/// longer than `room`.
pub open spec fn escape_within(s: Seq<u8>, room: int) -> Seq<u8>
    decreases s.len(),
{
    if s.len() == 0 || escape_byte(s[0]).len() > room {
        Seq::empty()
    } else {
        escape_byte(s[0]) + escape_within(s.skip(1), room - escape_byte(s[0]).len())
    }
}

/// The decimal digits of `n`, without leading zeros.
pub open spec fn decimal(n: nat) -> Seq<u8>
    decreases n,
{
    if n < 10 {
        seq![(0x30 + n) as u8]
    } else {
        decimal(n / 10).push((0x30 + n % 10) as u8)
    }
}

/// Whether the method can be written: a custom method must be a token.
pub open spec fn valid_method(m: Method) -> bool {
    match m {
        Method::Custom(s) => is_token(s.spec_bytes()),
        _ => true,
    }
}

/// Whether the version can be written: a custom version must be made of
/// token characters and `/`.
pub open spec fn valid_version(v: Version) -> bool {
    match v {
        Version::Custom(s) => is_version(s.spec_bytes()),
        _ => true,
    }
}

/// Whether the identifier can be written: an unescaped one must not be
/// empty.
pub open spec fn valid_uri(u: Uri) -> bool {
    u.is_escaped() || u.bytes().len() > 0
}

/// What one write does: the bytes that it appends, and the error that it
/// returns, if any. A write that fails may still have appended bytes.
pub struct Outcome {
    pub written: Seq<u8>,
    pub error: Option<Error>,
}

/// A write that appends nothing and fails with `e`.
pub open spec fn refused(e: Error) -> Outcome {
    Outcome { written: Seq::empty(), error: Some(e) }
}

/// An all-or-nothing write of `data` into `room` bytes.
pub open spec fn fits(data: Seq<u8>, room: int) -> Outcome {
    if data.len() <= room {
        Outcome { written: data, error: None }
    } else {
        refused(Error::OutOfBuffer)
    }
}

/// `first`, followed by `second` unless `first` failed. `second` is the
/// outcome of the later write in the room that `first` left.
pub open spec fn chain(first: Outcome, second: Outcome) -> Outcome {
    if first.error is Some {
        first
    } else {
        Outcome { written: first.written + second.written, error: second.error }
    }
}

/// Writing a method into `room` bytes.
pub open spec fn method_outcome(m: Method, room: int) -> Outcome {
    if !valid_method(m) {
        refused(Error::InvalidMethod)
    } else {
        fits(m.text(), room)
    }
}

/// Writing a version into `room` bytes.
pub open spec fn version_outcome(v: Version, room: int) -> Outcome {
    if !valid_version(v) {
        refused(Error::InvalidVersion)
    } else {
        fits(v.text(), room)
    }
}

/// Writing a status code into `room` bytes.
pub open spec fn status_outcome(code: nat, room: int) -> Outcome {
    fits(decimal(code), room)
}

/// Writing a resource identifier into `room` bytes. An escaped one is
/// written whole or not at all; an unescaped one is encoded byte by byte
/// for as long as the encoding fits.
pub open spec fn uri_outcome(u: Uri, room: int) -> Outcome {
    if u.is_escaped() {
        fits(u.bytes(), room)
    } else if u.bytes().len() == 0 {
        refused(Error::InvalidUri)
    } else {
        Outcome {
            written: escape_within(u.bytes(), room),
            error: if escape(u.bytes()).len() <= room {
                None
            } else {
                Some(Error::OutOfBuffer)
            },
        }
    }
}

/// Writing a request line into `room` bytes, part by part: method, space,
/// identifier, space, version, line end.
pub open spec fn request_line_outcome(m: Method, u: Uri, v: Version, room: int) -> Outcome {
    let a = method_outcome(m, room);
    let b = chain(a, fits(sp(), room - a.written.len()));
    let c = chain(b, uri_outcome(u, room - b.written.len()));
    let d = chain(c, fits(sp(), room - c.written.len()));
    let e = chain(d, version_outcome(v, room - d.written.len()));
    chain(e, fits(crlf(), room - e.written.len()))
}

/// Writing a status line into `room` bytes, part by part: version, space,
/// code, space, reason phrase, line end.
pub open spec fn status_line_outcome(v: Version, code: nat, reason: Seq<u8>, room: int) -> Outcome {
    let a = version_outcome(v, room);
    let b = chain(a, fits(sp(), room - a.written.len()));
    let c = chain(b, status_outcome(code, room - b.written.len()));
    let d = chain(c, fits(sp(), room - c.written.len()));
    let e = chain(d, fits(reason, room - d.written.len()));
    chain(e, fits(crlf(), room - e.written.len()))
}

/// Writing one header into `room` bytes: all of `name: value` and a line
/// end, or nothing.
pub open spec fn header_outcome(name: Seq<u8>, value: Seq<u8>, room: int) -> Outcome {
    if !is_token(name) {
        refused(Error::InvalidHeaderKey)
    } else if !crate::grammar::is_field_value(value) {
        refused(Error::InvalidHeaderValue)
    } else {
        fits(header_line(name, value), room)
    }
}

/// A complete request line.
pub open spec fn request_line(m: Method, u: Uri, v: Version) -> Seq<u8> {
    m.text() + sp() + uri_text(u) + sp() + v.text() + crlf()
}

/// A complete status line.
pub open spec fn status_line(v: Version, code: nat, reason: Seq<u8>) -> Seq<u8> {
    v.text() + sp() + decimal(code) + sp() + reason + crlf()
}

/// A complete header line.
pub open spec fn header_line(name: Seq<u8>, value: Seq<u8>) -> Seq<u8> {
    name + colon_sp() + value + crlf()
}

/// The identifier as it stands on the wire.
pub open spec fn uri_text(u: Uri) -> Seq<u8> {
    if u.is_escaped() {
        u.bytes()
    } else {
        escape(u.bytes())
    }
}

/// The result that a writer returns for an outcome.
pub open spec fn result_of(o: Outcome) -> Result<(), Error> {
    match o.error {
        None => Ok(()),
        Some(e) => Err(e),
    }
}

/// The sink went from `before` to `after` by the outcome `o`, and `r`
/// reports it.
pub open spec fn wrote(before: Sink, after: Sink, r: Result<(), Error>, o: Outcome) -> bool {
    appended(before, after, o.written) && r == result_of(o)
}

/// Appending nothing leaves the sink's bytes and limit as they are.
pub proof fn lemma_appended_nothing(s: Sink)
    ensures
        appended(s, s, Seq::empty()),
{
    assert(sink_bytes(s) + Seq::<u8>::empty() =~= sink_bytes(s));
}

/// Two writes in a row are one write of both outcomes chained, and the
/// second write finds the room that the first left.
pub proof fn lemma_chain(s0: Sink, s1: Sink, s2: Sink, a: Outcome, r: Result<(), Error>, b: Outcome)
    requires
        appended(s0, s1, a.written),
        a.error is None,
        wrote(s1, s2, r, b),
    ensures
        wrote(s0, s2, r, chain(a, b)),
{
    assert(sink_bytes(s0) + (a.written + b.written) =~= sink_bytes(s0) + a.written + b.written);
}

} // verus!
