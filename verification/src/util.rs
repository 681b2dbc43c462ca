//! The writers of tokens and of start lines.

use vstd::prelude::*;
use vstd::string::StringSliceAdditionalSpecFns;
use crate::encode::{
    chain, crlf, decimal, escape, escape_byte, escape_within, fits, hex_upper,
    lemma_appended_nothing, lemma_chain, method_outcome, request_line, request_line_outcome, sp,
    status_line, status_line_outcome, status_outcome, uri_outcome, uri_text, valid_method,
    valid_uri, valid_version, version_outcome, wrote,
};
use crate::laws::{law_request_line, law_status_line, lemma_escape_within_whole};
use crate::grammar::{uri_plain, validate_version};
use crate::sink::{Sink, appended, put_slice, remaining_mut, room, sink_bytes};
use crate::types::{Error, Method, Status, Uri, Version};

pub use crate::grammar::{validate_header_field, validate_header_name};

verus! {

/// The canonical reason phrase of a status code, empty for a code that has
/// none.
pub open spec fn reason_phrase(code: u16) -> Seq<char> {
    match code {
        100 => "Continue"@,
        101 => "Switching Protocols"@,
        102 => "Processing"@,
        103 => "Early Hints"@,
        200 => "OK"@,
        201 => "Created"@,
        202 => "Accepted"@,
        203 => "Non-Authoritative Information"@,
        204 => "No Content"@,
        205 => "Reset Content"@,
        206 => "Partial Content"@,
        207 => "Multi-Status"@,
        208 => "Already Reported"@,
        226 => "IM Used"@,
        300 => "Multiple Choices"@,
        301 => "Moved Permanently"@,
        302 => "Found"@,
        303 => "See Other"@,
        304 => "Not Modified"@,
        305 => "Use Proxy"@,
        307 => "Temporary Redirect"@,
        308 => "Permanent Redirect"@,
        400 => "Bad Request"@,
        401 => "Unauthorized"@,
        402 => "Payment Required"@,
        403 => "Forbidden"@,
        404 => "Not Found"@,
        405 => "Method Not Allowed"@,
        406 => "Not Acceptable"@,
        407 => "Proxy Authentication Required"@,
        408 => "Request Timeout"@,
        409 => "Conflict"@,
        410 => "Gone"@,
        411 => "Length Required"@,
        412 => "Precondition Failed"@,
        413 => "Request Entity Too Large"@,
        414 => "Request-URI Too Large"@,
        415 => "Unsupported Media Type"@,
        416 => "Requested Range Not Satisfiable"@,
        417 => "Expectation Failed"@,
        418 => "I'm a teapot"@,
        421 => "Misdirected Request"@,
        422 => "Unprocessable Entity"@,
        423 => "Locked"@,
        424 => "Failed Dependency"@,
        425 => "Too Early"@,
        426 => "Upgrade Required"@,
        428 => "Precondition Required"@,
        429 => "Too Many Requests"@,
        451 => "Unavailable For Legal Reasons"@,
        500 => "Internal Server Error"@,
        501 => "Not Implemented"@,
        502 => "Bad Gateway"@,
        503 => "Service Unavailable"@,
        504 => "Gateway Timeout"@,
        505 => "HTTP Version Not Supported"@,
        506 => "Variant Also Negotiates"@,
        507 => "Insufficient Storage"@,
        508 => "Loop Detected"@,
        _ => ""@,
    }
}

/// The canonical reason phrase of a status code as bytes on the wire.
pub open spec fn reason_bytes(code: u16) -> Seq<u8> {
    vstd::utf8::encode_utf8(reason_phrase(code))
}

/// Look up the canonical reason phrase of `status`. A code without one
/// gets the empty phrase.
pub fn lookup_status_line(status: Status) -> (r: &'static str)
    ensures
        r@ == reason_phrase(status@),
        r.spec_bytes() == reason_bytes(status@),
{
    let code: u16 = status.code();
    match code {
        100 => "Continue",
        101 => "Switching Protocols",
        102 => "Processing",
        103 => "Early Hints",
        200 => "OK",
        201 => "Created",
        202 => "Accepted",
        203 => "Non-Authoritative Information",
        204 => "No Content",
        205 => "Reset Content",
        206 => "Partial Content",
        207 => "Multi-Status",
        208 => "Already Reported",
        226 => "IM Used",
        300 => "Multiple Choices",
        301 => "Moved Permanently",
        302 => "Found",
        303 => "See Other",
        304 => "Not Modified",
        305 => "Use Proxy",
        307 => "Temporary Redirect",
        308 => "Permanent Redirect",
        400 => "Bad Request",
        401 => "Unauthorized",
        402 => "Payment Required",
        403 => "Forbidden",
        404 => "Not Found",
        405 => "Method Not Allowed",
        406 => "Not Acceptable",
        407 => "Proxy Authentication Required",
        408 => "Request Timeout",
        409 => "Conflict",
        410 => "Gone",
        411 => "Length Required",
        412 => "Precondition Failed",
        413 => "Request Entity Too Large",
        414 => "Request-URI Too Large",
        415 => "Unsupported Media Type",
        416 => "Requested Range Not Satisfiable",
        417 => "Expectation Failed",
        418 => "I'm a teapot",
        421 => "Misdirected Request",
        422 => "Unprocessable Entity",
        423 => "Locked",
        424 => "Failed Dependency",
        425 => "Too Early",
        426 => "Upgrade Required",
        428 => "Precondition Required",
        429 => "Too Many Requests",
        451 => "Unavailable For Legal Reasons",
        500 => "Internal Server Error",
        501 => "Not Implemented",
        502 => "Bad Gateway",
        503 => "Service Unavailable",
        504 => "Gateway Timeout",
        505 => "HTTP Version Not Supported",
        506 => "Variant Also Negotiates",
        507 => "Insufficient Storage",
        508 => "Loop Detected",
        _ => "",
    }
}

pub(crate) proof fn lemma_separators()
    ensures
        " ".spec_bytes() == sp(),
        "\r\n".spec_bytes() == crlf(),
        ": ".spec_bytes() == crate::encode::colon_sp(),
{
    broadcast use vstd::string::is_ascii_spec_bytes;
    reveal_strlit(" ");
    reveal_strlit("\r\n");
    reveal_strlit(": ");
    assert(" ".is_ascii());
    assert("\r\n".is_ascii());
    assert(": ".is_ascii());
    assert(" ".spec_bytes() =~= sp());
    assert("\r\n".spec_bytes() =~= crlf());
    assert(": ".spec_bytes() =~= crate::encode::colon_sp());
}

/// Append `data` if it fits, and nothing if it does not.
pub(crate) fn put_checked(buf: &mut Sink, data: &[u8]) -> (r: Result<(), Error>)
    ensures
        wrote(*old(buf), *final(buf), r, fits(data@, room(*old(buf)))),
        r is Err ==> *final(buf) == *old(buf),
{
    if remaining_mut(buf) < data.len() {
        proof {
            lemma_appended_nothing(*buf);
        }
        return Err(Error::OutOfBuffer);
    }
    put_slice(buf, data);
    Ok(())
}

/// Write the method's name. Nothing is written on failure.
pub fn write_method(buf: &mut Sink, method: Method) -> (r: Result<(), Error>)
    ensures
        wrote(*old(buf), *final(buf), r, method_outcome(method, room(*old(buf)))),
        r is Ok <==> valid_method(method) && method.text().len() <= room(*old(buf)),
        r is Ok ==> sink_bytes(*final(buf)) == sink_bytes(*old(buf)) + method.text(),
        r is Err ==> *final(buf) == *old(buf),
{
    let text: &[u8] = match method {
        Method::Options => "OPTIONS".as_bytes(),
        Method::Get => "GET".as_bytes(),
        Method::Head => "HEAD".as_bytes(),
        Method::Post => "POST".as_bytes(),
        Method::Put => "PUT".as_bytes(),
        Method::Patch => "PATCH".as_bytes(),
        Method::Delete => "DELETE".as_bytes(),
        Method::Trace => "TRACE".as_bytes(),
        Method::Connect => "CONNECT".as_bytes(),
        Method::Custom(s) => {
            let bytes = s.as_bytes();
            if !validate_header_name(bytes) {
                proof {
                    lemma_appended_nothing(*buf);
                }
                return Err(Error::InvalidMethod);
            }
            bytes
        },
    };
    put_checked(buf, text)
}

/// Write the version's name. Nothing is written on failure.
pub fn write_version(buf: &mut Sink, version: Version) -> (r: Result<(), Error>)
    ensures
        wrote(*old(buf), *final(buf), r, version_outcome(version, room(*old(buf)))),
        r is Ok <==> valid_version(version) && version.text().len() <= room(*old(buf)),
        r is Ok ==> sink_bytes(*final(buf)) == sink_bytes(*old(buf)) + version.text(),
        r is Err ==> *final(buf) == *old(buf),
{
    let text: &[u8] = match version {
        Version::Http10 => "HTTP/1.0".as_bytes(),
        Version::Http11 => "HTTP/1.1".as_bytes(),
        Version::Custom(s) => {
            let bytes = s.as_bytes();
            if !validate_version(bytes) {
                proof {
                    lemma_appended_nothing(*buf);
                }
                return Err(Error::InvalidVersion);
            }
            bytes
        },
    };
    put_checked(buf, text)
}

/// Write the status code in decimal, one to three digits. Nothing is
/// written on failure.
pub fn write_status(buf: &mut Sink, status: Status) -> (r: Result<(), Error>)
    ensures
        wrote(*old(buf), *final(buf), r, status_outcome(status@ as nat, room(*old(buf)))),
        r is Ok <==> decimal(status@ as nat).len() <= room(*old(buf)),
        r is Ok ==> sink_bytes(*final(buf)) == sink_bytes(*old(buf)) + decimal(status@ as nat),
        r is Err ==> *final(buf) == *old(buf),
{
    let code: u16 = status.code();
    let ones: u8 = 0x30 + (code % 10) as u8;
    let tens: u8 = 0x30 + (code / 10 % 10) as u8;
    let hundreds: u8 = 0x30 + (code / 100) as u8;
    proof {
        reveal_with_fuel(decimal, 3);
    }
    if code < 10 {
        let digits: [u8; 1] = [ones];
        assert(digits@ =~= decimal(code as nat));
        put_checked(buf, digits.as_slice())
    } else if code < 100 {
        let digits: [u8; 2] = [tens, ones];
        assert(digits@ =~= decimal(code as nat));
        put_checked(buf, digits.as_slice())
    } else {
        let digits: [u8; 3] = [hundreds, tens, ones];
        assert(digits@ =~= decimal(code as nat));
        put_checked(buf, digits.as_slice())
    }
}

fn hex_digit(n: u8) -> (r: u8)
    requires
        n < 16,
    ensures
        r == hex_upper(n as int),
{
    if n < 10 {
        0x30 + n
    } else {
        0x41 + (n - 10)
    }
}

/// Write the resource identifier. An escaped one is written whole or not
/// at all. An unescaped one must not be empty and is percent-encoded byte
/// by byte; when the sink runs out, what was encoded so far stays in it.
pub fn write_uri(buf: &mut Sink, uri: Uri) -> (r: Result<(), Error>)
    ensures
        wrote(*old(buf), *final(buf), r, uri_outcome(uri, room(*old(buf)))),
        r is Ok <==> valid_uri(uri) && uri_text(uri).len() <= room(*old(buf)),
        r is Ok ==> sink_bytes(*final(buf)) == sink_bytes(*old(buf)) + uri_text(uri),
{
    proof {
        if !uri.is_escaped() && escape(uri.bytes()).len() <= room(*buf) {
            lemma_escape_within_whole(uri.bytes(), room(*buf));
        }
    }
    let bytes = uri.as_bytes();
    if uri.escaped() {
        return put_checked(buf, bytes);
    }
    if bytes.len() == 0 {
        proof {
            lemma_appended_nothing(*buf);
        }
        return Err(Error::InvalidUri);
    }
    let ghost before = *buf;
    let ghost all = bytes@;
    let ghost done: Seq<u8> = Seq::empty();
    proof {
        lemma_appended_nothing(before);
        assert(all.skip(0) =~= all);
    }
    let mut i: usize = 0;
    while i < bytes.len()
        invariant
            i <= bytes.len(),
            all == bytes@,
            all == uri.bytes(),
            all.len() > 0,
            !uri.is_escaped(),
            before == *old(buf),
            appended(before, *buf, done),
            i > 0 ==> done.len() <= room(before),
            escape(all) == done + escape(all.skip(i as int)),
            escape_within(all, room(before)) == done + escape_within(
                all.skip(i as int),
                room(before) - done.len(),
            ),
        decreases bytes.len() - i,
    {
        let b: u8 = bytes[i];
        let ghost rest = all.skip(i as int);
        let ghost enc = escape_byte(b);
        proof {
            assert(rest[0] == b);
            assert(rest.skip(1) =~= all.skip(i + 1));
            assert(done + (enc + escape(rest.skip(1))) =~= (done + enc) + escape(rest.skip(1)));
            assert(done + (enc + escape_within(rest.skip(1), room(before) - done.len() - enc.len()))
                =~= (done + enc) + escape_within(
                rest.skip(1),
                room(before) - done.len() - enc.len(),
            ));
            assert(sink_bytes(before) + (done + enc) =~= sink_bytes(before) + done + enc);
        }
        let left: usize = remaining_mut(buf);
        if uri_plain(b) {
            if left < 1 {
                proof {
                    assert(done + Seq::<u8>::empty() =~= done);
                }
                return Err(Error::OutOfBuffer);
            }
            let plain: [u8; 1] = [b];
            assert(plain@ =~= enc);
            put_slice(buf, plain.as_slice());
        } else {
            if left < 3 {
                proof {
                    assert(done + Seq::<u8>::empty() =~= done);
                }
                return Err(Error::OutOfBuffer);
            }
            let triple: [u8; 3] = [0x25, hex_digit(b / 16), hex_digit(b % 16)];
            assert(triple@ =~= enc);
            put_slice(buf, triple.as_slice());
        }
        proof {
            done = done + enc;
        }
        i += 1;
    }
    proof {
        assert(all.skip(i as int).len() == 0);
        assert(done + Seq::<u8>::empty() =~= done);
    }
    Ok(())
}

/// Write the request line `METHOD SP URI SP VERSION CRLF`, part by part.
/// On failure the parts written before the one that failed stay in the
/// sink.
pub fn write_request_line(buf: &mut Sink, method: Method, uri: Uri, version: Version) -> (r: Result<
    (),
    Error,
>)
    ensures
        wrote(
            *old(buf),
            *final(buf),
            r,
            request_line_outcome(method, uri, version, room(*old(buf))),
        ),
        r is Ok <==> valid_method(method) && valid_uri(uri) && valid_version(version)
            && request_line(method, uri, version).len() <= room(*old(buf)),
        r is Ok ==> sink_bytes(*final(buf)) == sink_bytes(*old(buf)) + request_line(
            method,
            uri,
            version,
        ),
{
    let ghost s0 = *buf;
    let ghost room0 = room(s0);
    proof {
        lemma_separators();
        law_request_line(method, uri, version, room0);
    }
    let ghost a = method_outcome(method, room0);
    let r1 = write_method(buf, method);
    if r1.is_err() {
        return r1;
    }
    let ghost s1 = *buf;
    let r2 = put_checked(buf, " ".as_bytes());
    let ghost b = chain(a, fits(sp(), room0 - a.written.len()));
    proof {
        lemma_chain(s0, s1, *buf, a, r2, fits(sp(), room(s1)));
    }
    if r2.is_err() {
        return r2;
    }
    let ghost s2 = *buf;
    let r3 = write_uri(buf, uri);
    let ghost c = chain(b, uri_outcome(uri, room0 - b.written.len()));
    proof {
        lemma_chain(s0, s2, *buf, b, r3, uri_outcome(uri, room(s2)));
    }
    if r3.is_err() {
        return r3;
    }
    let ghost s3 = *buf;
    let r4 = put_checked(buf, " ".as_bytes());
    let ghost d = chain(c, fits(sp(), room0 - c.written.len()));
    proof {
        lemma_chain(s0, s3, *buf, c, r4, fits(sp(), room(s3)));
    }
    if r4.is_err() {
        return r4;
    }
    let ghost s4 = *buf;
    let r5 = write_version(buf, version);
    let ghost e = chain(d, version_outcome(version, room0 - d.written.len()));
    proof {
        lemma_chain(s0, s4, *buf, d, r5, version_outcome(version, room(s4)));
    }
    if r5.is_err() {
        return r5;
    }
    let ghost s5 = *buf;
    let r6 = put_checked(buf, "\r\n".as_bytes());
    proof {
        lemma_chain(s0, s5, *buf, e, r6, fits(crlf(), room(s5)));
    }
    r6
}

/// Write the status line `VERSION SP CODE SP REASON CRLF`, part by part.
/// On failure the parts written before the one that failed stay in the
/// sink.
pub fn write_status_line(buf: &mut Sink, version: Version, status: Status, reason: &str) -> (r:
    Result<(), Error>)
    ensures
        wrote(
            *old(buf),
            *final(buf),
            r,
            status_line_outcome(version, status@ as nat, reason.spec_bytes(), room(*old(buf))),
        ),
        r is Ok <==> valid_version(version) && status_line(
            version,
            status@ as nat,
            reason.spec_bytes(),
        ).len() <= room(*old(buf)),
        r is Ok ==> sink_bytes(*final(buf)) == sink_bytes(*old(buf)) + status_line(
            version,
            status@ as nat,
            reason.spec_bytes(),
        ),
{
    let ghost s0 = *buf;
    let ghost room0 = room(s0);
    proof {
        lemma_separators();
        law_status_line(version, status@ as nat, reason.spec_bytes(), room0);
    }
    let ghost a = version_outcome(version, room0);
    let r1 = write_version(buf, version);
    if r1.is_err() {
        return r1;
    }
    let ghost s1 = *buf;
    let r2 = put_checked(buf, " ".as_bytes());
    let ghost b = chain(a, fits(sp(), room0 - a.written.len()));
    proof {
        lemma_chain(s0, s1, *buf, a, r2, fits(sp(), room(s1)));
    }
    if r2.is_err() {
        return r2;
    }
    let ghost s2 = *buf;
    let r3 = write_status(buf, status);
    let ghost c = chain(b, status_outcome(status@ as nat, room0 - b.written.len()));
    proof {
        lemma_chain(s0, s2, *buf, b, r3, status_outcome(status@ as nat, room(s2)));
    }
    if r3.is_err() {
        return r3;
    }
    let ghost s3 = *buf;
    let r4 = put_checked(buf, " ".as_bytes());
    let ghost d = chain(c, fits(sp(), room0 - c.written.len()));
    proof {
        lemma_chain(s0, s3, *buf, c, r4, fits(sp(), room(s3)));
    }
    if r4.is_err() {
        return r4;
    }
    let ghost s4 = *buf;
    let r5 = put_checked(buf, reason.as_bytes());
    let ghost e = chain(d, fits(reason.spec_bytes(), room0 - d.written.len()));
    proof {
        lemma_chain(s0, s4, *buf, d, r5, fits(reason.spec_bytes(), room(s4)));
    }
    if r5.is_err() {
        return r5;
    }
    let ghost s5 = *buf;
    let r6 = put_checked(buf, "\r\n".as_bytes());
    proof {
        lemma_chain(s0, s5, *buf, e, r6, fits(crlf(), room(s5)));
    }
    r6
}

} // verus!
