use bytes::buf::Limit;
use bytes::{BufMut, Bytes};
use httpencode::{Error, HttpBuilder, Method, OutOfBufferError, Status, Uri, Version};

fn growable() -> Limit<Vec<u8>> {
    Vec::new().limit(usize::MAX)
}

fn bounded(capacity: usize) -> Limit<Vec<u8>> {
    Vec::new().limit(capacity)
}

#[test]
fn get_request_with_two_headers() {
    let mut out = growable();
    let mut req = HttpBuilder::request(&mut out, Method::Get, Uri::new(b"/"), Version::Http11)
        .unwrap();
    req.header(b"Host", b"example.com").unwrap();
    req.header(b"Cookie", b"session=60; user_id=1").unwrap();
    req.finish().unwrap();
    assert_eq!(
        out.get_ref().as_slice(),
        b"GET / HTTP/1.1\r\nHost: example.com\r\nCookie: session=60; user_id=1\r\n\r\n"
            .as_slice()
    );
}

#[test]
fn response_with_default_reason() {
    let mut out = growable();
    let mut rsp = HttpBuilder::response(&mut out, Version::Http11, Status::OK()).unwrap();
    rsp.header(b"Test", b"Blargh").unwrap();
    rsp.header(b"Server", b"Test-Server-Foo").unwrap();
    rsp.header(b"X", b"").unwrap();
    rsp.finish().unwrap();
    assert_eq!(
        out.get_ref().as_slice(),
        b"HTTP/1.1 200 OK\r\nTest: Blargh\r\nServer: Test-Server-Foo\r\nX: \r\n\r\n".as_slice()
    );
}

#[test]
fn refused_headers_leave_the_sink_unchanged() {
    let mut out = growable();
    let mut rsp = HttpBuilder::response(&mut out, Version::Http11, Status::OK()).unwrap();
    let room = rsp.remaining();
    assert_eq!(rsp.header(b"Invalid With Spaces", b"Foo").err(), Some(Error::InvalidHeaderKey));
    assert_eq!(rsp.remaining(), room);
    assert_eq!(rsp.header(b"X", b"Invalid With LWS\r\n\r\nTest").err(), Some(Error::InvalidHeaderValue));
    assert_eq!(rsp.remaining(), room);
    assert_eq!(rsp.header(b"X", b"bare\rreturn").err(), Some(Error::InvalidHeaderValue));
    assert_eq!(rsp.header(b"X", b"bare\nfeed").err(), Some(Error::InvalidHeaderValue));
    assert_eq!(rsp.header(b"X", b"line\r\nend").err(), Some(Error::InvalidHeaderValue));
    let sink = rsp.into_buf();
    assert_eq!(sink.get_ref().as_slice(), b"HTTP/1.1 200 OK\r\n");
}

#[test]
fn response_with_custom_reason() {
    let mut out = growable();
    let rsp =
        HttpBuilder::response_with_reason(&mut out, Version::Http10, Status::new(299), "Fine")
            .unwrap();
    rsp.finish().unwrap();
    assert_eq!(out.get_ref().as_slice(), b"HTTP/1.0 299 Fine\r\n\r\n");
}

#[test]
fn response_without_known_reason_has_an_empty_phrase() {
    let mut out = growable();
    let rsp = HttpBuilder::response(&mut out, Version::Http11, Status::new(299)).unwrap();
    rsp.finish().unwrap();
    assert_eq!(out.get_ref().as_slice(), b"HTTP/1.1 299 \r\n\r\n");
}

#[test]
fn request_fails_with_partial_line() {
    let mut out = bounded(8);
    let r = HttpBuilder::request(&mut out, Method::Get, Uri::new(b"/"), Version::Http11);
    assert_eq!(r.err(), Some(Error::OutOfBuffer));
    assert_eq!(out.get_ref().as_slice(), b"GET / ");
}

#[test]
fn header_fits_exactly() {
    // "Host: example.com\r\n" takes 4 + 2 + 11 + 2 = 19 bytes.
    let mut out = bounded(19);
    let mut b = HttpBuilder::from_buf(&mut out);
    assert_eq!(b.remaining(), 19);
    assert!(b.header(b"Host", b"example.com").is_ok());
    assert_eq!(b.remaining(), 0);
    assert_eq!(out.get_ref().as_slice(), b"Host: example.com\r\n");
}

#[test]
fn header_one_byte_short_writes_nothing() {
    let mut out = bounded(4 + 18);
    out.put_slice(b"abcd");
    let mut b = HttpBuilder::from_buf(&mut out);
    assert_eq!(b.header(b"Host", b"example.com").err(), Some(Error::OutOfBuffer));
    assert_eq!(b.remaining(), 18);
    assert_eq!(out.get_ref().as_slice(), b"abcd");
}

#[test]
fn unchecked_header_is_written_as_given() {
    let mut out = bounded(8);
    let mut b = HttpBuilder::from_buf(&mut out);
    assert!(b.header_unchecked(b"a b", b"\n").is_ok());
    assert_eq!(b.header_unchecked(b"", b"").err(), Some(Error::OutOfBuffer));
    assert_eq!(out.get_ref().as_slice(), b"a b: \n\r\n");
}

#[test]
fn unchecked_header_bounds() {
    let mut out = bounded(7);
    let mut b = HttpBuilder::from_buf(&mut out);
    assert_eq!(b.header_unchecked(b"ab", b"cd").err(), Some(Error::OutOfBuffer));
    assert_eq!(b.remaining(), 7);
    assert!(b.header_unchecked(b"ab", b"c").is_ok());
    assert_eq!(b.remaining(), 0);
    assert_eq!(out.get_ref().as_slice(), b"ab: c\r\n");
}

#[test]
fn finish_needs_two_bytes() {
    let mut out = bounded(1);
    let b = HttpBuilder::from_buf(&mut out);
    assert_eq!(b.finish().err(), Some(Error::OutOfBuffer));
    assert!(out.get_ref().is_empty());

    let mut out = bounded(2);
    let b = HttpBuilder::from_buf(&mut out);
    assert!(b.finish().is_ok());
    assert_eq!(out.get_ref().as_slice(), b"\r\n");
}

#[test]
fn body_follows_the_blank_line() {
    let mut out = growable();
    let mut rsp = HttpBuilder::response(&mut out, Version::Http11, Status::OK()).unwrap();
    rsp.header(b"Content-Length", b"5").unwrap();
    let mut payload = Bytes::from_static(b"hello");
    rsp.body(&mut payload).unwrap();
    assert!(payload.is_empty());
    assert_eq!(
        out.get_ref().as_slice(),
        b"HTTP/1.1 200 OK\r\nContent-Length: 5\r\n\r\nhello".as_slice()
    );
}

#[test]
fn body_fits_exactly_or_not_at_all() {
    let mut out = bounded(7);
    let b = HttpBuilder::from_buf(&mut out);
    let mut payload = Bytes::from_static(b"hello");
    assert!(b.body(&mut payload).is_ok());
    assert!(payload.is_empty());
    assert_eq!(out.get_ref().as_slice(), b"\r\nhello");

    let mut out = bounded(6);
    let b = HttpBuilder::from_buf(&mut out);
    let mut payload = Bytes::from_static(b"hello");
    assert_eq!(b.body(&mut payload).err(), Some(Error::OutOfBuffer));
    assert_eq!(payload.as_ref(), b"hello");
    assert!(out.get_ref().is_empty());

    let mut out = bounded(1);
    let b = HttpBuilder::from_buf(&mut out);
    let mut payload = Bytes::new();
    assert_eq!(b.body(&mut payload).err(), Some(Error::OutOfBuffer));
    assert!(out.get_ref().is_empty());
}

#[test]
fn empty_body_is_only_the_blank_line() {
    let mut out = bounded(2);
    let b = HttpBuilder::from_buf(&mut out);
    let mut payload = Bytes::new();
    assert!(b.body(&mut payload).is_ok());
    assert_eq!(out.get_ref().as_slice(), b"\r\n");
}

#[test]
fn into_buf_gives_the_sink_back() {
    let mut out = growable();
    let req = HttpBuilder::request(&mut out, Method::Head, Uri::new(b"/x"), Version::Http10)
        .unwrap();
    let sink = req.into_buf();
    sink.put_slice(b"tail");
    assert_eq!(out.get_ref().as_slice(), b"HEAD /x HTTP/1.0\r\ntail");
}

#[test]
fn remaining_follows_the_writes() {
    let mut out = bounded(40);
    let mut rsp = HttpBuilder::response(&mut out, Version::Http11, Status::OK()).unwrap();
    assert_eq!(rsp.remaining(), 40 - 17);
    rsp.header(b"A", b"b").unwrap();
    assert_eq!(rsp.remaining(), 40 - 17 - 6);
}

#[test]
fn out_of_buffer_error_converts() {
    assert_eq!(Error::from(OutOfBufferError), Error::OutOfBuffer);
}

#[test]
fn request_builder_writes_through_to_the_sink() {
    let mut out = growable();
    let mut req = httpencode::RequestBuilder::new(
        &mut out,
        Method::Custom("PURGE"),
        Uri::new(b"/cache/a b"),
        Version::Http11,
    )
    .unwrap();
    req.header(b"Host", b"example.com").unwrap();
    assert_eq!(req.remaining(), (isize::MAX as usize) - 48);
    req.0.finish().unwrap();
    assert_eq!(
        out.get_ref().as_slice(),
        b"PURGE /cache/a%20b HTTP/1.1\r\nHost: example.com\r\n\r\n".as_slice()
    );
}

#[test]
fn request_builder_reports_an_invalid_method() {
    let mut out = growable();
    let r = httpencode::RequestBuilder::new(
        &mut out,
        Method::Custom(""),
        Uri::new(b"/"),
        Version::Http11,
    );
    assert_eq!(r.err(), Some(Error::InvalidMethod));
    assert!(out.get_ref().is_empty());
}

#[test]
fn response_builder_writes_through_to_the_sink() {
    let mut out = growable();
    let mut rsp =
        httpencode::ResponseBuilder::new(&mut out, Version::Http10, Status::NOT_FOUND()).unwrap();
    rsp.header(b"Content-Length", b"0").unwrap();
    rsp.0.finish().unwrap();
    assert_eq!(
        out.get_ref().as_slice(),
        b"HTTP/1.0 404 Not Found\r\nContent-Length: 0\r\n\r\n".as_slice()
    );
}

#[test]
fn response_builder_reports_out_of_buffer() {
    let mut out = bounded(16);
    let r = httpencode::ResponseBuilder::new(&mut out, Version::Http11, Status::OK());
    assert_eq!(r.err(), Some(Error::OutOfBuffer));
    assert_eq!(out.get_ref().as_slice(), b"HTTP/1.1 200 OK");
}

#[test]
fn headers_can_be_chained() {
    let mut out = growable();
    let mut req = HttpBuilder::request(&mut out, Method::Put, Uri::new(b"/x"), Version::Http11)
        .unwrap();
    req.header(b"A", b"1").unwrap().header(b"B", b"2").unwrap();
    req.finish().unwrap();
    assert_eq!(out.get_ref().as_slice(), b"PUT /x HTTP/1.1\r\nA: 1\r\nB: 2\r\n\r\n");
}

#[test]
fn header_name_with_space_is_refused_whatever_the_value() {
    for value in [b"".as_slice(), b"fine", b"bad\r\n"] {
        let mut out = bounded(3);
        let mut b = HttpBuilder::from_buf(&mut out);
        assert_eq!(b.header(b"a b", value).err(), Some(Error::InvalidHeaderKey));
        assert!(out.get_ref().is_empty());
    }
}
