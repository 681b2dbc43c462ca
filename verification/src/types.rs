//! The values that a start line is made of, and the errors of the encoder.

use vstd::prelude::*;
use vstd::string::StringSliceAdditionalSpecFns;

verus! {

/// HTTP method.
#[derive(Copy, Clone, Debug)]
pub enum Method<'a> {
    Options,
    Get,
    Head,
    Post,
    Put,
    Patch,
    Delete,
    Trace,
    Connect,
    Custom(&'a str),
}

/// HTTP version.
#[derive(Copy, Clone, Debug)]
pub enum Version<'a> {
    Http10,
    Http11,
    Custom(&'a str),
}

#[derive(Copy, Clone)]
pub(crate) enum UriData<'a> {
    Escaped(&'a [u8]),
    Unescaped(&'a [u8]),
}

/// HTTP resource identifier: bytes that are either percent-encoded when
/// written, or taken as already encoded and written as they are.
#[derive(Copy, Clone)]
pub struct Uri<'a> {
    pub(crate) data: UriData<'a>,
}

/// HTTP status code, always below 1000.
#[derive(Copy, Clone, Debug, Eq, Hash, PartialEq, Structural)]
pub struct Status {
    pub(crate) code: u16,
}

/// Why a write was refused.
#[derive(Copy, Clone, Debug, Eq, PartialEq, Hash, Structural)]
pub enum Error {
    /// Ran out of buffer space
    OutOfBuffer,
    /// A custom method contained invalid characters
    InvalidMethod,
    /// The URI contained invalid characters
    InvalidUri,
    /// A custom version contains invalid characters
    InvalidVersion,
    /// A header key contained invalid characters
    InvalidHeaderKey,
    /// A header value contained invalid characters
    InvalidHeaderValue,
}

/// Signals that a buffer had no room for a write.
#[derive(Copy, Clone, Debug, Eq, PartialEq, Hash, Structural)]
pub struct OutOfBufferError;

impl From<OutOfBufferError> for Error {
    fn from(e: OutOfBufferError) -> (r: Self) {
        Error::OutOfBuffer
    }
}

impl vstd::std_specs::convert::FromSpecImpl<OutOfBufferError> for Error {
    open spec fn obeys_from_spec() -> bool {
        true
    }

    open spec fn from_spec(e: OutOfBufferError) -> Self {
        Error::OutOfBuffer
    }
}

impl<'a> Method<'a> {
    /// The bytes that stand for the method on the wire.
    pub open spec fn text(&self) -> Seq<u8> {
        match *self {
            Method::Options => "OPTIONS".spec_bytes(),
            Method::Get => "GET".spec_bytes(),
            Method::Head => "HEAD".spec_bytes(),
            Method::Post => "POST".spec_bytes(),
            Method::Put => "PUT".spec_bytes(),
            Method::Patch => "PATCH".spec_bytes(),
            Method::Delete => "DELETE".spec_bytes(),
            Method::Trace => "TRACE".spec_bytes(),
            Method::Connect => "CONNECT".spec_bytes(),
            Method::Custom(s) => s.spec_bytes(),
        }
    }
}

impl<'a> Version<'a> {
    /// The bytes that stand for the version on the wire.
    pub open spec fn text(&self) -> Seq<u8> {
        match *self {
            Version::Http10 => "HTTP/1.0".spec_bytes(),
            Version::Http11 => "HTTP/1.1".spec_bytes(),
            Version::Custom(s) => s.spec_bytes(),
        }
    }
}

impl<'a> Uri<'a> {
    /// The identifier's bytes, as they were given.
    pub closed spec fn bytes(&self) -> Seq<u8> {
        match self.data {
            UriData::Escaped(s) => s@,
            UriData::Unescaped(s) => s@,
        }
    }

    /// Whether the bytes are taken as already percent-encoded.
    pub closed spec fn is_escaped(&self) -> bool {
        self.data is Escaped
    }

    /// An identifier that is percent-encoded when it is written.
    pub fn new(uri: &'a [u8]) -> (r: Self)
        ensures
            r.bytes() == uri@,
            !r.is_escaped(),
    {
        Self { data: UriData::Unescaped(uri) }
    }

    /// An identifier that is written as it is. Nothing checks that `uri` is
    /// a well-formed request target.
    pub fn escaped_unchecked(uri: &'a [u8]) -> (r: Self)
        ensures
            r.bytes() == uri@,
            r.is_escaped(),
    {
        Self { data: UriData::Escaped(uri) }
    }

    pub fn as_bytes(&self) -> (r: &'a [u8])
        ensures
            r@ == self.bytes(),
    {
        match self.data {
            UriData::Escaped(s) => s,
            UriData::Unescaped(s) => s,
        }
    }

    pub(crate) fn escaped(&self) -> (r: bool)
        ensures
            r == self.is_escaped(),
    {
        match self.data {
            UriData::Escaped(_) => true,
            UriData::Unescaped(_) => false,
        }
    }
}

impl View for Status {
    type V = u16;

    /// The status code.
    closed spec fn view(&self) -> u16 {
        self.code
    }
}

#[allow(non_snake_case)]
impl Status {
    #[verifier::type_invariant]
    spec fn in_range(self) -> bool {
        self.code < 1000
    }

    /// Create a new status from the provided status code, which must be
    /// below 1000.
    pub fn new(code: u16) -> (r: Self)
        requires
            code < 1000,
        ensures
            r@ == code,
    {
        Self { code }
    }

    /// The status code.
    pub fn code(&self) -> (r: u16)
        ensures
            r == self@,
            r < 1000,
    {
        proof {
            use_type_invariant(self);
        }
        self.code
    }

    /// 100 Continue
    pub fn CONTINUE() -> (r: Self)
        ensures
            r@ == 100,
    {
        Status { code: 100 }
    }

    /// 101 Switching Protocols
    pub fn SWITCHING_PROTOCOLS() -> (r: Self)
        ensures
            r@ == 101,
    {
        Status { code: 101 }
    }

    /// 102 Processing
    pub fn PROCESSING() -> (r: Self)
        ensures
            r@ == 102,
    {
        Status { code: 102 }
    }

    /// 103 Early Hints
    pub fn EARLY_HINTS() -> (r: Self)
        ensures
            r@ == 103,
    {
        Status { code: 103 }
    }

    /// 200 OK
    pub fn OK() -> (r: Self)
        ensures
            r@ == 200,
    {
        Status { code: 200 }
    }

    /// 201 Created
    pub fn CREATED() -> (r: Self)
        ensures
            r@ == 201,
    {
        Status { code: 201 }
    }

    /// 202 Accepted
    pub fn ACCEPTED() -> (r: Self)
        ensures
            r@ == 202,
    {
        Status { code: 202 }
    }

    /// 203 Non-Authoritative Information
    pub fn NON_AUTHORATATIVE_INFORMATION() -> (r: Self)
        ensures
            r@ == 203,
    {
        Status { code: 203 }
    }

    /// 204 No Content
    pub fn NO_CONTENT() -> (r: Self)
        ensures
            r@ == 204,
    {
        Status { code: 204 }
    }

    /// 205 Reset Content
    pub fn RESET_CONTENT() -> (r: Self)
        ensures
            r@ == 205,
    {
        Status { code: 205 }
    }

    /// 206 Partial Content
    pub fn PARTIAL_CONTENT() -> (r: Self)
        ensures
            r@ == 206,
    {
        Status { code: 206 }
    }

    /// 207 Multi-Status
    pub fn MULTI_STATUS() -> (r: Self)
        ensures
            r@ == 207,
    {
        Status { code: 207 }
    }

    /// 208 Already Reported
    pub fn ALREADY_REPORTED() -> (r: Self)
        ensures
            r@ == 208,
    {
        Status { code: 208 }
    }

    /// 226 IM Used
    pub fn IM_USED() -> (r: Self)
        ensures
            r@ == 226,
    {
        Status { code: 226 }
    }

    /// 300 Multiple Choices
    pub fn MULTIPLE_CHOICES() -> (r: Self)
        ensures
            r@ == 300,
    {
        Status { code: 300 }
    }

    /// 301 Moved Permanently
    pub fn MOVED_PERMANENTLY() -> (r: Self)
        ensures
            r@ == 301,
    {
        Status { code: 301 }
    }

    /// 302 Found
    pub fn FOUND() -> (r: Self)
        ensures
            r@ == 302,
    {
        Status { code: 302 }
    }

    /// 303 See Other
    pub fn SEE_OTHER() -> (r: Self)
        ensures
            r@ == 303,
    {
        Status { code: 303 }
    }

    /// 304 Not Modified
    pub fn NOT_MODIFIED() -> (r: Self)
        ensures
            r@ == 304,
    {
        Status { code: 304 }
    }

    /// 305 Use Proxy
    pub fn USE_PROXY() -> (r: Self)
        ensures
            r@ == 305,
    {
        Status { code: 305 }
    }

    /// 307 Temporary Redirect
    pub fn TEMPORARY_REDIRECT() -> (r: Self)
        ensures
            r@ == 307,
    {
        Status { code: 307 }
    }

    /// 308 Permanent Redirect
    pub fn PERMANENT_REDIRECT() -> (r: Self)
        ensures
            r@ == 308,
    {
        Status { code: 308 }
    }

    /// 400 Bad Request
    pub fn BAD_REQUEST() -> (r: Self)
        ensures
            r@ == 400,
    {
        Status { code: 400 }
    }

    /// 401 Unauthorized
    pub fn UNAUTHORIZED() -> (r: Self)
        ensures
            r@ == 401,
    {
        Status { code: 401 }
    }

    /// 402 Payment Required
    pub fn PAYMENT_REQUIRED() -> (r: Self)
        ensures
            r@ == 402,
    {
        Status { code: 402 }
    }

    /// 403 Forbidden
    pub fn FORBIDDEN() -> (r: Self)
        ensures
            r@ == 403,
    {
        Status { code: 403 }
    }

    /// 404 Not Found
    pub fn NOT_FOUND() -> (r: Self)
        ensures
            r@ == 404,
    {
        Status { code: 404 }
    }

    /// 405 Method Not Allowed
    pub fn METHOD_NOT_ALLOWED() -> (r: Self)
        ensures
            r@ == 405,
    {
        Status { code: 405 }
    }

    /// 406 Not Acceptable
    pub fn NOT_ACCEPTABLE() -> (r: Self)
        ensures
            r@ == 406,
    {
        Status { code: 406 }
    }

    /// 407 Proxy Authentication Required
    pub fn PROXY_AUTHENTICATION_TIMEOUT() -> (r: Self)
        ensures
            r@ == 407,
    {
        Status { code: 407 }
    }

    /// 408 Request Timeout
    pub fn REQUEST_TIMEOUT() -> (r: Self)
        ensures
            r@ == 408,
    {
        Status { code: 408 }
    }

    /// 409 Conflict
    pub fn CONFLICT() -> (r: Self)
        ensures
            r@ == 409,
    {
        Status { code: 409 }
    }

    /// 410 Gone
    pub fn GONE() -> (r: Self)
        ensures
            r@ == 410,
    {
        Status { code: 410 }
    }

    /// 411 Length Required
    pub fn LENGTH_REQUIRED() -> (r: Self)
        ensures
            r@ == 411,
    {
        Status { code: 411 }
    }

    /// 412 Precondition Failed
    pub fn PRECONDITION_FAILED() -> (r: Self)
        ensures
            r@ == 412,
    {
        Status { code: 412 }
    }

    /// 413 Request Entity Too Large
    pub fn REQUEST_ENTITY_TOO_LARGE() -> (r: Self)
        ensures
            r@ == 413,
    {
        Status { code: 413 }
    }

    /// 414 Request-URI Too Large
    pub fn REQUEST_URI_TOO_LARGE() -> (r: Self)
        ensures
            r@ == 414,
    {
        Status { code: 414 }
    }

    /// 415 Unsupported Media Type
    pub fn UNSUPPORTED_MEDIA_TYPE() -> (r: Self)
        ensures
            r@ == 415,
    {
        Status { code: 415 }
    }

    /// 416 Requested Range Not Satisfiable
    pub fn REQUESTED_RANGE_NOT_SATISFIABLE() -> (r: Self)
        ensures
            r@ == 416,
    {
        Status { code: 416 }
    }

    /// 417 Expectation Failed
    pub fn EXPECTATION_FAILED() -> (r: Self)
        ensures
            r@ == 417,
    {
        Status { code: 417 }
    }

    /// 418 I'm a teapot
    pub fn IM_A_TEAPOT() -> (r: Self)
        ensures
            r@ == 418,
    {
        Status { code: 418 }
    }

    /// 421 Misdirected Request
    pub fn MISDIRECTED_REQUEST() -> (r: Self)
        ensures
            r@ == 421,
    {
        Status { code: 421 }
    }

    /// 422 Unprocessable Entity
    pub fn UNPROCESSABLE_ENTITY() -> (r: Self)
        ensures
            r@ == 422,
    {
        Status { code: 422 }
    }

    /// 423 Locked
    pub fn LOCKED() -> (r: Self)
        ensures
            r@ == 423,
    {
        Status { code: 423 }
    }

    /// 424 Failed Dependency
    pub fn FAILED_DEPENDENCY() -> (r: Self)
        ensures
            r@ == 424,
    {
        Status { code: 424 }
    }

    /// 425 Too Early
    pub fn TOO_EARLY() -> (r: Self)
        ensures
            r@ == 425,
    {
        Status { code: 425 }
    }

    /// 426 Upgrade Required
    pub fn UPGRADE_REQUIRED() -> (r: Self)
        ensures
            r@ == 426,
    {
        Status { code: 426 }
    }

    /// 428 Precondition Required
    pub fn PRECONDITION_REQUIRED() -> (r: Self)
        ensures
            r@ == 428,
    {
        Status { code: 428 }
    }

    /// 429 Too Many Requests
    pub fn TOO_MANY_REQUESTS() -> (r: Self)
        ensures
            r@ == 429,
    {
        Status { code: 429 }
    }

    /// 451 Unavailable For Legal Reasons
    pub fn UNAVAILABLE_FOR_LEGAL_REASONS() -> (r: Self)
        ensures
            r@ == 451,
    {
        Status { code: 451 }
    }

    /// 500 Internal Server Error
    pub fn INTERNAL_SERVER_ERROR() -> (r: Self)
        ensures
            r@ == 500,
    {
        Status { code: 500 }
    }

    /// 501 Not Implemented
    pub fn NOT_IMPLEMENTED() -> (r: Self)
        ensures
            r@ == 501,
    {
        Status { code: 501 }
    }

    /// 502 Bad Gateway
    pub fn BAD_GATEWAY() -> (r: Self)
        ensures
            r@ == 502,
    {
        Status { code: 502 }
    }

    /// 503 Service Unavailable
    pub fn SERVICE_UNAVAILABLE() -> (r: Self)
        ensures
            r@ == 503,
    {
        Status { code: 503 }
    }

    /// 504 Gateway Timeout
    pub fn GATEWAY_TIME_OUT() -> (r: Self)
        ensures
            r@ == 504,
    {
        Status { code: 504 }
    }

    /// 505 HTTP Version Not Supported
    pub fn HTTP_VERSION_NOT_SUPPORTED() -> (r: Self)
        ensures
            r@ == 505,
    {
        Status { code: 505 }
    }

    /// 506 Variant Also Negotiates
    pub fn VARIANT_ALSO_NEGOTIATES() -> (r: Self)
        ensures
            r@ == 506,
    {
        Status { code: 506 }
    }

    /// 507 Insufficient Storage
    pub fn INSUFFICIENT_STORAGE() -> (r: Self)
        ensures
            r@ == 507,
    {
        Status { code: 507 }
    }

    /// 508 Loop Detected
    pub fn LOOP_DETECTED() -> (r: Self)
        ensures
            r@ == 508,
    {
        Status { code: 508 }
    }
}

} // verus!
