//! The builder of a request's header section.

use vstd::prelude::*;
use crate::encode::{request_line, request_line_outcome, valid_method, valid_uri, valid_version, wrote};
use crate::http::HttpBuilder;
use crate::sink::{Sink, room, sink_bytes};
use crate::types::{Error, Method, Uri, Version};

verus! {

/// Builder for HTTP requests.
pub struct RequestBuilder<'b>(pub HttpBuilder<'b>);

impl<'b> RequestBuilder<'b> {
    /// Create a new request with the provided request line.
    ///
    /// If this fails, the parts of the line that were written stay in the
    /// sink, and the caller has to reset it.
    pub fn new(buf: &'b mut Sink, method: Method, uri: Uri, version: Version) -> (r: Result<
        Self,
        Error,
    >)
        ensures
            r is Ok <==> valid_method(method) && valid_uri(uri) && valid_version(version)
                && request_line(method, uri, version).len() <= room(*old(buf)),
            match r {
                Ok(b) => {
                    &&& sink_bytes(b.0.sink()) == sink_bytes(*old(buf)) + request_line(
                        method,
                        uri,
                        version,
                    )
                    &&& wrote(
                        *old(buf),
                        b.0.sink(),
                        Ok(()),
                        request_line_outcome(method, uri, version, room(*old(buf))),
                    )
                    &&& *final(b.0.buf) == *final(buf)
                },
                Err(e) => wrote(
                    *old(buf),
                    *final(buf),
                    Err(e),
                    request_line_outcome(method, uri, version, room(*old(buf))),
                ),
            },
    {
        match HttpBuilder::request(buf, method, uri, version) {
            Ok(b) => Ok(Self(b)),
            Err(e) => Err(e),
        }
    }
}

impl<'b> core::ops::Deref for RequestBuilder<'b> {
    type Target = HttpBuilder<'b>;

    fn deref(&self) -> (r: &Self::Target)
        ensures
            *r == self.0,
    {
        &self.0
    }
}

impl<'b> core::ops::DerefMut for RequestBuilder<'b> {
    fn deref_mut(&mut self) -> (r: &mut Self::Target)
        ensures
            *r == old(self).0,
            final(self).0 == *final(r),
    {
        &mut self.0
    }
}

} // verus!
