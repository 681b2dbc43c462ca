//! The builder of a response's header section.

use vstd::prelude::*;
use crate::encode::{status_line, status_line_outcome, valid_version, wrote};
use crate::http::HttpBuilder;
use crate::sink::{Sink, room, sink_bytes};
use crate::types::{Error, Status, Version};
use crate::util::reason_bytes;

verus! {

/// Builder for HTTP responses.
pub struct ResponseBuilder<'b>(pub HttpBuilder<'b>);

impl<'b> ResponseBuilder<'b> {
    /// Create a new response with the provided status line and the
    /// canonical reason phrase of the status.
    ///
    /// If this fails, the parts of the line that were written stay in the
    /// sink, and the caller has to reset it.
    pub fn new(buf: &'b mut Sink, version: Version, status: Status) -> (r: Result<Self, Error>)
        ensures
            r is Ok <==> valid_version(version) && status_line(
                version,
                status@ as nat,
                reason_bytes(status@),
            ).len() <= room(*old(buf)),
            match r {
                Ok(b) => {
                    &&& sink_bytes(b.0.sink()) == sink_bytes(*old(buf)) + status_line(
                        version,
                        status@ as nat,
                        reason_bytes(status@),
                    )
                    &&& wrote(
                        *old(buf),
                        b.0.sink(),
                        Ok(()),
                        status_line_outcome(
                            version,
                            status@ as nat,
                            reason_bytes(status@),
                            room(*old(buf)),
                        ),
                    )
                    &&& *final(b.0.buf) == *final(buf)
                },
                Err(e) => wrote(
                    *old(buf),
                    *final(buf),
                    Err(e),
                    status_line_outcome(
                        version,
                        status@ as nat,
                        reason_bytes(status@),
                        room(*old(buf)),
                    ),
                ),
            },
    {
        match HttpBuilder::response(buf, version, status) {
            Ok(b) => Ok(Self(b)),
            Err(e) => Err(e),
        }
    }
}

impl<'b> core::ops::Deref for ResponseBuilder<'b> {
    type Target = HttpBuilder<'b>;

    fn deref(&self) -> (r: &Self::Target)
        ensures
            *r == self.0,
    {
        &self.0
    }
}

impl<'b> core::ops::DerefMut for ResponseBuilder<'b> {
    fn deref_mut(&mut self) -> (r: &mut Self::Target)
        ensures
            *r == old(self).0,
            final(self).0 == *final(r),
    {
        &mut self.0
    }
}

} // verus!
