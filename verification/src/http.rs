//! The builder of a request's or a response's header section.

use vstd::prelude::*;
use vstd::string::StringSliceAdditionalSpecFns;
use crate::encode::{
    colon_sp, crlf, header_line, header_outcome, lemma_appended_nothing, request_line,
    request_line_outcome, status_line, status_line_outcome, valid_method, valid_uri,
    valid_version, wrote,
};
use crate::grammar::{is_field_value, is_token};
use crate::sink::{
    Sink, appended, put_slice, remaining_mut, room, sink_bytes, source_advance, source_bytes,
    source_chunk, source_has_remaining, source_remaining,
};
use crate::types::{Error, Method, Status, Uri, Version};
use crate::util::{
    lemma_separators, lookup_status_line, reason_bytes, validate_header_field,
    validate_header_name, write_request_line, write_status_line,
};

verus! {

/// Builder for the header section of an HTTP message. It borrows the sink
/// for as long as it lives, and gives it back when the section is closed.
#[derive(Debug)]
pub struct HttpBuilder<'b> {
    pub buf: &'b mut Sink,
}

impl<'b> HttpBuilder<'b> {
    /// The sink as the builder has left it so far.
    pub open spec fn sink(&self) -> Sink {
        *self.buf
    }

    /// Create a new request with the provided request line.
    ///
    /// If this fails, the parts of the line that were written stay in the
    /// sink, and the caller has to reset it.
    pub fn request(buf: &'b mut Sink, method: Method, uri: Uri, version: Version) -> (r: Result<
        Self,
        Error,
    >)
        ensures
            r is Ok <==> valid_method(method) && valid_uri(uri) && valid_version(version)
                && request_line(method, uri, version).len() <= room(*old(buf)),
            match r {
                Ok(b) => {
                    &&& sink_bytes(b.sink()) == sink_bytes(*old(buf)) + request_line(
                        method,
                        uri,
                        version,
                    )
                    &&& wrote(
                        *old(buf),
                        b.sink(),
                        Ok(()),
                        request_line_outcome(method, uri, version, room(*old(buf))),
                    )
                    &&& *final(b.buf) == *final(buf)
                },
                Err(e) => wrote(
                    *old(buf),
                    *final(buf),
                    Err(e),
                    request_line_outcome(method, uri, version, room(*old(buf))),
                ),
            },
    {
        match write_request_line(buf, method, uri, version) {
            Ok(_) => Ok(Self { buf }),
            Err(e) => Err(e),
        }
    }

    /// Create a new response with the provided status line and the
    /// canonical reason phrase of the status.
    pub fn response(buf: &'b mut Sink, version: Version, status: Status) -> (r: Result<Self, Error>)
        ensures
            r is Ok <==> valid_version(version) && status_line(
                version,
                status@ as nat,
                reason_bytes(status@),
            ).len() <= room(*old(buf)),
            match r {
                Ok(b) => {
                    &&& sink_bytes(b.sink()) == sink_bytes(*old(buf)) + status_line(
                        version,
                        status@ as nat,
                        reason_bytes(status@),
                    )
                    &&& wrote(
                        *old(buf),
                        b.sink(),
                        Ok(()),
                        status_line_outcome(
                            version,
                            status@ as nat,
                            reason_bytes(status@),
                            room(*old(buf)),
                        ),
                    )
                    &&& *final(b.buf) == *final(buf)
                },
                Err(e) => wrote(
                    *old(buf),
                    *final(buf),
                    Err(e),
                    status_line_outcome(
                        version,
                        status@ as nat,
                        reason_bytes(status@),
                        room(*old(buf)),
                    ),
                ),
            },
    {
        Self::response_with_reason(buf, version, status, lookup_status_line(status))
    }

    /// Create a new response with the provided status line.
    ///
    /// If this fails, the parts of the line that were written stay in the
    /// sink, and the caller has to reset it.
    pub fn response_with_reason(
        buf: &'b mut Sink,
        version: Version,
        status: Status,
        reason: &str,
    ) -> (r: Result<Self, Error>)
        ensures
            r is Ok <==> valid_version(version) && status_line(
                version,
                status@ as nat,
                reason.spec_bytes(),
            ).len() <= room(*old(buf)),
            match r {
                Ok(b) => {
                    &&& sink_bytes(b.sink()) == sink_bytes(*old(buf)) + status_line(
                        version,
                        status@ as nat,
                        reason.spec_bytes(),
                    )
                    &&& wrote(
                        *old(buf),
                        b.sink(),
                        Ok(()),
                        status_line_outcome(
                            version,
                            status@ as nat,
                            reason.spec_bytes(),
                            room(*old(buf)),
                        ),
                    )
                    &&& *final(b.buf) == *final(buf)
                },
                Err(e) => wrote(
                    *old(buf),
                    *final(buf),
                    Err(e),
                    status_line_outcome(
                        version,
                        status@ as nat,
                        reason.spec_bytes(),
                        room(*old(buf)),
                    ),
                ),
            },
    {
        match write_status_line(buf, version, status, reason) {
            Ok(_) => Ok(Self { buf }),
            Err(e) => Err(e),
        }
    }

    /// Add a new header to the message. Nothing checks whether the header
    /// was given before.
    ///
    /// This is atomic: on failure nothing is written.
    pub fn header(&mut self, key: &[u8], val: &[u8]) -> (r: Result<&mut Self, Error>)
        ensures
            r is Ok <==> is_token(key@) && is_field_value(val@) && key@.len() + val@.len() + 4
                <= room(old(self).sink()),
            match r {
                Ok(b) => {
                    &&& wrote(
                        old(self).sink(),
                        b.sink(),
                        Ok(()),
                        header_outcome(key@, val@, room(old(self).sink())),
                    )
                    &&& sink_bytes(b.sink()) == sink_bytes(old(self).sink()) + header_line(
                        key@,
                        val@,
                    )
                    &&& *final(b.buf) == *final(old(self).buf)
                    &&& *final(self) == *final(b)
                },
                Err(e) => {
                    &&& wrote(
                        old(self).sink(),
                        final(self).sink(),
                        Err(e),
                        header_outcome(key@, val@, room(old(self).sink())),
                    )
                    &&& final(self).sink() == old(self).sink()
                    &&& *final(final(self).buf) == *final(old(self).buf)
                },
            },
    {
        if !validate_header_name(key) {
            proof {
                lemma_appended_nothing(*self.buf);
            }
            return Err(Error::InvalidHeaderKey);
        }
        if !validate_header_field(val) {
            proof {
                lemma_appended_nothing(*self.buf);
            }
            return Err(Error::InvalidHeaderValue);
        }
        self.header_unchecked(key, val)
    }

    /// Add a new header to the message without checking its name and
    /// value. With a name or value that `header` would refuse, the section
    /// may be malformed.
    ///
    /// This is atomic: on failure nothing is written.
    pub fn header_unchecked(&mut self, key: &[u8], val: &[u8]) -> (r: Result<&mut Self, Error>)
        ensures
            r is Ok <==> key@.len() + val@.len() + 4 <= room(old(self).sink()),
            match r {
                Ok(b) => {
                    &&& appended(old(self).sink(), b.sink(), header_line(key@, val@))
                    &&& *final(b.buf) == *final(old(self).buf)
                    &&& *final(self) == *final(b)
                },
                Err(e) => {
                    &&& e == Error::OutOfBuffer
                    &&& final(self).sink() == old(self).sink()
                    &&& *final(final(self).buf) == *final(old(self).buf)
                },
            },
    {
        let left: usize = remaining_mut(self.buf);
        if key.len() > left || val.len() > left - key.len() || 4 > left - key.len() - val.len() {
            return Err(Error::OutOfBuffer);
        }
        let ghost before = *self.buf;
        proof {
            lemma_separators();
        }
        put_slice(self.buf, key);
        put_slice(self.buf, ": ".as_bytes());
        put_slice(self.buf, val);
        put_slice(self.buf, "\r\n".as_bytes());
        proof {
            assert(sink_bytes(before) + key@ + colon_sp() + val@ + crlf() =~= sink_bytes(before)
                + header_line(key@, val@));
        }
        Ok(self)
    }

    /// Complete the header section and return the sink. On failure nothing
    /// is written, and the sink stays with the caller as it is.
    pub fn finish(self) -> (r: Result<&'b mut Sink, Error>)
        ensures
            match r {
                Ok(s) => {
                    &&& 2 <= room(self.sink())
                    &&& appended(self.sink(), *s, crlf())
                    &&& *final(s) == *final(self.buf)
                },
                Err(e) => {
                    &&& e == Error::OutOfBuffer
                    &&& room(self.sink()) < 2
                    &&& *final(self.buf) == self.sink()
                },
            },
    {
        if remaining_mut(self.buf) < 2 {
            return Err(Error::OutOfBuffer);
        }
        proof {
            lemma_separators();
        }
        put_slice(self.buf, "\r\n".as_bytes());
        Ok(self.buf)
    }

    /// Complete the header section, append all of `src` as the body, and
    /// return the sink. `src` is drained. On failure nothing is written,
    /// `src` is left as it is, and the sink stays with the caller.
    pub fn body(self, src: &mut bytes::Bytes) -> (r: Result<&'b mut Sink, Error>)
        ensures
            match r {
                Ok(s) => {
                    &&& source_bytes(*old(src)).len() + 2 <= room(self.sink())
                    &&& appended(self.sink(), *s, crlf() + source_bytes(*old(src)))
                    &&& source_bytes(*final(src)).len() == 0
                    &&& *final(s) == *final(self.buf)
                },
                Err(e) => {
                    &&& e == Error::OutOfBuffer
                    &&& source_bytes(*old(src)).len() + 2 > room(self.sink())
                    &&& source_bytes(*final(src)) == source_bytes(*old(src))
                    &&& *final(self.buf) == self.sink()
                },
            },
    {
        let len: usize = source_remaining(src);
        let left: usize = remaining_mut(self.buf);
        if left < 2 || len > left - 2 {
            return Err(Error::OutOfBuffer);
        }
        let ghost before = *self.buf;
        let ghost end = *final(self.buf);
        let ghost all = source_bytes(*src);
        proof {
            lemma_separators();
        }
        put_slice(self.buf, "\r\n".as_bytes());
        let ghost copied: Seq<u8> = Seq::empty();
        proof {
            assert(crlf() + copied =~= crlf());
            assert(copied + all =~= all);
        }
        while source_has_remaining(src)
            invariant
                *final(self.buf) == end,
                appended(before, *self.buf, crlf() + copied),
                copied + source_bytes(*src) == all,
                all.len() + 2 <= room(before),
            decreases source_bytes(*src).len(),
        {
            let chunk = source_chunk(src);
            let ghost rest = source_bytes(*src);
            put_slice(self.buf, chunk);
            let n: usize = chunk.len();
            source_advance(src, n);
            proof {
                assert(rest.skip(n as int) =~= Seq::<u8>::empty());
                assert(copied + rest + Seq::<u8>::empty() =~= copied + rest);
                assert(sink_bytes(before) + (crlf() + copied) + rest =~= sink_bytes(before) + (
                crlf() + (copied + rest)));
                copied = copied + rest;
            }
        }
        proof {
            assert(copied + Seq::<u8>::empty() =~= copied);
        }
        Ok(self.buf)
    }

    /// Give the sink back without closing the header section.
    pub fn into_buf(self) -> (r: &'b mut Sink)
        ensures
            *r == self.sink(),
            *final(r) == *final(self.buf),
    {
        self.buf
    }

    /// Create a builder on a sink that already holds a start line. Nothing
    /// checks that it does.
    pub fn from_buf(buf: &'b mut Sink) -> (r: Self)
        ensures
            r.sink() == *old(buf),
            *final(r.buf) == *final(buf),
    {
        Self { buf }
    }

    /// The number of bytes that can still be written to the sink.
    pub fn remaining(&self) -> (r: usize)
        ensures
            r == room(self.sink()),
    {
        remaining_mut(self.buf)
    }
}

} // verus!
