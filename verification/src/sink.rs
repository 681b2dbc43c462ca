//! The byte sink that the encoder appends to and the byte source that a body
//! is drained from, both provided by the `bytes` crate.

use vstd::prelude::*;

verus! {

#[verifier::external_type_specification]
#[verifier::external_body]
#[verifier::reject_recursive_types(T)]
pub struct ExLimit<T>(bytes::buf::Limit<T>);

#[verifier::external_type_specification]
#[verifier::external_body]
pub struct ExBytes(bytes::Bytes);

/// The destination of every write: a growable byte vector behind a limit on
/// how many more bytes may be appended to it.
pub type Sink = bytes::buf::Limit<Vec<u8>>;

/// The bytes that the sink holds, oldest first.
pub uninterp spec fn sink_bytes(s: bytes::buf::Limit<Vec<u8>>) -> Seq<u8>;

/// The number of bytes that the sink's limit still admits.
pub uninterp spec fn sink_limit(s: bytes::buf::Limit<Vec<u8>>) -> nat;

/// The number of bytes that can still be appended: what the limit admits,
/// capped by the room left in a vector of at most `isize::MAX` bytes.
pub open spec fn room(s: Sink) -> int {
    vstd::math::min(isize::MAX - sink_bytes(s).len(), sink_limit(s) as int)
}

/// `after` is `before` with `data` appended and the limit lowered by its length.
pub open spec fn appended(before: Sink, after: Sink, data: Seq<u8>) -> bool {
    &&& sink_bytes(after) == sink_bytes(before) + data
    &&& sink_limit(after) + data.len() == sink_limit(before)
}

/// `BufMut::remaining_mut` on `Limit<Vec<u8>>`: the smaller of the limit and
/// of `isize::MAX` less the vector's length.
#[verifier::external_body]
pub(crate) fn remaining_mut(s: &Sink) -> (r: usize)
    ensures
        r as int == vstd::math::min(isize::MAX - sink_bytes(*s).len(), sink_limit(*s) as int),
{
    bytes::BufMut::remaining_mut(s)
}

/// `BufMut::put_slice` on `Limit<Vec<u8>>`: panics when `src` is longer than
/// `remaining_mut()`, otherwise appends `src` to the vector and lowers the
/// limit by its length. The vector grows as needed; as with any `Vec`, the
/// process stops if the allocator cannot provide the memory.
#[verifier::external_body]
pub(crate) fn put_slice(s: &mut Sink, src: &[u8])
    requires
        src@.len() <= room(*old(s)),
    ensures
        sink_bytes(*final(s)) == sink_bytes(*old(s)) + src@,
        sink_limit(*final(s)) + src@.len() == sink_limit(*old(s)),
{
    bytes::BufMut::put_slice(s, src)
}

/// The bytes that the source has yet to hand out, next first.
pub uninterp spec fn source_bytes(b: bytes::Bytes) -> Seq<u8>;

/// `Buf::remaining` on `Bytes`: the number of bytes not yet handed out.
#[verifier::external_body]
pub(crate) fn source_remaining(src: &bytes::Bytes) -> (r: usize)
    ensures
        r == source_bytes(*src).len(),
{
    bytes::Buf::remaining(src)
}

/// `Buf::has_remaining` on `Bytes`: whether any byte is yet to be handed out.
#[verifier::external_body]
pub(crate) fn source_has_remaining(src: &bytes::Bytes) -> (r: bool)
    ensures
        r == (source_bytes(*src).len() > 0),
{
    bytes::Buf::has_remaining(src)
}

/// `Buf::chunk` on `Bytes`: all the bytes not yet handed out, as one slice.
#[verifier::external_body]
pub(crate) fn source_chunk(src: &bytes::Bytes) -> (r: &[u8])
    ensures
        r@ == source_bytes(*src),
{
    bytes::Buf::chunk(src)
}

/// `Buf::advance` on `Bytes`: panics when `cnt` is more than what remains,
/// otherwise drops the next `cnt` bytes.
#[verifier::external_body]
pub(crate) fn source_advance(src: &mut bytes::Bytes, cnt: usize)
    requires
        cnt <= source_bytes(*old(src)).len(),
    ensures
        source_bytes(*final(src)) == source_bytes(*old(src)).skip(cnt as int),
{
    bytes::Buf::advance(src, cnt)
}

} // verus!
