//! Byte buffers.
//!
//! Audio and image data travel in `bytes::Bytes`; a `bytes::BytesMut` gathers
//! them. Both are described by the sequence of bytes that they hold.
use vstd::prelude::*;

verus! {

/// `bytes::Bytes`: an immutable run of bytes, given by [`bytes_of`].
#[verifier::external_type_specification]
#[verifier::external_body]
pub struct ExBytes(bytes::Bytes);

/// `bytes::BytesMut`: a growing run of bytes, given by [`buffer_of`].
#[verifier::external_type_specification]
#[verifier::external_body]
pub struct ExBytesMut(bytes::BytesMut);

/// The bytes that a `bytes::Bytes` holds.
pub uninterp spec fn bytes_of(b: bytes::Bytes) -> Seq<u8>;

/// The bytes that a `bytes::BytesMut` holds.
pub uninterp spec fn buffer_of(b: bytes::BytesMut) -> Seq<u8>;

/// Makes a `Bytes` of a vector with `Bytes::from`.
#[verifier::external_body]
pub(crate) fn bytes_from(v: Vec<u8>) -> (r: bytes::Bytes)
    ensures
        bytes_of(r) == v@,
{
    bytes::Bytes::from(v)
}

/// `Clone` of `bytes::Bytes`: a handle on the same data.
pub assume_specification[ <bytes::Bytes as Clone>::clone ](b: &bytes::Bytes) -> (r: bytes::Bytes)
    ensures
        bytes_of(r) == bytes_of(*b),
;

/// Reads a `Bytes` as a slice with `as_ref`.
#[verifier::external_body]
pub(crate) fn bytes_as_slice(b: &bytes::Bytes) -> (r: &[u8])
    ensures
        r@ == bytes_of(*b),
{
    b.as_ref()
}

/// Calls `BytesMut::new`: an empty buffer.
#[verifier::external_body]
pub(crate) fn buffer_new() -> (r: bytes::BytesMut)
    ensures
        buffer_of(r) == Seq::<u8>::empty(),
{
    bytes::BytesMut::new()
}

/// Calls `BytesMut::len`.
#[verifier::external_body]
pub(crate) fn buffer_len(b: &bytes::BytesMut) -> (r: usize)
    ensures
        r == buffer_of(*b).len(),
{
    b.len()
}

/// Calls `BytesMut::extend_from_slice`: appends the slice. A buffer whose
/// capacity would pass the largest allocation is left out.
#[verifier::external_body]
pub(crate) fn buffer_extend(b: &mut bytes::BytesMut, data: &[u8])
    requires
        buffer_of(*old(b)).len() + data@.len() <= isize::MAX,
    ensures
        buffer_of(*final(b)) == buffer_of(*old(b)) + data@,
{
    b.extend_from_slice(data)
}

/// Calls `BytesMut::split_to`: the first `at` bytes leave the buffer. Panics
/// where the buffer holds fewer.
#[verifier::external_body]
pub(crate) fn buffer_split_to(b: &mut bytes::BytesMut, at: usize) -> (r: bytes::BytesMut)
    requires
        at <= buffer_of(*old(b)).len(),
    ensures
        buffer_of(r) == buffer_of(*old(b)).take(at as int),
        buffer_of(*final(b)) == buffer_of(*old(b)).skip(at as int),
{
    b.split_to(at)
}

/// Calls `BytesMut::freeze`: the same bytes, no longer growing.
#[verifier::external_body]
pub(crate) fn buffer_freeze(b: bytes::BytesMut) -> (r: bytes::Bytes)
    ensures
        bytes_of(r) == buffer_of(b),
{
    b.freeze()
}

/// Calls `BytesMut::clear`: removes all data.
#[verifier::external_body]
pub(crate) fn buffer_clear(b: &mut bytes::BytesMut)
    ensures
        buffer_of(*final(b)) == Seq::<u8>::empty(),
{
    b.clear()
}

} // verus!
