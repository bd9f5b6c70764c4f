//! The byte buffers of the `bytes` crate, as far as the connection handles them.
use bytes::Bytes;
use vstd::prelude::*;

verus! {

/// The immutable byte buffer `bytes::Bytes`, which the outbound substream takes.
#[verifier::external_type_specification]
#[verifier::external_body]
pub struct ExBytes(bytes::Bytes);

/// The mutable byte buffer `bytes::BytesMut`, which the inbound substream gives.
/// It is only ever carried through.
#[verifier::external_type_specification]
#[verifier::external_body]
pub struct ExBytesMut(bytes::BytesMut);

/// The bytes that a `bytes::Bytes` holds, in order.
pub uninterp spec fn frame_contents(frame: bytes::Bytes) -> Seq<u8>;

/// Calls `<bytes::Bytes as From<Vec<u8>>>::from`, which takes the vector's buffer
/// over: the result holds exactly the vector's bytes.
#[verifier::external_body]
pub(crate) fn frame_from_vec(notification: Vec<u8>) -> (frame: Bytes)
    ensures
        frame_contents(frame) == notification@,
{
    Bytes::from(notification)
}

} // verus!
