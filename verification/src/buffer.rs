//! Outgoing datagrams are built in `bytes::BytesMut` buffers.  This module declares that type
//! to the verifier and gives a contract to each of its operations the library uses, over
//! `buffer_contents`, the bytes a buffer holds.
use vstd::prelude::*;

use bytes::BytesMut;

verus! {

/// `bytes::BytesMut`, a growable byte buffer; the verifier sees none of its fields.
#[verifier::external_type_specification]
#[verifier::external_body]
pub struct ExBytesMut(bytes::BytesMut);

/// The bytes a `BytesMut` holds, first to last.
pub uninterp spec fn buffer_contents(b: BytesMut) -> Seq<u8>;

/// `BytesMut::with_capacity`: an empty buffer with room for `capacity` bytes.  The source
/// builds it from `Vec::with_capacity`, which fails for more than `isize::MAX` bytes.
#[verifier::external_body]
pub(crate) fn new_buffer(capacity: usize) -> (b: BytesMut)
    requires
        capacity <= isize::MAX,
    ensures
        buffer_contents(b) == Seq::<u8>::empty(),
{
    BytesMut::with_capacity(capacity)
}

/// `BytesMut::extend_from_slice`: appends `src` after the bytes already held.  It reserves
/// room first, which fails when the length would pass `isize::MAX`.
#[verifier::external_body]
pub(crate) fn append_bytes(b: &mut BytesMut, src: &[u8])
    requires
        buffer_contents(*old(b)).len() + src@.len() <= isize::MAX,
    ensures
        buffer_contents(*final(b)) == buffer_contents(*old(b)) + src@,
{
    b.extend_from_slice(src)
}

/// `<BytesMut as Clone>::clone`: a new buffer holding a copy of the same bytes.
#[verifier::external_body]
pub(crate) fn clone_buffer(b: &BytesMut) -> (c: BytesMut)
    ensures
        buffer_contents(c) == buffer_contents(*b),
{
    b.clone()
}

} // verus!
