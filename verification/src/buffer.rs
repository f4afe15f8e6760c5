//! Trusted view of the byte buffer the wire codec works on.
//!
//! The codec reads from and appends to a `bytes::BytesMut`. Verus cannot look
//! inside that type, so it is declared opaque here, its contents are given a
//! name (`buf_contents`), and each method the codec calls gets a thin wrapper
//! whose contract states, over that name, what the method does.

use vstd::prelude::*;
use bytes::Buf;
use bytes::BytesMut;

verus! {

#[verifier::external_type_specification]
#[verifier::external_body]
pub struct ExBytesMut(BytesMut);

/// The bytes a `BytesMut` currently holds, in order.
pub uninterp spec fn buf_contents(b: BytesMut) -> Seq<u8>;

/// Relies on `BytesMut::len`: the number of bytes contained in the buffer.
#[verifier::external_body]
pub fn buf_len(b: &BytesMut) -> (r: usize)
    ensures
        r == buf_contents(*b).len(),
{
    b.len()
}

/// Relies on `BytesMut`'s `Deref` to `[u8]` and slice indexing: the byte at
/// position `i` of the contents.
#[verifier::external_body]
pub fn buf_byte(b: &BytesMut, i: usize) -> (r: u8)
    requires
        i < buf_contents(*b).len(),
    ensures
        r == buf_contents(*b)[i as int],
{
    b[i]
}

/// Relies on `Buf::advance` for `BytesMut`: discards the first `cnt` bytes,
/// keeping the rest. Panics if `cnt` exceeds the length, so that is required
/// away.
#[verifier::external_body]
pub fn buf_advance(b: &mut BytesMut, cnt: usize)
    requires
        cnt <= buf_contents(*old(b)).len(),
    ensures
        buf_contents(*final(b)) == buf_contents(*old(b)).skip(cnt as int),
{
    b.advance(cnt);
}

/// Relies on `BytesMut::extend_from_slice`: appends the given bytes after the
/// current contents. Its internal `reserve` panics only if the new capacity
/// overflows `usize`, which the precondition rules out.
#[verifier::external_body]
pub fn buf_extend(b: &mut BytesMut, data: &[u8])
    requires
        buf_contents(*old(b)).len() + data@.len() <= usize::MAX,
    ensures
        buf_contents(*final(b)) == buf_contents(*old(b)) + data@,
{
    b.extend_from_slice(data);
}

} // verus!
