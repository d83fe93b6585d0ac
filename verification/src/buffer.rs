//! Byte buffers.
//!
//! The buffers are those of the `bytes` crate.  The declarations here say what
//! the calls that the library makes do to the bytes that a buffer holds.  That the
//! memory for them can be had is taken for granted, as it is of vectors.

use bytes::{Buf, BufMut, Bytes, BytesMut};
use vstd::prelude::*;

verus! {

/// `bytes::BytesMut`, a growable buffer.
#[verifier::external_type_specification]
#[verifier::external_body]
pub struct ExBytesMut(BytesMut);

/// `bytes::Bytes`, a buffer that no longer changes.
#[verifier::external_type_specification]
#[verifier::external_body]
pub struct ExBytes(Bytes);

/// The bytes that a growable buffer holds, first to last.
pub uninterp spec fn contents(buffer: BytesMut) -> Seq<u8>;

/// The bytes that a fixed buffer holds, first to last.
pub uninterp spec fn frozen(buffer: Bytes) -> Seq<u8>;

/// Whether `more` bytes can be appended to `held` ones: no buffer is longer than
/// the largest allocation.
pub open spec fn has_room(held: Seq<u8>, more: int) -> bool {
    held.len() + more <= isize::MAX
}

/// `BytesMut::new` returns a buffer of length 0.
pub assume_specification[ BytesMut::new ]() -> (buffer: BytesMut)
    ensures
        contents(buffer) == Seq::<u8>::empty(),
;

/// `BytesMut::len` returns the number of bytes held.
pub assume_specification[ BytesMut::len ](buffer: &BytesMut) -> (n: usize)
    ensures
        n == contents(*buffer).len(),
;

/// `BytesMut::is_empty` returns whether no byte is held.
pub assume_specification[ BytesMut::is_empty ](buffer: &BytesMut) -> (empty: bool)
    ensures
        empty == (contents(*buffer).len() == 0),
;

/// `BytesMut::clear` removes every byte.
pub assume_specification[ BytesMut::clear ](buffer: &mut BytesMut)
    ensures
        contents(*final(buffer)) == Seq::<u8>::empty(),
;

/// `BytesMut::reserve` makes room and leaves the bytes as they are.  It panics
/// where the new length could not be represented.
pub assume_specification[ BytesMut::reserve ](buffer: &mut BytesMut, additional: usize)
    requires
        has_room(contents(*old(buffer)), additional as int),
    ensures
        contents(*final(buffer)) == contents(*old(buffer)),
;

/// `BytesMut::split_to` hands out the first `at` bytes and keeps the others.  It
/// panics where fewer than `at` bytes are held.
pub assume_specification[ BytesMut::split_to ](buffer: &mut BytesMut, at: usize) -> (front:
    BytesMut)
    requires
        at <= contents(*old(buffer)).len(),
    ensures
        contents(front) == contents(*old(buffer)).take(at as int),
        contents(*final(buffer)) == contents(*old(buffer)).skip(at as int),
;

/// `BytesMut::freeze` keeps the bytes.
pub assume_specification[ BytesMut::freeze ](buffer: BytesMut) -> (fixed: Bytes)
    ensures
        frozen(fixed) == contents(buffer),
;

/// `Bytes::len` returns the number of bytes held.
pub assume_specification[ Bytes::len ](fixed: &Bytes) -> (n: usize)
    ensures
        n == frozen(*fixed).len(),
;

/// `Bytes::is_empty` returns whether no byte is held.
pub assume_specification[ Bytes::is_empty ](fixed: &Bytes) -> (empty: bool)
    ensures
        empty == (frozen(*fixed).len() == 0),
;

/// `Bytes::copy_from_slice` holds the bytes of the slice.
pub assume_specification[ Bytes::copy_from_slice ](data: &[u8]) -> (fixed: Bytes)
    ensures
        frozen(fixed) == data@,
;

/// `BufMut::put_u8` on a `BytesMut` appends one byte.  It panics where the new
/// length could not be represented.
#[verifier::external_body]
pub(crate) fn put_u8(buffer: &mut BytesMut, byte: u8)
    requires
        has_room(contents(*old(buffer)), 1),
    ensures
        contents(*final(buffer)) == contents(*old(buffer)).push(byte),
{
    buffer.put_u8(byte)
}

/// `BufMut::put_bytes` on a `BytesMut` appends `count` copies of one byte.  It
/// panics where the new length could not be represented.
#[verifier::external_body]
pub(crate) fn put_bytes(buffer: &mut BytesMut, byte: u8, count: usize)
    requires
        has_room(contents(*old(buffer)), count as int),
    ensures
        contents(*final(buffer)) == contents(*old(buffer)) + Seq::new(count as nat, |i: int| byte),
{
    buffer.put_bytes(byte, count)
}

/// `BufMut::put_slice` on a `BytesMut` appends the bytes of the slice.  It panics
/// where the new length could not be represented.
#[verifier::external_body]
pub(crate) fn put_slice(buffer: &mut BytesMut, data: &[u8])
    requires
        has_room(contents(*old(buffer)), data@.len() as int),
    ensures
        contents(*final(buffer)) == contents(*old(buffer)) + data@,
{
    buffer.put_slice(data)
}

/// `BufMut::put` on a `BytesMut` appends the bytes of the other buffer.  It panics
/// where the new length could not be represented.
#[verifier::external_body]
pub(crate) fn put(buffer: &mut BytesMut, data: BytesMut)
    requires
        has_room(contents(*old(buffer)), contents(data).len() as int),
    ensures
        contents(*final(buffer)) == contents(*old(buffer)) + contents(data),
{
    buffer.put(data)
}

/// `Buf::advance` on a `BytesMut` drops the first `count` bytes.  It panics where
/// fewer than `count` bytes are held.
#[verifier::external_body]
pub(crate) fn advance(buffer: &mut BytesMut, count: usize)
    requires
        count <= contents(*old(buffer)).len(),
    ensures
        contents(*final(buffer)) == contents(*old(buffer)).skip(count as int),
{
    buffer.advance(count)
}

/// `BytesMut` dereferences to the slice of the bytes it holds.
#[verifier::external_body]
pub(crate) fn as_slice(buffer: &BytesMut) -> (data: &[u8])
    ensures
        data@ == contents(*buffer),
{
    &buffer[..]
}

} // verus!
