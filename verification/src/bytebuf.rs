//! Trusted boundary around `bytebuffer::ByteBuffer`.
//!
//! The buffer's state is modelled by four uninterpreted names: the byte
//! contents, the read cursor, the write cursor, and a `bb_pristine` flag.
//! `bb_pristine` says that the buffer is in the state every buffer of this
//! crate is constructed in and kept in: the byte order is the crate's default
//! (big-endian) and no partial bit-wise read or write is pending. None of the
//! wrapped calls changes the byte order or starts a bit-wise access, so every
//! wrapper preserves the flag.

use vstd::prelude::*;
use bytebuffer::ByteBuffer;

verus! {

#[verifier::external_type_specification]
#[verifier::external_body]
pub struct ExByteBuffer(ByteBuffer);

/// The bytes the buffer holds.
pub uninterp spec fn bb_bytes(b: ByteBuffer) -> Seq<u8>;

/// The buffer's read cursor, a byte offset into its contents.
pub uninterp spec fn bb_rpos(b: ByteBuffer) -> nat;

/// The buffer's write cursor, a byte offset into its contents.
pub uninterp spec fn bb_wpos(b: ByteBuffer) -> nat;

/// The buffer uses the default big-endian byte order and has no partial
/// bit-wise read or write pending.
pub uninterp spec fn bb_pristine(b: ByteBuffer) -> bool;

/// The 16-bit value encoded big-endian by a high and a low byte.
pub open spec fn word_be(hi: u8, lo: u8) -> u16 {
    (hi * 256 + lo) as u16
}

/// The high byte of the big-endian encoding of a 16-bit value.
pub open spec fn word_hi(v: u16) -> u8 {
    (v / 256) as u8
}

/// The low byte of the big-endian encoding of a 16-bit value.
pub open spec fn word_lo(v: u16) -> u8 {
    (v % 256) as u8
}

/// Relies on `ByteBuffer::from_vec`: the buffer takes ownership of the vector
/// as its contents, with the read cursor at 0, the write cursor at the end,
/// big-endian order, and no bit-wise access pending.
#[verifier::external_body]
pub(crate) fn bb_from_vec(v: Vec<u8>) -> (b: ByteBuffer)
    ensures
        bb_bytes(b) == v@,
        bb_rpos(b) == 0,
        bb_wpos(b) == v@.len(),
        bb_pristine(b),
{
    ByteBuffer::from_vec(v)
}

/// Relies on `ByteBuffer::len`: returns the size of the contents.
#[verifier::external_body]
pub(crate) fn bb_len(b: &ByteBuffer) -> (n: usize)
    ensures
        n == bb_bytes(*b).len(),
{
    b.len()
}

/// Relies on `ByteBuffer::get_wpos`: returns the write cursor.
#[verifier::external_body]
pub(crate) fn bb_get_wpos(b: &ByteBuffer) -> (p: usize)
    ensures
        p == bb_wpos(*b),
{
    b.get_wpos()
}

/// Relies on `ByteBuffer::set_rpos`: moves the read cursor to the given
/// offset, clamped to the buffer's size; nothing else changes.
#[verifier::external_body]
pub(crate) fn bb_set_rpos(b: &mut ByteBuffer, pos: usize)
    ensures
        bb_bytes(*final(b)) == bb_bytes(*old(b)),
        bb_wpos(*final(b)) == bb_wpos(*old(b)),
        bb_pristine(*final(b)) == bb_pristine(*old(b)),
        bb_rpos(*final(b)) == if pos <= bb_bytes(*old(b)).len() {
            pos as nat
        } else {
            bb_bytes(*old(b)).len()
        },
{
    b.set_rpos(pos)
}

/// Relies on `ByteBuffer::set_wpos`: moves the write cursor to the given
/// offset, clamped to the buffer's size; nothing else changes.
#[verifier::external_body]
pub(crate) fn bb_set_wpos(b: &mut ByteBuffer, pos: usize)
    ensures
        bb_bytes(*final(b)) == bb_bytes(*old(b)),
        bb_rpos(*final(b)) == bb_rpos(*old(b)),
        bb_pristine(*final(b)) == bb_pristine(*old(b)),
        bb_wpos(*final(b)) == if pos <= bb_bytes(*old(b)).len() {
            pos as nat
        } else {
            bb_bytes(*old(b)).len()
        },
{
    b.set_wpos(pos)
}

/// Relies on `ByteBuffer::read_u8`: when the read cursor is inside the
/// contents, returns the byte there and advances the cursor by 1; otherwise
/// fails and changes nothing. The contents and the write cursor never change.
#[verifier::external_body]
pub(crate) fn bb_read_u8(b: &mut ByteBuffer) -> (r: Option<u8>)
    requires
        bb_pristine(*old(b)),
    ensures
        bb_bytes(*final(b)) == bb_bytes(*old(b)),
        bb_wpos(*final(b)) == bb_wpos(*old(b)),
        bb_pristine(*final(b)),
        if bb_rpos(*old(b)) < bb_bytes(*old(b)).len() {
            r == Some(bb_bytes(*old(b))[bb_rpos(*old(b)) as int])
                && bb_rpos(*final(b)) == bb_rpos(*old(b)) + 1
        } else {
            r is None && bb_rpos(*final(b)) == bb_rpos(*old(b))
        },
{
    b.read_u8().ok()
}

/// Relies on `ByteBuffer::read_u16`: when two bytes remain at the read
/// cursor, returns them as a big-endian 16-bit value and advances the cursor
/// by 2; otherwise fails and changes nothing. The contents and the write
/// cursor never change.
#[verifier::external_body]
pub(crate) fn bb_read_u16(b: &mut ByteBuffer) -> (r: Option<u16>)
    requires
        bb_pristine(*old(b)),
    ensures
        bb_bytes(*final(b)) == bb_bytes(*old(b)),
        bb_wpos(*final(b)) == bb_wpos(*old(b)),
        bb_pristine(*final(b)),
        if bb_rpos(*old(b)) + 2 <= bb_bytes(*old(b)).len() {
            r == Some(word_be(
                bb_bytes(*old(b))[bb_rpos(*old(b)) as int],
                bb_bytes(*old(b))[bb_rpos(*old(b)) as int + 1],
            )) && bb_rpos(*final(b)) == bb_rpos(*old(b)) + 2
        } else {
            r is None && bb_rpos(*final(b)) == bb_rpos(*old(b))
        },
{
    b.read_u16().ok()
}

/// Relies on `ByteBuffer::write_u8`: with the write cursor inside the
/// contents, overwrites the byte there and advances the cursor by 1. The
/// cursor staying inside the contents is required because a write past the
/// end would grow the buffer.
#[verifier::external_body]
pub(crate) fn bb_write_u8(b: &mut ByteBuffer, v: u8)
    requires
        bb_pristine(*old(b)),
        bb_wpos(*old(b)) < bb_bytes(*old(b)).len(),
    ensures
        bb_bytes(*final(b)) == bb_bytes(*old(b)).update(bb_wpos(*old(b)) as int, v),
        bb_rpos(*final(b)) == bb_rpos(*old(b)),
        bb_wpos(*final(b)) == bb_wpos(*old(b)) + 1,
        bb_pristine(*final(b)),
{
    b.write_u8(v)
}

/// Relies on `ByteBuffer::write_u16`: with two bytes of room at the write
/// cursor, overwrites them with the big-endian encoding of the value and
/// advances the cursor by 2. The room is required because a write past the
/// end would grow the buffer.
#[verifier::external_body]
pub(crate) fn bb_write_u16(b: &mut ByteBuffer, v: u16)
    requires
        bb_pristine(*old(b)),
        bb_wpos(*old(b)) + 2 <= bb_bytes(*old(b)).len(),
    ensures
        bb_bytes(*final(b)) == bb_bytes(*old(b))
            .update(bb_wpos(*old(b)) as int, word_hi(v))
            .update(bb_wpos(*old(b)) as int + 1, word_lo(v)),
        bb_rpos(*final(b)) == bb_rpos(*old(b)),
        bb_wpos(*final(b)) == bb_wpos(*old(b)) + 2,
        bb_pristine(*final(b)),
{
    b.write_u16(v)
}

/// Relies on `ByteBuffer::write_bytes`: with enough room at the write cursor,
/// overwrites that many bytes with the given ones and advances the cursor
/// past them. The room is required because a write past the end would grow
/// the buffer.
#[verifier::external_body]
pub(crate) fn bb_write_bytes(b: &mut ByteBuffer, src: &Vec<u8>)
    requires
        bb_pristine(*old(b)),
        bb_wpos(*old(b)) + src@.len() <= bb_bytes(*old(b)).len(),
    ensures
        bb_bytes(*final(b)).len() == bb_bytes(*old(b)).len(),
        forall|i: int|
            bb_wpos(*old(b)) <= i < bb_wpos(*old(b)) + src@.len() ==> bb_bytes(*final(b))[i] == src@[i
                - bb_wpos(*old(b))],
        forall|i: int|
            0 <= i < bb_bytes(*old(b)).len() && !(bb_wpos(*old(b)) <= i < bb_wpos(*old(b))
                + src@.len()) ==> bb_bytes(*final(b))[i] == bb_bytes(*old(b))[i],
        bb_rpos(*final(b)) == bb_rpos(*old(b)),
        bb_wpos(*final(b)) == bb_wpos(*old(b)) + src@.len(),
        bb_pristine(*final(b)),
{
    b.write_bytes(src.as_slice())
}

} // verus!
