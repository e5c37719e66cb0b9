//! Fixed-capacity byte memory with independent read and write cursors.
//!
//! The buffer is allocated once, zero-filled, and never resized; a read or
//! write past the end fails with `OutOfBounds` instead of growing the buffer.

use vstd::prelude::*;
use bytebuffer::ByteBuffer;
use crate::bytebuf::{bb_bytes, bb_from_vec, bb_get_wpos, bb_len, bb_pristine, bb_read_u16,
    bb_read_u8, bb_rpos, bb_set_rpos, bb_set_wpos, bb_wpos, bb_write_bytes, bb_write_u16,
    bb_write_u8, word_be, word_hi, word_lo};

verus! {

/// Failure of a memory access: the touched range does not lie inside the
/// buffer.
#[derive(Debug, Clone, Copy, PartialEq, Eq, Structural)]
pub enum MemoryError {
    OutOfBounds,
}

/// A fixed-length byte buffer with a read cursor and a write cursor.
pub struct Memory {
    buf: ByteBuffer,
}

impl Memory {
    /// The bytes the memory holds.
    pub closed spec fn data(self) -> Seq<u8> {
        bb_bytes(self.buf)
    }

    /// The read cursor, a byte offset into the contents.
    pub closed spec fn rpos(self) -> nat {
        bb_rpos(self.buf)
    }

    /// The write cursor, a byte offset into the contents.
    pub closed spec fn wpos(self) -> nat {
        bb_wpos(self.buf)
    }

    /// Well-formedness: both cursors lie at or before the end of the
    /// contents, and the underlying buffer is in its constructed state.
    pub closed spec fn inv(self) -> bool {
        &&& bb_pristine(self.buf)
        &&& self.rpos() <= self.data().len()
        &&& self.wpos() <= self.data().len()
    }

    /// The buffer size in bytes.
    pub fn len(&self) -> (n: usize)
        ensures
            n == self.data().len(),
    {
        bb_len(&self.buf)
    }

    /// Moves the read cursor. No bounds check happens here: a cursor set at
    /// or past the end makes the next read fail.
    pub fn set_read_cursor(&mut self, pos: usize)
        requires
            old(self).inv(),
        ensures
            final(self).inv(),
            final(self).data() == old(self).data(),
            final(self).wpos() == old(self).wpos(),
            final(self).rpos() == if pos <= old(self).data().len() {
                pos as nat
            } else {
                old(self).data().len()
            },
    {
        bb_set_rpos(&mut self.buf, pos);
    }

    /// Moves the write cursor. No bounds check happens here: a cursor set at
    /// or past the end makes the next write fail.
    pub fn set_write_cursor(&mut self, pos: usize)
        requires
            old(self).inv(),
        ensures
            final(self).inv(),
            final(self).data() == old(self).data(),
            final(self).rpos() == old(self).rpos(),
            final(self).wpos() == if pos <= old(self).data().len() {
                pos as nat
            } else {
                old(self).data().len()
            },
    {
        bb_set_wpos(&mut self.buf, pos);
    }

    /// Reads the byte at the read cursor and advances the cursor by 1; fails
    /// with `OutOfBounds`, changing nothing, when the cursor is at the end.
    pub fn read_byte(&mut self) -> (r: Result<u8, MemoryError>)
        requires
            old(self).inv(),
        ensures
            final(self).inv(),
            final(self).data() == old(self).data(),
            final(self).wpos() == old(self).wpos(),
            if old(self).rpos() < old(self).data().len() {
                r == Ok::<u8, MemoryError>(old(self).data()[old(self).rpos() as int])
                    && final(self).rpos() == old(self).rpos() + 1
            } else {
                r == Err::<u8, MemoryError>(MemoryError::OutOfBounds) && final(self).rpos() == old(
                    self,
                ).rpos()
            },
    {
        match bb_read_u8(&mut self.buf) {
            Some(v) => Ok(v),
            None => Err(MemoryError::OutOfBounds),
        }
    }

    /// Reads the two bytes at the read cursor as one big-endian 16-bit word
    /// and advances the cursor by 2; fails with `OutOfBounds`, changing
    /// nothing, when fewer than two bytes remain.
    pub fn read_word(&mut self) -> (r: Result<u16, MemoryError>)
        requires
            old(self).inv(),
        ensures
            final(self).inv(),
            final(self).data() == old(self).data(),
            final(self).wpos() == old(self).wpos(),
            if old(self).rpos() + 2 <= old(self).data().len() {
                r == Ok::<u16, MemoryError>(
                    word_be(
                        old(self).data()[old(self).rpos() as int],
                        old(self).data()[old(self).rpos() as int + 1],
                    ),
                ) && final(self).rpos() == old(self).rpos() + 2
            } else {
                r == Err::<u16, MemoryError>(MemoryError::OutOfBounds) && final(self).rpos() == old(
                    self,
                ).rpos()
            },
    {
        match bb_read_u16(&mut self.buf) {
            Some(v) => Ok(v),
            None => Err(MemoryError::OutOfBounds),
        }
    }

    /// Writes one byte at the write cursor and advances the cursor by 1;
    /// fails with `OutOfBounds`, changing nothing, when the cursor is at the
    /// end. The buffer never grows.
    pub fn write_byte(&mut self, v: u8) -> (r: Result<(), MemoryError>)
        requires
            old(self).inv(),
        ensures
            final(self).inv(),
            final(self).rpos() == old(self).rpos(),
            if old(self).wpos() < old(self).data().len() {
                r is Ok && final(self).data() == old(self).data().update(old(self).wpos() as int, v)
                    && final(self).wpos() == old(self).wpos() + 1
            } else {
                r == Err::<(), MemoryError>(MemoryError::OutOfBounds) && final(self).data() == old(
                    self,
                ).data() && final(self).wpos() == old(self).wpos()
            },
    {
        let pos = bb_get_wpos(&self.buf);
        let n = bb_len(&self.buf);
        if pos < n {
            bb_write_u8(&mut self.buf, v);
            Ok(())
        } else {
            Err(MemoryError::OutOfBounds)
        }
    }

    /// Writes one 16-bit word big-endian at the write cursor and advances the
    /// cursor by 2; fails with `OutOfBounds`, changing nothing, when fewer
    /// than two bytes of room remain. The buffer never grows.
    pub fn write_word(&mut self, v: u16) -> (r: Result<(), MemoryError>)
        requires
            old(self).inv(),
        ensures
            final(self).inv(),
            final(self).rpos() == old(self).rpos(),
            if old(self).wpos() + 2 <= old(self).data().len() {
                r is Ok && final(self).data() == old(self).data().update(
                    old(self).wpos() as int,
                    word_hi(v),
                ).update(old(self).wpos() as int + 1, word_lo(v)) && final(self).wpos() == old(self).wpos()
                    + 2
            } else {
                r == Err::<(), MemoryError>(MemoryError::OutOfBounds) && final(self).data() == old(
                    self,
                ).data() && final(self).wpos() == old(self).wpos()
            },
    {
        let pos = bb_get_wpos(&self.buf);
        let n = bb_len(&self.buf);
        if pos < n && pos + 1 < n {
            bb_write_u16(&mut self.buf, v);
            Ok(())
        } else {
            Err(MemoryError::OutOfBounds)
        }
    }

    /// Installs a program: overwrites the start of the memory with the given
    /// bytes and leaves the write cursor past them. A program longer than the
    /// memory is rejected atomically, before any byte is written.
    pub fn bulk_write(&mut self, bytes: &Vec<u8>) -> (r: Result<(), MemoryError>)
        requires
            old(self).inv(),
        ensures
            final(self).inv(),
            final(self).rpos() == old(self).rpos(),
            if bytes@.len() <= old(self).data().len() {
                r is Ok && final(self).data() == bytes@ + old(self).data().skip(bytes@.len() as int)
                    && final(self).wpos() == bytes@.len()
            } else {
                r == Err::<(), MemoryError>(MemoryError::OutOfBounds) && final(self).data() == old(
                    self,
                ).data() && final(self).wpos() == old(self).wpos()
            },
    {
        let n = bb_len(&self.buf);
        if bytes.len() <= n {
            bb_set_wpos(&mut self.buf, 0);
            bb_write_bytes(&mut self.buf, bytes);
            proof {
                assert(self.data() =~= bytes@ + old(self).data().skip(bytes@.len() as int));
            }
            Ok(())
        } else {
            Err(MemoryError::OutOfBounds)
        }
    }
}

/// Splitting a 16-bit word into its big-endian bytes and reassembling them
/// gives the word back.
pub proof fn lemma_word_split(v: u16)
    ensures
        word_be(word_hi(v), word_lo(v)) == v,
{
    vstd::arithmetic::div_mod::lemma_fundamental_div_mod(v as int, 256);
}

/// Allocates a zero-filled memory of the given size, with the read cursor at
/// the start and the write cursor at the end.
pub fn create_memory(size_in_bytes: usize) -> (m: Memory)
    ensures
        m.inv(),
        m.data() == Seq::new(size_in_bytes as nat, |i: int| 0u8),
        m.rpos() == 0,
        m.wpos() == size_in_bytes,
{
    let mut bytes: Vec<u8> = Vec::new();
    let mut i: usize = 0;
    while i < size_in_bytes
        invariant
            i <= size_in_bytes,
            bytes@.len() == i,
            forall|j: int| 0 <= j < i ==> bytes@[j] == 0u8,
        decreases size_in_bytes - i,
    {
        bytes.push(0u8);
        i = i + 1;
    }
    proof {
        assert(bytes@ =~= Seq::new(size_in_bytes as nat, |i: int| 0u8));
    }
    let buf = bb_from_vec(bytes);
    Memory { buf }
}

} // verus!
