//! The bounds-checked byte cursor: sequential, position-tracked read access
//! over an immutable byte buffer. Every read is checked against the bytes
//! remaining; a read that would run past the end returns `None` and leaves
//! the position unchanged. Views handed out borrow from the original buffer.

use vstd::prelude::*;

use crate::wire::{le_u128, le_u128_seq, le_u16, le_u16_seq, le_u32, le_u32_seq, le_u64, le_u64_seq};

verus! {

/// The one way a cursor operation can fail: a position or length that does
/// not fit inside the buffer.
#[derive(Debug, Clone, Copy, PartialEq, Eq, Structural)]
pub enum ReadError {
    BufferOverflow,
}

/// A read position over a borrowed byte buffer. The position never exceeds
/// the buffer length; every successful read advances it by exactly the
/// number of bytes consumed, and a failed read leaves it unchanged.
#[derive(Debug)]
pub struct Reader<'p> {
    buf: &'p [u8],
    pos: usize,
}

impl<'p> Reader<'p> {
    /// The bytes the cursor ranges over.
    pub closed spec fn bytes(&self) -> Seq<u8> {
        self.buf@
    }

    /// The current read position.
    pub closed spec fn spec_pos(&self) -> int {
        self.pos as int
    }

    /// The cursor invariant: the position stays inside the buffer.
    pub open spec fn wf(&self) -> bool {
        0 <= self.spec_pos() <= self.bytes().len()
    }

    /// How many bytes are left to read.
    pub open spec fn spec_remaining(&self) -> int {
        self.bytes().len() - self.spec_pos()
    }

    /// The bytes still ahead of the cursor.
    pub open spec fn rest(&self) -> Seq<u8> {
        self.bytes().skip(self.spec_pos())
    }

    /// A cursor over `buf`, positioned at its start.
    pub fn new(buf: &'p [u8]) -> (r: Self)
        ensures
            r.bytes() == buf@,
            r.spec_pos() == 0,
    {
        Reader { buf, pos: 0 }
    }

    /// The current read position.
    pub fn pos(&self) -> (r: usize)
        ensures
            r == self.spec_pos(),
    {
        self.pos
    }

    /// How many bytes are left to read.
    pub fn remaining(&self) -> (r: usize)
        requires
            self.wf(),
        ensures
            r == self.spec_remaining(),
    {
        self.buf.len() - self.pos
    }

    /// Moves the cursor to an absolute position; fails, changing nothing,
    /// if the position lies beyond the buffer.
    pub fn seek(&mut self, pos: usize) -> (r: Result<(), ReadError>)
        ensures
            final(self).bytes() == old(self).bytes(),
            pos <= old(self).bytes().len() ==> r is Ok && final(self).spec_pos() == pos,
            pos > old(self).bytes().len() ==> r == Err::<(), ReadError>(ReadError::BufferOverflow)
                && final(self).spec_pos() == old(self).spec_pos(),
    {
        if pos > self.buf.len() {
            return Err(ReadError::BufferOverflow);
        }
        self.pos = pos;
        Ok(())
    }

    /// Reads the next byte.
    pub fn read_u8(&mut self) -> (r: Option<u8>)
        requires
            old(self).wf(),
        ensures
            final(self).wf(),
            final(self).bytes() == old(self).bytes(),
            old(self).spec_remaining() >= 1 ==> r == Some(old(self).bytes()[old(self).spec_pos()])
                && final(self).spec_pos() == old(self).spec_pos() + 1,
            old(self).spec_remaining() < 1 ==> r is None && final(self).spec_pos() == old(self).spec_pos(),
    {
        if self.buf.len() - self.pos < 1 {
            return None;
        }
        let b = self.buf[self.pos];
        self.pos = self.pos + 1;
        Some(b)
    }

    /// Reads the next two bytes as a little-endian 16-bit value.
    pub fn read_u16(&mut self) -> (r: Option<u16>)
        requires
            old(self).wf(),
        ensures
            final(self).wf(),
            final(self).bytes() == old(self).bytes(),
            old(self).spec_remaining() >= 2 ==> r == Some(
                le_u16(old(self).bytes().subrange(old(self).spec_pos(), old(self).spec_pos() + 2)),
            ) && final(self).spec_pos() == old(self).spec_pos() + 2,
            old(self).spec_remaining() < 2 ==> r is None && final(self).spec_pos() == old(self).spec_pos(),
    {
        if self.buf.len() - self.pos < 2 {
            return None;
        }
        let b0 = self.buf[self.pos];
        let b1 = self.buf[self.pos + 1];
        self.pos = self.pos + 2;
        Some(b0 as u16 + b1 as u16 * 0x100)
    }

    /// Reads the next four bytes as a little-endian 32-bit value.
    pub fn read_u32(&mut self) -> (r: Option<u32>)
        requires
            old(self).wf(),
        ensures
            final(self).wf(),
            final(self).bytes() == old(self).bytes(),
            old(self).spec_remaining() >= 4 ==> r == Some(
                le_u32(old(self).bytes().subrange(old(self).spec_pos(), old(self).spec_pos() + 4)),
            ) && final(self).spec_pos() == old(self).spec_pos() + 4,
            old(self).spec_remaining() < 4 ==> r is None && final(self).spec_pos() == old(self).spec_pos(),
    {
        if self.buf.len() - self.pos < 4 {
            return None;
        }
        let b0 = self.buf[self.pos];
        let b1 = self.buf[self.pos + 1];
        let b2 = self.buf[self.pos + 2];
        let b3 = self.buf[self.pos + 3];
        self.pos = self.pos + 4;
        Some(b0 as u32 + b1 as u32 * 0x100 + b2 as u32 * 0x1_0000 + b3 as u32 * 0x100_0000)
    }

    /// Reads the next eight bytes as a little-endian 64-bit value.
    pub fn read_u64(&mut self) -> (r: Option<u64>)
        requires
            old(self).wf(),
        ensures
            final(self).wf(),
            final(self).bytes() == old(self).bytes(),
            old(self).spec_remaining() >= 8 ==> r == Some(
                le_u64(old(self).bytes().subrange(old(self).spec_pos(), old(self).spec_pos() + 8)),
            ) && final(self).spec_pos() == old(self).spec_pos() + 8,
            old(self).spec_remaining() < 8 ==> r is None && final(self).spec_pos() == old(self).spec_pos(),
    {
        if self.buf.len() - self.pos < 8 {
            return None;
        }
        let ghost s = self.bytes().subrange(self.spec_pos(), self.spec_pos() + 8);
        let lo = self.read_u32().unwrap();
        let hi = self.read_u32().unwrap();
        proof {
            assert(s.subrange(0, 4) =~= old(self).bytes().subrange(
                old(self).spec_pos(),
                old(self).spec_pos() + 4,
            ));
            assert(s.subrange(4, 8) =~= old(self).bytes().subrange(
                old(self).spec_pos() + 4,
                old(self).spec_pos() + 8,
            ));
        }
        Some(lo as u64 + hi as u64 * 0x1_0000_0000)
    }

    /// Reads the next sixteen bytes as a little-endian 128-bit value.
    pub fn read_u128(&mut self) -> (r: Option<u128>)
        requires
            old(self).wf(),
        ensures
            final(self).wf(),
            final(self).bytes() == old(self).bytes(),
            old(self).spec_remaining() >= 16 ==> r == Some(
                le_u128(
                    old(self).bytes().subrange(old(self).spec_pos(), old(self).spec_pos() + 16),
                ),
            ) && final(self).spec_pos() == old(self).spec_pos() + 16,
            old(self).spec_remaining() < 16 ==> r is None && final(self).spec_pos() == old(self).spec_pos(),
    {
        if self.buf.len() - self.pos < 16 {
            return None;
        }
        let ghost s = self.bytes().subrange(self.spec_pos(), self.spec_pos() + 16);
        let lo = self.read_u64().unwrap();
        let hi = self.read_u64().unwrap();
        proof {
            assert(s.subrange(0, 8) =~= old(self).bytes().subrange(
                old(self).spec_pos(),
                old(self).spec_pos() + 8,
            ));
            assert(s.subrange(8, 16) =~= old(self).bytes().subrange(
                old(self).spec_pos() + 8,
                old(self).spec_pos() + 16,
            ));
        }
        Some(lo as u128 + hi as u128 * 0x1_0000_0000_0000_0000)
    }

    /// Reads the next `len` bytes as a borrowed slice of the buffer.
    pub fn read_u8_slice(&mut self, len: usize) -> (r: Option<&'p [u8]>)
        requires
            old(self).wf(),
        ensures
            final(self).wf(),
            final(self).bytes() == old(self).bytes(),
            old(self).spec_remaining() >= len ==> (match r {
                Some(s) => s@ == old(self).bytes().subrange(
                    old(self).spec_pos(),
                    old(self).spec_pos() + len,
                ),
                None => false,
            }) && final(self).spec_pos() == old(self).spec_pos() + len,
            old(self).spec_remaining() < len ==> r is None && final(self).spec_pos() == old(self).spec_pos(),
    {
        if self.buf.len() - self.pos < len {
            return None;
        }
        let whole: &'p [u8] = self.buf;
        let s = &whole[self.pos..self.pos + len];
        self.pos = self.pos + len;
        Some(s)
    }

    /// Reinterprets the next `len` bytes as a view of little-endian 16-bit
    /// values; fails, changing nothing, unless `len` is a multiple of two
    /// that fits in the bytes remaining.
    pub fn read_u16_slice(&mut self, len: usize) -> (r: Option<U16Slice<'p>>)
        requires
            old(self).wf(),
        ensures
            final(self).wf(),
            final(self).bytes() == old(self).bytes(),
            old(self).spec_remaining() >= len && len % 2 == 0 ==> (match r {
                Some(v) => v@ == le_u16_seq(
                    old(self).bytes().subrange(old(self).spec_pos(), old(self).spec_pos() + len),
                ) && v@.len() == len / 2,
                None => false,
            }) && final(self).spec_pos() == old(self).spec_pos() + len,
            !(old(self).spec_remaining() >= len && len % 2 == 0) ==> r is None && final(self).spec_pos() == old(self).spec_pos(),
    {
        if self.buf.len() - self.pos < len || len % 2 != 0 {
            return None;
        }
        let whole: &'p [u8] = self.buf;
        let s = &whole[self.pos..self.pos + len];
        self.pos = self.pos + len;
        Some(U16Slice { bytes: s })
    }

    /// Reinterprets the next `len` bytes as a view of little-endian 32-bit
    /// values; fails, changing nothing, unless `len` is a multiple of four
    /// that fits in the bytes remaining.
    pub fn read_u32_slice(&mut self, len: usize) -> (r: Option<U32Slice<'p>>)
        requires
            old(self).wf(),
        ensures
            final(self).wf(),
            final(self).bytes() == old(self).bytes(),
            old(self).spec_remaining() >= len && len % 4 == 0 ==> (match r {
                Some(v) => v@ == le_u32_seq(
                    old(self).bytes().subrange(old(self).spec_pos(), old(self).spec_pos() + len),
                ) && v@.len() == len / 4,
                None => false,
            }) && final(self).spec_pos() == old(self).spec_pos() + len,
            !(old(self).spec_remaining() >= len && len % 4 == 0) ==> r is None && final(self).spec_pos() == old(self).spec_pos(),
    {
        if self.buf.len() - self.pos < len || len % 4 != 0 {
            return None;
        }
        let whole: &'p [u8] = self.buf;
        let s = &whole[self.pos..self.pos + len];
        self.pos = self.pos + len;
        Some(U32Slice { bytes: s })
    }

    /// Reinterprets the next `len` bytes as a view of little-endian 64-bit
    /// values; fails, changing nothing, unless `len` is a multiple of eight
    /// that fits in the bytes remaining.
    pub fn read_u64_slice(&mut self, len: usize) -> (r: Option<U64Slice<'p>>)
        requires
            old(self).wf(),
        ensures
            final(self).wf(),
            final(self).bytes() == old(self).bytes(),
            old(self).spec_remaining() >= len && len % 8 == 0 ==> (match r {
                Some(v) => v@ == le_u64_seq(
                    old(self).bytes().subrange(old(self).spec_pos(), old(self).spec_pos() + len),
                ) && v@.len() == len / 8,
                None => false,
            }) && final(self).spec_pos() == old(self).spec_pos() + len,
            !(old(self).spec_remaining() >= len && len % 8 == 0) ==> r is None && final(self).spec_pos() == old(self).spec_pos(),
    {
        if self.buf.len() - self.pos < len || len % 8 != 0 {
            return None;
        }
        let whole: &'p [u8] = self.buf;
        let s = &whole[self.pos..self.pos + len];
        self.pos = self.pos + len;
        Some(U64Slice { bytes: s })
    }

    /// Reinterprets the next `len` bytes as a view of little-endian 128-bit
    /// values; fails, changing nothing, unless `len` is a multiple of sixteen
    /// that fits in the bytes remaining.
    pub fn read_u128_slice(&mut self, len: usize) -> (r: Option<U128Slice<'p>>)
        requires
            old(self).wf(),
        ensures
            final(self).wf(),
            final(self).bytes() == old(self).bytes(),
            old(self).spec_remaining() >= len && len % 16 == 0 ==> (match r {
                Some(v) => v@ == le_u128_seq(
                    old(self).bytes().subrange(old(self).spec_pos(), old(self).spec_pos() + len),
                ) && v@.len() == len / 16,
                None => false,
            }) && final(self).spec_pos() == old(self).spec_pos() + len,
            !(old(self).spec_remaining() >= len && len % 16 == 0) ==> r is None && final(self).spec_pos() == old(self).spec_pos(),
    {
        if self.buf.len() - self.pos < len || len % 16 != 0 {
            return None;
        }
        let whole: &'p [u8] = self.buf;
        let s = &whole[self.pos..self.pos + len];
        self.pos = self.pos + len;
        Some(U128Slice { bytes: s })
    }
}

/// A borrowed run of bytes viewed as little-endian 16-bit values, without
/// copying. The byte length is always a multiple of two.
#[derive(Debug)]
pub struct U16Slice<'p> {
    bytes: &'p [u8],
}

impl<'p> View for U16Slice<'p> {
    type V = Seq<u16>;

    closed spec fn view(&self) -> Seq<u16> {
        le_u16_seq(self.bytes@)
    }
}

impl<'p> U16Slice<'p> {
    /// The number of 16-bit values in the view.
    pub fn len(&self) -> (r: usize)
        ensures
            r == self@.len(),
    {
        self.bytes.len() / 2
    }

    /// The `i`th 16-bit value.
    pub fn get(&self, i: usize) -> (r: u16)
        requires
            i < self@.len(),
        ensures
            r == self@[i as int],
    {
        let n = self.bytes.len();
        proof {
            assert(2 * i + 2 <= n);
        }
        let b0 = self.bytes[2 * i];
        let b1 = self.bytes[2 * i + 1];
        proof {
            assert(self.bytes@.subrange(2 * i, 2 * i + 2)[0] == self.bytes@[2 * i as int]);
            assert(self.bytes@.subrange(2 * i, 2 * i + 2)[1] == self.bytes@[2 * i + 1]);
        }
        b0 as u16 + b1 as u16 * 0x100
    }
}

/// A borrowed run of bytes viewed as little-endian 32-bit values, without
/// copying. The byte length is always a multiple of four.
#[derive(Debug)]
pub struct U32Slice<'p> {
    bytes: &'p [u8],
}

impl<'p> View for U32Slice<'p> {
    type V = Seq<u32>;

    closed spec fn view(&self) -> Seq<u32> {
        le_u32_seq(self.bytes@)
    }
}

impl<'p> U32Slice<'p> {
    /// The number of 32-bit values in the view.
    pub fn len(&self) -> (r: usize)
        ensures
            r == self@.len(),
    {
        self.bytes.len() / 4
    }

    /// The `i`th 32-bit value.
    pub fn get(&self, i: usize) -> (r: u32)
        requires
            i < self@.len(),
        ensures
            r == self@[i as int],
    {
        let n = self.bytes.len();
        proof {
            assert(4 * i + 4 <= n);
        }
        let b0 = self.bytes[4 * i];
        let b1 = self.bytes[4 * i + 1];
        let b2 = self.bytes[4 * i + 2];
        let b3 = self.bytes[4 * i + 3];
        proof {
            let s = self.bytes@.subrange(4 * i, 4 * i + 4);
            assert(s[0] == self.bytes@[4 * i as int]);
            assert(s[1] == self.bytes@[4 * i + 1]);
            assert(s[2] == self.bytes@[4 * i + 2]);
            assert(s[3] == self.bytes@[4 * i + 3]);
        }
        b0 as u32 + b1 as u32 * 0x100 + b2 as u32 * 0x1_0000 + b3 as u32 * 0x100_0000
    }
}

/// A borrowed run of bytes viewed as little-endian 64-bit values, without
/// copying. The byte length is always a multiple of eight.
#[derive(Debug)]
pub struct U64Slice<'p> {
    bytes: &'p [u8],
}

impl<'p> View for U64Slice<'p> {
    type V = Seq<u64>;

    closed spec fn view(&self) -> Seq<u64> {
        le_u64_seq(self.bytes@)
    }
}

impl<'p> U64Slice<'p> {
    /// The number of 64-bit values in the view.
    pub fn len(&self) -> (r: usize)
        ensures
            r == self@.len(),
    {
        self.bytes.len() / 8
    }

    /// The `i`th 64-bit value.
    pub fn get(&self, i: usize) -> (r: u64)
        requires
            i < self@.len(),
        ensures
            r == self@[i as int],
    {
        let n = self.bytes.len();
        proof {
            assert(8 * i + 8 <= n);
        }
        let mut r = Reader::new(self.bytes);
        let ok = r.seek(8 * i);
        proof {
            assert(ok is Ok);
        }
        let v = r.read_u64().unwrap();
        proof {
            assert(self.bytes@.subrange(8 * i, 8 * i + 8) =~= self.bytes@.subrange(
                8 * i,
                8 * i + 8,
            ));
        }
        v
    }
}

/// A borrowed run of bytes viewed as little-endian 128-bit values, without
/// copying. The byte length is always a multiple of sixteen.
#[derive(Debug)]
pub struct U128Slice<'p> {
    bytes: &'p [u8],
}

impl<'p> View for U128Slice<'p> {
    type V = Seq<u128>;

    closed spec fn view(&self) -> Seq<u128> {
        le_u128_seq(self.bytes@)
    }
}

impl<'p> U128Slice<'p> {
    /// The number of 128-bit values in the view.
    pub fn len(&self) -> (r: usize)
        ensures
            r == self@.len(),
    {
        self.bytes.len() / 16
    }

    /// The `i`th 128-bit value.
    pub fn get(&self, i: usize) -> (r: u128)
        requires
            i < self@.len(),
        ensures
            r == self@[i as int],
    {
        let n = self.bytes.len();
        proof {
            assert(16 * i + 16 <= n);
        }
        let mut r = Reader::new(self.bytes);
        let ok = r.seek(16 * i);
        proof {
            assert(ok is Ok);
        }
        r.read_u128().unwrap()
    }
}

} // verus!
