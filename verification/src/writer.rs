//! The symmetric writer utility: sequential little-endian writes into a
//! caller-supplied buffer. Mirroring the bounds-checked cursor, a write
//! succeeds exactly when its bytes fit in the buffer, the last byte
//! included; one that does not fit leaves the buffer and the position
//! unchanged and reports an overflow.

use vstd::prelude::*;
use vstd::pervasive::VecAdditionalExecFns;

use crate::wire::{u128_to_le, u16_to_le, u32_to_le, u64_to_le};

verus! {

/// The ways a write can fail.
#[derive(Debug, Clone, Copy, PartialEq, Eq, Structural)]
pub enum WriteError {
    BufferOverflow,
    InvalidFormat,
}

/// Consecutive 16-bit values encoded as little-endian byte pairs.
pub open spec fn seq_u16_le(s: Seq<u16>) -> Seq<u8> {
    Seq::new(2 * s.len(), |i: int| u16_to_le(s[i / 2])[i % 2])
}

/// Consecutive 32-bit values encoded as little-endian byte quadruples.
pub open spec fn seq_u32_le(s: Seq<u32>) -> Seq<u8> {
    Seq::new(4 * s.len(), |i: int| u32_to_le(s[i / 4])[i % 4])
}

/// Consecutive 64-bit values encoded as groups of eight little-endian bytes.
pub open spec fn seq_u64_le(s: Seq<u64>) -> Seq<u8> {
    Seq::new(8 * s.len(), |i: int| u64_to_le(s[i / 8])[i % 8])
}

/// Consecutive 128-bit values encoded as groups of sixteen little-endian bytes.
pub open spec fn seq_u128_le(s: Seq<u128>) -> Seq<u8> {
    Seq::new(16 * s.len(), |i: int| u128_to_le(s[i / 16])[i % 16])
}

/// A write position over an owned byte buffer. The buffer's length never
/// changes; successful writes overwrite bytes in place and advance the
/// position by exactly the number of bytes written.
#[derive(Debug)]
pub struct Writer {
    buf: Vec<u8>,
    pos: usize,
}

impl Writer {
    /// The bytes of the buffer being written.
    pub closed spec fn bytes(&self) -> Seq<u8> {
        self.buf@
    }

    /// The current write position.
    pub closed spec fn spec_pos(&self) -> int {
        self.pos as int
    }

    /// The writer invariant: the position stays inside the buffer.
    pub open spec fn wf(&self) -> bool {
        0 <= self.spec_pos() <= self.bytes().len()
    }

    /// Whether a run of `n` more bytes can be written: they must fit within
    /// the buffer, its last byte included.
    pub open spec fn fits(&self, n: nat) -> bool {
        self.spec_pos() + n <= self.bytes().len()
    }

    /// A writer over `buf`, positioned at its start.
    pub fn new(buf: Vec<u8>) -> (r: Self)
        ensures
            r.bytes() == buf@,
            r.spec_pos() == 0,
    {
        Writer { buf, pos: 0 }
    }

    /// The current write position.
    pub fn pos(&self) -> (r: usize)
        ensures
            r == self.spec_pos(),
    {
        self.pos
    }

    /// Gives the buffer back, with everything written in place.
    pub fn into_buf(self) -> (r: Vec<u8>)
        ensures
            r@ == self.bytes(),
    {
        self.buf
    }

    /// Writes the bytes of `slice` at the current position.
    pub fn write_u8_slice(&mut self, slice: &[u8]) -> (r: Result<(), WriteError>)
        requires
            old(self).wf(),
        ensures
            final(self).wf(),
            old(self).fits(slice@.len()) ==> r is Ok && final(self).bytes() == old(self).bytes().take(old(self).spec_pos()) + slice@ + old(self).bytes().skip(
                old(self).spec_pos() + slice@.len(),
            ) && final(self).spec_pos() == old(self).spec_pos() + slice@.len(),
            !old(self).fits(slice@.len()) ==> r == Err::<(), WriteError>(WriteError::BufferOverflow)
                && final(self).bytes() == old(self).bytes() && final(self).spec_pos() == old(self).spec_pos(),
    {
        if slice.len() > self.buf.len() - self.pos {
            return Err(WriteError::BufferOverflow);
        }
        let buf_len: usize = self.buf.len();
        let ghost orig = self.buf@;
        let ghost start = self.spec_pos();
        let mut i: usize = 0;
        while i < slice.len()
            invariant
                self.pos == start,
                start + slice@.len() <= self.buf@.len(),
                i <= slice@.len(),
                self.buf@.len() == orig.len(),
                self.buf@.len() == buf_len,
                forall|k: int| 0 <= k < start ==> self.buf@[k] == orig[k],
                forall|k: int| start <= k < start + i ==> self.buf@[k] == slice@[k - start],
                forall|k: int| start + i <= k < orig.len() ==> self.buf@[k] == orig[k],
            decreases slice@.len() - i,
        {
            self.buf.set(self.pos + i, slice[i]);
            i = i + 1;
        }
        self.pos = self.pos + slice.len();
        proof {
            assert(self.buf@ =~= orig.take(start) + slice@ + orig.skip(start + slice@.len()));
        }
        Ok(())
    }

    /// Writes one byte at the current position.
    pub fn write_u8(&mut self, value: u8) -> (r: Result<(), WriteError>)
        requires
            old(self).wf(),
        ensures
            final(self).wf(),
            old(self).fits(1) ==> r is Ok && final(self).bytes() == old(self).bytes().take(
                old(self).spec_pos(),
            ) + seq![value] + old(self).bytes().skip(old(self).spec_pos() + 1) && final(self).spec_pos() == old(self).spec_pos() + 1,
            !old(self).fits(1) ==> r == Err::<(), WriteError>(WriteError::BufferOverflow) && final(self).bytes() == old(self).bytes() && final(self).spec_pos() == old(self).spec_pos(),
    {
        let arr: [u8; 1] = [value];
        let res = self.write_u8_slice(arr.as_slice());
        proof {
            assert(arr@ =~= seq![value]);
        }
        res
    }

    /// Writes a 16-bit value at the current position, least significant
    /// byte first.
    pub fn write_u16(&mut self, value: u16) -> (r: Result<(), WriteError>)
        requires
            old(self).wf(),
        ensures
            final(self).wf(),
            old(self).fits(2) ==> r is Ok && final(self).bytes() == old(self).bytes().take(
                old(self).spec_pos(),
            ) + u16_to_le(value) + old(self).bytes().skip(old(self).spec_pos() + 2) && final(self).spec_pos() == old(self).spec_pos() + 2,
            !old(self).fits(2) ==> r == Err::<(), WriteError>(WriteError::BufferOverflow) && final(self).bytes() == old(self).bytes() && final(self).spec_pos() == old(self).spec_pos(),
    {
        let arr: [u8; 2] = [(value % 0x100) as u8, (value / 0x100) as u8];
        let res = self.write_u8_slice(arr.as_slice());
        proof {
            assert(arr@ =~= u16_to_le(value));
        }
        res
    }

    /// Writes a 32-bit value at the current position, least significant
    /// byte first.
    pub fn write_u32(&mut self, value: u32) -> (r: Result<(), WriteError>)
        requires
            old(self).wf(),
        ensures
            final(self).wf(),
            old(self).fits(4) ==> r is Ok && final(self).bytes() == old(self).bytes().take(
                old(self).spec_pos(),
            ) + u32_to_le(value) + old(self).bytes().skip(old(self).spec_pos() + 4) && final(self).spec_pos() == old(self).spec_pos() + 4,
            !old(self).fits(4) ==> r == Err::<(), WriteError>(WriteError::BufferOverflow) && final(self).bytes() == old(self).bytes() && final(self).spec_pos() == old(self).spec_pos(),
    {
        let arr: [u8; 4] = [
            (value % 0x100) as u8,
            ((value / 0x100) % 0x100) as u8,
            ((value / 0x1_0000) % 0x100) as u8,
            ((value / 0x100_0000) % 0x100) as u8,
        ];
        let res = self.write_u8_slice(arr.as_slice());
        proof {
            assert(arr@ =~= u32_to_le(value));
        }
        res
    }

    /// Writes a 64-bit value at the current position, least significant
    /// byte first.
    pub fn write_u64(&mut self, value: u64) -> (r: Result<(), WriteError>)
        requires
            old(self).wf(),
        ensures
            final(self).wf(),
            old(self).fits(8) ==> r is Ok && final(self).bytes() == old(self).bytes().take(
                old(self).spec_pos(),
            ) + u64_to_le(value) + old(self).bytes().skip(old(self).spec_pos() + 8) && final(self).spec_pos() == old(self).spec_pos() + 8,
            !old(self).fits(8) ==> r == Err::<(), WriteError>(WriteError::BufferOverflow) && final(self).bytes() == old(self).bytes() && final(self).spec_pos() == old(self).spec_pos(),
    {
        let lo = (value % 0x1_0000_0000) as u32;
        let hi = (value / 0x1_0000_0000) as u32;
        let arr: [u8; 8] = [
            (lo % 0x100) as u8,
            ((lo / 0x100) % 0x100) as u8,
            ((lo / 0x1_0000) % 0x100) as u8,
            ((lo / 0x100_0000) % 0x100) as u8,
            (hi % 0x100) as u8,
            ((hi / 0x100) % 0x100) as u8,
            ((hi / 0x1_0000) % 0x100) as u8,
            ((hi / 0x100_0000) % 0x100) as u8,
        ];
        let res = self.write_u8_slice(arr.as_slice());
        proof {
            assert(arr@ =~= u64_to_le(value));
        }
        res
    }

    /// Writes a 128-bit value at the current position, least significant
    /// byte first.
    pub fn write_u128(&mut self, value: u128) -> (r: Result<(), WriteError>)
        requires
            old(self).wf(),
        ensures
            final(self).wf(),
            old(self).fits(16) ==> r is Ok && final(self).bytes() == old(self).bytes().take(
                old(self).spec_pos(),
            ) + u128_to_le(value) + old(self).bytes().skip(old(self).spec_pos() + 16) && final(self).spec_pos() == old(self).spec_pos() + 16,
            !old(self).fits(16) ==> r == Err::<(), WriteError>(WriteError::BufferOverflow) && final(self).bytes() == old(self).bytes() && final(self).spec_pos() == old(self).spec_pos(),
    {
        let lo = (value % 0x1_0000_0000_0000_0000) as u64;
        let hi = (value / 0x1_0000_0000_0000_0000) as u64;
        let lo0 = (lo % 0x1_0000_0000) as u32;
        let lo1 = (lo / 0x1_0000_0000) as u32;
        let hi0 = (hi % 0x1_0000_0000) as u32;
        let hi1 = (hi / 0x1_0000_0000) as u32;
        let arr: [u8; 16] = [
            (lo0 % 0x100) as u8,
            ((lo0 / 0x100) % 0x100) as u8,
            ((lo0 / 0x1_0000) % 0x100) as u8,
            ((lo0 / 0x100_0000) % 0x100) as u8,
            (lo1 % 0x100) as u8,
            ((lo1 / 0x100) % 0x100) as u8,
            ((lo1 / 0x1_0000) % 0x100) as u8,
            ((lo1 / 0x100_0000) % 0x100) as u8,
            (hi0 % 0x100) as u8,
            ((hi0 / 0x100) % 0x100) as u8,
            ((hi0 / 0x1_0000) % 0x100) as u8,
            ((hi0 / 0x100_0000) % 0x100) as u8,
            (hi1 % 0x100) as u8,
            ((hi1 / 0x100) % 0x100) as u8,
            ((hi1 / 0x1_0000) % 0x100) as u8,
            ((hi1 / 0x100_0000) % 0x100) as u8,
        ];
        let res = self.write_u8_slice(arr.as_slice());
        proof {
            assert(arr@ =~= u128_to_le(value));
        }
        res
    }

    /// Writes each 16-bit value of `slice` in order, least significant byte
    /// first. Fails when the encoded bytes do not fit.
    pub fn write_u16_slice(&mut self, slice: &[u16]) -> (r: Result<(), WriteError>)
        requires
            old(self).wf(),
        ensures
            final(self).wf(),
            old(self).fits((2 * slice@.len()) as nat) ==> r is Ok && final(self).bytes() == old(self).bytes().take(
                old(self).spec_pos(),
            ) + seq_u16_le(slice@) + old(self).bytes().skip(old(self).spec_pos() + 2 * slice@.len())
                && final(self).spec_pos() == old(self).spec_pos() + 2 * slice@.len(),
            !old(self).fits((2 * slice@.len()) as nat) ==> r == Err::<(), WriteError>(WriteError::BufferOverflow) && final(self).bytes() == old(self).bytes() && final(self).spec_pos() == old(self).spec_pos(),
    {
        if slice.len() > (self.buf.len() - self.pos) / 2 {
            return Err(WriteError::BufferOverflow);
        }
        let buf_len: usize = self.buf.len();
        let ghost orig = self.buf@;
        let ghost start = self.spec_pos();
        let ghost wide = seq_u16_le(slice@);
        let mut j: usize = 0;
        while j < slice.len()
            invariant
                self.pos == start,
                start + 2 * slice@.len() <= self.buf@.len(),
                wide == seq_u16_le(slice@),
                j <= slice@.len(),
                self.buf@.len() == orig.len(),
                self.buf@.len() == buf_len,
                forall|k: int| 0 <= k < start ==> self.buf@[k] == orig[k],
                forall|k: int| start <= k < start + 2 * j ==> self.buf@[k] == wide[k - start],
                forall|k: int| start + 2 * j <= k < orig.len() ==> self.buf@[k] == orig[k],
            decreases slice@.len() - j,
        {
            let v = slice[j];
            self.buf.set(self.pos + 2 * j, (v % 0x100) as u8);
            self.buf.set(self.pos + 2 * j + 1, (v / 0x100) as u8);
            proof {
                assert(wide[2 * j as int] == u16_to_le(slice@[j as int])[0]);
                assert(wide[2 * j + 1] == u16_to_le(slice@[j as int])[1]);
            }
            j = j + 1;
        }
        self.pos = self.pos + 2 * slice.len();
        proof {
            assert(self.buf@ =~= orig.take(start) + wide + orig.skip(start + 2 * slice@.len()));
        }
        Ok(())
    }

    /// Writes each 32-bit value of `slice` in order, least significant byte
    /// first. Fails when the encoded bytes do not fit.
    pub fn write_u32_slice(&mut self, slice: &[u32]) -> (r: Result<(), WriteError>)
        requires
            old(self).wf(),
        ensures
            final(self).wf(),
            old(self).fits((4 * slice@.len()) as nat) ==> r is Ok && final(self).bytes() == old(self).bytes().take(
                old(self).spec_pos(),
            ) + seq_u32_le(slice@) + old(self).bytes().skip(old(self).spec_pos() + 4 * slice@.len())
                && final(self).spec_pos() == old(self).spec_pos() + 4 * slice@.len(),
            !old(self).fits((4 * slice@.len()) as nat) ==> r == Err::<(), WriteError>(WriteError::BufferOverflow) && final(self).bytes() == old(self).bytes() && final(self).spec_pos() == old(self).spec_pos(),
    {
        if slice.len() > (self.buf.len() - self.pos) / 4 {
            return Err(WriteError::BufferOverflow);
        }
        let buf_len: usize = self.buf.len();
        let ghost orig = self.buf@;
        let ghost start = self.spec_pos();
        let ghost wide = seq_u32_le(slice@);
        let mut j: usize = 0;
        while j < slice.len()
            invariant
                self.pos == start,
                start + 4 * slice@.len() <= self.buf@.len(),
                wide == seq_u32_le(slice@),
                j <= slice@.len(),
                self.buf@.len() == orig.len(),
                self.buf@.len() == buf_len,
                forall|k: int| 0 <= k < start ==> self.buf@[k] == orig[k],
                forall|k: int| start <= k < start + 4 * j ==> self.buf@[k] == wide[k - start],
                forall|k: int| start + 4 * j <= k < orig.len() ==> self.buf@[k] == orig[k],
            decreases slice@.len() - j,
        {
            let v = slice[j];
            self.buf.set(self.pos + 4 * j, (v % 0x100) as u8);
            self.buf.set(self.pos + 4 * j + 1, ((v / 0x100) % 0x100) as u8);
            self.buf.set(self.pos + 4 * j + 2, ((v / 0x1_0000) % 0x100) as u8);
            self.buf.set(self.pos + 4 * j + 3, ((v / 0x100_0000) % 0x100) as u8);
            proof {
                assert forall|t: int| 0 <= t < 4 implies wide[4 * j + t] == u32_to_le(
                    slice@[j as int],
                )[t] by {
                    assert((4 * j + t) / 4 == j);
                    assert((4 * j + t) % 4 == t);
                }
            }
            j = j + 1;
        }
        self.pos = self.pos + 4 * slice.len();
        proof {
            assert(self.buf@ =~= orig.take(start) + wide + orig.skip(start + 4 * slice@.len()));
        }
        Ok(())
    }

    /// Writes each 64-bit value of `slice` in order, least significant byte
    /// first. Fails when the encoded bytes do not fit.
    #[verifier::rlimit(30)]
    pub fn write_u64_slice(&mut self, slice: &[u64]) -> (r: Result<(), WriteError>)
        requires
            old(self).wf(),
        ensures
            final(self).wf(),
            old(self).fits((8 * slice@.len()) as nat) ==> r is Ok && final(self).bytes() == old(self).bytes().take(
                old(self).spec_pos(),
            ) + seq_u64_le(slice@) + old(self).bytes().skip(old(self).spec_pos() + 8 * slice@.len())
                && final(self).spec_pos() == old(self).spec_pos() + 8 * slice@.len(),
            !old(self).fits((8 * slice@.len()) as nat) ==> r == Err::<(), WriteError>(WriteError::BufferOverflow) && final(self).bytes() == old(self).bytes() && final(self).spec_pos() == old(self).spec_pos(),
    {
        if slice.len() > (self.buf.len() - self.pos) / 8 {
            return Err(WriteError::BufferOverflow);
        }
        let buf_len: usize = self.buf.len();
        let ghost orig = self.buf@;
        let ghost start = self.spec_pos();
        let ghost wide = seq_u64_le(slice@);
        let mut j: usize = 0;
        while j < slice.len()
            invariant
                self.pos == start,
                start + 8 * slice@.len() <= self.buf@.len(),
                wide == seq_u64_le(slice@),
                j <= slice@.len(),
                self.buf@.len() == orig.len(),
                self.buf@.len() == buf_len,
                forall|k: int| 0 <= k < start ==> self.buf@[k] == orig[k],
                forall|k: int| start <= k < start + 8 * j ==> self.buf@[k] == wide[k - start],
                forall|k: int| start + 8 * j <= k < orig.len() ==> self.buf@[k] == orig[k],
            decreases slice@.len() - j,
        {
            let v = slice[j];
            let lo = (v % 0x1_0000_0000) as u32;
            let hi = (v / 0x1_0000_0000) as u32;
            self.buf.set(self.pos + 8 * j, (lo % 0x100) as u8);
            self.buf.set(self.pos + 8 * j + 1, ((lo / 0x100) % 0x100) as u8);
            self.buf.set(self.pos + 8 * j + 2, ((lo / 0x1_0000) % 0x100) as u8);
            self.buf.set(self.pos + 8 * j + 3, ((lo / 0x100_0000) % 0x100) as u8);
            self.buf.set(self.pos + 8 * j + 4, (hi % 0x100) as u8);
            self.buf.set(self.pos + 8 * j + 5, ((hi / 0x100) % 0x100) as u8);
            self.buf.set(self.pos + 8 * j + 6, ((hi / 0x1_0000) % 0x100) as u8);
            self.buf.set(self.pos + 8 * j + 7, ((hi / 0x100_0000) % 0x100) as u8);
            proof {
                assert forall|t: int| 0 <= t < 8 implies wide[8 * j + t] == u64_to_le(
                    slice@[j as int],
                )[t] by {
                    assert((8 * j + t) / 8 == j);
                    assert((8 * j + t) % 8 == t);
                }
            }
            j = j + 1;
        }
        self.pos = self.pos + 8 * slice.len();
        proof {
            assert(self.buf@ =~= orig.take(start) + wide + orig.skip(start + 8 * slice@.len()));
        }
        Ok(())
    }

    /// Writes each 128-bit value of `slice` in order, least significant byte
    /// first. Fails when the encoded bytes do not fit.
    pub fn write_u128_slice(&mut self, slice: &[u128]) -> (r: Result<(), WriteError>)
        requires
            old(self).wf(),
        ensures
            final(self).wf(),
            old(self).fits((16 * slice@.len()) as nat) ==> r is Ok && final(self).bytes() == old(self).bytes().take(
                old(self).spec_pos(),
            ) + seq_u128_le(slice@) + old(self).bytes().skip(
                old(self).spec_pos() + 16 * slice@.len(),
            ) && final(self).spec_pos() == old(self).spec_pos() + 16 * slice@.len(),
            !old(self).fits((16 * slice@.len()) as nat) ==> r == Err::<(), WriteError>(WriteError::BufferOverflow) && final(self).bytes() == old(self).bytes() && final(self).spec_pos() == old(self).spec_pos(),
    {
        if slice.len() > (self.buf.len() - self.pos) / 16 {
            return Err(WriteError::BufferOverflow);
        }
        let ghost wide = seq_u128_le(slice@);
        let mut encoded: Vec<u8> = Vec::new();
        let mut j: usize = 0;
        while j < slice.len()
            invariant
                j <= slice@.len(),
                16 * slice@.len() <= usize::MAX,
                wide == seq_u128_le(slice@),
                encoded@ == wide.take(16 * j),
            decreases slice@.len() - j,
        {
            let v = slice[j];
            let lo = (v % 0x1_0000_0000_0000_0000) as u64;
            let hi = (v / 0x1_0000_0000_0000_0000) as u64;
            let lo0 = (lo % 0x1_0000_0000) as u32;
            let lo1 = (lo / 0x1_0000_0000) as u32;
            let hi0 = (hi % 0x1_0000_0000) as u32;
            let hi1 = (hi / 0x1_0000_0000) as u32;
            let arr: [u8; 16] = [
                (lo0 % 0x100) as u8,
                ((lo0 / 0x100) % 0x100) as u8,
                ((lo0 / 0x1_0000) % 0x100) as u8,
                ((lo0 / 0x100_0000) % 0x100) as u8,
                (lo1 % 0x100) as u8,
                ((lo1 / 0x100) % 0x100) as u8,
                ((lo1 / 0x1_0000) % 0x100) as u8,
                ((lo1 / 0x100_0000) % 0x100) as u8,
                (hi0 % 0x100) as u8,
                ((hi0 / 0x100) % 0x100) as u8,
                ((hi0 / 0x1_0000) % 0x100) as u8,
                ((hi0 / 0x100_0000) % 0x100) as u8,
                (hi1 % 0x100) as u8,
                ((hi1 / 0x100) % 0x100) as u8,
                ((hi1 / 0x1_0000) % 0x100) as u8,
                ((hi1 / 0x100_0000) % 0x100) as u8,
            ];
            encoded.extend_from_slice(arr.as_slice());
            proof {
                assert(arr@ =~= u128_to_le(v));
                assert forall|t: int| 0 <= t < 16 implies wide[16 * j + t] == u128_to_le(
                    slice@[j as int],
                )[t] by {
                    assert((16 * j + t) / 16 == j);
                    assert((16 * j + t) % 16 == t);
                }
                assert(encoded@ =~= wide.take(16 * (j + 1)));
            }
            j = j + 1;
        }
        proof {
            assert(encoded@ =~= wide);
        }
        self.fill(encoded.as_slice());
        Ok(())
    }

    /// Copies `bytes` into the buffer at the current position, which the
    /// caller has checked they fit behind.
    fn fill(&mut self, bytes: &[u8])
        requires
            old(self).wf(),
            old(self).spec_pos() + bytes@.len() <= old(self).bytes().len(),
        ensures
            final(self).wf(),
            final(self).bytes() == old(self).bytes().take(old(self).spec_pos()) + bytes@ + old(self).bytes().skip(old(self).spec_pos() + bytes@.len()),
            final(self).spec_pos() == old(self).spec_pos() + bytes@.len(),
    {
        let buf_len: usize = self.buf.len();
        let ghost orig = self.buf@;
        let ghost start = self.spec_pos();
        let mut i: usize = 0;
        while i < bytes.len()
            invariant
                self.pos == start,
                start + bytes@.len() <= self.buf@.len(),
                i <= bytes@.len(),
                self.buf@.len() == orig.len(),
                self.buf@.len() == buf_len,
                forall|k: int| 0 <= k < start ==> self.buf@[k] == orig[k],
                forall|k: int| start <= k < start + i ==> self.buf@[k] == bytes@[k - start],
                forall|k: int| start + i <= k < orig.len() ==> self.buf@[k] == orig[k],
            decreases bytes@.len() - i,
        {
            self.buf.set(self.pos + i, bytes[i]);
            i = i + 1;
        }
        self.pos = self.pos + bytes.len();
        proof {
            assert(self.buf@ =~= orig.take(start) + bytes@ + orig.skip(start + bytes@.len()));
        }
    }
}

} // verus!
