//! A cursor over an immutable byte buffer that reads individual bits.
//!
//! The cursor keeps a byte offset and a sub-byte bit position; its abstract
//! position is the number of bits consumed so far.  Every read is specified
//! against the bit-level model of the buffer in [`crate::bits`].

use vstd::prelude::*;
use vstd::arithmetic::power2::pow2;
use vstd::arithmetic::power2::lemma_pow2_strictly_increases;
use vstd::arithmetic::power2::lemma2_to64;
use vstd::arithmetic::power2::lemma2_to64_rest;
use vstd::arithmetic::div_mod::lemma_fundamental_div_mod_converse_div;
use vstd::arithmetic::div_mod::lemma_fundamental_div_mod_converse_mod;
use vstd::slice::slice_subrange;
use vstd::slice::slice_to_vec;

use crate::bits::bit_at;
use crate::bits::bits_value;
use crate::bits::signed_bits_value;
use crate::bits::lemma_bits_value_bound;

verus! {

/// The error type for `BitStream`'s read operations.
#[derive(Clone, Copy, Debug, PartialEq, Eq, Structural)]
pub enum BitStreamError {
    /// The stream has not enough bits left for the requested read.
    NotEnoughData,
    /// The requested size does not fit into the result type.
    TooLarge,
}

/// A single-bit read of `data` at bit position `pos`: the bit and the
/// position after it, or the error the read fails with.
pub open spec fn spec_read_flag(data: Seq<u8>, pos: nat) -> Result<(bool, nat), BitStreamError> {
    if pos + 1 > 8 * data.len() {
        Err(BitStreamError::NotEnoughData)
    } else {
        Ok((bit_at(data, pos), (pos + 1) as nat))
    }
}

/// A fixed-width unsigned read of `w` bits of `data` at bit position
/// `pos`: the value and the position after it, or the error the read
/// fails with.
pub open spec fn spec_read_u(data: Seq<u8>, pos: nat, w: nat) -> Result<(u64, nat), BitStreamError> {
    if w > 64 {
        Err(BitStreamError::TooLarge)
    } else if pos + w > 8 * data.len() {
        Err(BitStreamError::NotEnoughData)
    } else {
        Ok((bits_value(data, pos, w) as u64, (pos + w) as nat))
    }
}

/// A skip of `n` bits of `data` at bit position `pos`: the position after
/// it, or the error the skip fails with.
pub open spec fn spec_skip(data: Seq<u8>, pos: nat, n: nat) -> Result<nat, BitStreamError> {
    if pos + n > 8 * data.len() {
        Err(BitStreamError::NotEnoughData)
    } else {
        Ok((pos + n) as nat)
    }
}

/// A stream that can be read bit by bit.
pub struct BitStream<'a> {
    data: &'a [u8],
    offset: usize,
    pos: u8,
}

impl<'a> BitStream<'a> {
    /// The underlying bytes.
    pub closed spec fn bytes(&self) -> Seq<u8> {
        self.data@
    }

    /// The number of bits consumed so far.
    pub closed spec fn cursor(&self) -> nat {
        (8 * self.offset + self.pos) as nat
    }

    pub closed spec fn wf(&self) -> bool {
        &&& self.offset <= self.data@.len()
        &&& self.pos < 8
        &&& (self.offset == self.data@.len() ==> self.pos == 0)
        &&& 8 * self.data@.len() <= usize::MAX - 7
    }

    /// The total number of bits in the underlying buffer.
    pub open spec fn total_bits(&self) -> nat {
        8 * self.bytes().len()
    }

    /// The number of bits that can still be read.
    pub open spec fn remaining_bits(&self) -> nat {
        (self.total_bits() - self.cursor()) as nat
    }

    /// A well-formed stream's cursor never passes the end of the buffer.
    pub proof fn lemma_cursor_le_total(&self)
        requires
            self.wf(),
        ensures
            self.cursor() <= self.total_bits(),
            self.remaining_bits() == self.total_bits() - self.cursor(),
            self.total_bits() <= usize::MAX - 7,
    {
    }

    proof fn lemma_cursor_split(&self)
        requires
            self.wf(),
        ensures
            self.cursor() / 8 == self.offset,
            self.cursor() % 8 == self.pos,
            self.cursor() <= self.total_bits(),
    {
        lemma_fundamental_div_mod_converse_div(
            self.cursor() as int,
            8,
            self.offset as int,
            self.pos as int,
        );
        lemma_fundamental_div_mod_converse_mod(
            self.cursor() as int,
            8,
            self.offset as int,
            self.pos as int,
        );
    }

    /// Creates a new `BitStream` positioned at the first bit of `slice`.
    pub fn new(slice: &'a [u8]) -> (s: Self)
        requires
            8 * slice@.len() <= usize::MAX - 7,
        ensures
            s.wf(),
            s.bytes() == slice@,
            s.cursor() == 0,
    {
        Self { data: slice, offset: 0, pos: 0 }
    }

    /// Returns whether the stream is currently byte aligned.
    pub fn byte_aligned(&self) -> (r: bool)
        requires
            self.wf(),
        ensures
            r == (self.cursor() % 8 == 0),
    {
        proof {
            self.lemma_cursor_split();
        }
        self.pos == 0
    }

    /// Returns the remaining bit count in this stream.
    pub fn remaining(&self) -> (r: usize)
        requires
            self.wf(),
        ensures
            r == self.remaining_bits(),
    {
        (self.data.len() - self.offset) * 8 - (self.pos as usize)
    }

    /// Skip (throw away) `bit_count` bits.
    ///
    /// Fails with `NotEnoughData`, leaving the stream unchanged, if fewer
    /// than `bit_count` bits remain.
    pub fn skip(&mut self, bit_count: usize) -> (r: Result<(), BitStreamError>)
        requires
            old(self).wf(),
        ensures
            final(self).wf(),
            final(self).bytes() == old(self).bytes(),
            bit_count > old(self).remaining_bits() ==> r == Err::<(), BitStreamError>(
                BitStreamError::NotEnoughData,
            ) && *final(self) == *old(self),
            bit_count <= old(self).remaining_bits() ==> r == Ok::<(), BitStreamError>(())
                && final(self).cursor() == old(self).cursor() + bit_count,
            match spec_skip(old(self).bytes(), old(self).cursor(), bit_count as nat) {
                Ok(p) => r == Ok::<(), BitStreamError>(()) && final(self).cursor() == p,
                Err(e) => r == Err::<(), BitStreamError>(e) && *final(self) == *old(self),
            },
    {
        if bit_count > self.remaining() {
            return Err(BitStreamError::NotEnoughData);
        }
        proof {
            self.lemma_cursor_split();
        }
        let total: usize = self.pos as usize + bit_count;
        let ghost new_cursor = self.cursor() + bit_count;
        let new_offset: usize = self.offset + total / 8;
        let new_pos: u8 = (total % 8) as u8;
        proof {
            vstd::arithmetic::div_mod::lemma_fundamental_div_mod(total as int, 8);
            assert(new_cursor == 8 * new_offset + new_pos);
            lemma_fundamental_div_mod_converse_div(
                new_cursor as int,
                8,
                new_offset as int,
                new_pos as int,
            );
            assert(new_cursor <= 8 * self.data@.len());
            assert(new_offset <= self.data@.len());
        }
        self.offset = new_offset;
        self.pos = new_pos;
        Ok(())
    }

    /// Reads the next bit.
    ///
    /// Returns `true` if the bit is `1`, `false` for `0`.  Fails with
    /// `NotEnoughData`, leaving the stream unchanged, if no bit remains.
    pub fn read_bit(&mut self) -> (r: Result<bool, BitStreamError>)
        requires
            old(self).wf(),
        ensures
            final(self).wf(),
            final(self).bytes() == old(self).bytes(),
            old(self).remaining_bits() == 0 ==> r == Err::<bool, BitStreamError>(
                BitStreamError::NotEnoughData,
            ) && *final(self) == *old(self),
            old(self).remaining_bits() > 0 ==> r == Ok::<bool, BitStreamError>(
                bit_at(old(self).bytes(), old(self).cursor()),
            ) && final(self).cursor() == old(self).cursor() + 1,
            match spec_read_flag(old(self).bytes(), old(self).cursor()) {
                Ok((b, p)) => r == Ok::<bool, BitStreamError>(b) && final(self).cursor() == p,
                Err(e) => r == Err::<bool, BitStreamError>(e) && *final(self) == *old(self),
            },
    {
        if self.offset >= self.data.len() {
            return Err(BitStreamError::NotEnoughData);
        }
        proof {
            self.lemma_cursor_split();
        }
        let byte = self.data[self.offset];
        let value = (byte >> (7 - self.pos)) & 1;
        if self.pos == 7 {
            self.pos = 0;
            self.offset = self.offset + 1;
        } else {
            self.pos = self.pos + 1;
        }
        Ok(value == 1)
    }

    /// Reads `size` bits (at most 64) into an unsigned integer, most
    /// significant bit first.
    ///
    /// Fails with `TooLarge` if `size` exceeds 64, and with `NotEnoughData`
    /// if fewer than `size` bits remain; either failure leaves the stream
    /// unchanged.
    pub fn read(&mut self, size: u8) -> (r: Result<u64, BitStreamError>)
        requires
            old(self).wf(),
        ensures
            final(self).wf(),
            final(self).bytes() == old(self).bytes(),
            size > 64 ==> r == Err::<u64, BitStreamError>(BitStreamError::TooLarge) && *final(self)
                == *old(self),
            size <= 64 && size > old(self).remaining_bits() ==> r == Err::<u64, BitStreamError>(
                BitStreamError::NotEnoughData,
            ) && *final(self) == *old(self),
            size <= 64 && size <= old(self).remaining_bits() ==> (r matches Ok(v) && v
                == bits_value(old(self).bytes(), old(self).cursor(), size as nat)
                && final(self).cursor() == old(self).cursor() + size),
            match spec_read_u(old(self).bytes(), old(self).cursor(), size as nat) {
                Ok((v, p)) => r == Ok::<u64, BitStreamError>(v) && final(self).cursor() == p,
                Err(e) => r == Err::<u64, BitStreamError>(e) && *final(self) == *old(self),
            },
    {
        if size > 64 {
            return Err(BitStreamError::TooLarge);
        }
        if size as usize > self.remaining() {
            return Err(BitStreamError::NotEnoughData);
        }
        let ghost data0 = self.bytes();
        let ghost c0 = self.cursor();
        let mut result: u64 = 0;
        let mut i: u8 = 0;
        while i < size
            invariant
                self.wf(),
                self.bytes() == data0,
                i <= size,
                size <= 64,
                self.cursor() == c0 + i,
                c0 + size <= self.total_bits(),
                result == bits_value(data0, c0, i as nat),
            decreases size - i,
        {
            proof {
                lemma_bits_value_bound(data0, c0, i as nat);
                if (i as nat) < 63 {
                    lemma_pow2_strictly_increases(i as nat, 63);
                }
                lemma2_to64_rest();
            }
            let b = self.read_bit().unwrap();
            let bit: u64 = if b {
                1
            } else {
                0
            };
            proof {
                lemma_shl1_or(result, bit);
            }
            result = (result << 1) | bit;
            i = i + 1;
        }
        Ok(result)
    }

    /// Reads `size` bits (at most 64) into a signed integer: the first bit
    /// is the two's-complement sign bit, the remaining `size - 1` bits are
    /// accumulated most significant bit first.  A size of zero yields 0.
    ///
    /// Fails with `TooLarge` if `size` exceeds 64, and with `NotEnoughData`
    /// if fewer than `size` bits remain; either failure leaves the stream
    /// unchanged.
    pub fn read_signed(&mut self, size: u8) -> (r: Result<i64, BitStreamError>)
        requires
            old(self).wf(),
        ensures
            final(self).wf(),
            final(self).bytes() == old(self).bytes(),
            size > 64 ==> r == Err::<i64, BitStreamError>(BitStreamError::TooLarge) && *final(self)
                == *old(self),
            size <= 64 && size > old(self).remaining_bits() ==> r == Err::<i64, BitStreamError>(
                BitStreamError::NotEnoughData,
            ) && *final(self) == *old(self),
            size <= 64 && size <= old(self).remaining_bits() ==> (r matches Ok(v) && v
                == signed_bits_value(old(self).bytes(), old(self).cursor(), size as nat)
                && final(self).cursor() == old(self).cursor() + size),
    {
        if size > 64 {
            return Err(BitStreamError::TooLarge);
        }
        if size as usize > self.remaining() {
            return Err(BitStreamError::NotEnoughData);
        }
        if size == 0 {
            return Ok(0);
        }
        let b0 = self.read_bit().unwrap();
        let rest = self.read(size - 1).unwrap();
        proof {
            lemma_bits_value_bound(old(self).bytes(), old(self).cursor() + 1, (size - 1) as nat);
            lemma2_to64_rest();
            if size < 64 {
                lemma_pow2_strictly_increases((size - 1) as nat, 63);
            }
        }
        if b0 {
            if size == 64 {
                Ok(i64::MIN + rest as i64)
            } else {
                let sign: u64 = 1u64 << (size - 1);
                proof {
                    vstd::bits::lemma_u64_shl_is_mul(1u64, (size - 1) as u64);
                }
                Ok(rest as i64 - sign as i64)
            }
        } else {
            Ok(rest as i64)
        }
    }

    /// Reads all remaining bytes, starting with the byte the cursor stands
    /// in, and advances the cursor to the end of the buffer.
    ///
    /// The stream must be byte aligned when `read_all` is called.
    pub fn read_all(&mut self) -> (r: Vec<u8>)
        requires
            old(self).wf(),
            old(self).cursor() % 8 == 0,
        ensures
            final(self).wf(),
            final(self).bytes() == old(self).bytes(),
            r@ == old(self).bytes().skip((old(self).cursor() / 8) as int),
            final(self).cursor() == final(self).total_bits(),
    {
        self.take_rest()
    }

    /// Reads all bytes from the byte the cursor stands in to the end of the
    /// buffer, regardless of bit alignment, and advances the cursor to the
    /// end.
    pub(crate) fn take_rest(&mut self) -> (r: Vec<u8>)
        requires
            old(self).wf(),
        ensures
            final(self).wf(),
            final(self).bytes() == old(self).bytes(),
            r@ == old(self).bytes().skip((old(self).cursor() / 8) as int),
            final(self).cursor() == final(self).total_bits(),
    {
        proof {
            self.lemma_cursor_split();
        }
        let s = slice_subrange(self.data, self.offset, self.data.len());
        let v = slice_to_vec(s);
        proof {
            assert(v@ =~= self.bytes().skip(self.offset as int));
        }
        self.offset = self.data.len();
        self.pos = 0;
        v
    }
}

proof fn lemma_shl1_or(x: u64, b: u64)
    by (bit_vector)
    requires
        x < 0x8000000000000000u64,
        b <= 1,
    ensures
        (x << 1u64) | b == 2 * x + b,
{
}

} // verus!
