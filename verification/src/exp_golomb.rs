//! Exp-Golomb entropy decoding (H.264 clause 9.1).
//!
//! An unsigned Exp-Golomb codeword is a run of `L` zero bits, a one bit,
//! and an `L`-bit suffix; it denotes `2^L + suffix - 1`.  The signed
//! variant maps the unsigned code `k` to `(k + 1) / 2` when `k` is odd and
//! to `-(k / 2)` when `k` is even.

use vstd::prelude::*;
use vstd::arithmetic::power2::pow2;
use vstd::arithmetic::power2::lemma_pow2_strictly_increases;
use vstd::arithmetic::power2::lemma2_to64_rest;
use vstd::arithmetic::div_mod::lemma_fundamental_div_mod_converse_div;

use crate::bit_stream::BitStream;
use crate::bit_stream::BitStreamError;
use crate::bits::bit_at;
use crate::bits::bits_value;
use crate::bits::lemma_bits_value_bound;

verus! {

/// The length of the run of zero bits of `data` starting at `pos`, up to
/// the first set bit; `None` when every bit from `pos` on is zero.
pub open spec fn zero_run(data: Seq<u8>, pos: nat) -> Option<nat>
    decreases 8 * data.len() - pos,
{
    if pos >= 8 * data.len() {
        None
    } else if bit_at(data, pos) {
        Some(0)
    } else {
        match zero_run(data, (pos + 1) as nat) {
            None => None,
            Some(k) => Some((k + 1) as nat),
        }
    }
}

/// The unsigned Exp-Golomb codeword of `data` at `pos`: its value and the
/// position after it, or the error the read fails with.  A run of 64 or
/// more zero bits denotes a value that does not fit into 64 bits.
pub open spec fn spec_read_ue(data: Seq<u8>, pos: nat) -> Result<(u64, nat), BitStreamError> {
    match zero_run(data, pos) {
        None => Err(BitStreamError::NotEnoughData),
        Some(len) => {
            if len >= 64 {
                Err(BitStreamError::TooLarge)
            } else if pos + 2 * len + 1 > 8 * data.len() {
                Err(BitStreamError::NotEnoughData)
            } else {
                Ok(
                    (
                        ((pow2(len) + bits_value(data, (pos + len + 1) as nat, len) - 1) as u64),
                        (pos + 2 * len + 1) as nat,
                    ),
                )
            }
        },
    }
}

/// The signed remapping of an unsigned Exp-Golomb value (H.264 clause
/// 9.1.1): odd `k` maps to `(k + 1) / 2`, even `k` to `-(k / 2)`.
pub open spec fn ue_to_se(k: u64) -> int {
    if k % 2 == 1 {
        (k + 1) / 2
    } else {
        -((k / 2) as int)
    }
}

/// The signed Exp-Golomb codeword of `data` at `pos`.
pub open spec fn spec_read_se(data: Seq<u8>, pos: nat) -> Result<(i64, nat), BitStreamError> {
    match spec_read_ue(data, pos) {
        Err(e) => Err(e),
        Ok((k, p)) => Ok((ue_to_se(k) as i64, p)),
    }
}

/// An unsigned Exp-Golomb codeword never denotes `u64::MAX`: its value is
/// at most `2^64 - 2`.
pub proof fn lemma_ue_value_bound(data: Seq<u8>, pos: nat)
    ensures
        spec_read_ue(data, pos) matches Ok((v, _)) ==> v <= u64::MAX - 1,
{
    if spec_read_ue(data, pos) is Ok {
        let len = zero_run(data, pos)->Some_0;
        lemma_bits_value_bound(data, (pos + len + 1) as nat, len);
        if len < 63 {
            lemma_pow2_strictly_increases(len, 63);
        }
        lemma2_to64_rest();
    }
}

proof fn lemma_zero_run_found(data: Seq<u8>, pos: nat, k: nat)
    requires
        forall|j: nat| pos <= j < pos + k ==> !bit_at(data, j),
        pos + k < 8 * data.len(),
        bit_at(data, (pos + k) as nat),
    ensures
        zero_run(data, pos) == Some(k),
    decreases k,
{
    if k > 0 {
        assert(!bit_at(data, pos));
        lemma_zero_run_found(data, (pos + 1) as nat, (k - 1) as nat);
    }
}

proof fn lemma_zero_run_exhausted(data: Seq<u8>, pos: nat)
    requires
        forall|j: nat| pos <= j < 8 * data.len() ==> !bit_at(data, j),
    ensures
        zero_run(data, pos) is None,
    decreases 8 * data.len() - pos,
{
    if pos < 8 * data.len() {
        lemma_zero_run_exhausted(data, (pos + 1) as nat);
    }
}

/// `count` unsigned Exp-Golomb codewords of `data` at `pos`, decoded one
/// after the other.
pub open spec fn spec_read_ue_seq(data: Seq<u8>, pos: nat, count: nat) -> Result<
    (Seq<UnsignedExpGolombCode>, nat),
    BitStreamError,
>
    decreases count,
{
    if count == 0 {
        Ok((Seq::empty(), pos))
    } else {
        match spec_read_ue(data, pos) {
            Err(e) => Err(e),
            Ok((v, p1)) => {
                match spec_read_ue_seq(data, p1, (count - 1) as nat) {
                    Err(e) => Err(e),
                    Ok((rest, p2)) => Ok((seq![UnsignedExpGolombCode(v)] + rest, p2)),
                }
            },
        }
    }
}

/// `count` signed Exp-Golomb codewords of `data` at `pos`, decoded one
/// after the other.
pub open spec fn spec_read_se_seq(data: Seq<u8>, pos: nat, count: nat) -> Result<
    (Seq<SignedExpGolombCode>, nat),
    BitStreamError,
>
    decreases count,
{
    if count == 0 {
        Ok((Seq::empty(), pos))
    } else {
        match spec_read_se(data, pos) {
            Err(e) => Err(e),
            Ok((v, p1)) => {
                match spec_read_se_seq(data, p1, (count - 1) as nat) {
                    Err(e) => Err(e),
                    Ok((rest, p2)) => Ok((seq![SignedExpGolombCode(v)] + rest, p2)),
                }
            },
        }
    }
}

/// A decoded unsigned Exp-Golomb value.
#[derive(Clone, Copy, Debug, Eq, Hash, PartialEq, Structural)]
pub struct UnsignedExpGolombCode(pub u64);

impl UnsignedExpGolombCode {
    /// Decodes one unsigned Exp-Golomb codeword from `stream`.
    pub fn read(stream: &mut BitStream) -> (r: Result<Self, BitStreamError>)
        requires
            old(stream).wf(),
        ensures
            final(stream).wf(),
            final(stream).bytes() == old(stream).bytes(),
            match spec_read_ue(old(stream).bytes(), old(stream).cursor()) {
                Ok((v, p)) => r matches Ok(c) && c.0 == v && final(stream).cursor() == p,
                Err(e) => r == Err::<Self, BitStreamError>(e),
            },
    {
        let ghost data0 = old(stream).bytes();
        let ghost c0 = old(stream).cursor();
        let mut length: usize = 0;
        loop
            invariant_except_break
                stream.cursor() == c0 + length,
                forall|j: nat| c0 <= j < c0 + length ==> !bit_at(data0, j),
            invariant
                data0 == old(stream).bytes(),
                c0 == old(stream).cursor(),
                stream.wf(),
                stream.bytes() == data0,
            ensures
                stream.wf(),
                stream.bytes() == data0,
                stream.cursor() == c0 + length + 1,
                zero_run(data0, c0) == Some(length as nat),
            decreases stream.remaining_bits(),
        {
            proof {
                stream.lemma_cursor_le_total();
            }
            match stream.read_bit() {
                Err(e) => {
                    proof {
                        lemma_zero_run_exhausted(data0, c0);
                    }
                    return Err(e);
                },
                Ok(true) => {
                    proof {
                        lemma_zero_run_found(data0, c0, length as nat);
                    }
                    break ;
                },
                Ok(false) => {
                    length = length + 1;
                },
            }
        }
        if length >= 64 {
            return Err(BitStreamError::TooLarge);
        }
        proof {
            stream.lemma_cursor_le_total();
        }
        let suffix = match stream.read(length as u8) {
            Ok(s) => s,
            Err(e) => {
                return Err(e);
            },
        };
        proof {
            lemma_bits_value_bound(data0, (c0 + length + 1) as nat, length as nat);
            vstd::bits::lemma_u64_pow2_no_overflow(length as nat);
            vstd::bits::lemma_u64_shl_is_mul(1u64, length as u64);
            if length < 63 {
                lemma_pow2_strictly_increases(length as nat, 63);
            }
            lemma2_to64_rest();
            lemma_or_is_add(1u64 << (length as u64), suffix, length as u64);
        }
        Ok(UnsignedExpGolombCode(((1u64 << (length as u64)) | suffix) - 1))
    }
}

/// Decodes `count` unsigned Exp-Golomb codewords from `stream`.
pub fn read_ue_seq(stream: &mut BitStream, count: u64) -> (r: Result<
    Vec<UnsignedExpGolombCode>,
    BitStreamError,
>)
    requires
        old(stream).wf(),
    ensures
        final(stream).wf(),
        final(stream).bytes() == old(stream).bytes(),
        match spec_read_ue_seq(old(stream).bytes(), old(stream).cursor(), count as nat) {
            Ok((s, p)) => r matches Ok(v) && v@ == s && final(stream).cursor() == p,
            Err(e) => r == Err::<Vec<UnsignedExpGolombCode>, BitStreamError>(e),
        },
{
    let ghost data0 = old(stream).bytes();
    let ghost c0 = old(stream).cursor();
    let mut out: Vec<UnsignedExpGolombCode> = Vec::new();
    let mut i: u64 = 0;
    while i < count
        invariant
            stream.wf(),
            stream.bytes() == data0,
            data0 == old(stream).bytes(),
            c0 == old(stream).cursor(),
            i <= count,
            spec_read_ue_seq(data0, c0, count as nat) == (match spec_read_ue_seq(
                data0,
                stream.cursor(),
                (count - i) as nat,
            ) {
                Ok((rest, p)) => Ok::<(Seq<UnsignedExpGolombCode>, nat), BitStreamError>(
                    (out@ + rest, p),
                ),
                Err(e) => Err::<(Seq<UnsignedExpGolombCode>, nat), BitStreamError>(e),
            }),
        decreases count - i,
    {
        let ghost out0 = out@;
        let x = match UnsignedExpGolombCode::read(stream) {
            Ok(v) => v,
            Err(e) => {
                return Err(e);
            },
        };
        out.push(x);
        i = i + 1;
        proof {
            match spec_read_ue_seq(data0, stream.cursor(), (count - i) as nat) {
                Ok((rest2, p2)) => {
                    assert(out0 + (seq![x] + rest2) =~= out@ + rest2);
                },
                Err(_) => {},
            }
        }
    }
    proof {
        assert(out@ + Seq::<UnsignedExpGolombCode>::empty() =~= out@);
    }
    Ok(out)
}

/// Decodes `count` signed Exp-Golomb codewords from `stream`.
pub fn read_se_seq(stream: &mut BitStream, count: u64) -> (r: Result<
    Vec<SignedExpGolombCode>,
    BitStreamError,
>)
    requires
        old(stream).wf(),
    ensures
        final(stream).wf(),
        final(stream).bytes() == old(stream).bytes(),
        match spec_read_se_seq(old(stream).bytes(), old(stream).cursor(), count as nat) {
            Ok((s, p)) => r matches Ok(v) && v@ == s && final(stream).cursor() == p,
            Err(e) => r == Err::<Vec<SignedExpGolombCode>, BitStreamError>(e),
        },
{
    let ghost data0 = old(stream).bytes();
    let ghost c0 = old(stream).cursor();
    let mut out: Vec<SignedExpGolombCode> = Vec::new();
    let mut i: u64 = 0;
    while i < count
        invariant
            stream.wf(),
            stream.bytes() == data0,
            data0 == old(stream).bytes(),
            c0 == old(stream).cursor(),
            i <= count,
            spec_read_se_seq(data0, c0, count as nat) == (match spec_read_se_seq(
                data0,
                stream.cursor(),
                (count - i) as nat,
            ) {
                Ok((rest, p)) => Ok::<(Seq<SignedExpGolombCode>, nat), BitStreamError>(
                    (out@ + rest, p),
                ),
                Err(e) => Err::<(Seq<SignedExpGolombCode>, nat), BitStreamError>(e),
            }),
        decreases count - i,
    {
        let ghost out0 = out@;
        let x = match SignedExpGolombCode::read(stream) {
            Ok(v) => v,
            Err(e) => {
                return Err(e);
            },
        };
        out.push(x);
        i = i + 1;
        proof {
            match spec_read_se_seq(data0, stream.cursor(), (count - i) as nat) {
                Ok((rest2, p2)) => {
                    assert(out0 + (seq![x] + rest2) =~= out@ + rest2);
                },
                Err(_) => {},
            }
        }
    }
    proof {
        assert(out@ + Seq::<SignedExpGolombCode>::empty() =~= out@);
    }
    Ok(out)
}

proof fn lemma_or_is_add(p: u64, s: u64, len: u64)
    by (bit_vector)
    requires
        len < 64,
        p == 1u64 << len,
        s < 1u64 << len,
    ensures
        p | s == p + s,
{
}

/// A decoded signed Exp-Golomb value.
#[derive(Clone, Copy, Debug, Eq, Hash, PartialEq, Structural)]
pub struct SignedExpGolombCode(pub i64);

impl SignedExpGolombCode {
    /// Decodes one signed Exp-Golomb codeword from `stream`.
    pub fn read(stream: &mut BitStream) -> (r: Result<Self, BitStreamError>)
        requires
            old(stream).wf(),
        ensures
            final(stream).wf(),
            final(stream).bytes() == old(stream).bytes(),
            match spec_read_se(old(stream).bytes(), old(stream).cursor()) {
                Ok((v, p)) => r matches Ok(c) && c.0 == v && final(stream).cursor() == p,
                Err(e) => r == Err::<Self, BitStreamError>(e),
            },
    {
        proof {
            lemma_ue_value_bound(old(stream).bytes(), old(stream).cursor());
        }
        let ue = match UnsignedExpGolombCode::read(stream) {
            Ok(c) => c.0,
            Err(e) => {
                return Err(e);
            },
        };
        proof {
            vstd::bits::lemma_u64_shr_is_div(ue, 1u64);
            vstd::arithmetic::power2::lemma2_to64();
            vstd::arithmetic::div_mod::lemma_fundamental_div_mod(ue as int, 2);
        }
        if ue % 2 == 1 {
            proof {
                lemma_fundamental_div_mod_converse_div(
                    (ue + 1) as int,
                    2,
                    (ue / 2 + 1) as int,
                    0,
                );
            }
            Ok(SignedExpGolombCode(((ue >> 1u64) + 1) as i64))
        } else {
            Ok(SignedExpGolombCode(-((ue >> 1u64) as i64)))
        }
    }
}

} // verus!
