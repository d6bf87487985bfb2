//! Bit-level model of a byte buffer.
//!
//! A byte buffer is viewed as a sequence of bits, most significant bit of
//! each byte first.  The spec functions here give every cursor operation its
//! mathematical meaning: a single bit, the unsigned value of a run of bits,
//! and its two's-complement signed reading.

use vstd::prelude::*;
use vstd::arithmetic::power2::pow2;
use vstd::arithmetic::power2::lemma_pow2_unfold;

verus! {

/// The bit at absolute position `i` of `data`, counting the most
/// significant bit of `data[0]` as position 0.
pub open spec fn bit_at(data: Seq<u8>, i: nat) -> bool
    recommends
        i < 8 * data.len(),
{
    (data[(i / 8) as int] >> ((7 - i % 8) as u8)) & 1u8 == 1u8
}

/// The unsigned value of the `n` bits of `data` starting at position `pos`,
/// read most significant bit first.
pub open spec fn bits_value(data: Seq<u8>, pos: nat, n: nat) -> nat
    decreases n,
{
    if n == 0 {
        0
    } else {
        2 * bits_value(data, pos, (n - 1) as nat) + (if bit_at(
            data,
            (pos + n - 1) as nat,
        ) {
            1nat
        } else {
            0nat
        })
    }
}

/// The two's-complement signed value of the `n` bits of `data` starting at
/// position `pos`: a set leading bit contributes `-2^(n-1)`, the remaining
/// `n - 1` bits their unsigned value.
pub open spec fn signed_bits_value(data: Seq<u8>, pos: nat, n: nat) -> int {
    if n == 0 {
        0
    } else {
        bits_value(data, (pos + 1) as nat, (n - 1) as nat) - (if bit_at(data, pos) {
            pow2((n - 1) as nat) as int
        } else {
            0int
        })
    }
}

pub proof fn lemma_bits_value_bound(data: Seq<u8>, pos: nat, n: nat)
    ensures
        bits_value(data, pos, n) < pow2(n),
    decreases n,
{
    if n == 0 {
        assert(pow2(0) == 1) by {
            vstd::arithmetic::power2::lemma2_to64();
        }
    } else {
        lemma_bits_value_bound(data, pos, (n - 1) as nat);
        lemma_pow2_unfold(n);
    }
}

} // verus!
