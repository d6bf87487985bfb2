//! The access unit delimiter payload (H.264 clause 7.3.2.4).

use vstd::prelude::*;
use vstd::arithmetic::power2::lemma2_to64;

use crate::bit_stream::BitStream;
use crate::bit_stream::BitStreamError;
use crate::bits::bits_value;
use crate::bits::lemma_bits_value_bound;

verus! {

/// An access unit delimiter: a single 3-bit picture type.
#[derive(Clone, Copy, Debug, PartialEq, Eq, Structural)]
pub struct AccessUnitDelimiter {
    pub primary_pic_type: u8,
}

/// The access unit delimiter of `data` at `pos` and the position after it.
pub open spec fn spec_read_aud(data: Seq<u8>, pos: nat) -> Result<
    (AccessUnitDelimiter, nat),
    BitStreamError,
> {
    if pos + 3 > 8 * data.len() {
        Err(BitStreamError::NotEnoughData)
    } else {
        Ok(
            (
                AccessUnitDelimiter { primary_pic_type: bits_value(data, pos, 3) as u8 },
                (pos + 3) as nat,
            ),
        )
    }
}

impl AccessUnitDelimiter {
    /// Parses an access unit delimiter from `stream`.
    pub fn read(stream: &mut BitStream) -> (r: Result<Self, BitStreamError>)
        requires
            old(stream).wf(),
        ensures
            final(stream).wf(),
            final(stream).bytes() == old(stream).bytes(),
            match spec_read_aud(old(stream).bytes(), old(stream).cursor()) {
                Ok((a, p)) => r == Ok::<Self, BitStreamError>(a) && final(stream).cursor() == p,
                Err(e) => r == Err::<Self, BitStreamError>(e),
            },
    {
        proof {
            stream.lemma_cursor_le_total();
            lemma_bits_value_bound(old(stream).bytes(), old(stream).cursor(), 3);
            lemma2_to64();
        }
        let v = match stream.read(3) {
            Ok(v) => v,
            Err(e) => {
                return Err(e);
            },
        };
        Ok(AccessUnitDelimiter { primary_pic_type: v as u8 })
    }
}

} // verus!
