//! The NAL unit header (H.264 clause 7.3.1).
//!
//! One byte: a forbidden zero bit (consumed, not stored), a 2-bit
//! `ref_idc` and a 5-bit `type`.  For types 14, 20 and 21 one further
//! presence bit follows: `svc_extension_flag` for 14 and 20,
//! `avc_3d_extension_flag` for 21; each is inferred false when absent.
//! The extension headers the flags announce are not part of this grammar.

use vstd::prelude::*;
use vstd::arithmetic::power2::lemma2_to64;

use crate::bit_stream::BitStream;
use crate::bit_stream::BitStreamError;
use crate::bits::bit_at;
use crate::bits::bits_value;
use crate::bits::lemma_bits_value_bound;

verus! {

/// A parsed NAL unit header.
#[derive(Clone, Copy, Debug, PartialEq, Eq, Structural)]
pub struct NalUnitHeader {
    /// The 2-bit reference indication.
    pub ref_idc: u8,
    /// The 5-bit NAL unit type (Table 7-1).
    pub ty: u8,
    /// Present only for types 14 and 20; false when absent.
    pub svc_extension_flag: bool,
    /// Present only for type 21; false when absent.
    pub avc_3d_extension_flag: bool,
}

/// The NAL unit header of `data` at `pos` and the position after it.
pub open spec fn spec_read_header(data: Seq<u8>, pos: nat) -> Result<
    (NalUnitHeader, nat),
    BitStreamError,
> {
    if pos + 8 > 8 * data.len() {
        Err(BitStreamError::NotEnoughData)
    } else {
        let ref_idc = bits_value(data, (pos + 1) as nat, 2) as u8;
        let ty = bits_value(data, (pos + 3) as nat, 5) as u8;
        if ty == 14 || ty == 20 || ty == 21 {
            if pos + 9 > 8 * data.len() {
                Err(BitStreamError::NotEnoughData)
            } else {
                let flag = bit_at(data, (pos + 8) as nat);
                if ty != 21 {
                    Ok(
                        (
                            NalUnitHeader {
                                ref_idc,
                                ty,
                                svc_extension_flag: flag,
                                avc_3d_extension_flag: false,
                            },
                            (pos + 9) as nat,
                        ),
                    )
                } else {
                    Ok(
                        (
                            NalUnitHeader {
                                ref_idc,
                                ty,
                                svc_extension_flag: false,
                                avc_3d_extension_flag: flag,
                            },
                            (pos + 9) as nat,
                        ),
                    )
                }
            }
        } else {
            Ok(
                (
                    NalUnitHeader {
                        ref_idc,
                        ty,
                        svc_extension_flag: false,
                        avc_3d_extension_flag: false,
                    },
                    (pos + 8) as nat,
                ),
            )
        }
    }
}

impl NalUnitHeader {
    /// Parses a NAL unit header from `stream`.
    pub fn read(stream: &mut BitStream) -> (r: Result<Self, BitStreamError>)
        requires
            old(stream).wf(),
        ensures
            final(stream).wf(),
            final(stream).bytes() == old(stream).bytes(),
            match spec_read_header(old(stream).bytes(), old(stream).cursor()) {
                Ok((h, p)) => r == Ok::<Self, BitStreamError>(h) && final(stream).cursor() == p,
                Err(e) => r == Err::<Self, BitStreamError>(e),
            },
    {
        let ghost data0 = old(stream).bytes();
        let ghost c0 = old(stream).cursor();
        proof {
            stream.lemma_cursor_le_total();
            lemma_bits_value_bound(data0, (c0 + 1) as nat, 2);
            lemma_bits_value_bound(data0, (c0 + 3) as nat, 5);
            lemma2_to64();
        }
        match stream.skip(1) {
            Ok(_) => (),
            Err(e) => {
                return Err(e);
            },
        }
        let ref_idc64 = match stream.read(2) {
            Ok(v) => v,
            Err(e) => {
                return Err(e);
            },
        };
        let ty64 = match stream.read(5) {
            Ok(v) => v,
            Err(e) => {
                return Err(e);
            },
        };
        let ref_idc = ref_idc64 as u8;
        let ty = ty64 as u8;
        if ty == 14 || ty == 20 || ty == 21 {
            proof {
                stream.lemma_cursor_le_total();
            }
            let flag = match stream.read_bit() {
                Ok(b) => b,
                Err(e) => {
                    return Err(e);
                },
            };
            if ty != 21 {
                Ok(
                    NalUnitHeader {
                        ref_idc,
                        ty,
                        svc_extension_flag: flag,
                        avc_3d_extension_flag: false,
                    },
                )
            } else {
                Ok(
                    NalUnitHeader {
                        ref_idc,
                        ty,
                        svc_extension_flag: false,
                        avc_3d_extension_flag: flag,
                    },
                )
            }
        } else {
            Ok(NalUnitHeader { ref_idc, ty, svc_extension_flag: false, avc_3d_extension_flag: false })
        }
    }
}

} // verus!
