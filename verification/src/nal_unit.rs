//! NAL unit records: header, payload dispatch, and the record parsers.
//!
//! Besides the record modules, this module holds the record-level error
//! type and the readers for conditionally-present fields: each reads its
//! field only when the governing condition held, and hands back `None`
//! otherwise, leaving the stream where it was.

use vstd::prelude::*;
use vstd::arithmetic::power2::lemma_pow2_strictly_increases;
use vstd::arithmetic::power2::lemma2_to64;

use crate::bit_stream::spec_read_flag;
use crate::bit_stream::spec_read_u;
use crate::bit_stream::BitStream;
use crate::bit_stream::BitStreamError;
use crate::bits::lemma_bits_value_bound;
use crate::exp_golomb::spec_read_se;
use crate::exp_golomb::spec_read_ue;
use crate::exp_golomb::SignedExpGolombCode;
use crate::exp_golomb::UnsignedExpGolombCode;
use crate::decoder::Decoder;
use crate::nal_unit::access_unit_delimiter::spec_read_aud;
use crate::nal_unit::access_unit_delimiter::AccessUnitDelimiter;
use crate::nal_unit::header::spec_read_header;
use crate::nal_unit::header::NalUnitHeader;
use crate::nal_unit::pic_param_set::spec_read_pps;
use crate::nal_unit::pic_param_set::PictureParameterSet;
use crate::nal_unit::pic_param_set::PictureParameterSetView;
use crate::nal_unit::seq_param_set::spec_read_sps;
use crate::nal_unit::seq_param_set::SequenceParameterSet;
use crate::nal_unit::seq_param_set::SequenceParameterSetView;

pub mod access_unit_delimiter;
pub mod header;
pub mod pic_param_set;
pub mod seq_param_set;
pub mod slice;
pub mod slice_header;

verus! {

/// The error type of the record parsers: the bit-level errors of
/// [`BitStreamError`], and a failed parameter-set lookup, which the H.264
/// grammar makes a recoverable error of the records that depend on it.
#[derive(Clone, Copy, Debug, PartialEq, Eq, Structural)]
pub enum ParseError {
    /// The unit has not enough bits for the requested read.
    NotEnoughData,
    /// A requested size does not fit into the result type.
    TooLarge,
    /// A record referenced a parameter set that was never registered.
    MissingParameterSet,
}

/// The record-level reading of a bit-level error.
pub open spec fn parse_error_of(e: BitStreamError) -> ParseError {
    match e {
        BitStreamError::NotEnoughData => ParseError::NotEnoughData,
        BitStreamError::TooLarge => ParseError::TooLarge,
    }
}

/// Converts a bit-level error into a record-level one.
pub fn to_parse_error(e: BitStreamError) -> (r: ParseError)
    ensures
        r == parse_error_of(e),
{
    match e {
        BitStreamError::NotEnoughData => ParseError::NotEnoughData,
        BitStreamError::TooLarge => ParseError::TooLarge,
    }
}

/// A flag that is present only when `present` holds; absent, it consumes
/// nothing.
pub open spec fn spec_opt_flag(data: Seq<u8>, pos: nat, present: bool) -> Result<
    (Option<bool>, nat),
    BitStreamError,
> {
    if !present {
        Ok((None, pos))
    } else {
        match spec_read_flag(data, pos) {
            Err(e) => Err(e),
            Ok((b, p)) => Ok((Some(b), p)),
        }
    }
}

/// A `w`-bit unsigned field that is present only when `present` holds.
pub open spec fn spec_opt_u(data: Seq<u8>, pos: nat, w: nat, present: bool) -> Result<
    (Option<u64>, nat),
    BitStreamError,
> {
    if !present {
        Ok((None, pos))
    } else {
        match spec_read_u(data, pos, w) {
            Err(e) => Err(e),
            Ok((v, p)) => Ok((Some(v), p)),
        }
    }
}

/// An unsigned Exp-Golomb field that is present only when `present` holds.
pub open spec fn spec_opt_ue(data: Seq<u8>, pos: nat, present: bool) -> Result<
    (Option<UnsignedExpGolombCode>, nat),
    BitStreamError,
> {
    if !present {
        Ok((None, pos))
    } else {
        match spec_read_ue(data, pos) {
            Err(e) => Err(e),
            Ok((v, p)) => Ok((Some(UnsignedExpGolombCode(v)), p)),
        }
    }
}

/// A signed Exp-Golomb field that is present only when `present` holds.
pub open spec fn spec_opt_se(data: Seq<u8>, pos: nat, present: bool) -> Result<
    (Option<SignedExpGolombCode>, nat),
    BitStreamError,
> {
    if !present {
        Ok((None, pos))
    } else {
        match spec_read_se(data, pos) {
            Err(e) => Err(e),
            Ok((v, p)) => Ok((Some(SignedExpGolombCode(v)), p)),
        }
    }
}

/// The value of an optional field narrowed to 8 bits.
pub open spec fn opt_as_u8(o: Option<u64>) -> Option<u8> {
    match o {
        Some(v) => Some(v as u8),
        None => None,
    }
}

/// The value of an optional field narrowed to 16 bits.
pub open spec fn opt_as_u16(o: Option<u64>) -> Option<u16> {
    match o {
        Some(v) => Some(v as u16),
        None => None,
    }
}

/// The value of an optional field narrowed to 32 bits.
pub open spec fn opt_as_u32(o: Option<u64>) -> Option<u32> {
    match o {
        Some(v) => Some(v as u32),
        None => None,
    }
}

/// Reads a flag if `present` holds; hands back `None` otherwise.
pub(crate) fn read_opt_flag(stream: &mut BitStream, present: bool) -> (r: Result<
    Option<bool>,
    BitStreamError,
>)
    requires
        old(stream).wf(),
    ensures
        final(stream).wf(),
        final(stream).bytes() == old(stream).bytes(),
        match spec_opt_flag(old(stream).bytes(), old(stream).cursor(), present) {
            Ok((o, p)) => r == Ok::<Option<bool>, BitStreamError>(o) && final(stream).cursor()
                == p,
            Err(e) => r == Err::<Option<bool>, BitStreamError>(e),
        },
{
    if !present {
        return Ok(None);
    }
    match stream.read_bit() {
        Ok(b) => Ok(Some(b)),
        Err(e) => Err(e),
    }
}

/// Reads a `w`-bit unsigned field (`w` at most 8) if `present` holds.
pub(crate) fn read_opt_u8(stream: &mut BitStream, w: u8, present: bool) -> (r: Result<
    Option<u8>,
    BitStreamError,
>)
    requires
        old(stream).wf(),
        w <= 8,
    ensures
        final(stream).wf(),
        final(stream).bytes() == old(stream).bytes(),
        match spec_opt_u(old(stream).bytes(), old(stream).cursor(), w as nat, present) {
            Ok((o, p)) => r == Ok::<Option<u8>, BitStreamError>(opt_as_u8(o)) && final(stream).cursor() == p,
            Err(e) => r == Err::<Option<u8>, BitStreamError>(e),
        },
{
    if !present {
        return Ok(None);
    }
    proof {
        lemma_bits_value_bound(old(stream).bytes(), old(stream).cursor(), w as nat);
        if (w as nat) < 8 {
            lemma_pow2_strictly_increases(w as nat, 8);
        }
        lemma2_to64();
    }
    match stream.read(w) {
        Ok(v) => Ok(Some(v as u8)),
        Err(e) => Err(e),
    }
}

/// Reads a `w`-bit unsigned field (`w` at most 16) if `present` holds.
pub(crate) fn read_opt_u16(stream: &mut BitStream, w: u8, present: bool) -> (r: Result<
    Option<u16>,
    BitStreamError,
>)
    requires
        old(stream).wf(),
        w <= 16,
    ensures
        final(stream).wf(),
        final(stream).bytes() == old(stream).bytes(),
        match spec_opt_u(old(stream).bytes(), old(stream).cursor(), w as nat, present) {
            Ok((o, p)) => r == Ok::<Option<u16>, BitStreamError>(opt_as_u16(o)) && final(stream).cursor() == p,
            Err(e) => r == Err::<Option<u16>, BitStreamError>(e),
        },
{
    if !present {
        return Ok(None);
    }
    proof {
        lemma_bits_value_bound(old(stream).bytes(), old(stream).cursor(), w as nat);
        if (w as nat) < 16 {
            lemma_pow2_strictly_increases(w as nat, 16);
        }
        lemma2_to64();
    }
    match stream.read(w) {
        Ok(v) => Ok(Some(v as u16)),
        Err(e) => Err(e),
    }
}

/// Reads a `w`-bit unsigned field (`w` at most 32) if `present` holds.
pub(crate) fn read_opt_u32(stream: &mut BitStream, w: u8, present: bool) -> (r: Result<
    Option<u32>,
    BitStreamError,
>)
    requires
        old(stream).wf(),
        w <= 32,
    ensures
        final(stream).wf(),
        final(stream).bytes() == old(stream).bytes(),
        match spec_opt_u(old(stream).bytes(), old(stream).cursor(), w as nat, present) {
            Ok((o, p)) => r == Ok::<Option<u32>, BitStreamError>(opt_as_u32(o)) && final(stream).cursor() == p,
            Err(e) => r == Err::<Option<u32>, BitStreamError>(e),
        },
{
    if !present {
        return Ok(None);
    }
    proof {
        lemma_bits_value_bound(old(stream).bytes(), old(stream).cursor(), w as nat);
        if (w as nat) < 32 {
            lemma_pow2_strictly_increases(w as nat, 32);
        }
        lemma2_to64();
    }
    match stream.read(w) {
        Ok(v) => Ok(Some(v as u32)),
        Err(e) => Err(e),
    }
}

/// Reads an unsigned Exp-Golomb field if `present` holds.
pub(crate) fn read_opt_ue(stream: &mut BitStream, present: bool) -> (r: Result<
    Option<UnsignedExpGolombCode>,
    BitStreamError,
>)
    requires
        old(stream).wf(),
    ensures
        final(stream).wf(),
        final(stream).bytes() == old(stream).bytes(),
        match spec_opt_ue(old(stream).bytes(), old(stream).cursor(), present) {
            Ok((o, p)) => r == Ok::<Option<UnsignedExpGolombCode>, BitStreamError>(o) && final(stream).cursor() == p,
            Err(e) => r == Err::<Option<UnsignedExpGolombCode>, BitStreamError>(e),
        },
{
    if !present {
        return Ok(None);
    }
    match UnsignedExpGolombCode::read(stream) {
        Ok(v) => Ok(Some(v)),
        Err(e) => Err(e),
    }
}

/// Reads a signed Exp-Golomb field if `present` holds.
pub(crate) fn read_opt_se(stream: &mut BitStream, present: bool) -> (r: Result<
    Option<SignedExpGolombCode>,
    BitStreamError,
>)
    requires
        old(stream).wf(),
    ensures
        final(stream).wf(),
        final(stream).bytes() == old(stream).bytes(),
        match spec_opt_se(old(stream).bytes(), old(stream).cursor(), present) {
            Ok((o, p)) => r == Ok::<Option<SignedExpGolombCode>, BitStreamError>(o) && final(stream).cursor() == p,
            Err(e) => r == Err::<Option<SignedExpGolombCode>, BitStreamError>(e),
        },
{
    if !present {
        return Ok(None);
    }
    match SignedExpGolombCode::read(stream) {
        Ok(v) => Ok(Some(v)),
        Err(e) => Err(e),
    }
}

/// A `w`-bit unsigned field read into a byte: a width over 8 bits does
/// not fit the result type.
pub open spec fn spec_read_u8_sized(data: Seq<u8>, pos: nat, w: nat) -> Result<
    (u8, nat),
    BitStreamError,
> {
    if w > 8 {
        Err(BitStreamError::TooLarge)
    } else {
        match spec_read_u(data, pos, w) {
            Err(e) => Err(e),
            Ok((v, p)) => Ok((v as u8, p)),
        }
    }
}

/// Reads a `w`-bit unsigned field into a byte; a width over 8 bits is
/// refused before anything is consumed.
pub(crate) fn read_u8_sized(stream: &mut BitStream, w: u64) -> (r: Result<u8, BitStreamError>)
    requires
        old(stream).wf(),
    ensures
        final(stream).wf(),
        final(stream).bytes() == old(stream).bytes(),
        match spec_read_u8_sized(old(stream).bytes(), old(stream).cursor(), w as nat) {
            Ok((v, p)) => r == Ok::<u8, BitStreamError>(v) && final(stream).cursor() == p,
            Err(e) => r == Err::<u8, BitStreamError>(e),
        },
{
    if w > 8 {
        return Err(BitStreamError::TooLarge);
    }
    proof {
        lemma_bits_value_bound(old(stream).bytes(), old(stream).cursor(), w as nat);
        if (w as nat) < 8 {
            lemma_pow2_strictly_increases(w as nat, 8);
        }
        lemma2_to64();
    }
    match stream.read(w as u8) {
        Ok(v) => Ok(v as u8),
        Err(e) => Err(e),
    }
}

/// The mathematical value of a decoded [`NalUnitPayload`].
pub ghost enum NalUnitPayloadView {
    PictureParameterSet(PictureParameterSetView),
    SequenceParameterSet(SequenceParameterSetView),
    AccessUnitDelimiter(AccessUnitDelimiter),
    Unknown(Seq<u8>),
}

/// A parsed NAL unit payload, selected by the header's type: a picture
/// parameter set (type 8), a sequence parameter set (type 7), an access
/// unit delimiter (type 9), or the remaining bytes verbatim.
#[derive(Clone, Debug)]
pub enum NalUnitPayload {
    PictureParameterSet(PictureParameterSet),
    SequenceParameterSet(SequenceParameterSet),
    AccessUnitDelimiter(AccessUnitDelimiter),
    Unknown(Vec<u8>),
}

impl View for NalUnitPayload {
    type V = NalUnitPayloadView;

    open spec fn view(&self) -> NalUnitPayloadView {
        match self {
            NalUnitPayload::PictureParameterSet(p) => NalUnitPayloadView::PictureParameterSet(p@),
            NalUnitPayload::SequenceParameterSet(s) => NalUnitPayloadView::SequenceParameterSet(
                s@,
            ),
            NalUnitPayload::AccessUnitDelimiter(a) => NalUnitPayloadView::AccessUnitDelimiter(*a),
            NalUnitPayload::Unknown(b) => NalUnitPayloadView::Unknown(b@),
        }
    }
}

/// The payload of `data` at `pos` for a unit with header `header`,
/// resolved against the registered sequence parameter sets, and the
/// position after it.  A type without a parser takes the rest of the
/// unit verbatim, from the byte the position stands in.
pub open spec fn spec_read_payload(
    data: Seq<u8>,
    pos: nat,
    table: Seq<Option<SequenceParameterSetView>>,
    header: NalUnitHeader,
) -> Result<(NalUnitPayloadView, nat), ParseError> {
    if header.ty == 7 {
        match spec_read_sps(data, pos) {
            Err(e) => Err(parse_error_of(e)),
            Ok((s, p)) => Ok((NalUnitPayloadView::SequenceParameterSet(s), p)),
        }
    } else if header.ty == 8 {
        match spec_read_pps(data, pos, table) {
            Err(e) => Err(e),
            Ok((s, p)) => Ok((NalUnitPayloadView::PictureParameterSet(s), p)),
        }
    } else if header.ty == 9 {
        match spec_read_aud(data, pos) {
            Err(e) => Err(parse_error_of(e)),
            Ok((a, p)) => Ok((NalUnitPayloadView::AccessUnitDelimiter(a), p)),
        }
    } else {
        Ok((NalUnitPayloadView::Unknown(data.skip((pos / 8) as int)), 8 * data.len()))
    }
}

impl NalUnitPayload {
    /// Parses the payload that `header` announces from `stream`.
    #[verifier::rlimit(80)]
    pub fn read(stream: &mut BitStream, decoder: &Decoder, header: &NalUnitHeader) -> (r: Result<
        Self,
        ParseError,
    >)
        requires
            old(stream).wf(),
            decoder.wf(),
        ensures
            final(stream).wf(),
            final(stream).bytes() == old(stream).bytes(),
            match spec_read_payload(
                old(stream).bytes(),
                old(stream).cursor(),
                decoder@.sequence_parameter_sets,
                *header,
            ) {
                Ok((v, p)) => r matches Ok(u) && u@ == v && final(stream).cursor() == p,
                Err(e) => r == Err::<Self, ParseError>(e),
            },
    {
        if header.ty == 7 {
            match SequenceParameterSet::read(stream) {
                Ok(s) => Ok(NalUnitPayload::SequenceParameterSet(s)),
                Err(e) => Err(to_parse_error(e)),
            }
        } else if header.ty == 8 {
            match PictureParameterSet::read(stream, decoder) {
                Ok(s) => Ok(NalUnitPayload::PictureParameterSet(s)),
                Err(e) => Err(e),
            }
        } else if header.ty == 9 {
            match AccessUnitDelimiter::read(stream) {
                Ok(a) => Ok(NalUnitPayload::AccessUnitDelimiter(a)),
                Err(e) => Err(to_parse_error(e)),
            }
        } else {
            Ok(NalUnitPayload::Unknown(stream.take_rest()))
        }
    }
}

/// The mathematical value of a decoded [`NalUnit`].
pub ghost struct NalUnitView {
    pub header: NalUnitHeader,
    pub payload: NalUnitPayloadView,
}

/// A NAL unit: its header and the payload the header's type selects.
#[derive(Clone, Debug)]
pub struct NalUnit {
    pub header: NalUnitHeader,
    pub payload: NalUnitPayload,
}

impl View for NalUnit {
    type V = NalUnitView;

    open spec fn view(&self) -> NalUnitView {
        NalUnitView { header: self.header, payload: self.payload@ }
    }
}

/// The NAL unit of `data` at `pos`, resolved against the registered
/// sequence parameter sets, and the position after it.
pub open spec fn spec_read_nal_unit(
    data: Seq<u8>,
    pos: nat,
    table: Seq<Option<SequenceParameterSetView>>,
) -> Result<(NalUnitView, nat), ParseError> {
    match spec_read_header(data, pos) {
        Err(e) => Err(parse_error_of(e)),
        Ok((h, p1)) => match spec_read_payload(data, p1, table, h) {
            Err(e) => Err(e),
            Ok((pl, p2)) => Ok((NalUnitView { header: h, payload: pl }, p2)),
        },
    }
}

impl NalUnit {
    /// Parses a NAL unit, header and payload, from `stream`.
    pub fn read(stream: &mut BitStream, decoder: &Decoder) -> (r: Result<Self, ParseError>)
        requires
            old(stream).wf(),
            decoder.wf(),
        ensures
            final(stream).wf(),
            final(stream).bytes() == old(stream).bytes(),
            match spec_read_nal_unit(
                old(stream).bytes(),
                old(stream).cursor(),
                decoder@.sequence_parameter_sets,
            ) {
                Ok((v, p)) => r matches Ok(u) && u@ == v && final(stream).cursor() == p,
                Err(e) => r == Err::<Self, ParseError>(e),
            },
    {
        let header = match NalUnitHeader::read(stream) {
            Ok(h) => h,
            Err(e) => {
                return Err(to_parse_error(e));
            },
        };
        let payload = match NalUnitPayload::read(stream, decoder, &header) {
            Ok(p) => p,
            Err(e) => {
                return Err(e);
            },
        };
        Ok(NalUnit { header, payload })
    }
}

} // verus!