//! Slice layers (H.264 clauses 7.3.2.8 and 7.3.4).
//!
//! Macroblock-level slice data decoding (entropy-coded residuals, motion
//! vectors) is not implemented; the slice data record only resolves the
//! parameter sets the slice references and holds no fields.

use vstd::prelude::*;

use crate::bit_stream::BitStream;
use crate::decoder::Decoder;
use crate::decoder::DecoderView;
use crate::nal_unit::header::NalUnitHeader;
use crate::nal_unit::slice_header::spec_read_slice_header;
use crate::nal_unit::slice_header::SliceHeader;
use crate::nal_unit::ParseError;

verus! {

/// The stubbed slice data record: it consumes nothing, but the parameter
/// sets the slice references must be registered.
#[derive(Clone, Copy, Debug, PartialEq, Eq, Structural)]
pub struct SliceData {}

/// The slice data of a slice with header `header`: nothing is read, but
/// the referenced picture and sequence parameter sets must resolve.
pub open spec fn spec_read_slice_data(dec: DecoderView, header: SliceHeader) -> Result<
    SliceData,
    ParseError,
> {
    if !(header.pic_parameter_set_id.0 < 256
        && dec.picture_parameter_sets[header.pic_parameter_set_id.0 as int] is Some) {
        Err(ParseError::MissingParameterSet)
    } else {
        let pps = dec.picture_parameter_sets[header.pic_parameter_set_id.0 as int]->Some_0;
        if !(pps.seq_parameter_set_id.0 < 32
            && dec.sequence_parameter_sets[pps.seq_parameter_set_id.0 as int] is Some) {
            Err(ParseError::MissingParameterSet)
        } else {
            Ok(SliceData {  })
        }
    }
}

impl SliceData {
    /// Resolves the parameter sets a slice references; the entropy-coded
    /// body itself is not decoded.
    pub fn read(decoder: &Decoder, header: &SliceHeader) -> (r: Result<Self, ParseError>)
        requires
            decoder.wf(),
        ensures
            r == spec_read_slice_data(decoder@, *header),
    {
        let pps = match decoder.find_picture_parameter_set(header.pic_parameter_set_id) {
            Some(p) => p,
            None => {
                return Err(ParseError::MissingParameterSet);
            },
        };
        match decoder.find_sequence_parameter_set(pps.seq_parameter_set_id) {
            Some(_) => Ok(SliceData {  }),
            None => Err(ParseError::MissingParameterSet),
        }
    }
}

/// A slice layer without partitioning (H.264 clause 7.3.2.8): the slice
/// header followed by the stubbed slice data.
#[derive(Clone, Copy, Debug, PartialEq, Eq, Structural)]
pub struct SliceLayerWithoutPartitioning {
    pub slice_header: SliceHeader,
    pub slice_data: SliceData,
}

/// The slice layer of `data` at `pos`, resolved against the registry.
pub open spec fn spec_read_slice_layer(
    data: Seq<u8>,
    pos: nat,
    dec: DecoderView,
    header: NalUnitHeader,
) -> Result<(SliceLayerWithoutPartitioning, nat), ParseError> {
    match spec_read_slice_header(data, pos, dec, header) {
        Err(e) => Err(e),
        Ok((sh, p1)) => match spec_read_slice_data(dec, sh) {
            Err(e) => Err(e),
            Ok(sd) => Ok((SliceLayerWithoutPartitioning { slice_header: sh, slice_data: sd }, p1)),
        },
    }
}

impl SliceLayerWithoutPartitioning {
    /// Parses a slice layer without partitioning from `stream`.
    pub fn read(stream: &mut BitStream, decoder: &Decoder, header: &NalUnitHeader) -> (r: Result<
        Self,
        ParseError,
    >)
        requires
            old(stream).wf(),
            decoder.wf(),
        ensures
            final(stream).wf(),
            final(stream).bytes() == old(stream).bytes(),
            match spec_read_slice_layer(
                old(stream).bytes(),
                old(stream).cursor(),
                decoder@,
                *header,
            ) {
                Ok((v, p)) => r == Ok::<Self, ParseError>(v) && final(stream).cursor() == p,
                Err(e) => r == Err::<Self, ParseError>(e),
            },
    {
        let slice_header = match SliceHeader::read(stream, decoder, header) {
            Ok(h) => h,
            Err(e) => {
                return Err(e);
            },
        };
        let slice_data = match SliceData::read(decoder, &slice_header) {
            Ok(d) => d,
            Err(e) => {
                return Err(e);
            },
        };
        Ok(SliceLayerWithoutPartitioning { slice_header, slice_data })
    }
}

} // verus!
