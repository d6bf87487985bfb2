//! Decoding of H.264 Annex-B byte streams into structured syntax elements.
//!
//! The crate locates NAL units inside a raw byte stream, strips
//! emulation-prevention bytes, and parses each unit's header and payload
//! (sequence parameter set, picture parameter set, access-unit delimiter)
//! bit by bit, following the variable-width, context-dependent grammar of
//! the H.264 specification.

pub mod bits;
pub mod bit_stream;
pub mod decoder;
pub mod exp_golomb;
pub mod nal_unit;
pub mod scaling_list;
pub mod stream;

pub use bit_stream::BitStream;
pub use bit_stream::BitStreamError;
pub use exp_golomb::SignedExpGolombCode;
pub use exp_golomb::UnsignedExpGolombCode;
pub use decoder::Decoder;
pub use nal_unit::access_unit_delimiter::AccessUnitDelimiter;
pub use nal_unit::header::NalUnitHeader;
pub use nal_unit::NalUnit;
pub use nal_unit::NalUnitPayload;
pub use nal_unit::ParseError;
pub use nal_unit::pic_param_set::PictureParameterSet;
pub use nal_unit::slice::SliceData;
pub use nal_unit::slice::SliceLayerWithoutPartitioning;
pub use nal_unit::slice_header::RefPicListModification;
pub use nal_unit::slice_header::SliceHeader;
pub use nal_unit::slice_header::SliceTypeName;
pub use nal_unit::slice_header::SliceTypeNameParseError;
pub use nal_unit::seq_param_set::HrdParameters;
pub use nal_unit::seq_param_set::SequenceParameterSet;
pub use nal_unit::seq_param_set::YuvParameters;
pub use scaling_list::ScalingList;
pub use stream::NalUnitStream;
pub use stream::NalUnitStreamError;
