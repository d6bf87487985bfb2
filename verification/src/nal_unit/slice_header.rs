//! The slice header (H.264 clause 7.3.3).
//!
//! Field widths and even field presence depend on the picture and
//! sequence parameter sets the header references, fetched from the
//! registry.  A reference to an unregistered set, or to a registered set
//! that lacks a field the header needs, is the recoverable
//! `MissingParameterSet` error.  The entropy-coded bodies that follow a
//! slice header (reference picture list contents, prediction weights,
//! decoded reference picture marking) are not part of this grammar.

use vstd::prelude::*;

use crate::bit_stream::spec_read_flag;
use crate::bit_stream::BitStream;
use crate::bit_stream::BitStreamError;
use crate::decoder::Decoder;
use crate::decoder::DecoderView;
use crate::exp_golomb::spec_read_se;
use crate::exp_golomb::spec_read_ue;
use crate::exp_golomb::SignedExpGolombCode;
use crate::exp_golomb::UnsignedExpGolombCode;
use crate::nal_unit::header::NalUnitHeader;
use crate::nal_unit::parse_error_of;
use crate::nal_unit::pic_param_set::ceil_log2;
use crate::nal_unit::pic_param_set::PictureParameterSetView;
use crate::nal_unit::read_opt_flag;
use crate::nal_unit::read_opt_se;
use crate::nal_unit::read_opt_u8;
use crate::nal_unit::read_opt_ue;
use crate::nal_unit::read_u8_sized;
use crate::nal_unit::seq_param_set::SequenceParameterSetView;
use crate::nal_unit::spec_opt_flag;
use crate::nal_unit::spec_opt_se;
use crate::nal_unit::spec_opt_u;
use crate::nal_unit::spec_opt_ue;
use crate::nal_unit::spec_read_u8_sized;
use crate::nal_unit::to_parse_error;
use crate::nal_unit::ParseError;

verus! {

/// The name a raw `slice_type` code maps to (Table 7-6): codes 0 to 9,
/// with 5 to 9 repeating the five names.
#[derive(Clone, Copy, Debug, PartialEq, Eq, Structural)]
pub enum SliceTypeName {
    P,
    B,
    I,
    SP,
    SI,
}

/// The error of converting an out-of-range `slice_type` code.
#[derive(Clone, Copy, Debug, PartialEq, Eq)]
pub struct SliceTypeNameParseError(());

/// The slice type name of a raw code, if the code is in range.
pub open spec fn spec_slice_type_name(value: u64) -> Option<SliceTypeName> {
    if value == 0 || value == 5 {
        Some(SliceTypeName::P)
    } else if value == 1 || value == 6 {
        Some(SliceTypeName::B)
    } else if value == 2 || value == 7 {
        Some(SliceTypeName::I)
    } else if value == 3 || value == 8 {
        Some(SliceTypeName::SP)
    } else if value == 4 || value == 9 {
        Some(SliceTypeName::SI)
    } else {
        None
    }
}

impl SliceTypeName {
    /// Converts a raw `slice_type` code to its name.
    pub fn try_from(value: u64) -> (r: Result<Self, SliceTypeNameParseError>)
        ensures
            match spec_slice_type_name(value) {
                Some(n) => r == Ok::<Self, SliceTypeNameParseError>(n),
                None => r is Err,
            },
    {
        if value == 0 || value == 5 {
            Ok(SliceTypeName::P)
        } else if value == 1 || value == 6 {
            Ok(SliceTypeName::B)
        } else if value == 2 || value == 7 {
            Ok(SliceTypeName::I)
        } else if value == 3 || value == 8 {
            Ok(SliceTypeName::SP)
        } else if value == 4 || value == 9 {
            Ok(SliceTypeName::SI)
        } else {
            Err(SliceTypeNameParseError(()))
        }
    }
}

/// The reference picture list modification prefix (H.264 clause
/// 7.3.3.1): one presence flag per list, gated by the slice type; the
/// modification entries themselves are not part of this grammar.
#[derive(Clone, Copy, Debug, PartialEq, Eq, Structural)]
pub struct RefPicListModification {
    pub ref_pic_list_modification_flag_l0: Option<bool>,
    pub ref_pic_list_modification_flag_l1: Option<bool>,
}

/// The reference picture list modification prefix of `data` at `pos` for
/// a slice named `name`.
pub open spec fn spec_read_rplm(data: Seq<u8>, pos: nat, name: SliceTypeName) -> Result<
    (RefPicListModification, nat),
    BitStreamError,
> {
    match spec_opt_flag(data, pos, name != SliceTypeName::I && name != SliceTypeName::SI) {
        Err(e) => Err(e),
        Ok((l0, p1)) => match spec_opt_flag(data, p1, name == SliceTypeName::B) {
            Err(e) => Err(e),
            Ok((l1, p2)) => Ok(
                (
                    RefPicListModification {
                        ref_pic_list_modification_flag_l0: l0,
                        ref_pic_list_modification_flag_l1: l1,
                    },
                    p2,
                ),
            ),
        },
    }
}

impl RefPicListModification {
    /// Parses a reference picture list modification prefix from `stream`.
    pub fn read(stream: &mut BitStream, name: SliceTypeName) -> (r: Result<Self, BitStreamError>)
        requires
            old(stream).wf(),
        ensures
            final(stream).wf(),
            final(stream).bytes() == old(stream).bytes(),
            match spec_read_rplm(old(stream).bytes(), old(stream).cursor(), name) {
                Ok((v, p)) => r == Ok::<Self, BitStreamError>(v) && final(stream).cursor() == p,
                Err(e) => r == Err::<Self, BitStreamError>(e),
            },
    {
        let l0 = match read_opt_flag(
            stream,
            !(name == SliceTypeName::I) && !(name == SliceTypeName::SI),
        ) {
            Ok(v) => v,
            Err(e) => {
                return Err(e);
            },
        };
        let l1 = match read_opt_flag(stream, name == SliceTypeName::B) {
            Ok(v) => v,
            Err(e) => {
                return Err(e);
            },
        };
        Ok(
            RefPicListModification {
                ref_pic_list_modification_flag_l0: l0,
                ref_pic_list_modification_flag_l1: l1,
            },
        )
    }
}

/// A parsed slice header.
#[derive(Clone, Copy, Debug, PartialEq, Eq, Structural)]
pub struct SliceHeader {
    pub first_mb_in_slice: UnsignedExpGolombCode,
    pub slice_type: UnsignedExpGolombCode,
    pub pic_parameter_set_id: UnsignedExpGolombCode,
    pub colour_plane_id: Option<u8>,
    pub frame_num: u8,
    pub field_pic_flag: bool,
    pub bottom_field_flag: Option<bool>,
    pub idr_pic_id: Option<UnsignedExpGolombCode>,
    pub pic_order_cnt_lsb: Option<u8>,
    pub delta_pic_order_cnt_bottom: Option<SignedExpGolombCode>,
    pub delta_pic_order_cnt_0: Option<SignedExpGolombCode>,
    pub delta_pic_order_cnt_1: Option<SignedExpGolombCode>,
    pub redundant_pic_cnt: Option<UnsignedExpGolombCode>,
    pub direct_spatial_mv_pred_flag: Option<bool>,
    pub num_ref_idx_active_override_flag: Option<bool>,
    pub num_ref_idx_l0_active_minus1: Option<UnsignedExpGolombCode>,
    pub num_ref_idx_l1_active_minus1: Option<UnsignedExpGolombCode>,
    pub ref_pic_list_modification: Option<RefPicListModification>,
    pub cabac_init_idc: Option<UnsignedExpGolombCode>,
    pub slice_qp_delta: SignedExpGolombCode,
    pub sp_for_switch_flag: Option<bool>,
    pub slice_qs_delta: Option<SignedExpGolombCode>,
    pub disable_deblocking_filter_idc: Option<UnsignedExpGolombCode>,
    pub slice_alpha_c0_offset_div2: Option<SignedExpGolombCode>,
    pub slice_beta_offset_div2: Option<SignedExpGolombCode>,
    pub slice_group_change_cycle: Option<u8>,
}

impl SliceHeader {
    /// The name of this header's slice type.  The parser only builds
    /// headers whose type code is in range.
    pub fn slice_type_name(&self) -> (r: SliceTypeName)
        requires
            spec_slice_type_name(self.slice_type.0) is Some,
        ensures
            spec_slice_type_name(self.slice_type.0) == Some(r),
    {
        match SliceTypeName::try_from(self.slice_type.0) {
            Ok(n) => n,
            Err(_) => vstd::pervasive::unreached(),
        }
    }
}

/// The identification fields of a slice header: colour plane, frame
/// number (whose width the sequence parameter set decides), field
/// flags, and the IDR picture id.
pub open spec fn spec_sh_ids(
    data: Seq<u8>,
    pos: nat,
    sps: SequenceParameterSetView,
    idr: bool,
) -> Result<((Option<u8>, u8, bool, Option<bool>, Option<UnsignedExpGolombCode>), nat), ParseError> {
    match spec_opt_u(data, pos, 2, sps.separate_colour_plane_flag) {
        Err(e) => Err(parse_error_of(e)),
        Ok((cp, p1)) => match spec_read_u8_sized(
            data,
            p1,
            (sps.log2_max_frame_num_minus4.0 + 4) as nat,
        ) {
            Err(e) => Err(parse_error_of(e)),
            Ok((fnum, p2)) => match spec_opt_flag(data, p2, !sps.frame_mbs_only_flag) {
                Err(e) => Err(parse_error_of(e)),
                Ok((fpf, p3)) => {
                    let field_pic = fpf == Some(true);
                    match spec_opt_flag(data, p3, field_pic) {
                        Err(e) => Err(parse_error_of(e)),
                        Ok((bff, p4)) => match spec_opt_ue(data, p4, idr) {
                            Err(e) => Err(parse_error_of(e)),
                            Ok((idrid, p5)) => Ok(
                                ((crate::nal_unit::opt_as_u8(cp), fnum, field_pic, bff, idrid), p5),
                            ),
                        },
                    }
                },
            },
        },
    }
}

/// The picture-order-count fields of a slice header: the low-order count
/// (whose width the sequence parameter set decides), the bottom-field
/// delta, the two conditional deltas, and the redundant picture count.
pub open spec fn spec_sh_poc(
    data: Seq<u8>,
    pos: nat,
    sps: SequenceParameterSetView,
    pps: PictureParameterSetView,
    field_pic: bool,
) -> Result<
    (
        (
            Option<u8>,
            Option<SignedExpGolombCode>,
            Option<SignedExpGolombCode>,
            Option<SignedExpGolombCode>,
            Option<UnsignedExpGolombCode>,
        ),
        nat,
    ),
    ParseError,
> {
    if sps.pic_order_cnt_type.0 == 0 && sps.log2_max_pic_order_cnt_lsb_minus4 is None {
        Err(ParseError::MissingParameterSet)
    } else if sps.pic_order_cnt_type.0 == 1 && sps.delta_pic_order_always_zero_flag is None {
        Err(ParseError::MissingParameterSet)
    } else {
        let lsb_width: nat = if sps.pic_order_cnt_type.0 == 0 {
            (sps.log2_max_pic_order_cnt_lsb_minus4->Some_0.0 + 4) as nat
        } else {
            0
        };
        let deltas = sps.pic_order_cnt_type.0 == 1 && sps.delta_pic_order_always_zero_flag
            == Some(false);
        match (if sps.pic_order_cnt_type.0 == 0 {
            match spec_read_u8_sized(data, pos, lsb_width) {
                Err(e) => Err(e),
                Ok((v, p)) => Ok((Some(v), p)),
            }
        } else {
            Ok((None, pos))
        }) {
            Err(e) => Err(parse_error_of(e)),
            Ok((lsb, p6)) => match spec_opt_se(
                data,
                p6,
                pps.bottom_field_pic_order_in_frame_present_flag && !field_pic,
            ) {
                Err(e) => Err(parse_error_of(e)),
                Ok((dbot, p7)) => match spec_opt_se(data, p7, deltas) {
                    Err(e) => Err(parse_error_of(e)),
                    Ok((d0, p8)) => match spec_opt_se(
                        data,
                        p8,
                        deltas && pps.bottom_field_pic_order_in_frame_present_flag && !field_pic,
                    ) {
                        Err(e) => Err(parse_error_of(e)),
                        Ok((d1, p9)) => match spec_opt_ue(
                            data,
                            p9,
                            pps.redundant_pic_cnt_present_flag,
                        ) {
                            Err(e) => Err(parse_error_of(e)),
                            Ok((red, p10)) => Ok(((lsb, dbot, d0, d1, red), p10)),
                        },
                    },
                },
            },
        }
    }
}

/// The picture-order and identification fields of a slice header, whose
/// widths and presence the referenced parameter sets decide.
pub open spec fn spec_sh_fields1(
    data: Seq<u8>,
    pos: nat,
    sps: SequenceParameterSetView,
    pps: PictureParameterSetView,
    idr: bool,
) -> Result<
    (
        (
            Option<u8>,
            u8,
            bool,
            Option<bool>,
            Option<UnsignedExpGolombCode>,
            Option<u8>,
            Option<SignedExpGolombCode>,
            Option<SignedExpGolombCode>,
            Option<SignedExpGolombCode>,
            Option<UnsignedExpGolombCode>,
        ),
        nat,
    ),
    ParseError,
> {
    match spec_sh_ids(data, pos, sps, idr) {
        Err(e) => Err(e),
        Ok(((cp, fnum, field_pic, bff, idrid), p5)) => match spec_sh_poc(
            data,
            p5,
            sps,
            pps,
            field_pic,
        ) {
            Err(e) => Err(e),
            Ok(((lsb, dbot, d0, d1, red), p10)) => Ok(
                ((cp, fnum, field_pic, bff, idrid, lsb, dbot, d0, d1, red), p10),
            ),
        },
    }
}

/// The prediction fields of a slice header: the direct-prediction flag,
/// the reference-count override group, and the reference picture list
/// modification prefix (absent for the extension slice types 20 and 21).
pub open spec fn spec_sh_pred(data: Seq<u8>, pos: nat, name: SliceTypeName, ty: u8) -> Result<
    (
        (
            Option<bool>,
            Option<bool>,
            Option<UnsignedExpGolombCode>,
            Option<UnsignedExpGolombCode>,
            Option<RefPicListModification>,
        ),
        nat,
    ),
    ParseError,
> {
    match spec_opt_flag(data, pos, name == SliceTypeName::B) {
        Err(e) => Err(parse_error_of(e)),
        Ok((dmv, p1)) => {
            let plist = name == SliceTypeName::P || name == SliceTypeName::SP || name
                == SliceTypeName::B;
            match spec_opt_flag(data, p1, plist) {
                Err(e) => Err(parse_error_of(e)),
                Ok((ovr, p2)) => {
                    let active = ovr == Some(true);
                    match spec_opt_ue(data, p2, active) {
                        Err(e) => Err(parse_error_of(e)),
                        Ok((l0a, p3)) => match spec_opt_ue(
                            data,
                            p3,
                            active && name == SliceTypeName::B,
                        ) {
                            Err(e) => Err(parse_error_of(e)),
                            Ok((l1a, p4)) => match (if ty == 20 || ty == 21 {
                                Ok((None, p4))
                            } else {
                                match spec_read_rplm(data, p4, name) {
                                    Err(e) => Err(e),
                                    Ok((m, p)) => Ok((Some(m), p)),
                                }
                            }) {
                                Err(e) => Err(parse_error_of(e)),
                                Ok((rplm, p5)) => Ok(((dmv, ovr, l0a, l1a, rplm), p5)),
                            },
                        },
                    }
                },
            }
        },
    }
}

/// The quantization and filter fields of a slice header: the CABAC
/// initialization index, the quantization deltas, and the deblocking
/// filter group.
pub open spec fn spec_sh_quant(
    data: Seq<u8>,
    pos: nat,
    pps: PictureParameterSetView,
    name: SliceTypeName,
) -> Result<
    (
        (
            Option<UnsignedExpGolombCode>,
            SignedExpGolombCode,
            Option<bool>,
            Option<SignedExpGolombCode>,
            Option<UnsignedExpGolombCode>,
            Option<SignedExpGolombCode>,
            Option<SignedExpGolombCode>,
        ),
        nat,
    ),
    ParseError,
> {
    match spec_opt_ue(
        data,
        pos,
        pps.entropy_coding_mode_flag && name != SliceTypeName::I && name != SliceTypeName::SI,
    ) {
        Err(e) => Err(parse_error_of(e)),
        Ok((cabac, p6)) => match spec_read_se(data, p6) {
            Err(e) => Err(parse_error_of(e)),
            Ok((qpd, p7)) => match spec_opt_flag(data, p7, name == SliceTypeName::SP) {
                Err(e) => Err(parse_error_of(e)),
                Ok((spsw, p8)) => match spec_opt_se(
                    data,
                    p8,
                    name == SliceTypeName::SP || name == SliceTypeName::SI,
                ) {
                    Err(e) => Err(parse_error_of(e)),
                    Ok((qsd, p9)) => match spec_opt_ue(
                        data,
                        p9,
                        pps.deblocking_filter_control_present_flag,
                    ) {
                        Err(e) => Err(parse_error_of(e)),
                        Ok((dbf, p10)) => {
                            let offsets = pps.deblocking_filter_control_present_flag && dbf
                                != Some(UnsignedExpGolombCode(1));
                            match spec_opt_se(data, p10, offsets) {
                                Err(e) => Err(parse_error_of(e)),
                                Ok((alpha, p11)) => match spec_opt_se(data, p11, offsets) {
                                    Err(e) => Err(parse_error_of(e)),
                                    Ok((beta, p12)) => Ok(
                                        (
                                            (
                                                cabac,
                                                SignedExpGolombCode(qpd),
                                                spsw,
                                                qsd,
                                                dbf,
                                                alpha,
                                                beta,
                                            ),
                                            p12,
                                        ),
                                    ),
                                },
                            }
                        },
                    },
                },
            },
        },
    }
}

/// The prediction and quantization fields of a slice header, gated by
/// the slice type and the referenced picture parameter set.
pub open spec fn spec_sh_fields2(
    data: Seq<u8>,
    pos: nat,
    pps: PictureParameterSetView,
    name: SliceTypeName,
    ty: u8,
) -> Result<
    (
        (
            Option<bool>,
            Option<bool>,
            Option<UnsignedExpGolombCode>,
            Option<UnsignedExpGolombCode>,
            Option<RefPicListModification>,
            Option<UnsignedExpGolombCode>,
            SignedExpGolombCode,
            Option<bool>,
            Option<SignedExpGolombCode>,
            Option<UnsignedExpGolombCode>,
            Option<SignedExpGolombCode>,
            Option<SignedExpGolombCode>,
        ),
        nat,
    ),
    ParseError,
> {
    match spec_sh_pred(data, pos, name, ty) {
        Err(e) => Err(e),
        Ok(((dmv, ovr, l0a, l1a, rplm), p5)) => match spec_sh_quant(data, p5, pps, name) {
            Err(e) => Err(e),
            Ok(((cabac, qpd, spsw, qsd, dbf, alpha, beta), p12)) => Ok(
                ((dmv, ovr, l0a, l1a, rplm, cabac, qpd, spsw, qsd, dbf, alpha, beta), p12),
            ),
        },
    }
}

/// The slice-group change cycle of a slice header: present only for map
/// types 3 to 5, its width derived from the picture size and change rate
/// of the referenced parameter sets.
pub open spec fn spec_sh_change_cycle(
    data: Seq<u8>,
    pos: nat,
    sps: SequenceParameterSetView,
    pps: PictureParameterSetView,
) -> Result<(Option<u8>, nat), ParseError> {
    if pps.num_slice_groups_minus1.0 == 0 {
        Ok((None, pos))
    } else if pps.slice_group_map_type is None {
        Err(ParseError::MissingParameterSet)
    } else if 3 <= pps.slice_group_map_type->Some_0.0 <= 5 {
        if pps.slice_group_change_rate_minus1 is None {
            Err(ParseError::MissingParameterSet)
        } else {
            let units = (sps.pic_width_in_mbs_minus1.0 + 1) * (sps.pic_height_in_map_units_minus1.0
                + 1);
            let rate = pps.slice_group_change_rate_minus1->Some_0.0 + 1;
            let width = ceil_log2((units / rate + 1) as nat);
            match spec_read_u8_sized(data, pos, width) {
                Err(e) => Err(parse_error_of(e)),
                Ok((v, p)) => Ok((Some(v), p)),
            }
        }
    } else {
        Ok((None, pos))
    }
}

/// The slice header of `data` at `pos` for a unit with header `header`,
/// resolved against the registry: its type code must name a slice type,
/// and the picture and sequence parameter sets it references must be
/// registered and hold the fields the header needs.
pub open spec fn spec_read_slice_header(
    data: Seq<u8>,
    pos: nat,
    dec: DecoderView,
    header: NalUnitHeader,
) -> Result<(SliceHeader, nat), ParseError> {
    match spec_read_ue(data, pos) {
        Err(e) => Err(parse_error_of(e)),
        Ok((fmb, p1)) => match spec_read_ue(data, p1) {
            Err(e) => Err(parse_error_of(e)),
            Ok((st, p2)) => match spec_slice_type_name(st) {
                None => Err(ParseError::TooLarge),
                Some(name) => match spec_read_ue(data, p2) {
                    Err(e) => Err(parse_error_of(e)),
                    Ok((pid, p3)) => {
                        if !(pid < 256 && dec.picture_parameter_sets[pid as int] is Some) {
                            Err(ParseError::MissingParameterSet)
                        } else {
                            let pps = dec.picture_parameter_sets[pid as int]->Some_0;
                            if !(pps.seq_parameter_set_id.0 < 32
                                && dec.sequence_parameter_sets[pps.seq_parameter_set_id.0 as int] is Some) {
                                Err(ParseError::MissingParameterSet)
                            } else {
                                let sps =
                                    dec.sequence_parameter_sets[pps.seq_parameter_set_id.0 as int]->Some_0;
                                match spec_sh_fields1(data, p3, sps, pps, header.ty == 5) {
                                    Err(e) => Err(e),
                                    Ok(
                                        ((cp, fnum, fpf, bff, idrid, lsb, dbot, d0, d1, red), p4),
                                    ) => match spec_sh_fields2(data, p4, pps, name, header.ty) {
                                        Err(e) => Err(e),
                                        Ok(
                                            (
                                                (
                                                    dmv,
                                                    ovr,
                                                    l0a,
                                                    l1a,
                                                    rplm,
                                                    cabac,
                                                    qpd,
                                                    spsw,
                                                    qsd,
                                                    dbf,
                                                    alpha,
                                                    beta,
                                                ),
                                                p5,
                                            ),
                                        ) => match spec_sh_change_cycle(data, p5, sps, pps) {
                                            Err(e) => Err(e),
                                            Ok((cycle, p6)) => Ok(
                                                (
                                                    SliceHeader {
                                                        first_mb_in_slice: UnsignedExpGolombCode(
                                                            fmb,
                                                        ),
                                                        slice_type: UnsignedExpGolombCode(st),
                                                        pic_parameter_set_id:
                                                            UnsignedExpGolombCode(pid),
                                                        colour_plane_id: cp,
                                                        frame_num: fnum,
                                                        field_pic_flag: fpf,
                                                        bottom_field_flag: bff,
                                                        idr_pic_id: idrid,
                                                        pic_order_cnt_lsb: lsb,
                                                        delta_pic_order_cnt_bottom: dbot,
                                                        delta_pic_order_cnt_0: d0,
                                                        delta_pic_order_cnt_1: d1,
                                                        redundant_pic_cnt: red,
                                                        direct_spatial_mv_pred_flag: dmv,
                                                        num_ref_idx_active_override_flag: ovr,
                                                        num_ref_idx_l0_active_minus1: l0a,
                                                        num_ref_idx_l1_active_minus1: l1a,
                                                        ref_pic_list_modification: rplm,
                                                        cabac_init_idc: cabac,
                                                        slice_qp_delta: qpd,
                                                        sp_for_switch_flag: spsw,
                                                        slice_qs_delta: qsd,
                                                        disable_deblocking_filter_idc: dbf,
                                                        slice_alpha_c0_offset_div2: alpha,
                                                        slice_beta_offset_div2: beta,
                                                        slice_group_change_cycle: cycle,
                                                    },
                                                    p6,
                                                ),
                                            ),
                                        },
                                    },
                                }
                            }
                        }
                    },
                },
            },
        },
    }
}

proof fn lemma_ceil_log2_above_byte(n: nat)
    requires
        n > 256,
    ensures
        ceil_log2(n) > 8,
{
    crate::nal_unit::pic_param_set::lemma_ceil_log2_bounds(n);
    vstd::arithmetic::power2::lemma2_to64();
    if ceil_log2(n) <= 8 {
        if ceil_log2(n) < 8 {
            vstd::arithmetic::power2::lemma_pow2_strictly_increases(ceil_log2(n), 8);
        }
        assert(false);
    }
}

fn read_sh_ids(
    stream: &mut BitStream,
    sps: &crate::nal_unit::seq_param_set::SequenceParameterSet,
    idr: bool,
) -> (r: Result<
    (Option<u8>, u8, bool, Option<bool>, Option<UnsignedExpGolombCode>),
    ParseError,
>)
    requires
        old(stream).wf(),
    ensures
        final(stream).wf(),
        final(stream).bytes() == old(stream).bytes(),
        match spec_sh_ids(old(stream).bytes(), old(stream).cursor(), sps@, idr) {
            Ok((t, p)) => r == Ok::<_, ParseError>(t) && final(stream).cursor() == p,
            Err(e) => r == Err::<
                (Option<u8>, u8, bool, Option<bool>, Option<UnsignedExpGolombCode>),
                ParseError,
            >(e),
        },
{
    let cp = match read_opt_u8(stream, 2, sps.separate_colour_plane_flag) {
        Ok(v) => v,
        Err(e) => {
            return Err(to_parse_error(e));
        },
    };
    let l = sps.log2_max_frame_num_minus4.0;
    if l > 4 {
        return Err(ParseError::TooLarge);
    }
    let fnum = match read_u8_sized(stream, l + 4) {
        Ok(v) => v,
        Err(e) => {
            return Err(to_parse_error(e));
        },
    };
    let fpf = match read_opt_flag(stream, !sps.frame_mbs_only_flag) {
        Ok(v) => v,
        Err(e) => {
            return Err(to_parse_error(e));
        },
    };
    let field_pic = match fpf {
        Some(b) => b,
        None => false,
    };
    let bff = match read_opt_flag(stream, field_pic) {
        Ok(v) => v,
        Err(e) => {
            return Err(to_parse_error(e));
        },
    };
    let idrid = match read_opt_ue(stream, idr) {
        Ok(v) => v,
        Err(e) => {
            return Err(to_parse_error(e));
        },
    };
    Ok((cp, fnum, field_pic, bff, idrid))
}

fn read_sh_poc(
    stream: &mut BitStream,
    sps: &crate::nal_unit::seq_param_set::SequenceParameterSet,
    pps: &crate::nal_unit::pic_param_set::PictureParameterSet,
    field_pic: bool,
) -> (r: Result<
    (
        Option<u8>,
        Option<SignedExpGolombCode>,
        Option<SignedExpGolombCode>,
        Option<SignedExpGolombCode>,
        Option<UnsignedExpGolombCode>,
    ),
    ParseError,
>)
    requires
        old(stream).wf(),
    ensures
        final(stream).wf(),
        final(stream).bytes() == old(stream).bytes(),
        match spec_sh_poc(old(stream).bytes(), old(stream).cursor(), sps@, pps@, field_pic) {
            Ok((t, p)) => r == Ok::<_, ParseError>(t) && final(stream).cursor() == p,
            Err(e) => r == Err::<
                (
                    Option<u8>,
                    Option<SignedExpGolombCode>,
                    Option<SignedExpGolombCode>,
                    Option<SignedExpGolombCode>,
                    Option<UnsignedExpGolombCode>,
                ),
                ParseError,
            >(e),
        },
{
    let deltas: bool = if sps.pic_order_cnt_type.0 == 1 {
        match &sps.delta_pic_order_always_zero_flag {
            None => {
                return Err(ParseError::MissingParameterSet);
            },
            Some(daz) => !*daz,
        }
    } else {
        false
    };
    let lsb: Option<u8> = if sps.pic_order_cnt_type.0 == 0 {
        match &sps.log2_max_pic_order_cnt_lsb_minus4 {
            None => {
                return Err(ParseError::MissingParameterSet);
            },
            Some(l2) => {
                if l2.0 > 4 {
                    return Err(ParseError::TooLarge);
                }
                match read_u8_sized(stream, l2.0 + 4) {
                    Ok(v) => Some(v),
                    Err(e) => {
                        return Err(to_parse_error(e));
                    },
                }
            },
        }
    } else {
        None
    };
    let dbot = match read_opt_se(
        stream,
        pps.bottom_field_pic_order_in_frame_present_flag && !field_pic,
    ) {
        Ok(v) => v,
        Err(e) => {
            return Err(to_parse_error(e));
        },
    };
    let d0 = match read_opt_se(stream, deltas) {
        Ok(v) => v,
        Err(e) => {
            return Err(to_parse_error(e));
        },
    };
    let d1 = match read_opt_se(
        stream,
        deltas && pps.bottom_field_pic_order_in_frame_present_flag && !field_pic,
    ) {
        Ok(v) => v,
        Err(e) => {
            return Err(to_parse_error(e));
        },
    };
    let red = match read_opt_ue(stream, pps.redundant_pic_cnt_present_flag) {
        Ok(v) => v,
        Err(e) => {
            return Err(to_parse_error(e));
        },
    };
    Ok((lsb, dbot, d0, d1, red))
}

fn read_sh_fields1(
    stream: &mut BitStream,
    sps: &crate::nal_unit::seq_param_set::SequenceParameterSet,
    pps: &crate::nal_unit::pic_param_set::PictureParameterSet,
    idr: bool,
) -> (r: Result<
    (
        Option<u8>,
        u8,
        bool,
        Option<bool>,
        Option<UnsignedExpGolombCode>,
        Option<u8>,
        Option<SignedExpGolombCode>,
        Option<SignedExpGolombCode>,
        Option<SignedExpGolombCode>,
        Option<UnsignedExpGolombCode>,
    ),
    ParseError,
>)
    requires
        old(stream).wf(),
    ensures
        final(stream).wf(),
        final(stream).bytes() == old(stream).bytes(),
        match spec_sh_fields1(old(stream).bytes(), old(stream).cursor(), sps@, pps@, idr) {
            Ok((t, p)) => r == Ok::<_, ParseError>(t) && final(stream).cursor() == p,
            Err(e) => r == Err::<
                (
                    Option<u8>,
                    u8,
                    bool,
                    Option<bool>,
                    Option<UnsignedExpGolombCode>,
                    Option<u8>,
                    Option<SignedExpGolombCode>,
                    Option<SignedExpGolombCode>,
                    Option<SignedExpGolombCode>,
                    Option<UnsignedExpGolombCode>,
                ),
                ParseError,
            >(e),
        },
{
    let (cp, fnum, field_pic, bff, idrid) = match read_sh_ids(stream, sps, idr) {
        Ok(t) => t,
        Err(e) => {
            return Err(e);
        },
    };
    let (lsb, dbot, d0, d1, red) = match read_sh_poc(stream, sps, pps, field_pic) {
        Ok(t) => t,
        Err(e) => {
            return Err(e);
        },
    };
    Ok((cp, fnum, field_pic, bff, idrid, lsb, dbot, d0, d1, red))
}

fn read_sh_pred(stream: &mut BitStream, name: SliceTypeName, ty: u8) -> (r: Result<
    (
        Option<bool>,
        Option<bool>,
        Option<UnsignedExpGolombCode>,
        Option<UnsignedExpGolombCode>,
        Option<RefPicListModification>,
    ),
    ParseError,
>)
    requires
        old(stream).wf(),
    ensures
        final(stream).wf(),
        final(stream).bytes() == old(stream).bytes(),
        match spec_sh_pred(old(stream).bytes(), old(stream).cursor(), name, ty) {
            Ok((t, p)) => r == Ok::<_, ParseError>(t) && final(stream).cursor() == p,
            Err(e) => r == Err::<
                (
                    Option<bool>,
                    Option<bool>,
                    Option<UnsignedExpGolombCode>,
                    Option<UnsignedExpGolombCode>,
                    Option<RefPicListModification>,
                ),
                ParseError,
            >(e),
        },
{
    let dmv = match read_opt_flag(stream, name == SliceTypeName::B) {
        Ok(v) => v,
        Err(e) => {
            return Err(to_parse_error(e));
        },
    };
    let plist = name == SliceTypeName::P || name == SliceTypeName::SP || name == SliceTypeName::B;
    let ovr = match read_opt_flag(stream, plist) {
        Ok(v) => v,
        Err(e) => {
            return Err(to_parse_error(e));
        },
    };
    let active = match ovr {
        Some(b) => b,
        None => false,
    };
    let l0a = match read_opt_ue(stream, active) {
        Ok(v) => v,
        Err(e) => {
            return Err(to_parse_error(e));
        },
    };
    let l1a = match read_opt_ue(stream, active && name == SliceTypeName::B) {
        Ok(v) => v,
        Err(e) => {
            return Err(to_parse_error(e));
        },
    };
    let rplm: Option<RefPicListModification> = if ty == 20 || ty == 21 {
        None
    } else {
        match RefPicListModification::read(stream, name) {
            Ok(m) => Some(m),
            Err(e) => {
                return Err(to_parse_error(e));
            },
        }
    };
    Ok((dmv, ovr, l0a, l1a, rplm))
}

fn read_sh_quant(
    stream: &mut BitStream,
    pps: &crate::nal_unit::pic_param_set::PictureParameterSet,
    name: SliceTypeName,
) -> (r: Result<
    (
        Option<UnsignedExpGolombCode>,
        SignedExpGolombCode,
        Option<bool>,
        Option<SignedExpGolombCode>,
        Option<UnsignedExpGolombCode>,
        Option<SignedExpGolombCode>,
        Option<SignedExpGolombCode>,
    ),
    ParseError,
>)
    requires
        old(stream).wf(),
    ensures
        final(stream).wf(),
        final(stream).bytes() == old(stream).bytes(),
        match spec_sh_quant(old(stream).bytes(), old(stream).cursor(), pps@, name) {
            Ok((t, p)) => r == Ok::<_, ParseError>(t) && final(stream).cursor() == p,
            Err(e) => r == Err::<
                (
                    Option<UnsignedExpGolombCode>,
                    SignedExpGolombCode,
                    Option<bool>,
                    Option<SignedExpGolombCode>,
                    Option<UnsignedExpGolombCode>,
                    Option<SignedExpGolombCode>,
                    Option<SignedExpGolombCode>,
                ),
                ParseError,
            >(e),
        },
{
    let cabac = match read_opt_ue(
        stream,
        pps.entropy_coding_mode_flag && !(name == SliceTypeName::I) && !(name
            == SliceTypeName::SI),
    ) {
        Ok(v) => v,
        Err(e) => {
            return Err(to_parse_error(e));
        },
    };
    let qpd = match SignedExpGolombCode::read(stream) {
        Ok(v) => v,
        Err(e) => {
            return Err(to_parse_error(e));
        },
    };
    let spsw = match read_opt_flag(stream, name == SliceTypeName::SP) {
        Ok(v) => v,
        Err(e) => {
            return Err(to_parse_error(e));
        },
    };
    let qsd = match read_opt_se(stream, name == SliceTypeName::SP || name == SliceTypeName::SI) {
        Ok(v) => v,
        Err(e) => {
            return Err(to_parse_error(e));
        },
    };
    let dbf = match read_opt_ue(stream, pps.deblocking_filter_control_present_flag) {
        Ok(v) => v,
        Err(e) => {
            return Err(to_parse_error(e));
        },
    };
    let offsets = pps.deblocking_filter_control_present_flag && (match &dbf {
        Some(c) => c.0 != 1,
        None => true,
    });
    let alpha = match read_opt_se(stream, offsets) {
        Ok(v) => v,
        Err(e) => {
            return Err(to_parse_error(e));
        },
    };
    let beta = match read_opt_se(stream, offsets) {
        Ok(v) => v,
        Err(e) => {
            return Err(to_parse_error(e));
        },
    };
    Ok((cabac, qpd, spsw, qsd, dbf, alpha, beta))
}

fn read_sh_fields2(
    stream: &mut BitStream,
    pps: &crate::nal_unit::pic_param_set::PictureParameterSet,
    name: SliceTypeName,
    ty: u8,
) -> (r: Result<
    (
        Option<bool>,
        Option<bool>,
        Option<UnsignedExpGolombCode>,
        Option<UnsignedExpGolombCode>,
        Option<RefPicListModification>,
        Option<UnsignedExpGolombCode>,
        SignedExpGolombCode,
        Option<bool>,
        Option<SignedExpGolombCode>,
        Option<UnsignedExpGolombCode>,
        Option<SignedExpGolombCode>,
        Option<SignedExpGolombCode>,
    ),
    ParseError,
>)
    requires
        old(stream).wf(),
    ensures
        final(stream).wf(),
        final(stream).bytes() == old(stream).bytes(),
        match spec_sh_fields2(old(stream).bytes(), old(stream).cursor(), pps@, name, ty) {
            Ok((t, p)) => r == Ok::<_, ParseError>(t) && final(stream).cursor() == p,
            Err(e) => r == Err::<
                (
                    Option<bool>,
                    Option<bool>,
                    Option<UnsignedExpGolombCode>,
                    Option<UnsignedExpGolombCode>,
                    Option<RefPicListModification>,
                    Option<UnsignedExpGolombCode>,
                    SignedExpGolombCode,
                    Option<bool>,
                    Option<SignedExpGolombCode>,
                    Option<UnsignedExpGolombCode>,
                    Option<SignedExpGolombCode>,
                    Option<SignedExpGolombCode>,
                ),
                ParseError,
            >(e),
        },
{
    let (dmv, ovr, l0a, l1a, rplm) = match read_sh_pred(stream, name, ty) {
        Ok(t) => t,
        Err(e) => {
            return Err(e);
        },
    };
    let (cabac, qpd, spsw, qsd, dbf, alpha, beta) = match read_sh_quant(stream, pps, name) {
        Ok(t) => t,
        Err(e) => {
            return Err(e);
        },
    };
    Ok((dmv, ovr, l0a, l1a, rplm, cabac, qpd, spsw, qsd, dbf, alpha, beta))
}

fn read_sh_change_cycle(
    stream: &mut BitStream,
    sps: &crate::nal_unit::seq_param_set::SequenceParameterSet,
    pps: &crate::nal_unit::pic_param_set::PictureParameterSet,
) -> (r: Result<Option<u8>, ParseError>)
    requires
        old(stream).wf(),
    ensures
        final(stream).wf(),
        final(stream).bytes() == old(stream).bytes(),
        match spec_sh_change_cycle(old(stream).bytes(), old(stream).cursor(), sps@, pps@) {
            Ok((o, p)) => r == Ok::<Option<u8>, ParseError>(o) && final(stream).cursor() == p,
            Err(e) => r == Err::<Option<u8>, ParseError>(e),
        },
{
    if pps.num_slice_groups_minus1.0 == 0 {
        return Ok(None);
    }
    let mt = match &pps.slice_group_map_type {
        Some(m) => m,
        None => {
            return Err(ParseError::MissingParameterSet);
        },
    };
    if 3 <= mt.0 && mt.0 <= 5 {
        let rate_m1 = match &pps.slice_group_change_rate_minus1 {
            Some(c) => c,
            None => {
                return Err(ParseError::MissingParameterSet);
            },
        };
        let w0 = sps.pic_width_in_mbs_minus1.0;
        let h0 = sps.pic_height_in_map_units_minus1.0;
        let rate: u128 = rate_m1.0 as u128 + 1;
        let ghost units: int = (w0 + 1) * (h0 + 1);
        if w0 == u64::MAX && h0 == u64::MAX {
            proof {
                vstd::arithmetic::div_mod::lemma_div_is_ordered_by_denominator(
                    units,
                    rate as int,
                    0x10000000000000000,
                );
                vstd::arithmetic::div_mod::lemma_div_multiples_vanish(
                    0x10000000000000000,
                    0x10000000000000000,
                );
                lemma_ceil_log2_above_byte((units / (rate as int) + 1) as nat);
            }
            return Err(ParseError::TooLarge);
        }
        let a: u128 = w0 as u128 + 1;
        let b: u128 = h0 as u128 + 1;
        proof {
            assert(a * b < 0x100000000000000000000000000000000) by (nonlinear_arith)
                requires
                    a <= 0x10000000000000000u128,
                    b <= 0x10000000000000000u128,
                    a < 0x10000000000000000u128 || b < 0x10000000000000000u128,
            ;
        }
        let units_exec: u128 = a * b;
        let q: u128 = units_exec / rate;
        if q > 255 {
            proof {
                lemma_ceil_log2_above_byte((units / (rate as int) + 1) as nat);
            }
            return Err(ParseError::TooLarge);
        }
        let width = crate::nal_unit::pic_param_set::ceil_log2_u64((q + 1) as u64);
        match read_u8_sized(stream, width as u64) {
            Ok(v) => Ok(Some(v)),
            Err(e) => Err(to_parse_error(e)),
        }
    } else {
        Ok(None)
    }
}

impl SliceHeader {
    /// Parses a slice header from `stream`, resolving its parameter-set
    /// references against `decoder`.
    #[verifier::rlimit(80)]
    pub fn read(stream: &mut BitStream, decoder: &Decoder, header: &NalUnitHeader) -> (r: Result<
        Self,
        ParseError,
    >)
        requires
            old(stream).wf(),
            decoder.wf(),
        ensures
            final(stream).wf(),
            final(stream).bytes() == old(stream).bytes(),
            match spec_read_slice_header(old(stream).bytes(), old(stream).cursor(), decoder@, *header) {
                Ok((v, p)) => r == Ok::<Self, ParseError>(v) && final(stream).cursor() == p,
                Err(e) => r == Err::<Self, ParseError>(e),
            },
    {
        let fmb = match UnsignedExpGolombCode::read(stream) {
            Ok(v) => v,
            Err(e) => {
                return Err(to_parse_error(e));
            },
        };
        let st = match UnsignedExpGolombCode::read(stream) {
            Ok(v) => v,
            Err(e) => {
                return Err(to_parse_error(e));
            },
        };
        let name = match SliceTypeName::try_from(st.0) {
            Ok(n) => n,
            Err(_) => {
                return Err(ParseError::TooLarge);
            },
        };
        let pid = match UnsignedExpGolombCode::read(stream) {
            Ok(v) => v,
            Err(e) => {
                return Err(to_parse_error(e));
            },
        };
        let pps = match decoder.find_picture_parameter_set(pid) {
            Some(p) => p,
            None => {
                return Err(ParseError::MissingParameterSet);
            },
        };
        let sps = match decoder.find_sequence_parameter_set(pps.seq_parameter_set_id) {
            Some(s) => s,
            None => {
                return Err(ParseError::MissingParameterSet);
            },
        };
        let (cp, fnum, fpf, bff, idrid, lsb, dbot, d0, d1, red) = match read_sh_fields1(
            stream,
            sps,
            pps,
            header.ty == 5,
        ) {
            Ok(t) => t,
            Err(e) => {
                return Err(e);
            },
        };
        let (dmv, ovr, l0a, l1a, rplm, cabac, qpd, spsw, qsd, dbf, alpha, beta) =
            match read_sh_fields2(stream, pps, name, header.ty) {
            Ok(t) => t,
            Err(e) => {
                return Err(e);
            },
        };
        let cycle = match read_sh_change_cycle(stream, sps, pps) {
            Ok(o) => o,
            Err(e) => {
                return Err(e);
            },
        };
        Ok(
            SliceHeader {
                first_mb_in_slice: fmb,
                slice_type: st,
                pic_parameter_set_id: pid,
                colour_plane_id: cp,
                frame_num: fnum,
                field_pic_flag: fpf,
                bottom_field_flag: bff,
                idr_pic_id: idrid,
                pic_order_cnt_lsb: lsb,
                delta_pic_order_cnt_bottom: dbot,
                delta_pic_order_cnt_0: d0,
                delta_pic_order_cnt_1: d1,
                redundant_pic_cnt: red,
                direct_spatial_mv_pred_flag: dmv,
                num_ref_idx_active_override_flag: ovr,
                num_ref_idx_l0_active_minus1: l0a,
                num_ref_idx_l1_active_minus1: l1a,
                ref_pic_list_modification: rplm,
                cabac_init_idc: cabac,
                slice_qp_delta: qpd,
                sp_for_switch_flag: spsw,
                slice_qs_delta: qsd,
                disable_deblocking_filter_idc: dbf,
                slice_alpha_c0_offset_div2: alpha,
                slice_beta_offset_div2: beta,
                slice_group_change_cycle: cycle,
            },
        )
    }
}

} // verus!