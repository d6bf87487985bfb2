//! The sequence parameter set (H.264 clause 7.3.2.1.1) with its embedded
//! VUI and HRD sub-records (clauses E.1.1 and E.1.2).

use vstd::prelude::*;

use crate::bit_stream::spec_read_flag;
use crate::bit_stream::spec_read_u;
use crate::bit_stream::BitStream;
use crate::bit_stream::BitStreamError;
use crate::exp_golomb::spec_read_ue;
use crate::exp_golomb::spec_read_se_seq;
use crate::exp_golomb::SignedExpGolombCode;
use crate::exp_golomb::UnsignedExpGolombCode;
use crate::nal_unit::opt_as_u8;
use crate::nal_unit::opt_as_u16;
use crate::nal_unit::opt_as_u32;
use crate::nal_unit::read_opt_flag;
use crate::nal_unit::read_opt_se;
use crate::nal_unit::read_opt_u16;
use crate::nal_unit::read_opt_u32;
use crate::nal_unit::read_opt_u8;
use crate::nal_unit::read_opt_ue;
use crate::nal_unit::spec_opt_flag;
use crate::nal_unit::spec_opt_se;
use crate::nal_unit::spec_opt_u;
use crate::nal_unit::spec_opt_ue;
use crate::bit_stream::spec_skip;
use crate::exp_golomb::read_se_seq;
use crate::scaling_list::opt_scaling_views;
use crate::scaling_list::read_opt_scaling_lists;
use crate::scaling_list::spec_opt_scaling_lists;
use crate::scaling_list::ScalingList;
use crate::scaling_list::ScalingListView;

verus! {

/// The mathematical value of a decoded [`HrdParameters`] record.
pub ghost struct HrdParametersView {
    pub cpb_cnt_minus1: UnsignedExpGolombCode,
    pub bit_rate_scale: u8,
    pub cpb_size_scale: u8,
    pub bit_rate_value_minus1: Seq<UnsignedExpGolombCode>,
    pub cpb_size_value_minus1: Seq<UnsignedExpGolombCode>,
    pub cbr_flag: Seq<bool>,
    pub initial_cpb_removal_delay_length_minus1: u8,
    pub cpb_removal_delay_length_minus1: u8,
    pub dpb_output_delay_length_minus1: u8,
    pub time_offset_length: u8,
}

/// HRD parameters (H.264 clause E.1.2): scales, one delta-coded entry per
/// coded picture buffer, and four field lengths.
#[derive(Debug, Eq, PartialEq)]
pub struct HrdParameters {
    pub cpb_cnt_minus1: UnsignedExpGolombCode,
    pub bit_rate_scale: u8,
    pub cpb_size_scale: u8,
    pub bit_rate_value_minus1: Vec<UnsignedExpGolombCode>,
    pub cpb_size_value_minus1: Vec<UnsignedExpGolombCode>,
    pub cbr_flag: Vec<bool>,
    pub initial_cpb_removal_delay_length_minus1: u8,
    pub cpb_removal_delay_length_minus1: u8,
    pub dpb_output_delay_length_minus1: u8,
    pub time_offset_length: u8,
}

impl View for HrdParameters {
    type V = HrdParametersView;

    open spec fn view(&self) -> HrdParametersView {
        HrdParametersView {
            cpb_cnt_minus1: self.cpb_cnt_minus1,
            bit_rate_scale: self.bit_rate_scale,
            cpb_size_scale: self.cpb_size_scale,
            bit_rate_value_minus1: self.bit_rate_value_minus1@,
            cpb_size_value_minus1: self.cpb_size_value_minus1@,
            cbr_flag: self.cbr_flag@,
            initial_cpb_removal_delay_length_minus1: self.initial_cpb_removal_delay_length_minus1,
            cpb_removal_delay_length_minus1: self.cpb_removal_delay_length_minus1,
            dpb_output_delay_length_minus1: self.dpb_output_delay_length_minus1,
            time_offset_length: self.time_offset_length,
        }
    }
}

impl Clone for HrdParameters {
    /// The copy has the same mathematical value.
    fn clone(&self) -> (r: Self)
        ensures
            r@ == self@,
    {
        HrdParameters {
            cpb_cnt_minus1: self.cpb_cnt_minus1,
            bit_rate_scale: self.bit_rate_scale,
            cpb_size_scale: self.cpb_size_scale,
            bit_rate_value_minus1: vstd::slice::slice_to_vec(self.bit_rate_value_minus1.as_slice()),
            cpb_size_value_minus1: vstd::slice::slice_to_vec(self.cpb_size_value_minus1.as_slice()),
            cbr_flag: vstd::slice::slice_to_vec(self.cbr_flag.as_slice()),
            initial_cpb_removal_delay_length_minus1: self.initial_cpb_removal_delay_length_minus1,
            cpb_removal_delay_length_minus1: self.cpb_removal_delay_length_minus1,
            dpb_output_delay_length_minus1: self.dpb_output_delay_length_minus1,
            time_offset_length: self.time_offset_length,
        }
    }
}

/// `count` coded-picture-buffer entries of an HRD record: a bit rate, a
/// buffer size, and a constant-bit-rate flag each.
pub open spec fn spec_read_hrd_entries(data: Seq<u8>, pos: nat, count: nat) -> Result<
    ((Seq<UnsignedExpGolombCode>, Seq<UnsignedExpGolombCode>, Seq<bool>), nat),
    BitStreamError,
>
    decreases count,
{
    if count == 0 {
        Ok(((Seq::empty(), Seq::empty(), Seq::empty()), pos))
    } else {
        match spec_read_ue(data, pos) {
            Err(e) => Err(e),
            Ok((br, p1)) => match spec_read_ue(data, p1) {
                Err(e) => Err(e),
                Ok((cs, p2)) => match spec_read_flag(data, p2) {
                    Err(e) => Err(e),
                    Ok((cbr, p3)) => match spec_read_hrd_entries(data, p3, (count - 1) as nat) {
                        Err(e) => Err(e),
                        Ok(((brs, css, cbrs), p4)) => Ok(
                            (
                                (
                                    seq![UnsignedExpGolombCode(br)] + brs,
                                    seq![UnsignedExpGolombCode(cs)] + css,
                                    seq![cbr] + cbrs,
                                ),
                                p4,
                            ),
                        ),
                    },
                },
            },
        }
    }
}

/// The HRD parameters record of `data` at `pos` and the position after it.
pub open spec fn spec_read_hrd(data: Seq<u8>, pos: nat) -> Result<
    (HrdParametersView, nat),
    BitStreamError,
> {
    match spec_read_ue(data, pos) {
        Err(e) => Err(e),
        Ok((cpb, p1)) => match spec_read_u(data, p1, 4) {
            Err(e) => Err(e),
            Ok((brs, p2)) => match spec_read_u(data, p2, 4) {
                Err(e) => Err(e),
                Ok((css, p3)) => match spec_read_hrd_entries(data, p3, cpb as nat) {
                    Err(e) => Err(e),
                    Ok(((brv, csv, cbr), p4)) => match spec_read_u(data, p4, 5) {
                        Err(e) => Err(e),
                        Ok((icrd, p5)) => match spec_read_u(data, p5, 5) {
                            Err(e) => Err(e),
                            Ok((crd, p6)) => match spec_read_u(data, p6, 5) {
                                Err(e) => Err(e),
                                Ok((dod, p7)) => match spec_read_u(data, p7, 5) {
                                    Err(e) => Err(e),
                                    Ok((tol, p8)) => Ok(
                                        (
                                            HrdParametersView {
                                                cpb_cnt_minus1: UnsignedExpGolombCode(cpb),
                                                bit_rate_scale: brs as u8,
                                                cpb_size_scale: css as u8,
                                                bit_rate_value_minus1: brv,
                                                cpb_size_value_minus1: csv,
                                                cbr_flag: cbr,
                                                initial_cpb_removal_delay_length_minus1: icrd as u8,
                                                cpb_removal_delay_length_minus1: crd as u8,
                                                dpb_output_delay_length_minus1: dod as u8,
                                                time_offset_length: tol as u8,
                                            },
                                            p8,
                                        ),
                                    ),
                                },
                            },
                        },
                    },
                },
            },
        },
    }
}

impl HrdParameters {
    /// Parses an HRD parameters record from `stream`.
    pub fn read(stream: &mut BitStream) -> (r: Result<Self, BitStreamError>)
        requires
            old(stream).wf(),
        ensures
            final(stream).wf(),
            final(stream).bytes() == old(stream).bytes(),
            match spec_read_hrd(old(stream).bytes(), old(stream).cursor()) {
                Ok((h, p)) => r matches Ok(v) && v@ == h && final(stream).cursor() == p,
                Err(e) => r == Err::<Self, BitStreamError>(e),
            },
    {
        let cpb_cnt_minus1 = match UnsignedExpGolombCode::read(stream) {
            Ok(v) => v,
            Err(e) => {
                return Err(e);
            },
        };
        let bit_rate_scale = match stream.read(4) {
            Ok(v) => v as u8,
            Err(e) => {
                return Err(e);
            },
        };
        let cpb_size_scale = match stream.read(4) {
            Ok(v) => v as u8,
            Err(e) => {
                return Err(e);
            },
        };
        let entries = match Self::read_entries(stream, cpb_cnt_minus1.0) {
            Ok(v) => v,
            Err(e) => {
                return Err(e);
            },
        };
        let (bit_rate_value_minus1, cpb_size_value_minus1, cbr_flag) = entries;
        let initial_cpb_removal_delay_length_minus1 = match stream.read(5) {
            Ok(v) => v as u8,
            Err(e) => {
                return Err(e);
            },
        };
        let cpb_removal_delay_length_minus1 = match stream.read(5) {
            Ok(v) => v as u8,
            Err(e) => {
                return Err(e);
            },
        };
        let dpb_output_delay_length_minus1 = match stream.read(5) {
            Ok(v) => v as u8,
            Err(e) => {
                return Err(e);
            },
        };
        let time_offset_length = match stream.read(5) {
            Ok(v) => v as u8,
            Err(e) => {
                return Err(e);
            },
        };
        Ok(
            HrdParameters {
                cpb_cnt_minus1,
                bit_rate_scale,
                cpb_size_scale,
                bit_rate_value_minus1,
                cpb_size_value_minus1,
                cbr_flag,
                initial_cpb_removal_delay_length_minus1,
                cpb_removal_delay_length_minus1,
                dpb_output_delay_length_minus1,
                time_offset_length,
            },
        )
    }

    fn read_entries(stream: &mut BitStream, count: u64) -> (r: Result<
        (Vec<UnsignedExpGolombCode>, Vec<UnsignedExpGolombCode>, Vec<bool>),
        BitStreamError,
    >)
        requires
            old(stream).wf(),
        ensures
            final(stream).wf(),
            final(stream).bytes() == old(stream).bytes(),
            match spec_read_hrd_entries(old(stream).bytes(), old(stream).cursor(), count as nat) {
                Ok(((brv, csv, cbr), p)) => r matches Ok(v) && v.0@ == brv && v.1@ == csv && v.2@
                    == cbr && final(stream).cursor() == p,
                Err(e) => r == Err::<
                    (Vec<UnsignedExpGolombCode>, Vec<UnsignedExpGolombCode>, Vec<bool>),
                    BitStreamError,
                >(e),
            },
    {
        let ghost data0 = old(stream).bytes();
        let ghost c0 = old(stream).cursor();
        let mut brv: Vec<UnsignedExpGolombCode> = Vec::new();
        let mut csv: Vec<UnsignedExpGolombCode> = Vec::new();
        let mut cbr: Vec<bool> = Vec::new();
        let mut i: u64 = 0;
        while i < count
            invariant
                stream.wf(),
                stream.bytes() == data0,
                data0 == old(stream).bytes(),
                c0 == old(stream).cursor(),
                i <= count,
                spec_read_hrd_entries(data0, c0, count as nat) == (match spec_read_hrd_entries(
                    data0,
                    stream.cursor(),
                    (count - i) as nat,
                ) {
                    Ok(((a, b, c), p)) => Ok::<
                        ((Seq<UnsignedExpGolombCode>, Seq<UnsignedExpGolombCode>, Seq<bool>), nat),
                        BitStreamError,
                    >(((brv@ + a, csv@ + b, cbr@ + c), p)),
                    Err(e) => Err::<
                        ((Seq<UnsignedExpGolombCode>, Seq<UnsignedExpGolombCode>, Seq<bool>), nat),
                        BitStreamError,
                    >(e),
                }),
            decreases count - i,
        {
            let ghost brv0 = brv@;
            let ghost csv0 = csv@;
            let ghost cbr0 = cbr@;
            let br = match UnsignedExpGolombCode::read(stream) {
                Ok(v) => v,
                Err(e) => {
                    return Err(e);
                },
            };
            let cs = match UnsignedExpGolombCode::read(stream) {
                Ok(v) => v,
                Err(e) => {
                    return Err(e);
                },
            };
            let cb = match stream.read_bit() {
                Ok(v) => v,
                Err(e) => {
                    return Err(e);
                },
            };
            brv.push(br);
            csv.push(cs);
            cbr.push(cb);
            i = i + 1;
            proof {
                match spec_read_hrd_entries(data0, stream.cursor(), (count - i) as nat) {
                    Ok(((a2, b2, c2), p2)) => {
                        assert(brv0 + (seq![br] + a2) =~= brv@ + a2);
                        assert(csv0 + (seq![cs] + b2) =~= csv@ + b2);
                        assert(cbr0 + (seq![cb] + c2) =~= cbr@ + c2);
                    },
                    Err(_) => {},
                }
            }
        }
        proof {
            assert(brv@ + Seq::<UnsignedExpGolombCode>::empty() =~= brv@);
            assert(csv@ + Seq::<UnsignedExpGolombCode>::empty() =~= csv@);
            assert(cbr@ + Seq::<bool>::empty() =~= cbr@);
        }
        Ok((brv, csv, cbr))
    }
}

/// The mathematical value of a decoded [`YuvParameters`] record.
pub ghost struct YuvParametersView {
    pub aspect_ratio_info_present_flag: bool,
    pub aspect_ratio_idc: Option<u8>,
    pub sar_width: Option<u16>,
    pub sar_height: Option<u16>,
    pub overscan_info_present_flag: bool,
    pub overscan_appropriate_flag: Option<bool>,
    pub video_signal_type_present_flag: bool,
    pub video_format: Option<u8>,
    pub video_full_range_flag: Option<bool>,
    pub colour_description_present_flag: Option<bool>,
    pub colour_primaries: Option<u8>,
    pub transfer_characteristics: Option<u8>,
    pub matrix_coefficients: Option<u8>,
    pub chroma_loc_info_present_flag: bool,
    pub chroma_sample_loc_type_top_field: Option<UnsignedExpGolombCode>,
    pub chroma_sample_loc_type_bottom_field: Option<UnsignedExpGolombCode>,
    pub timing_info_present_flag: bool,
    pub num_units_in_tick: Option<u32>,
    pub time_scale: Option<u32>,
    pub fixed_frame_rate_flag: Option<bool>,
    pub nal_hrd_parameters_present_flag: bool,
    pub nal_hrd_parameters: Option<HrdParametersView>,
    pub vcl_hrd_parameters_present_flag: bool,
    pub vcl_hrd_parameters: Option<HrdParametersView>,
    pub low_delay_hrd_flag: Option<bool>,
    pub pic_struct_present_flag: bool,
    pub bitstream_restriction_flag: bool,
    pub motion_vectors_over_pic_boundaries_flag: Option<bool>,
    pub max_bytes_per_pic_denom: Option<UnsignedExpGolombCode>,
    pub max_bits_per_mb_denom: Option<UnsignedExpGolombCode>,
    pub log2_max_mv_length_horizontal: Option<UnsignedExpGolombCode>,
    pub log2_max_mv_length_vertical: Option<UnsignedExpGolombCode>,
    pub max_num_reorder_frames: Option<UnsignedExpGolombCode>,
    pub max_dec_frame_buffering: Option<UnsignedExpGolombCode>,
}

/// VUI parameters (H.264 clause E.1.1): display, colour, timing, HRD and
/// bitstream-restriction information, nearly all of it conditional.
#[derive(Debug, Eq, PartialEq)]
pub struct YuvParameters {
    pub aspect_ratio_info_present_flag: bool,
    pub aspect_ratio_idc: Option<u8>,
    pub sar_width: Option<u16>,
    pub sar_height: Option<u16>,
    pub overscan_info_present_flag: bool,
    pub overscan_appropriate_flag: Option<bool>,
    pub video_signal_type_present_flag: bool,
    pub video_format: Option<u8>,
    pub video_full_range_flag: Option<bool>,
    pub colour_description_present_flag: Option<bool>,
    pub colour_primaries: Option<u8>,
    pub transfer_characteristics: Option<u8>,
    pub matrix_coefficients: Option<u8>,
    pub chroma_loc_info_present_flag: bool,
    pub chroma_sample_loc_type_top_field: Option<UnsignedExpGolombCode>,
    pub chroma_sample_loc_type_bottom_field: Option<UnsignedExpGolombCode>,
    pub timing_info_present_flag: bool,
    pub num_units_in_tick: Option<u32>,
    pub time_scale: Option<u32>,
    pub fixed_frame_rate_flag: Option<bool>,
    pub nal_hrd_parameters_present_flag: bool,
    pub nal_hrd_parameters: Option<HrdParameters>,
    pub vcl_hrd_parameters_present_flag: bool,
    pub vcl_hrd_parameters: Option<HrdParameters>,
    pub low_delay_hrd_flag: Option<bool>,
    pub pic_struct_present_flag: bool,
    pub bitstream_restriction_flag: bool,
    pub motion_vectors_over_pic_boundaries_flag: Option<bool>,
    pub max_bytes_per_pic_denom: Option<UnsignedExpGolombCode>,
    pub max_bits_per_mb_denom: Option<UnsignedExpGolombCode>,
    pub log2_max_mv_length_horizontal: Option<UnsignedExpGolombCode>,
    pub log2_max_mv_length_vertical: Option<UnsignedExpGolombCode>,
    pub max_num_reorder_frames: Option<UnsignedExpGolombCode>,
    pub max_dec_frame_buffering: Option<UnsignedExpGolombCode>,
}

impl View for YuvParameters {
    type V = YuvParametersView;

    open spec fn view(&self) -> YuvParametersView {
        YuvParametersView {
            aspect_ratio_info_present_flag: self.aspect_ratio_info_present_flag,
            aspect_ratio_idc: self.aspect_ratio_idc,
            sar_width: self.sar_width,
            sar_height: self.sar_height,
            overscan_info_present_flag: self.overscan_info_present_flag,
            overscan_appropriate_flag: self.overscan_appropriate_flag,
            video_signal_type_present_flag: self.video_signal_type_present_flag,
            video_format: self.video_format,
            video_full_range_flag: self.video_full_range_flag,
            colour_description_present_flag: self.colour_description_present_flag,
            colour_primaries: self.colour_primaries,
            transfer_characteristics: self.transfer_characteristics,
            matrix_coefficients: self.matrix_coefficients,
            chroma_loc_info_present_flag: self.chroma_loc_info_present_flag,
            chroma_sample_loc_type_top_field: self.chroma_sample_loc_type_top_field,
            chroma_sample_loc_type_bottom_field: self.chroma_sample_loc_type_bottom_field,
            timing_info_present_flag: self.timing_info_present_flag,
            num_units_in_tick: self.num_units_in_tick,
            time_scale: self.time_scale,
            fixed_frame_rate_flag: self.fixed_frame_rate_flag,
            nal_hrd_parameters_present_flag: self.nal_hrd_parameters_present_flag,
            nal_hrd_parameters: match self.nal_hrd_parameters {
                Some(h) => Some(h@),
                None => None,
            },
            vcl_hrd_parameters_present_flag: self.vcl_hrd_parameters_present_flag,
            vcl_hrd_parameters: match self.vcl_hrd_parameters {
                Some(h) => Some(h@),
                None => None,
            },
            low_delay_hrd_flag: self.low_delay_hrd_flag,
            pic_struct_present_flag: self.pic_struct_present_flag,
            bitstream_restriction_flag: self.bitstream_restriction_flag,
            motion_vectors_over_pic_boundaries_flag: self.motion_vectors_over_pic_boundaries_flag,
            max_bytes_per_pic_denom: self.max_bytes_per_pic_denom,
            max_bits_per_mb_denom: self.max_bits_per_mb_denom,
            log2_max_mv_length_horizontal: self.log2_max_mv_length_horizontal,
            log2_max_mv_length_vertical: self.log2_max_mv_length_vertical,
            max_num_reorder_frames: self.max_num_reorder_frames,
            max_dec_frame_buffering: self.max_dec_frame_buffering,
        }
    }
}

impl Clone for YuvParameters {
    /// The copy has the same mathematical value.
    fn clone(&self) -> (r: Self)
        ensures
            r@ == self@,
    {
        YuvParameters {
            aspect_ratio_info_present_flag: self.aspect_ratio_info_present_flag,
            aspect_ratio_idc: self.aspect_ratio_idc,
            sar_width: self.sar_width,
            sar_height: self.sar_height,
            overscan_info_present_flag: self.overscan_info_present_flag,
            overscan_appropriate_flag: self.overscan_appropriate_flag,
            video_signal_type_present_flag: self.video_signal_type_present_flag,
            video_format: self.video_format,
            video_full_range_flag: self.video_full_range_flag,
            colour_description_present_flag: self.colour_description_present_flag,
            colour_primaries: self.colour_primaries,
            transfer_characteristics: self.transfer_characteristics,
            matrix_coefficients: self.matrix_coefficients,
            chroma_loc_info_present_flag: self.chroma_loc_info_present_flag,
            chroma_sample_loc_type_top_field: self.chroma_sample_loc_type_top_field,
            chroma_sample_loc_type_bottom_field: self.chroma_sample_loc_type_bottom_field,
            timing_info_present_flag: self.timing_info_present_flag,
            num_units_in_tick: self.num_units_in_tick,
            time_scale: self.time_scale,
            fixed_frame_rate_flag: self.fixed_frame_rate_flag,
            nal_hrd_parameters_present_flag: self.nal_hrd_parameters_present_flag,
            nal_hrd_parameters: match &self.nal_hrd_parameters {
                Some(h) => Some(h.clone()),
                None => None,
            },
            vcl_hrd_parameters_present_flag: self.vcl_hrd_parameters_present_flag,
            vcl_hrd_parameters: match &self.vcl_hrd_parameters {
                Some(h) => Some(h.clone()),
                None => None,
            },
            low_delay_hrd_flag: self.low_delay_hrd_flag,
            pic_struct_present_flag: self.pic_struct_present_flag,
            bitstream_restriction_flag: self.bitstream_restriction_flag,
            motion_vectors_over_pic_boundaries_flag: self.motion_vectors_over_pic_boundaries_flag,
            max_bytes_per_pic_denom: self.max_bytes_per_pic_denom,
            max_bits_per_mb_denom: self.max_bits_per_mb_denom,
            log2_max_mv_length_horizontal: self.log2_max_mv_length_horizontal,
            log2_max_mv_length_vertical: self.log2_max_mv_length_vertical,
            max_num_reorder_frames: self.max_num_reorder_frames,
            max_dec_frame_buffering: self.max_dec_frame_buffering,
        }
    }
}

/// An HRD record that is present only when `present` holds.
pub open spec fn spec_opt_hrd(data: Seq<u8>, pos: nat, present: bool) -> Result<
    (Option<HrdParametersView>, nat),
    BitStreamError,
> {
    if !present {
        Ok((None, pos))
    } else {
        match spec_read_hrd(data, pos) {
            Err(e) => Err(e),
            Ok((h, p)) => Ok((Some(h), p)),
        }
    }
}

/// The aspect-ratio and overscan fields of a VUI record: a gated 8-bit
/// ratio code, the extended-ratio dimensions when the code is 255, and
/// the overscan pair.
pub open spec fn spec_vui_aspect(data: Seq<u8>, pos: nat) -> Result<
    ((bool, Option<u8>, Option<u16>, Option<u16>, bool, Option<bool>), nat),
    BitStreamError,
> {
    match spec_read_flag(data, pos) {
        Err(e) => Err(e),
        Ok((arip, p1)) => match spec_opt_u(data, p1, 8, arip) {
            Err(e) => Err(e),
            Ok((idc, p2)) => match spec_opt_u(data, p2, 16, idc == Some(255u64)) {
                Err(e) => Err(e),
                Ok((sw, p3)) => match spec_opt_u(data, p3, 16, idc == Some(255u64)) {
                    Err(e) => Err(e),
                    Ok((sh, p4)) => match spec_read_flag(data, p4) {
                        Err(e) => Err(e),
                        Ok((oip, p5)) => match spec_opt_flag(data, p5, oip) {
                            Err(e) => Err(e),
                            Ok((oaf, p6)) => Ok(
                                (
                                    (
                                        arip,
                                        opt_as_u8(idc),
                                        opt_as_u16(sw),
                                        opt_as_u16(sh),
                                        oip,
                                        oaf,
                                    ),
                                    p6,
                                ),
                            ),
                        },
                    },
                },
            },
        },
    }
}

/// The video-signal-type fields of a VUI record: format, range, and the
/// colour description gated by its own presence flag.
pub open spec fn spec_vui_signal(data: Seq<u8>, pos: nat) -> Result<
    (
        (bool, Option<u8>, Option<bool>, Option<bool>, Option<u8>, Option<u8>, Option<u8>),
        nat,
    ),
    BitStreamError,
> {
    match spec_read_flag(data, pos) {
        Err(e) => Err(e),
        Ok((vst, p1)) => match spec_opt_u(data, p1, 3, vst) {
            Err(e) => Err(e),
            Ok((vf, p2)) => match spec_opt_flag(data, p2, vst) {
                Err(e) => Err(e),
                Ok((vfr, p3)) => match spec_opt_flag(data, p3, vst) {
                    Err(e) => Err(e),
                    Ok((cdp, p4)) => match spec_opt_u(data, p4, 8, cdp == Some(true)) {
                        Err(e) => Err(e),
                        Ok((cp, p5)) => match spec_opt_u(data, p5, 8, cdp == Some(true)) {
                            Err(e) => Err(e),
                            Ok((tc, p6)) => match spec_opt_u(data, p6, 8, cdp == Some(true)) {
                                Err(e) => Err(e),
                                Ok((mc, p7)) => Ok(
                                    (
                                        (
                                            vst,
                                            opt_as_u8(vf),
                                            vfr,
                                            cdp,
                                            opt_as_u8(cp),
                                            opt_as_u8(tc),
                                            opt_as_u8(mc),
                                        ),
                                        p7,
                                    ),
                                ),
                            },
                        },
                    },
                },
            },
        },
    }
}

/// The chroma-location and timing fields of a VUI record.
pub open spec fn spec_vui_loc_timing(data: Seq<u8>, pos: nat) -> Result<
    (
        (
            bool,
            Option<UnsignedExpGolombCode>,
            Option<UnsignedExpGolombCode>,
            bool,
            Option<u32>,
            Option<u32>,
            Option<bool>,
        ),
        nat,
    ),
    BitStreamError,
> {
    match spec_read_flag(data, pos) {
        Err(e) => Err(e),
        Ok((cli, p1)) => match spec_opt_ue(data, p1, cli) {
            Err(e) => Err(e),
            Ok((top, p2)) => match spec_opt_ue(data, p2, cli) {
                Err(e) => Err(e),
                Ok((bot, p3)) => match spec_read_flag(data, p3) {
                    Err(e) => Err(e),
                    Ok((tip, p4)) => match spec_opt_u(data, p4, 32, tip) {
                        Err(e) => Err(e),
                        Ok((nuit, p5)) => match spec_opt_u(data, p5, 32, tip) {
                            Err(e) => Err(e),
                            Ok((ts, p6)) => match spec_opt_flag(data, p6, tip) {
                                Err(e) => Err(e),
                                Ok((fff, p7)) => Ok(
                                    (
                                        (cli, top, bot, tip, opt_as_u32(nuit), opt_as_u32(ts), fff),
                                        p7,
                                    ),
                                ),
                            },
                        },
                    },
                },
            },
        },
    }
}

/// The two gated HRD records of a VUI record and the low-delay flag that
/// follows when either is present.
pub open spec fn spec_vui_hrd(data: Seq<u8>, pos: nat) -> Result<
    (
        (bool, Option<HrdParametersView>, bool, Option<HrdParametersView>, Option<bool>),
        nat,
    ),
    BitStreamError,
> {
    match spec_read_flag(data, pos) {
        Err(e) => Err(e),
        Ok((nal, p1)) => match spec_opt_hrd(data, p1, nal) {
            Err(e) => Err(e),
            Ok((nal_hrd, p2)) => match spec_read_flag(data, p2) {
                Err(e) => Err(e),
                Ok((vcl, p3)) => match spec_opt_hrd(data, p3, vcl) {
                    Err(e) => Err(e),
                    Ok((vcl_hrd, p4)) => match spec_opt_flag(data, p4, nal || vcl) {
                        Err(e) => Err(e),
                        Ok((ld, p5)) => Ok(((nal, nal_hrd, vcl, vcl_hrd, ld), p5)),
                    },
                },
            },
        },
    }
}

/// The bitstream-restriction fields of a VUI record.
pub open spec fn spec_vui_restriction(data: Seq<u8>, pos: nat) -> Result<
    (
        (
            bool,
            Option<bool>,
            Option<UnsignedExpGolombCode>,
            Option<UnsignedExpGolombCode>,
            Option<UnsignedExpGolombCode>,
            Option<UnsignedExpGolombCode>,
            Option<UnsignedExpGolombCode>,
            Option<UnsignedExpGolombCode>,
        ),
        nat,
    ),
    BitStreamError,
> {
    match spec_read_flag(data, pos) {
        Err(e) => Err(e),
        Ok((br, p1)) => match spec_opt_flag(data, p1, br) {
            Err(e) => Err(e),
            Ok((mv, p2)) => match spec_opt_ue(data, p2, br) {
                Err(e) => Err(e),
                Ok((mbpd, p3)) => match spec_opt_ue(data, p3, br) {
                    Err(e) => Err(e),
                    Ok((mbmd, p4)) => match spec_opt_ue(data, p4, br) {
                        Err(e) => Err(e),
                        Ok((lmh, p5)) => match spec_opt_ue(data, p5, br) {
                            Err(e) => Err(e),
                            Ok((lmv, p6)) => match spec_opt_ue(data, p6, br) {
                                Err(e) => Err(e),
                                Ok((mnrf, p7)) => match spec_opt_ue(data, p7, br) {
                                    Err(e) => Err(e),
                                    Ok((mdfb, p8)) => Ok(
                                        ((br, mv, mbpd, mbmd, lmh, lmv, mnrf, mdfb), p8),
                                    ),
                                },
                            },
                        },
                    },
                },
            },
        },
    }
}

/// The view of an optional HRD record.
pub open spec fn opt_hrd_view(v: Option<HrdParameters>) -> Option<HrdParametersView> {
    match v {
        Some(h) => Some(h@),
        None => None,
    }
}

/// Reads an HRD record if `present` holds; hands back `None` otherwise.
fn read_opt_hrd(stream: &mut BitStream, present: bool) -> (r: Result<
    Option<HrdParameters>,
    BitStreamError,
>)
    requires
        old(stream).wf(),
    ensures
        final(stream).wf(),
        final(stream).bytes() == old(stream).bytes(),
        match spec_opt_hrd(old(stream).bytes(), old(stream).cursor(), present) {
            Ok((o, p)) => r matches Ok(v) && opt_hrd_view(v) == o && final(stream).cursor() == p,
            Err(e) => r == Err::<Option<HrdParameters>, BitStreamError>(e),
        },
{
    if !present {
        return Ok(None);
    }
    match HrdParameters::read(stream) {
        Ok(h) => Ok(Some(h)),
        Err(e) => Err(e),
    }
}

/// The VUI record of `data` at `pos` and the position after it.
pub open spec fn spec_read_vui(data: Seq<u8>, pos: nat) -> Result<
    (YuvParametersView, nat),
    BitStreamError,
> {
    match spec_vui_aspect(data, pos) {
        Err(e) => Err(e),
        Ok(((arip, idc, sw, sh, oip, oaf), p1)) => match spec_vui_signal(data, p1) {
            Err(e) => Err(e),
            Ok(((vst, vf, vfr, cdp, cp, tc, mc), p2)) => match spec_vui_loc_timing(data, p2) {
                Err(e) => Err(e),
                Ok(((cli, top, bot, tip, nuit, ts, fff), p3)) => match spec_vui_hrd(data, p3) {
                    Err(e) => Err(e),
                    Ok(((nal, nal_hrd, vcl, vcl_hrd, ld), p4)) => match spec_read_flag(data, p4) {
                        Err(e) => Err(e),
                        Ok((ps, p5)) => match spec_vui_restriction(data, p5) {
                            Err(e) => Err(e),
                            Ok(((br, mv, mbpd, mbmd, lmh, lmv, mnrf, mdfb), p6)) => Ok(
                                (
                                    YuvParametersView {
                                        aspect_ratio_info_present_flag: arip,
                                        aspect_ratio_idc: idc,
                                        sar_width: sw,
                                        sar_height: sh,
                                        overscan_info_present_flag: oip,
                                        overscan_appropriate_flag: oaf,
                                        video_signal_type_present_flag: vst,
                                        video_format: vf,
                                        video_full_range_flag: vfr,
                                        colour_description_present_flag: cdp,
                                        colour_primaries: cp,
                                        transfer_characteristics: tc,
                                        matrix_coefficients: mc,
                                        chroma_loc_info_present_flag: cli,
                                        chroma_sample_loc_type_top_field: top,
                                        chroma_sample_loc_type_bottom_field: bot,
                                        timing_info_present_flag: tip,
                                        num_units_in_tick: nuit,
                                        time_scale: ts,
                                        fixed_frame_rate_flag: fff,
                                        nal_hrd_parameters_present_flag: nal,
                                        nal_hrd_parameters: nal_hrd,
                                        vcl_hrd_parameters_present_flag: vcl,
                                        vcl_hrd_parameters: vcl_hrd,
                                        low_delay_hrd_flag: ld,
                                        pic_struct_present_flag: ps,
                                        bitstream_restriction_flag: br,
                                        motion_vectors_over_pic_boundaries_flag: mv,
                                        max_bytes_per_pic_denom: mbpd,
                                        max_bits_per_mb_denom: mbmd,
                                        log2_max_mv_length_horizontal: lmh,
                                        log2_max_mv_length_vertical: lmv,
                                        max_num_reorder_frames: mnrf,
                                        max_dec_frame_buffering: mdfb,
                                    },
                                    p6,
                                ),
                            ),
                        },
                    },
                },
            },
        },
    }
}

fn read_vui_aspect(stream: &mut BitStream) -> (r: Result<
    (bool, Option<u8>, Option<u16>, Option<u16>, bool, Option<bool>),
    BitStreamError,
>)
    requires
        old(stream).wf(),
    ensures
        final(stream).wf(),
        final(stream).bytes() == old(stream).bytes(),
        match spec_vui_aspect(old(stream).bytes(), old(stream).cursor()) {
            Ok((t, p)) => r == Ok::<_, BitStreamError>(t) && final(stream).cursor() == p,
            Err(e) => r == Err::<
                (bool, Option<u8>, Option<u16>, Option<u16>, bool, Option<bool>),
                BitStreamError,
            >(e),
        },
{
    let ghost data0 = old(stream).bytes();
    let arip = match stream.read_bit() {
        Ok(v) => v,
        Err(e) => {
            return Err(e);
        },
    };
    let ghost p_idc = stream.cursor();
    let idc = match read_opt_u8(stream, 8, arip) {
        Ok(v) => v,
        Err(e) => {
            return Err(e);
        },
    };
    proof {
        crate::bits::lemma_bits_value_bound(data0, p_idc, 8);
        vstd::arithmetic::power2::lemma2_to64();
    }
    let sar_present = match idc {
        Some(v) => v == 255,
        None => false,
    };
    let sw = match read_opt_u16(stream, 16, sar_present) {
        Ok(v) => v,
        Err(e) => {
            return Err(e);
        },
    };
    let sh = match read_opt_u16(stream, 16, sar_present) {
        Ok(v) => v,
        Err(e) => {
            return Err(e);
        },
    };
    let oip = match stream.read_bit() {
        Ok(v) => v,
        Err(e) => {
            return Err(e);
        },
    };
    let oaf = match read_opt_flag(stream, oip) {
        Ok(v) => v,
        Err(e) => {
            return Err(e);
        },
    };
    Ok((arip, idc, sw, sh, oip, oaf))
}

fn read_vui_signal(stream: &mut BitStream) -> (r: Result<
    (bool, Option<u8>, Option<bool>, Option<bool>, Option<u8>, Option<u8>, Option<u8>),
    BitStreamError,
>)
    requires
        old(stream).wf(),
    ensures
        final(stream).wf(),
        final(stream).bytes() == old(stream).bytes(),
        match spec_vui_signal(old(stream).bytes(), old(stream).cursor()) {
            Ok((t, p)) => r == Ok::<_, BitStreamError>(t) && final(stream).cursor() == p,
            Err(e) => r == Err::<
                (bool, Option<u8>, Option<bool>, Option<bool>, Option<u8>, Option<u8>, Option<u8>),
                BitStreamError,
            >(e),
        },
{
    let vst = match stream.read_bit() {
        Ok(v) => v,
        Err(e) => {
            return Err(e);
        },
    };
    let vf = match read_opt_u8(stream, 3, vst) {
        Ok(v) => v,
        Err(e) => {
            return Err(e);
        },
    };
    let vfr = match read_opt_flag(stream, vst) {
        Ok(v) => v,
        Err(e) => {
            return Err(e);
        },
    };
    let cdp = match read_opt_flag(stream, vst) {
        Ok(v) => v,
        Err(e) => {
            return Err(e);
        },
    };
    let described = match cdp {
        Some(b) => b,
        None => false,
    };
    let cp = match read_opt_u8(stream, 8, described) {
        Ok(v) => v,
        Err(e) => {
            return Err(e);
        },
    };
    let tc = match read_opt_u8(stream, 8, described) {
        Ok(v) => v,
        Err(e) => {
            return Err(e);
        },
    };
    let mc = match read_opt_u8(stream, 8, described) {
        Ok(v) => v,
        Err(e) => {
            return Err(e);
        },
    };
    Ok((vst, vf, vfr, cdp, cp, tc, mc))
}

fn read_vui_loc_timing(stream: &mut BitStream) -> (r: Result<
    (
        bool,
        Option<UnsignedExpGolombCode>,
        Option<UnsignedExpGolombCode>,
        bool,
        Option<u32>,
        Option<u32>,
        Option<bool>,
    ),
    BitStreamError,
>)
    requires
        old(stream).wf(),
    ensures
        final(stream).wf(),
        final(stream).bytes() == old(stream).bytes(),
        match spec_vui_loc_timing(old(stream).bytes(), old(stream).cursor()) {
            Ok((t, p)) => r == Ok::<_, BitStreamError>(t) && final(stream).cursor() == p,
            Err(e) => r == Err::<
                (
                    bool,
                    Option<UnsignedExpGolombCode>,
                    Option<UnsignedExpGolombCode>,
                    bool,
                    Option<u32>,
                    Option<u32>,
                    Option<bool>,
                ),
                BitStreamError,
            >(e),
        },
{
    let cli = match stream.read_bit() {
        Ok(v) => v,
        Err(e) => {
            return Err(e);
        },
    };
    let top = match read_opt_ue(stream, cli) {
        Ok(v) => v,
        Err(e) => {
            return Err(e);
        },
    };
    let bot = match read_opt_ue(stream, cli) {
        Ok(v) => v,
        Err(e) => {
            return Err(e);
        },
    };
    let tip = match stream.read_bit() {
        Ok(v) => v,
        Err(e) => {
            return Err(e);
        },
    };
    let nuit = match read_opt_u32(stream, 32, tip) {
        Ok(v) => v,
        Err(e) => {
            return Err(e);
        },
    };
    let ts = match read_opt_u32(stream, 32, tip) {
        Ok(v) => v,
        Err(e) => {
            return Err(e);
        },
    };
    let fff = match read_opt_flag(stream, tip) {
        Ok(v) => v,
        Err(e) => {
            return Err(e);
        },
    };
    Ok((cli, top, bot, tip, nuit, ts, fff))
}

fn read_vui_hrd(stream: &mut BitStream) -> (r: Result<
    (bool, Option<HrdParameters>, bool, Option<HrdParameters>, Option<bool>),
    BitStreamError,
>)
    requires
        old(stream).wf(),
    ensures
        final(stream).wf(),
        final(stream).bytes() == old(stream).bytes(),
        match spec_vui_hrd(old(stream).bytes(), old(stream).cursor()) {
            Ok((t, p)) => r matches Ok(v) && v.0 == t.0 && opt_hrd_view(v.1) == t.1 && v.2 == t.2
                && opt_hrd_view(v.3) == t.3 && v.4 == t.4 && final(stream).cursor() == p,
            Err(e) => r == Err::<
                (bool, Option<HrdParameters>, bool, Option<HrdParameters>, Option<bool>),
                BitStreamError,
            >(e),
        },
{
    let nal = match stream.read_bit() {
        Ok(v) => v,
        Err(e) => {
            return Err(e);
        },
    };
    let nal_hrd = match read_opt_hrd(stream, nal) {
        Ok(v) => v,
        Err(e) => {
            return Err(e);
        },
    };
    let vcl = match stream.read_bit() {
        Ok(v) => v,
        Err(e) => {
            return Err(e);
        },
    };
    let vcl_hrd = match read_opt_hrd(stream, vcl) {
        Ok(v) => v,
        Err(e) => {
            return Err(e);
        },
    };
    let ld = match read_opt_flag(stream, nal || vcl) {
        Ok(v) => v,
        Err(e) => {
            return Err(e);
        },
    };
    Ok((nal, nal_hrd, vcl, vcl_hrd, ld))
}

fn read_vui_restriction(stream: &mut BitStream) -> (r: Result<
    (
        bool,
        Option<bool>,
        Option<UnsignedExpGolombCode>,
        Option<UnsignedExpGolombCode>,
        Option<UnsignedExpGolombCode>,
        Option<UnsignedExpGolombCode>,
        Option<UnsignedExpGolombCode>,
        Option<UnsignedExpGolombCode>,
    ),
    BitStreamError,
>)
    requires
        old(stream).wf(),
    ensures
        final(stream).wf(),
        final(stream).bytes() == old(stream).bytes(),
        match spec_vui_restriction(old(stream).bytes(), old(stream).cursor()) {
            Ok((t, p)) => r == Ok::<_, BitStreamError>(t) && final(stream).cursor() == p,
            Err(e) => r == Err::<
                (
                    bool,
                    Option<bool>,
                    Option<UnsignedExpGolombCode>,
                    Option<UnsignedExpGolombCode>,
                    Option<UnsignedExpGolombCode>,
                    Option<UnsignedExpGolombCode>,
                    Option<UnsignedExpGolombCode>,
                    Option<UnsignedExpGolombCode>,
                ),
                BitStreamError,
            >(e),
        },
{
    let br = match stream.read_bit() {
        Ok(v) => v,
        Err(e) => {
            return Err(e);
        },
    };
    let mv = match read_opt_flag(stream, br) {
        Ok(v) => v,
        Err(e) => {
            return Err(e);
        },
    };
    let mbpd = match read_opt_ue(stream, br) {
        Ok(v) => v,
        Err(e) => {
            return Err(e);
        },
    };
    let mbmd = match read_opt_ue(stream, br) {
        Ok(v) => v,
        Err(e) => {
            return Err(e);
        },
    };
    let lmh = match read_opt_ue(stream, br) {
        Ok(v) => v,
        Err(e) => {
            return Err(e);
        },
    };
    let lmv = match read_opt_ue(stream, br) {
        Ok(v) => v,
        Err(e) => {
            return Err(e);
        },
    };
    let mnrf = match read_opt_ue(stream, br) {
        Ok(v) => v,
        Err(e) => {
            return Err(e);
        },
    };
    let mdfb = match read_opt_ue(stream, br) {
        Ok(v) => v,
        Err(e) => {
            return Err(e);
        },
    };
    Ok((br, mv, mbpd, mbmd, lmh, lmv, mnrf, mdfb))
}

impl YuvParameters {
    /// Parses a VUI parameters record from `stream`.
    #[verifier::rlimit(60)]
    pub fn read(stream: &mut BitStream) -> (r: Result<Self, BitStreamError>)
        requires
            old(stream).wf(),
        ensures
            final(stream).wf(),
            final(stream).bytes() == old(stream).bytes(),
            match spec_read_vui(old(stream).bytes(), old(stream).cursor()) {
                Ok((v, p)) => r matches Ok(y) && y@ == v && final(stream).cursor() == p,
                Err(e) => r == Err::<Self, BitStreamError>(e),
            },
    {
        let (arip, idc, sw, sh, oip, oaf) = match read_vui_aspect(stream) {
            Ok(t) => t,
            Err(e) => {
                return Err(e);
            },
        };
        let (vst, vf, vfr, cdp, cp, tc, mc) = match read_vui_signal(stream) {
            Ok(t) => t,
            Err(e) => {
                return Err(e);
            },
        };
        let (cli, top, bot, tip, nuit, ts, fff) = match read_vui_loc_timing(stream) {
            Ok(t) => t,
            Err(e) => {
                return Err(e);
            },
        };
        let (nal, nal_hrd, vcl, vcl_hrd, ld) = match read_vui_hrd(stream) {
            Ok(t) => t,
            Err(e) => {
                return Err(e);
            },
        };
        let ps = match stream.read_bit() {
            Ok(v) => v,
            Err(e) => {
                return Err(e);
            },
        };
        let (br, mv, mbpd, mbmd, lmh, lmv, mnrf, mdfb) = match read_vui_restriction(stream) {
            Ok(t) => t,
            Err(e) => {
                return Err(e);
            },
        };
        Ok(
            YuvParameters {
                aspect_ratio_info_present_flag: arip,
                aspect_ratio_idc: idc,
                sar_width: sw,
                sar_height: sh,
                overscan_info_present_flag: oip,
                overscan_appropriate_flag: oaf,
                video_signal_type_present_flag: vst,
                video_format: vf,
                video_full_range_flag: vfr,
                colour_description_present_flag: cdp,
                colour_primaries: cp,
                transfer_characteristics: tc,
                matrix_coefficients: mc,
                chroma_loc_info_present_flag: cli,
                chroma_sample_loc_type_top_field: top,
                chroma_sample_loc_type_bottom_field: bot,
                timing_info_present_flag: tip,
                num_units_in_tick: nuit,
                time_scale: ts,
                fixed_frame_rate_flag: fff,
                nal_hrd_parameters_present_flag: nal,
                nal_hrd_parameters: nal_hrd,
                vcl_hrd_parameters_present_flag: vcl,
                vcl_hrd_parameters: vcl_hrd,
                low_delay_hrd_flag: ld,
                pic_struct_present_flag: ps,
                bitstream_restriction_flag: br,
                motion_vectors_over_pic_boundaries_flag: mv,
                max_bytes_per_pic_denom: mbpd,
                max_bits_per_mb_denom: mbmd,
                log2_max_mv_length_horizontal: lmh,
                log2_max_mv_length_vertical: lmv,
                max_num_reorder_frames: mnrf,
                max_dec_frame_buffering: mdfb,
            },
        )
    }
}

/// The profile values whose sequence parameter sets carry the extended
/// chroma-format block (H.264 clause 7.3.2.1.1).
pub open spec fn is_high_profile(profile_idc: u8) -> bool {
    ||| profile_idc == 100
    ||| profile_idc == 110
    ||| profile_idc == 122
    ||| profile_idc == 244
    ||| profile_idc == 44
    ||| profile_idc == 83
    ||| profile_idc == 86
    ||| profile_idc == 118
    ||| profile_idc == 128
    ||| profile_idc == 138
    ||| profile_idc == 139
    ||| profile_idc == 134
    ||| profile_idc == 135
}

/// Whether `profile_idc` carries the extended chroma-format block.
pub fn has_extended_chroma(profile_idc: u8) -> (r: bool)
    ensures
        r == is_high_profile(profile_idc),
{
    profile_idc == 100 || profile_idc == 110 || profile_idc == 122 || profile_idc == 244
        || profile_idc == 44 || profile_idc == 83 || profile_idc == 86 || profile_idc == 118
        || profile_idc == 128 || profile_idc == 138 || profile_idc == 139 || profile_idc == 134
        || profile_idc == 135
}

/// The always-present prefix of a sequence parameter set: profile, the
/// six constraint flags, two reserved bits, level, and the set's id.
pub open spec fn spec_sps_prefix(data: Seq<u8>, pos: nat) -> Result<
    ((u8, bool, bool, bool, bool, bool, bool, u8, UnsignedExpGolombCode), nat),
    BitStreamError,
> {
    match spec_read_u(data, pos, 8) {
        Err(e) => Err(e),
        Ok((profile, p1)) => match spec_read_flag(data, p1) {
            Err(e) => Err(e),
            Ok((c0, p2)) => match spec_read_flag(data, p2) {
                Err(e) => Err(e),
                Ok((c1, p3)) => match spec_read_flag(data, p3) {
                    Err(e) => Err(e),
                    Ok((c2, p4)) => match spec_read_flag(data, p4) {
                        Err(e) => Err(e),
                        Ok((c3, p5)) => match spec_read_flag(data, p5) {
                            Err(e) => Err(e),
                            Ok((c4, p6)) => match spec_read_flag(data, p6) {
                                Err(e) => Err(e),
                                Ok((c5, p7)) => match spec_skip(data, p7, 2) {
                                    Err(e) => Err(e),
                                    Ok(p8) => match spec_read_u(data, p8, 8) {
                                        Err(e) => Err(e),
                                        Ok((level, p9)) => match spec_read_ue(data, p9) {
                                            Err(e) => Err(e),
                                            Ok((spsid, p10)) => Ok(
                                                (
                                                    (
                                                        profile as u8,
                                                        c0,
                                                        c1,
                                                        c2,
                                                        c3,
                                                        c4,
                                                        c5,
                                                        level as u8,
                                                        UnsignedExpGolombCode(spsid),
                                                    ),
                                                    p10,
                                                ),
                                            ),
                                        },
                                    },
                                },
                            },
                        },
                    },
                },
            },
        },
    }
}

/// The extended chroma-format block of a sequence parameter set, present
/// only for the high-profile values: chroma format, the separate-plane
/// flag (false when absent), bit depths, the transform-bypass flag, and
/// the optional scaling matrices (six 4x4 lists, then two or six 8x8
/// lists as the chroma format decides).
pub open spec fn spec_sps_chroma_info(data: Seq<u8>, pos: nat, present: bool) -> Result<
    (
        (
            Option<UnsignedExpGolombCode>,
            bool,
            Option<UnsignedExpGolombCode>,
            Option<UnsignedExpGolombCode>,
            Option<bool>,
            Option<bool>,
            Option<Seq<ScalingListView>>,
            Option<Seq<ScalingListView>>,
        ),
        nat,
    ),
    BitStreamError,
> {
    if !present {
        Ok(((None, false, None, None, None, None, None, None), pos))
    } else {
        match spec_read_ue(data, pos) {
            Err(e) => Err(e),
            Ok((chroma, p1)) => match spec_opt_flag(data, p1, chroma == 3) {
                Err(e) => Err(e),
                Ok((sep, p2)) => match spec_read_ue(data, p2) {
                    Err(e) => Err(e),
                    Ok((bdl, p3)) => match spec_read_ue(data, p3) {
                        Err(e) => Err(e),
                        Ok((bdc, p4)) => match spec_read_flag(data, p4) {
                            Err(e) => Err(e),
                            Ok((qp, p5)) => match spec_read_flag(data, p5) {
                                Err(e) => Err(e),
                                Ok((matrix, p6)) => match spec_opt_scaling_lists(
                                    data,
                                    p6,
                                    6,
                                    16,
                                    matrix,
                                ) {
                                    Err(e) => Err(e),
                                    Ok((s4, p7)) => match spec_opt_scaling_lists(
                                        data,
                                        p7,
                                        if chroma != 3 {
                                            2
                                        } else {
                                            6
                                        },
                                        64,
                                        matrix,
                                    ) {
                                        Err(e) => Err(e),
                                        Ok((s8, p8)) => Ok(
                                            (
                                                (
                                                    Some(UnsignedExpGolombCode(chroma)),
                                                    sep == Some(true),
                                                    Some(UnsignedExpGolombCode(bdl)),
                                                    Some(UnsignedExpGolombCode(bdc)),
                                                    Some(qp),
                                                    Some(matrix),
                                                    s4,
                                                    s8,
                                                ),
                                                p8,
                                            ),
                                        ),
                                    },
                                },
                            },
                        },
                    },
                },
            },
        }
    }
}

/// The picture-order-count block of a sequence parameter set: the count
/// type selects one Exp-Golomb field (type 0), four fields plus a
/// count-driven run of signed offsets (type 1), or nothing.
pub open spec fn spec_sps_poc(data: Seq<u8>, pos: nat) -> Result<
    (
        (
            UnsignedExpGolombCode,
            Option<UnsignedExpGolombCode>,
            Option<bool>,
            Option<SignedExpGolombCode>,
            Option<SignedExpGolombCode>,
            Option<UnsignedExpGolombCode>,
            Option<Seq<SignedExpGolombCode>>,
        ),
        nat,
    ),
    BitStreamError,
> {
    match spec_read_ue(data, pos) {
        Err(e) => Err(e),
        Ok((poc, p1)) => {
            if poc == 0 {
                match spec_read_ue(data, p1) {
                    Err(e) => Err(e),
                    Ok((lsb, p2)) => Ok(
                        (
                            (
                                UnsignedExpGolombCode(poc),
                                Some(UnsignedExpGolombCode(lsb)),
                                None,
                                None,
                                None,
                                None,
                                None,
                            ),
                            p2,
                        ),
                    ),
                }
            } else if poc == 1 {
                match spec_read_flag(data, p1) {
                    Err(e) => Err(e),
                    Ok((daz, p2)) => match crate::exp_golomb::spec_read_se(data, p2) {
                        Err(e) => Err(e),
                        Ok((onr, p3)) => match crate::exp_golomb::spec_read_se(data, p3) {
                            Err(e) => Err(e),
                            Ok((otb, p4)) => match spec_read_ue(data, p4) {
                                Err(e) => Err(e),
                                Ok((cnt, p5)) => match spec_read_se_seq(data, p5, cnt as nat) {
                                    Err(e) => Err(e),
                                    Ok((offs, p6)) => Ok(
                                        (
                                            (
                                                UnsignedExpGolombCode(poc),
                                                None,
                                                Some(daz),
                                                Some(SignedExpGolombCode(onr)),
                                                Some(SignedExpGolombCode(otb)),
                                                Some(UnsignedExpGolombCode(cnt)),
                                                Some(offs),
                                            ),
                                            p6,
                                        ),
                                    ),
                                },
                            },
                        },
                    },
                }
            } else {
                Ok(((UnsignedExpGolombCode(poc), None, None, None, None, None, None), p1))
            }
        },
    }
}

/// The tail of a sequence parameter set before the VUI gate: reference
/// frame count, the gaps flag, picture dimensions, the frame/field
/// flags (the adaptive flag false when absent), the inference flag, and
/// the gated cropping offsets.
pub open spec fn spec_sps_tail(data: Seq<u8>, pos: nat) -> Result<
    (
        (
            UnsignedExpGolombCode,
            bool,
            UnsignedExpGolombCode,
            UnsignedExpGolombCode,
            bool,
            bool,
            bool,
            bool,
            Option<UnsignedExpGolombCode>,
            Option<UnsignedExpGolombCode>,
            Option<UnsignedExpGolombCode>,
            Option<UnsignedExpGolombCode>,
        ),
        nat,
    ),
    BitStreamError,
> {
    match spec_read_ue(data, pos) {
        Err(e) => Err(e),
        Ok((maxref, p1)) => match spec_read_flag(data, p1) {
            Err(e) => Err(e),
            Ok((gaps, p2)) => match spec_read_ue(data, p2) {
                Err(e) => Err(e),
                Ok((w, p3)) => match spec_read_ue(data, p3) {
                    Err(e) => Err(e),
                    Ok((h, p4)) => match spec_read_flag(data, p4) {
                        Err(e) => Err(e),
                        Ok((fmo, p5)) => match spec_opt_flag(data, p5, !fmo) {
                            Err(e) => Err(e),
                            Ok((mbaff, p6)) => match spec_read_flag(data, p6) {
                                Err(e) => Err(e),
                                Ok((d8, p7)) => match spec_read_flag(data, p7) {
                                    Err(e) => Err(e),
                                    Ok((crop, p8)) => match spec_opt_ue(data, p8, crop) {
                                        Err(e) => Err(e),
                                        Ok((cl, p9)) => match spec_opt_ue(data, p9, crop) {
                                            Err(e) => Err(e),
                                            Ok((cr, p10)) => match spec_opt_ue(data, p10, crop) {
                                                Err(e) => Err(e),
                                                Ok((ct, p11)) => match spec_opt_ue(
                                                    data,
                                                    p11,
                                                    crop,
                                                ) {
                                                    Err(e) => Err(e),
                                                    Ok((cb, p12)) => Ok(
                                                        (
                                                            (
                                                                UnsignedExpGolombCode(maxref),
                                                                gaps,
                                                                UnsignedExpGolombCode(w),
                                                                UnsignedExpGolombCode(h),
                                                                fmo,
                                                                mbaff == Some(true),
                                                                d8,
                                                                crop,
                                                                cl,
                                                                cr,
                                                                ct,
                                                                cb,
                                                            ),
                                                            p12,
                                                        ),
                                                    ),
                                                },
                                            },
                                        },
                                    },
                                },
                            },
                        },
                    },
                },
            },
        },
    }
}

/// A VUI record that is present only when `present` holds.
pub open spec fn spec_opt_vui(data: Seq<u8>, pos: nat, present: bool) -> Result<
    (Option<YuvParametersView>, nat),
    BitStreamError,
> {
    if !present {
        Ok((None, pos))
    } else {
        match spec_read_vui(data, pos) {
            Err(e) => Err(e),
            Ok((v, p)) => Ok((Some(v), p)),
        }
    }
}

/// The view of an optional VUI record.
pub open spec fn opt_vui_view(v: Option<YuvParameters>) -> Option<YuvParametersView> {
    match v {
        Some(y) => Some(y@),
        None => None,
    }
}

/// The view of an optional vector of signed Exp-Golomb values.
pub open spec fn opt_se_seq_view(v: Option<Vec<SignedExpGolombCode>>) -> Option<
    Seq<SignedExpGolombCode>,
> {
    match v {
        Some(s) => Some(s@),
        None => None,
    }
}

/// The mathematical value of a decoded [`SequenceParameterSet`] record.
pub ghost struct SequenceParameterSetView {
    pub profile_idc: u8,
    pub constraint_set0_flag: bool,
    pub constraint_set1_flag: bool,
    pub constraint_set2_flag: bool,
    pub constraint_set3_flag: bool,
    pub constraint_set4_flag: bool,
    pub constraint_set5_flag: bool,
    pub level_idc: u8,
    pub seq_parameter_set_id: UnsignedExpGolombCode,
    pub chroma_format_idc: Option<UnsignedExpGolombCode>,
    pub separate_colour_plane_flag: bool,
    pub bit_depth_luma_minus8: Option<UnsignedExpGolombCode>,
    pub bit_depth_chroma_minus8: Option<UnsignedExpGolombCode>,
    pub qpprime_y_zero_transform_bypass_flag: Option<bool>,
    pub seq_scaling_matrix_present_flag: Option<bool>,
    pub scaling_list_4x4: Option<Seq<ScalingListView>>,
    pub scaling_list_8x8: Option<Seq<ScalingListView>>,
    pub log2_max_frame_num_minus4: UnsignedExpGolombCode,
    pub pic_order_cnt_type: UnsignedExpGolombCode,
    pub log2_max_pic_order_cnt_lsb_minus4: Option<UnsignedExpGolombCode>,
    pub delta_pic_order_always_zero_flag: Option<bool>,
    pub offset_for_non_ref_pic: Option<SignedExpGolombCode>,
    pub offset_for_top_to_bottom_field: Option<SignedExpGolombCode>,
    pub num_ref_frames_in_pic_order_cnt_cycle: Option<UnsignedExpGolombCode>,
    pub offset_for_ref_frame: Option<Seq<SignedExpGolombCode>>,
    pub max_num_ref_frames: UnsignedExpGolombCode,
    pub gaps_in_frame_num_value_allowed_flag: bool,
    pub pic_width_in_mbs_minus1: UnsignedExpGolombCode,
    pub pic_height_in_map_units_minus1: UnsignedExpGolombCode,
    pub frame_mbs_only_flag: bool,
    pub mb_adaptive_frame_field_flag: bool,
    pub direct_8x8_inference_flag: bool,
    pub frame_cropping_flag: bool,
    pub frame_crop_left_offset: Option<UnsignedExpGolombCode>,
    pub frame_crop_right_offset: Option<UnsignedExpGolombCode>,
    pub frame_crop_top_offset: Option<UnsignedExpGolombCode>,
    pub frame_crop_bottom_offset: Option<UnsignedExpGolombCode>,
    pub vui_parameters_present_flag: bool,
    pub yuv_parameters: Option<YuvParametersView>,
}

/// A sequence parameter set (H.264 clause 7.3.2.1.1): the most field-rich
/// record, with chained optional fields and the embedded VUI sub-grammar.
#[derive(Debug, Eq, PartialEq)]
pub struct SequenceParameterSet {
    pub profile_idc: u8,
    pub constraint_set0_flag: bool,
    pub constraint_set1_flag: bool,
    pub constraint_set2_flag: bool,
    pub constraint_set3_flag: bool,
    pub constraint_set4_flag: bool,
    pub constraint_set5_flag: bool,
    pub level_idc: u8,
    pub seq_parameter_set_id: UnsignedExpGolombCode,
    pub chroma_format_idc: Option<UnsignedExpGolombCode>,
    pub separate_colour_plane_flag: bool,
    pub bit_depth_luma_minus8: Option<UnsignedExpGolombCode>,
    pub bit_depth_chroma_minus8: Option<UnsignedExpGolombCode>,
    pub qpprime_y_zero_transform_bypass_flag: Option<bool>,
    pub seq_scaling_matrix_present_flag: Option<bool>,
    pub scaling_list_4x4: Option<Vec<ScalingList>>,
    pub scaling_list_8x8: Option<Vec<ScalingList>>,
    pub log2_max_frame_num_minus4: UnsignedExpGolombCode,
    pub pic_order_cnt_type: UnsignedExpGolombCode,
    pub log2_max_pic_order_cnt_lsb_minus4: Option<UnsignedExpGolombCode>,
    pub delta_pic_order_always_zero_flag: Option<bool>,
    pub offset_for_non_ref_pic: Option<SignedExpGolombCode>,
    pub offset_for_top_to_bottom_field: Option<SignedExpGolombCode>,
    pub num_ref_frames_in_pic_order_cnt_cycle: Option<UnsignedExpGolombCode>,
    pub offset_for_ref_frame: Option<Vec<SignedExpGolombCode>>,
    pub max_num_ref_frames: UnsignedExpGolombCode,
    pub gaps_in_frame_num_value_allowed_flag: bool,
    pub pic_width_in_mbs_minus1: UnsignedExpGolombCode,
    pub pic_height_in_map_units_minus1: UnsignedExpGolombCode,
    pub frame_mbs_only_flag: bool,
    pub mb_adaptive_frame_field_flag: bool,
    pub direct_8x8_inference_flag: bool,
    pub frame_cropping_flag: bool,
    pub frame_crop_left_offset: Option<UnsignedExpGolombCode>,
    pub frame_crop_right_offset: Option<UnsignedExpGolombCode>,
    pub frame_crop_top_offset: Option<UnsignedExpGolombCode>,
    pub frame_crop_bottom_offset: Option<UnsignedExpGolombCode>,
    pub vui_parameters_present_flag: bool,
    pub yuv_parameters: Option<YuvParameters>,
}

impl View for SequenceParameterSet {
    type V = SequenceParameterSetView;

    open spec fn view(&self) -> SequenceParameterSetView {
        SequenceParameterSetView {
            profile_idc: self.profile_idc,
            constraint_set0_flag: self.constraint_set0_flag,
            constraint_set1_flag: self.constraint_set1_flag,
            constraint_set2_flag: self.constraint_set2_flag,
            constraint_set3_flag: self.constraint_set3_flag,
            constraint_set4_flag: self.constraint_set4_flag,
            constraint_set5_flag: self.constraint_set5_flag,
            level_idc: self.level_idc,
            seq_parameter_set_id: self.seq_parameter_set_id,
            chroma_format_idc: self.chroma_format_idc,
            separate_colour_plane_flag: self.separate_colour_plane_flag,
            bit_depth_luma_minus8: self.bit_depth_luma_minus8,
            bit_depth_chroma_minus8: self.bit_depth_chroma_minus8,
            qpprime_y_zero_transform_bypass_flag: self.qpprime_y_zero_transform_bypass_flag,
            seq_scaling_matrix_present_flag: self.seq_scaling_matrix_present_flag,
            scaling_list_4x4: opt_scaling_views(self.scaling_list_4x4),
            scaling_list_8x8: opt_scaling_views(self.scaling_list_8x8),
            log2_max_frame_num_minus4: self.log2_max_frame_num_minus4,
            pic_order_cnt_type: self.pic_order_cnt_type,
            log2_max_pic_order_cnt_lsb_minus4: self.log2_max_pic_order_cnt_lsb_minus4,
            delta_pic_order_always_zero_flag: self.delta_pic_order_always_zero_flag,
            offset_for_non_ref_pic: self.offset_for_non_ref_pic,
            offset_for_top_to_bottom_field: self.offset_for_top_to_bottom_field,
            num_ref_frames_in_pic_order_cnt_cycle: self.num_ref_frames_in_pic_order_cnt_cycle,
            offset_for_ref_frame: opt_se_seq_view(self.offset_for_ref_frame),
            max_num_ref_frames: self.max_num_ref_frames,
            gaps_in_frame_num_value_allowed_flag: self.gaps_in_frame_num_value_allowed_flag,
            pic_width_in_mbs_minus1: self.pic_width_in_mbs_minus1,
            pic_height_in_map_units_minus1: self.pic_height_in_map_units_minus1,
            frame_mbs_only_flag: self.frame_mbs_only_flag,
            mb_adaptive_frame_field_flag: self.mb_adaptive_frame_field_flag,
            direct_8x8_inference_flag: self.direct_8x8_inference_flag,
            frame_cropping_flag: self.frame_cropping_flag,
            frame_crop_left_offset: self.frame_crop_left_offset,
            frame_crop_right_offset: self.frame_crop_right_offset,
            frame_crop_top_offset: self.frame_crop_top_offset,
            frame_crop_bottom_offset: self.frame_crop_bottom_offset,
            vui_parameters_present_flag: self.vui_parameters_present_flag,
            yuv_parameters: opt_vui_view(self.yuv_parameters),
        }
    }
}

impl Clone for SequenceParameterSet {
    /// The copy has the same mathematical value.
    #[verifier::rlimit(100)]
    #[verifier::spinoff_prover]
    fn clone(&self) -> (r: Self)
        ensures
            r@ == self@,
    {
        SequenceParameterSet {
            profile_idc: self.profile_idc,
            constraint_set0_flag: self.constraint_set0_flag,
            constraint_set1_flag: self.constraint_set1_flag,
            constraint_set2_flag: self.constraint_set2_flag,
            constraint_set3_flag: self.constraint_set3_flag,
            constraint_set4_flag: self.constraint_set4_flag,
            constraint_set5_flag: self.constraint_set5_flag,
            level_idc: self.level_idc,
            seq_parameter_set_id: self.seq_parameter_set_id,
            chroma_format_idc: self.chroma_format_idc,
            separate_colour_plane_flag: self.separate_colour_plane_flag,
            bit_depth_luma_minus8: self.bit_depth_luma_minus8,
            bit_depth_chroma_minus8: self.bit_depth_chroma_minus8,
            qpprime_y_zero_transform_bypass_flag: self.qpprime_y_zero_transform_bypass_flag,
            seq_scaling_matrix_present_flag: self.seq_scaling_matrix_present_flag,
            scaling_list_4x4: match &self.scaling_list_4x4 {
                Some(v) => Some(crate::scaling_list::clone_scaling_lists(v)),
                None => None,
            },
            scaling_list_8x8: match &self.scaling_list_8x8 {
                Some(v) => Some(crate::scaling_list::clone_scaling_lists(v)),
                None => None,
            },
            log2_max_frame_num_minus4: self.log2_max_frame_num_minus4,
            pic_order_cnt_type: self.pic_order_cnt_type,
            log2_max_pic_order_cnt_lsb_minus4: self.log2_max_pic_order_cnt_lsb_minus4,
            delta_pic_order_always_zero_flag: self.delta_pic_order_always_zero_flag,
            offset_for_non_ref_pic: self.offset_for_non_ref_pic,
            offset_for_top_to_bottom_field: self.offset_for_top_to_bottom_field,
            num_ref_frames_in_pic_order_cnt_cycle: self.num_ref_frames_in_pic_order_cnt_cycle,
            offset_for_ref_frame: match &self.offset_for_ref_frame {
                Some(v) => Some(vstd::slice::slice_to_vec(v.as_slice())),
                None => None,
            },
            max_num_ref_frames: self.max_num_ref_frames,
            gaps_in_frame_num_value_allowed_flag: self.gaps_in_frame_num_value_allowed_flag,
            pic_width_in_mbs_minus1: self.pic_width_in_mbs_minus1,
            pic_height_in_map_units_minus1: self.pic_height_in_map_units_minus1,
            frame_mbs_only_flag: self.frame_mbs_only_flag,
            mb_adaptive_frame_field_flag: self.mb_adaptive_frame_field_flag,
            direct_8x8_inference_flag: self.direct_8x8_inference_flag,
            frame_cropping_flag: self.frame_cropping_flag,
            frame_crop_left_offset: self.frame_crop_left_offset,
            frame_crop_right_offset: self.frame_crop_right_offset,
            frame_crop_top_offset: self.frame_crop_top_offset,
            frame_crop_bottom_offset: self.frame_crop_bottom_offset,
            vui_parameters_present_flag: self.vui_parameters_present_flag,
            yuv_parameters: match &self.yuv_parameters {
                Some(y) => Some(y.clone()),
                None => None,
            },
        }
    }
}

/// The sequence parameter set of `data` at `pos` and the position after
/// it.
pub open spec fn spec_read_sps(data: Seq<u8>, pos: nat) -> Result<
    (SequenceParameterSetView, nat),
    BitStreamError,
> {
    match spec_sps_prefix(data, pos) {
        Err(e) => Err(e),
        Ok(((profile, c0, c1, c2, c3, c4, c5, level, spsid), p1)) => match spec_sps_chroma_info(
            data,
            p1,
            is_high_profile(profile),
        ) {
            Err(e) => Err(e),
            Ok(((chroma, sep, bdl, bdc, qp, matrix, s4, s8), p2)) => match spec_read_ue(data, p2) {
                Err(e) => Err(e),
                Ok((log2mfn, p3)) => match spec_sps_poc(data, p3) {
                    Err(e) => Err(e),
                    Ok(((poc, lsb, daz, onr, otb, cnt, offs), p4)) => match spec_sps_tail(
                        data,
                        p4,
                    ) {
                        Err(e) => Err(e),
                        Ok(
                            ((maxref, gaps, w, h, fmo, mbaff, d8, crop, cl, cr, ct, cb), p5),
                        ) => match spec_read_flag(data, p5) {
                            Err(e) => Err(e),
                            Ok((vuip, p6)) => match spec_opt_vui(data, p6, vuip) {
                                Err(e) => Err(e),
                                Ok((vui, p7)) => Ok(
                                    (
                                        SequenceParameterSetView {
                                            profile_idc: profile,
                                            constraint_set0_flag: c0,
                                            constraint_set1_flag: c1,
                                            constraint_set2_flag: c2,
                                            constraint_set3_flag: c3,
                                            constraint_set4_flag: c4,
                                            constraint_set5_flag: c5,
                                            level_idc: level,
                                            seq_parameter_set_id: spsid,
                                            chroma_format_idc: chroma,
                                            separate_colour_plane_flag: sep,
                                            bit_depth_luma_minus8: bdl,
                                            bit_depth_chroma_minus8: bdc,
                                            qpprime_y_zero_transform_bypass_flag: qp,
                                            seq_scaling_matrix_present_flag: matrix,
                                            scaling_list_4x4: s4,
                                            scaling_list_8x8: s8,
                                            log2_max_frame_num_minus4: UnsignedExpGolombCode(
                                                log2mfn,
                                            ),
                                            pic_order_cnt_type: poc,
                                            log2_max_pic_order_cnt_lsb_minus4: lsb,
                                            delta_pic_order_always_zero_flag: daz,
                                            offset_for_non_ref_pic: onr,
                                            offset_for_top_to_bottom_field: otb,
                                            num_ref_frames_in_pic_order_cnt_cycle: cnt,
                                            offset_for_ref_frame: offs,
                                            max_num_ref_frames: maxref,
                                            gaps_in_frame_num_value_allowed_flag: gaps,
                                            pic_width_in_mbs_minus1: w,
                                            pic_height_in_map_units_minus1: h,
                                            frame_mbs_only_flag: fmo,
                                            mb_adaptive_frame_field_flag: mbaff,
                                            direct_8x8_inference_flag: d8,
                                            frame_cropping_flag: crop,
                                            frame_crop_left_offset: cl,
                                            frame_crop_right_offset: cr,
                                            frame_crop_top_offset: ct,
                                            frame_crop_bottom_offset: cb,
                                            vui_parameters_present_flag: vuip,
                                            yuv_parameters: vui,
                                        },
                                        p7,
                                    ),
                                ),
                            },
                        },
                    },
                },
            },
        },
    }
}

fn read_sps_prefix(stream: &mut BitStream) -> (r: Result<
    (u8, bool, bool, bool, bool, bool, bool, u8, UnsignedExpGolombCode),
    BitStreamError,
>)
    requires
        old(stream).wf(),
    ensures
        final(stream).wf(),
        final(stream).bytes() == old(stream).bytes(),
        match spec_sps_prefix(old(stream).bytes(), old(stream).cursor()) {
            Ok((t, p)) => r == Ok::<_, BitStreamError>(t) && final(stream).cursor() == p,
            Err(e) => r == Err::<
                (u8, bool, bool, bool, bool, bool, bool, u8, UnsignedExpGolombCode),
                BitStreamError,
            >(e),
        },
{
    let ghost data0 = old(stream).bytes();
    proof {
        crate::bits::lemma_bits_value_bound(data0, old(stream).cursor(), 8);
        vstd::arithmetic::power2::lemma2_to64();
    }
    let profile = match stream.read(8) {
        Ok(v) => v as u8,
        Err(e) => {
            return Err(e);
        },
    };
    let c0 = match stream.read_bit() {
        Ok(v) => v,
        Err(e) => {
            return Err(e);
        },
    };
    let c1 = match stream.read_bit() {
        Ok(v) => v,
        Err(e) => {
            return Err(e);
        },
    };
    let c2 = match stream.read_bit() {
        Ok(v) => v,
        Err(e) => {
            return Err(e);
        },
    };
    let c3 = match stream.read_bit() {
        Ok(v) => v,
        Err(e) => {
            return Err(e);
        },
    };
    let c4 = match stream.read_bit() {
        Ok(v) => v,
        Err(e) => {
            return Err(e);
        },
    };
    let c5 = match stream.read_bit() {
        Ok(v) => v,
        Err(e) => {
            return Err(e);
        },
    };
    match stream.skip(2) {
        Ok(_) => (),
        Err(e) => {
            return Err(e);
        },
    }
    proof {
        crate::bits::lemma_bits_value_bound(data0, stream.cursor(), 8);
    }
    let level = match stream.read(8) {
        Ok(v) => v as u8,
        Err(e) => {
            return Err(e);
        },
    };
    let spsid = match UnsignedExpGolombCode::read(stream) {
        Ok(v) => v,
        Err(e) => {
            return Err(e);
        },
    };
    Ok((profile, c0, c1, c2, c3, c4, c5, level, spsid))
}

fn read_sps_chroma_info(stream: &mut BitStream, present: bool) -> (r: Result<
    (
        Option<UnsignedExpGolombCode>,
        bool,
        Option<UnsignedExpGolombCode>,
        Option<UnsignedExpGolombCode>,
        Option<bool>,
        Option<bool>,
        Option<Vec<ScalingList>>,
        Option<Vec<ScalingList>>,
    ),
    BitStreamError,
>)
    requires
        old(stream).wf(),
    ensures
        final(stream).wf(),
        final(stream).bytes() == old(stream).bytes(),
        match spec_sps_chroma_info(old(stream).bytes(), old(stream).cursor(), present) {
            Ok((t, p)) => r matches Ok(v) && v.0 == t.0 && v.1 == t.1 && v.2 == t.2 && v.3 == t.3
                && v.4 == t.4 && v.5 == t.5 && opt_scaling_views(v.6) == t.6 && opt_scaling_views(
                v.7,
            ) == t.7 && final(stream).cursor() == p,
            Err(e) => r == Err::<
                (
                    Option<UnsignedExpGolombCode>,
                    bool,
                    Option<UnsignedExpGolombCode>,
                    Option<UnsignedExpGolombCode>,
                    Option<bool>,
                    Option<bool>,
                    Option<Vec<ScalingList>>,
                    Option<Vec<ScalingList>>,
                ),
                BitStreamError,
            >(e),
        },
{
    if !present {
        return Ok((None, false, None, None, None, None, None, None));
    }
    let chroma = match UnsignedExpGolombCode::read(stream) {
        Ok(v) => v,
        Err(e) => {
            return Err(e);
        },
    };
    let sep = match read_opt_flag(stream, chroma.0 == 3) {
        Ok(v) => v,
        Err(e) => {
            return Err(e);
        },
    };
    let separate = match sep {
        Some(b) => b,
        None => false,
    };
    let bdl = match UnsignedExpGolombCode::read(stream) {
        Ok(v) => v,
        Err(e) => {
            return Err(e);
        },
    };
    let bdc = match UnsignedExpGolombCode::read(stream) {
        Ok(v) => v,
        Err(e) => {
            return Err(e);
        },
    };
    let qp = match stream.read_bit() {
        Ok(v) => v,
        Err(e) => {
            return Err(e);
        },
    };
    let matrix = match stream.read_bit() {
        Ok(v) => v,
        Err(e) => {
            return Err(e);
        },
    };
    let s4 = match read_opt_scaling_lists(stream, 6, 16, matrix) {
        Ok(v) => v,
        Err(e) => {
            return Err(e);
        },
    };
    let count8: u8 = if chroma.0 != 3 {
        2
    } else {
        6
    };
    let s8 = match read_opt_scaling_lists(stream, count8, 64, matrix) {
        Ok(v) => v,
        Err(e) => {
            return Err(e);
        },
    };
    Ok((Some(chroma), separate, Some(bdl), Some(bdc), Some(qp), Some(matrix), s4, s8))
}

fn read_sps_poc(stream: &mut BitStream) -> (r: Result<
    (
        UnsignedExpGolombCode,
        Option<UnsignedExpGolombCode>,
        Option<bool>,
        Option<SignedExpGolombCode>,
        Option<SignedExpGolombCode>,
        Option<UnsignedExpGolombCode>,
        Option<Vec<SignedExpGolombCode>>,
    ),
    BitStreamError,
>)
    requires
        old(stream).wf(),
    ensures
        final(stream).wf(),
        final(stream).bytes() == old(stream).bytes(),
        match spec_sps_poc(old(stream).bytes(), old(stream).cursor()) {
            Ok((t, p)) => r matches Ok(v) && v.0 == t.0 && v.1 == t.1 && v.2 == t.2 && v.3 == t.3
                && v.4 == t.4 && v.5 == t.5 && opt_se_seq_view(v.6) == t.6 && final(stream).cursor() == p,
            Err(e) => r == Err::<
                (
                    UnsignedExpGolombCode,
                    Option<UnsignedExpGolombCode>,
                    Option<bool>,
                    Option<SignedExpGolombCode>,
                    Option<SignedExpGolombCode>,
                    Option<UnsignedExpGolombCode>,
                    Option<Vec<SignedExpGolombCode>>,
                ),
                BitStreamError,
            >(e),
        },
{
    let poc = match UnsignedExpGolombCode::read(stream) {
        Ok(v) => v,
        Err(e) => {
            return Err(e);
        },
    };
    if poc.0 == 0 {
        let lsb = match UnsignedExpGolombCode::read(stream) {
            Ok(v) => v,
            Err(e) => {
                return Err(e);
            },
        };
        Ok((poc, Some(lsb), None, None, None, None, None))
    } else if poc.0 == 1 {
        let daz = match stream.read_bit() {
            Ok(v) => v,
            Err(e) => {
                return Err(e);
            },
        };
        let onr = match SignedExpGolombCode::read(stream) {
            Ok(v) => v,
            Err(e) => {
                return Err(e);
            },
        };
        let otb = match SignedExpGolombCode::read(stream) {
            Ok(v) => v,
            Err(e) => {
                return Err(e);
            },
        };
        let cnt = match UnsignedExpGolombCode::read(stream) {
            Ok(v) => v,
            Err(e) => {
                return Err(e);
            },
        };
        let offs = match read_se_seq(stream, cnt.0) {
            Ok(v) => v,
            Err(e) => {
                return Err(e);
            },
        };
        Ok((poc, None, Some(daz), Some(onr), Some(otb), Some(cnt), Some(offs)))
    } else {
        Ok((poc, None, None, None, None, None, None))
    }
}

#[verifier::rlimit(80)]
fn read_sps_tail(stream: &mut BitStream) -> (r: Result<
    (
        UnsignedExpGolombCode,
        bool,
        UnsignedExpGolombCode,
        UnsignedExpGolombCode,
        bool,
        bool,
        bool,
        bool,
        Option<UnsignedExpGolombCode>,
        Option<UnsignedExpGolombCode>,
        Option<UnsignedExpGolombCode>,
        Option<UnsignedExpGolombCode>,
    ),
    BitStreamError,
>)
    requires
        old(stream).wf(),
    ensures
        final(stream).wf(),
        final(stream).bytes() == old(stream).bytes(),
        match spec_sps_tail(old(stream).bytes(), old(stream).cursor()) {
            Ok((t, p)) => r == Ok::<_, BitStreamError>(t) && final(stream).cursor() == p,
            Err(e) => r == Err::<
                (
                    UnsignedExpGolombCode,
                    bool,
                    UnsignedExpGolombCode,
                    UnsignedExpGolombCode,
                    bool,
                    bool,
                    bool,
                    bool,
                    Option<UnsignedExpGolombCode>,
                    Option<UnsignedExpGolombCode>,
                    Option<UnsignedExpGolombCode>,
                    Option<UnsignedExpGolombCode>,
                ),
                BitStreamError,
            >(e),
        },
{
    let maxref = match UnsignedExpGolombCode::read(stream) {
        Ok(v) => v,
        Err(e) => {
            return Err(e);
        },
    };
    let gaps = match stream.read_bit() {
        Ok(v) => v,
        Err(e) => {
            return Err(e);
        },
    };
    let w = match UnsignedExpGolombCode::read(stream) {
        Ok(v) => v,
        Err(e) => {
            return Err(e);
        },
    };
    let h = match UnsignedExpGolombCode::read(stream) {
        Ok(v) => v,
        Err(e) => {
            return Err(e);
        },
    };
    let fmo = match stream.read_bit() {
        Ok(v) => v,
        Err(e) => {
            return Err(e);
        },
    };
    let mbaff_opt = match read_opt_flag(stream, !fmo) {
        Ok(v) => v,
        Err(e) => {
            return Err(e);
        },
    };
    let mbaff = match mbaff_opt {
        Some(b) => b,
        None => false,
    };
    let d8 = match stream.read_bit() {
        Ok(v) => v,
        Err(e) => {
            return Err(e);
        },
    };
    let crop = match stream.read_bit() {
        Ok(v) => v,
        Err(e) => {
            return Err(e);
        },
    };
    let cl = match read_opt_ue(stream, crop) {
        Ok(v) => v,
        Err(e) => {
            return Err(e);
        },
    };
    let cr = match read_opt_ue(stream, crop) {
        Ok(v) => v,
        Err(e) => {
            return Err(e);
        },
    };
    let ct = match read_opt_ue(stream, crop) {
        Ok(v) => v,
        Err(e) => {
            return Err(e);
        },
    };
    let cb = match read_opt_ue(stream, crop) {
        Ok(v) => v,
        Err(e) => {
            return Err(e);
        },
    };
    Ok((maxref, gaps, w, h, fmo, mbaff, d8, crop, cl, cr, ct, cb))
}

/// Reads a VUI record if `present` holds; hands back `None` otherwise.
fn read_opt_vui(stream: &mut BitStream, present: bool) -> (r: Result<
    Option<YuvParameters>,
    BitStreamError,
>)
    requires
        old(stream).wf(),
    ensures
        final(stream).wf(),
        final(stream).bytes() == old(stream).bytes(),
        match spec_opt_vui(old(stream).bytes(), old(stream).cursor(), present) {
            Ok((o, p)) => r matches Ok(v) && opt_vui_view(v) == o && final(stream).cursor() == p,
            Err(e) => r == Err::<Option<YuvParameters>, BitStreamError>(e),
        },
{
    if !present {
        return Ok(None);
    }
    match YuvParameters::read(stream) {
        Ok(v) => Ok(Some(v)),
        Err(e) => Err(e),
    }
}

impl SequenceParameterSet {
    /// Parses a sequence parameter set from `stream`.
    #[verifier::rlimit(60)]
    pub fn read(stream: &mut BitStream) -> (r: Result<Self, BitStreamError>)
        requires
            old(stream).wf(),
        ensures
            final(stream).wf(),
            final(stream).bytes() == old(stream).bytes(),
            match spec_read_sps(old(stream).bytes(), old(stream).cursor()) {
                Ok((v, p)) => r matches Ok(s) && s@ == v && final(stream).cursor() == p,
                Err(e) => r == Err::<Self, BitStreamError>(e),
            },
    {
        let (profile, c0, c1, c2, c3, c4, c5, level, spsid) = match read_sps_prefix(stream) {
            Ok(t) => t,
            Err(e) => {
                return Err(e);
            },
        };
        let high = has_extended_chroma(profile);
        let (chroma, sep, bdl, bdc, qp, matrix, s4, s8) = match read_sps_chroma_info(
            stream,
            high,
        ) {
            Ok(t) => t,
            Err(e) => {
                return Err(e);
            },
        };
        let log2mfn = match UnsignedExpGolombCode::read(stream) {
            Ok(v) => v,
            Err(e) => {
                return Err(e);
            },
        };
        let (poc, lsb, daz, onr, otb, cnt, offs) = match read_sps_poc(stream) {
            Ok(t) => t,
            Err(e) => {
                return Err(e);
            },
        };
        let (maxref, gaps, w, h, fmo, mbaff, d8, crop, cl, cr, ct, cb) = match read_sps_tail(
            stream,
        ) {
            Ok(t) => t,
            Err(e) => {
                return Err(e);
            },
        };
        let vuip = match stream.read_bit() {
            Ok(v) => v,
            Err(e) => {
                return Err(e);
            },
        };
        let vui = match read_opt_vui(stream, vuip) {
            Ok(v) => v,
            Err(e) => {
                return Err(e);
            },
        };
        Ok(
            SequenceParameterSet {
                profile_idc: profile,
                constraint_set0_flag: c0,
                constraint_set1_flag: c1,
                constraint_set2_flag: c2,
                constraint_set3_flag: c3,
                constraint_set4_flag: c4,
                constraint_set5_flag: c5,
                level_idc: level,
                seq_parameter_set_id: spsid,
                chroma_format_idc: chroma,
                separate_colour_plane_flag: sep,
                bit_depth_luma_minus8: bdl,
                bit_depth_chroma_minus8: bdc,
                qpprime_y_zero_transform_bypass_flag: qp,
                seq_scaling_matrix_present_flag: matrix,
                scaling_list_4x4: s4,
                scaling_list_8x8: s8,
                log2_max_frame_num_minus4: log2mfn,
                pic_order_cnt_type: poc,
                log2_max_pic_order_cnt_lsb_minus4: lsb,
                delta_pic_order_always_zero_flag: daz,
                offset_for_non_ref_pic: onr,
                offset_for_top_to_bottom_field: otb,
                num_ref_frames_in_pic_order_cnt_cycle: cnt,
                offset_for_ref_frame: offs,
                max_num_ref_frames: maxref,
                gaps_in_frame_num_value_allowed_flag: gaps,
                pic_width_in_mbs_minus1: w,
                pic_height_in_map_units_minus1: h,
                frame_mbs_only_flag: fmo,
                mb_adaptive_frame_field_flag: mbaff,
                direct_8x8_inference_flag: d8,
                frame_cropping_flag: crop,
                frame_crop_left_offset: cl,
                frame_crop_right_offset: cr,
                frame_crop_top_offset: ct,
                frame_crop_bottom_offset: cb,
                vui_parameters_present_flag: vuip,
                yuv_parameters: vui,
            },
        )
    }
}

} // verus!