//! The picture parameter set (H.264 clause 7.3.2.2).
//!
//! Its slice-group block takes one of five shapes selected by a map type,
//! and its trailing scaling-matrix block sizes the 8x8 lists from the
//! sequence parameter set the record references, fetched from the
//! registry: a missing set is a recoverable error, not a crash.

use vstd::prelude::*;
use vstd::arithmetic::power2::pow2;
use vstd::arithmetic::power2::lemma_pow2_unfold;
use vstd::arithmetic::power2::lemma_pow2_strictly_increases;

use crate::bit_stream::spec_read_flag;
use crate::bit_stream::spec_read_u;
use crate::bit_stream::BitStream;
use crate::bit_stream::BitStreamError;
use crate::bits::lemma_bits_value_bound;
use crate::exp_golomb::lemma_ue_value_bound;
use crate::exp_golomb::spec_read_ue;
use crate::exp_golomb::spec_read_ue_seq;
use crate::exp_golomb::read_ue_seq;
use crate::exp_golomb::SignedExpGolombCode;
use crate::exp_golomb::UnsignedExpGolombCode;
use crate::nal_unit::parse_error_of;
use crate::nal_unit::to_parse_error;
use crate::nal_unit::ParseError;
use crate::nal_unit::seq_param_set::SequenceParameterSetView;
use crate::scaling_list::opt_scaling_views;
use crate::scaling_list::read_opt_scaling_lists;
use crate::scaling_list::spec_opt_scaling_lists;
use crate::scaling_list::ScalingList;
use crate::scaling_list::ScalingListView;

verus! {

/// The least `k` with `2^k >= n`: the bit width of the per-map-unit
/// slice group ids.
pub open spec fn ceil_log2(n: nat) -> nat
    decreases n,
{
    if n <= 1 {
        0
    } else {
        1 + ceil_log2((n + 1) / 2)
    }
}

/// `ceil_log2(n)` is the least exponent whose power of two reaches `n`.
pub proof fn lemma_ceil_log2_bounds(n: nat)
    ensures
        pow2(ceil_log2(n)) >= n,
        n >= 2 ==> pow2((ceil_log2(n) - 1) as nat) < n,
    decreases n,
{
    vstd::arithmetic::power2::lemma2_to64();
    if n >= 2 {
        let m = (n + 1) / 2;
        lemma_ceil_log2_bounds(m);
        lemma_pow2_unfold((ceil_log2(m) + 1) as nat);
        if m >= 2 {
            lemma_pow2_unfold(ceil_log2(m));
        }
    }
}

/// Computes `ceil_log2(n)`.
pub(crate) fn ceil_log2_u64(n: u64) -> (r: u8)
    ensures
        r == ceil_log2(n as nat),
{
    let mut k: u8 = 0;
    loop
        invariant
            k <= 64,
            forall|j: nat| j < k ==> pow2(j) < n,
        ensures
            k <= 64,
            forall|j: nat| j < k ==> pow2(j) < n,
            k == 64 || pow2(k as nat) >= n,
        decreases 64 - k,
    {
        if k >= 64 {
            break ;
        }
        proof {
            vstd::bits::lemma_u64_pow2_no_overflow(k as nat);
            vstd::bits::lemma_u64_shl_is_mul(1u64, k as u64);
        }
        let p = 1u64 << (k as u64);
        if p >= n {
            break ;
        }
        k = k + 1;
    }
    proof {
        lemma_ceil_log2_bounds(n as nat);
        let c = ceil_log2(n as nat);
        if k < 64 {
            vstd::bits::lemma_u64_pow2_no_overflow(k as nat);
            vstd::bits::lemma_u64_shl_is_mul(1u64, k as u64);
            assert(pow2(k as nat) >= n);
        } else {
            assert(forall|j: nat| j < 64 ==> pow2(j) < n);
            vstd::arithmetic::power2::lemma2_to64_rest();
            assert(pow2(64) >= n) by {
                assert(pow2(64) == 0x10000000000000000) by {
                    vstd::arithmetic::power2::lemma2_to64_rest();
                }
            }
        }
        if (k as nat) < c {
            assert(n >= 2) by {
                if n <= 1 {
                    assert(c == 0);
                }
            }
            lemma_pow2_strictly_increases(k as nat, c);
            if (k as nat) < c - 1 {
                lemma_pow2_strictly_increases(k as nat, (c - 1) as nat);
            }
            assert(pow2(k as nat) <= pow2((c - 1) as nat));
            assert(false);
        }
        if (k as nat) > c {
            assert(pow2(c) < n);
            assert(false);
        }
    }
    k
}

/// `count` pairs of unsigned Exp-Golomb codewords, decoded alternately:
/// the top-left and bottom-right corners of the foreground slice groups.
pub open spec fn spec_read_ue_pairs(data: Seq<u8>, pos: nat, count: nat) -> Result<
    ((Seq<UnsignedExpGolombCode>, Seq<UnsignedExpGolombCode>), nat),
    BitStreamError,
>
    decreases count,
{
    if count == 0 {
        Ok(((Seq::empty(), Seq::empty()), pos))
    } else {
        match spec_read_ue(data, pos) {
            Err(e) => Err(e),
            Ok((tl, p1)) => match spec_read_ue(data, p1) {
                Err(e) => Err(e),
                Ok((br, p2)) => match spec_read_ue_pairs(data, p2, (count - 1) as nat) {
                    Err(e) => Err(e),
                    Ok(((tls, brs), p3)) => Ok(
                        (
                            (
                                seq![UnsignedExpGolombCode(tl)] + tls,
                                seq![UnsignedExpGolombCode(br)] + brs,
                            ),
                            p3,
                        ),
                    ),
                },
            },
        }
    }
}

fn read_ue_pairs(stream: &mut BitStream, count: u64) -> (r: Result<
    (Vec<UnsignedExpGolombCode>, Vec<UnsignedExpGolombCode>),
    BitStreamError,
>)
    requires
        old(stream).wf(),
    ensures
        final(stream).wf(),
        final(stream).bytes() == old(stream).bytes(),
        match spec_read_ue_pairs(old(stream).bytes(), old(stream).cursor(), count as nat) {
            Ok(((tls, brs), p)) => r matches Ok(v) && v.0@ == tls && v.1@ == brs
                && final(stream).cursor() == p,
            Err(e) => r == Err::<
                (Vec<UnsignedExpGolombCode>, Vec<UnsignedExpGolombCode>),
                BitStreamError,
            >(e),
        },
{
    let ghost data0 = old(stream).bytes();
    let ghost c0 = old(stream).cursor();
    let mut tls: Vec<UnsignedExpGolombCode> = Vec::new();
    let mut brs: Vec<UnsignedExpGolombCode> = Vec::new();
    let mut i: u64 = 0;
    while i < count
        invariant
            stream.wf(),
            stream.bytes() == data0,
            data0 == old(stream).bytes(),
            c0 == old(stream).cursor(),
            i <= count,
            spec_read_ue_pairs(data0, c0, count as nat) == (match spec_read_ue_pairs(
                data0,
                stream.cursor(),
                (count - i) as nat,
            ) {
                Ok(((a, b), p)) => Ok::<
                    ((Seq<UnsignedExpGolombCode>, Seq<UnsignedExpGolombCode>), nat),
                    BitStreamError,
                >(((tls@ + a, brs@ + b), p)),
                Err(e) => Err::<
                    ((Seq<UnsignedExpGolombCode>, Seq<UnsignedExpGolombCode>), nat),
                    BitStreamError,
                >(e),
            }),
        decreases count - i,
    {
        let ghost tls0 = tls@;
        let ghost brs0 = brs@;
        let tl = match UnsignedExpGolombCode::read(stream) {
            Ok(v) => v,
            Err(e) => {
                return Err(e);
            },
        };
        let br = match UnsignedExpGolombCode::read(stream) {
            Ok(v) => v,
            Err(e) => {
                return Err(e);
            },
        };
        tls.push(tl);
        brs.push(br);
        i = i + 1;
        proof {
            match spec_read_ue_pairs(data0, stream.cursor(), (count - i) as nat) {
                Ok(((a2, b2), p2)) => {
                    assert(tls0 + (seq![tl] + a2) =~= tls@ + a2);
                    assert(brs0 + (seq![br] + b2) =~= brs@ + b2);
                },
                Err(_) => {},
            }
        }
    }
    proof {
        assert(tls@ + Seq::<UnsignedExpGolombCode>::empty() =~= tls@);
        assert(brs@ + Seq::<UnsignedExpGolombCode>::empty() =~= brs@);
    }
    Ok((tls, brs))
}

/// `count` slice group ids of `w` bits each; a width over 8 bits does not
/// fit the id type.
pub open spec fn spec_read_group_ids(data: Seq<u8>, pos: nat, count: nat, w: nat) -> Result<
    (Seq<u8>, nat),
    BitStreamError,
>
    decreases count,
{
    if count == 0 {
        Ok((Seq::empty(), pos))
    } else if w > 8 {
        Err(BitStreamError::TooLarge)
    } else {
        match spec_read_u(data, pos, w) {
            Err(e) => Err(e),
            Ok((v, p1)) => match spec_read_group_ids(data, p1, (count - 1) as nat, w) {
                Err(e) => Err(e),
                Ok((rest, p2)) => Ok((seq![v as u8] + rest, p2)),
            },
        }
    }
}

fn read_group_ids(stream: &mut BitStream, count: u64, w: u8) -> (r: Result<
    Vec<u8>,
    BitStreamError,
>)
    requires
        old(stream).wf(),
    ensures
        final(stream).wf(),
        final(stream).bytes() == old(stream).bytes(),
        match spec_read_group_ids(old(stream).bytes(), old(stream).cursor(), count as nat, w as nat) {
            Ok((ids, p)) => r matches Ok(v) && v@ == ids && final(stream).cursor() == p,
            Err(e) => r == Err::<Vec<u8>, BitStreamError>(e),
        },
{
    let ghost data0 = old(stream).bytes();
    let ghost c0 = old(stream).cursor();
    if count == 0 {
        let v: Vec<u8> = Vec::new();
        proof {
            assert(v@ =~= Seq::<u8>::empty());
        }
        return Ok(v);
    }
    if w > 8 {
        return Err(BitStreamError::TooLarge);
    }
    let mut out: Vec<u8> = Vec::new();
    let mut i: u64 = 0;
    while i < count
        invariant
            stream.wf(),
            stream.bytes() == data0,
            data0 == old(stream).bytes(),
            c0 == old(stream).cursor(),
            i <= count,
            count > 0,
            w <= 8,
            spec_read_group_ids(data0, c0, count as nat, w as nat) == (match spec_read_group_ids(
                data0,
                stream.cursor(),
                (count - i) as nat,
                w as nat,
            ) {
                Ok((rest, p)) => Ok::<(Seq<u8>, nat), BitStreamError>((out@ + rest, p)),
                Err(e) => Err::<(Seq<u8>, nat), BitStreamError>(e),
            }),
        decreases count - i,
    {
        let ghost out0 = out@;
        proof {
            lemma_bits_value_bound(data0, stream.cursor(), w as nat);
            if (w as nat) < 8 {
                lemma_pow2_strictly_increases(w as nat, 8);
            }
            vstd::arithmetic::power2::lemma2_to64();
        }
        let x = match stream.read(w) {
            Ok(v) => v as u8,
            Err(e) => {
                return Err(e);
            },
        };
        out.push(x);
        i = i + 1;
        proof {
            match spec_read_group_ids(data0, stream.cursor(), (count - i) as nat, w as nat) {
                Ok((rest2, p2)) => {
                    assert(out0 + (seq![x] + rest2) =~= out@ + rest2);
                },
                Err(_) => {},
            }
        }
    }
    proof {
        assert(out@ + Seq::<u8>::empty() =~= out@);
    }
    Ok(out)
}

/// The mathematical value of a decoded [`PictureParameterSet`] record.
pub ghost struct PictureParameterSetView {
    pub pic_parameter_set_id: UnsignedExpGolombCode,
    pub seq_parameter_set_id: UnsignedExpGolombCode,
    pub entropy_coding_mode_flag: bool,
    pub bottom_field_pic_order_in_frame_present_flag: bool,
    pub num_slice_groups_minus1: UnsignedExpGolombCode,
    pub slice_group_map_type: Option<UnsignedExpGolombCode>,
    pub run_length_minus1: Option<Seq<UnsignedExpGolombCode>>,
    pub top_left: Option<Seq<UnsignedExpGolombCode>>,
    pub bottom_right: Option<Seq<UnsignedExpGolombCode>>,
    pub slice_group_change_direction_flag: Option<bool>,
    pub slice_group_change_rate_minus1: Option<UnsignedExpGolombCode>,
    pub pic_size_in_map_units_minus1: Option<UnsignedExpGolombCode>,
    pub slice_group_id: Option<Seq<u8>>,
    pub num_ref_idx_l0_default_active_minus1: UnsignedExpGolombCode,
    pub num_ref_idx_l1_default_active_minus1: UnsignedExpGolombCode,
    pub weighted_pred_flag: bool,
    pub weighted_bipred_idc: u8,
    pub pic_init_qp_minus26: SignedExpGolombCode,
    pub pic_init_qs_minus26: SignedExpGolombCode,
    pub chroma_qp_index_offset: SignedExpGolombCode,
    pub deblocking_filter_control_present_flag: bool,
    pub constrained_intra_pred_flag: bool,
    pub redundant_pic_cnt_present_flag: bool,
    pub transform_8x8_mode_flag: Option<bool>,
    pub pic_scaling_matrix_present_flag: Option<bool>,
    pub scaling_list_4x4: Option<Seq<ScalingListView>>,
    pub scaling_list_8x8: Option<Seq<ScalingListView>>,
}

/// A picture parameter set (H.264 clause 7.3.2.2).
#[derive(Debug, Eq, PartialEq)]
pub struct PictureParameterSet {
    pub pic_parameter_set_id: UnsignedExpGolombCode,
    pub seq_parameter_set_id: UnsignedExpGolombCode,
    pub entropy_coding_mode_flag: bool,
    pub bottom_field_pic_order_in_frame_present_flag: bool,
    pub num_slice_groups_minus1: UnsignedExpGolombCode,
    pub slice_group_map_type: Option<UnsignedExpGolombCode>,
    pub run_length_minus1: Option<Vec<UnsignedExpGolombCode>>,
    pub top_left: Option<Vec<UnsignedExpGolombCode>>,
    pub bottom_right: Option<Vec<UnsignedExpGolombCode>>,
    pub slice_group_change_direction_flag: Option<bool>,
    pub slice_group_change_rate_minus1: Option<UnsignedExpGolombCode>,
    pub pic_size_in_map_units_minus1: Option<UnsignedExpGolombCode>,
    pub slice_group_id: Option<Vec<u8>>,
    pub num_ref_idx_l0_default_active_minus1: UnsignedExpGolombCode,
    pub num_ref_idx_l1_default_active_minus1: UnsignedExpGolombCode,
    pub weighted_pred_flag: bool,
    pub weighted_bipred_idc: u8,
    pub pic_init_qp_minus26: SignedExpGolombCode,
    pub pic_init_qs_minus26: SignedExpGolombCode,
    pub chroma_qp_index_offset: SignedExpGolombCode,
    pub deblocking_filter_control_present_flag: bool,
    pub constrained_intra_pred_flag: bool,
    pub redundant_pic_cnt_present_flag: bool,
    pub transform_8x8_mode_flag: Option<bool>,
    pub pic_scaling_matrix_present_flag: Option<bool>,
    pub scaling_list_4x4: Option<Vec<ScalingList>>,
    pub scaling_list_8x8: Option<Vec<ScalingList>>,
}

/// The view of an optional vector of unsigned Exp-Golomb values.
pub open spec fn opt_ue_seq_view(v: Option<Vec<UnsignedExpGolombCode>>) -> Option<
    Seq<UnsignedExpGolombCode>,
> {
    match v {
        Some(s) => Some(s@),
        None => None,
    }
}

/// The view of an optional vector of bytes.
pub open spec fn opt_bytes_view(v: Option<Vec<u8>>) -> Option<Seq<u8>> {
    match v {
        Some(s) => Some(s@),
        None => None,
    }
}

impl View for PictureParameterSet {
    type V = PictureParameterSetView;

    open spec fn view(&self) -> PictureParameterSetView {
        PictureParameterSetView {
            pic_parameter_set_id: self.pic_parameter_set_id,
            seq_parameter_set_id: self.seq_parameter_set_id,
            entropy_coding_mode_flag: self.entropy_coding_mode_flag,
            bottom_field_pic_order_in_frame_present_flag: self.bottom_field_pic_order_in_frame_present_flag,
            num_slice_groups_minus1: self.num_slice_groups_minus1,
            slice_group_map_type: self.slice_group_map_type,
            run_length_minus1: opt_ue_seq_view(self.run_length_minus1),
            top_left: opt_ue_seq_view(self.top_left),
            bottom_right: opt_ue_seq_view(self.bottom_right),
            slice_group_change_direction_flag: self.slice_group_change_direction_flag,
            slice_group_change_rate_minus1: self.slice_group_change_rate_minus1,
            pic_size_in_map_units_minus1: self.pic_size_in_map_units_minus1,
            slice_group_id: opt_bytes_view(self.slice_group_id),
            num_ref_idx_l0_default_active_minus1: self.num_ref_idx_l0_default_active_minus1,
            num_ref_idx_l1_default_active_minus1: self.num_ref_idx_l1_default_active_minus1,
            weighted_pred_flag: self.weighted_pred_flag,
            weighted_bipred_idc: self.weighted_bipred_idc,
            pic_init_qp_minus26: self.pic_init_qp_minus26,
            pic_init_qs_minus26: self.pic_init_qs_minus26,
            chroma_qp_index_offset: self.chroma_qp_index_offset,
            deblocking_filter_control_present_flag: self.deblocking_filter_control_present_flag,
            constrained_intra_pred_flag: self.constrained_intra_pred_flag,
            redundant_pic_cnt_present_flag: self.redundant_pic_cnt_present_flag,
            transform_8x8_mode_flag: self.transform_8x8_mode_flag,
            pic_scaling_matrix_present_flag: self.pic_scaling_matrix_present_flag,
            scaling_list_4x4: opt_scaling_views(self.scaling_list_4x4),
            scaling_list_8x8: opt_scaling_views(self.scaling_list_8x8),
        }
    }
}

impl Clone for PictureParameterSet {
    /// The copy has the same mathematical value.
    fn clone(&self) -> (r: Self)
        ensures
            r@ == self@,
    {
        PictureParameterSet {
            pic_parameter_set_id: self.pic_parameter_set_id,
            seq_parameter_set_id: self.seq_parameter_set_id,
            entropy_coding_mode_flag: self.entropy_coding_mode_flag,
            bottom_field_pic_order_in_frame_present_flag: self.bottom_field_pic_order_in_frame_present_flag,
            num_slice_groups_minus1: self.num_slice_groups_minus1,
            slice_group_map_type: self.slice_group_map_type,
            run_length_minus1: match &self.run_length_minus1 {
                Some(v) => Some(vstd::slice::slice_to_vec(v.as_slice())),
                None => None,
            },
            top_left: match &self.top_left {
                Some(v) => Some(vstd::slice::slice_to_vec(v.as_slice())),
                None => None,
            },
            bottom_right: match &self.bottom_right {
                Some(v) => Some(vstd::slice::slice_to_vec(v.as_slice())),
                None => None,
            },
            slice_group_change_direction_flag: self.slice_group_change_direction_flag,
            slice_group_change_rate_minus1: self.slice_group_change_rate_minus1,
            pic_size_in_map_units_minus1: self.pic_size_in_map_units_minus1,
            slice_group_id: match &self.slice_group_id {
                Some(v) => Some(vstd::slice::slice_to_vec(v.as_slice())),
                None => None,
            },
            num_ref_idx_l0_default_active_minus1: self.num_ref_idx_l0_default_active_minus1,
            num_ref_idx_l1_default_active_minus1: self.num_ref_idx_l1_default_active_minus1,
            weighted_pred_flag: self.weighted_pred_flag,
            weighted_bipred_idc: self.weighted_bipred_idc,
            pic_init_qp_minus26: self.pic_init_qp_minus26,
            pic_init_qs_minus26: self.pic_init_qs_minus26,
            chroma_qp_index_offset: self.chroma_qp_index_offset,
            deblocking_filter_control_present_flag: self.deblocking_filter_control_present_flag,
            constrained_intra_pred_flag: self.constrained_intra_pred_flag,
            redundant_pic_cnt_present_flag: self.redundant_pic_cnt_present_flag,
            transform_8x8_mode_flag: self.transform_8x8_mode_flag,
            pic_scaling_matrix_present_flag: self.pic_scaling_matrix_present_flag,
            scaling_list_4x4: match &self.scaling_list_4x4 {
                Some(v) => Some(crate::scaling_list::clone_scaling_lists(v)),
                None => None,
            },
            scaling_list_8x8: match &self.scaling_list_8x8 {
                Some(v) => Some(crate::scaling_list::clone_scaling_lists(v)),
                None => None,
            },
        }
    }
}

/// The slice-group block of a picture parameter set, present only when
/// there is more than one slice group: a map type selecting run lengths
/// (type 0), corner pairs (type 2), a change direction and rate (types 3
/// to 5), or an explicit per-map-unit id array (type 6) whose element
/// width is `ceil_log2` of the group count.
pub open spec fn spec_pps_slice_groups(data: Seq<u8>, pos: nat, num: u64) -> Result<
    (
        (
            Option<UnsignedExpGolombCode>,
            Option<Seq<UnsignedExpGolombCode>>,
            Option<Seq<UnsignedExpGolombCode>>,
            Option<Seq<UnsignedExpGolombCode>>,
            Option<bool>,
            Option<UnsignedExpGolombCode>,
            Option<UnsignedExpGolombCode>,
            Option<Seq<u8>>,
        ),
        nat,
    ),
    BitStreamError,
> {
    if num == 0 {
        Ok(((None, None, None, None, None, None, None, None), pos))
    } else {
        match spec_read_ue(data, pos) {
            Err(e) => Err(e),
            Ok((mt, p1)) => {
                if mt == 0 {
                    match spec_read_ue_seq(data, p1, (num + 1) as nat) {
                        Err(e) => Err(e),
                        Ok((rl, p2)) => Ok(
                            (
                                (
                                    Some(UnsignedExpGolombCode(mt)),
                                    Some(rl),
                                    None,
                                    None,
                                    None,
                                    None,
                                    None,
                                    None,
                                ),
                                p2,
                            ),
                        ),
                    }
                } else if mt == 2 {
                    match spec_read_ue_pairs(data, p1, (num + 1) as nat) {
                        Err(e) => Err(e),
                        Ok(((tls, brs), p2)) => Ok(
                            (
                                (
                                    Some(UnsignedExpGolombCode(mt)),
                                    None,
                                    Some(tls),
                                    Some(brs),
                                    None,
                                    None,
                                    None,
                                    None,
                                ),
                                p2,
                            ),
                        ),
                    }
                } else if mt == 3 || mt == 4 || mt == 5 {
                    match spec_read_flag(data, p1) {
                        Err(e) => Err(e),
                        Ok((dir, p2)) => match spec_read_ue(data, p2) {
                            Err(e) => Err(e),
                            Ok((rate, p3)) => Ok(
                                (
                                    (
                                        Some(UnsignedExpGolombCode(mt)),
                                        None,
                                        None,
                                        None,
                                        Some(dir),
                                        Some(UnsignedExpGolombCode(rate)),
                                        None,
                                        None,
                                    ),
                                    p3,
                                ),
                            ),
                        },
                    }
                } else if mt == 6 {
                    match spec_read_ue(data, p1) {
                        Err(e) => Err(e),
                        Ok((size, p2)) => match spec_read_group_ids(
                            data,
                            p2,
                            size as nat,
                            ceil_log2((num + 1) as nat),
                        ) {
                            Err(e) => Err(e),
                            Ok((ids, p3)) => Ok(
                                (
                                    (
                                        Some(UnsignedExpGolombCode(mt)),
                                        None,
                                        None,
                                        None,
                                        None,
                                        None,
                                        Some(UnsignedExpGolombCode(size)),
                                        Some(ids),
                                    ),
                                    p3,
                                ),
                            ),
                        },
                    }
                } else {
                    Ok(
                        (
                            (Some(UnsignedExpGolombCode(mt)), None, None, None, None, None, None, None),
                            p1,
                        ),
                    )
                }
            },
        }
    }
}

/// The always-present middle fields of a picture parameter set.
pub open spec fn spec_pps_middle(data: Seq<u8>, pos: nat) -> Result<
    (
        (
            UnsignedExpGolombCode,
            UnsignedExpGolombCode,
            bool,
            u8,
            SignedExpGolombCode,
            SignedExpGolombCode,
            SignedExpGolombCode,
            bool,
            bool,
            bool,
        ),
        nat,
    ),
    BitStreamError,
> {
    match spec_read_ue(data, pos) {
        Err(e) => Err(e),
        Ok((l0, p1)) => match spec_read_ue(data, p1) {
            Err(e) => Err(e),
            Ok((l1, p2)) => match spec_read_flag(data, p2) {
                Err(e) => Err(e),
                Ok((wp, p3)) => match spec_read_u(data, p3, 2) {
                    Err(e) => Err(e),
                    Ok((wbi, p4)) => match crate::exp_golomb::spec_read_se(data, p4) {
                        Err(e) => Err(e),
                        Ok((qp, p5)) => match crate::exp_golomb::spec_read_se(data, p5) {
                            Err(e) => Err(e),
                            Ok((qs, p6)) => match crate::exp_golomb::spec_read_se(data, p6) {
                                Err(e) => Err(e),
                                Ok((cqp, p7)) => match spec_read_flag(data, p7) {
                                    Err(e) => Err(e),
                                    Ok((dfc, p8)) => match spec_read_flag(data, p8) {
                                        Err(e) => Err(e),
                                        Ok((cip, p9)) => match spec_read_flag(data, p9) {
                                            Err(e) => Err(e),
                                            Ok((rpc, p10)) => Ok(
                                                (
                                                    (
                                                        UnsignedExpGolombCode(l0),
                                                        UnsignedExpGolombCode(l1),
                                                        wp,
                                                        wbi as u8,
                                                        SignedExpGolombCode(qp),
                                                        SignedExpGolombCode(qs),
                                                        SignedExpGolombCode(cqp),
                                                        dfc,
                                                        cip,
                                                        rpc,
                                                    ),
                                                    p10,
                                                ),
                                            ),
                                        },
                                    },
                                },
                            },
                        },
                    },
                },
            },
        },
    }
}

/// The trailing scaling-matrix block of a picture parameter set, present
/// only when bits remain in the unit.  When both the 8x8 transform flag
/// and the matrix flag are set, the referenced sequence parameter set
/// sizes the 8x8 run: two lists, or six for 4:4:4 chroma; a reference to
/// an unregistered set fails with `MissingParameterSet`.
pub open spec fn spec_pps_tail(
    data: Seq<u8>,
    pos: nat,
    spsid: UnsignedExpGolombCode,
    table: Seq<Option<SequenceParameterSetView>>,
) -> Result<
    (
        (Option<bool>, Option<bool>, Option<Seq<ScalingListView>>, Option<Seq<ScalingListView>>),
        nat,
    ),
    ParseError,
> {
    if pos >= 8 * data.len() {
        Ok(((None, None, None, None), pos))
    } else {
        match spec_read_flag(data, pos) {
            Err(e) => Err(parse_error_of(e)),
            Ok((t8, p1)) => match spec_read_flag(data, p1) {
                Err(e) => Err(parse_error_of(e)),
                Ok((mp, p2)) => match spec_opt_scaling_lists(data, p2, 6, 16, mp) {
                    Err(e) => Err(parse_error_of(e)),
                    Ok((s4, p3)) => {
                        if mp && t8 {
                            if spsid.0 < 32 && table[spsid.0 as int] is Some {
                                let sps = table[spsid.0 as int]->Some_0;
                                let count: nat = if sps.chroma_format_idc != Some(
                                    UnsignedExpGolombCode(3),
                                ) {
                                    2
                                } else {
                                    6
                                };
                                match crate::scaling_list::spec_read_scaling_lists(
                                    data,
                                    p3,
                                    count,
                                    64,
                                ) {
                                    Err(e) => Err(parse_error_of(e)),
                                    Ok((s8, p4)) => Ok(
                                        ((Some(t8), Some(mp), s4, Some(s8)), p4),
                                    ),
                                }
                            } else {
                                Err(ParseError::MissingParameterSet)
                            }
                        } else {
                            Ok(((Some(t8), Some(mp), s4, None), p3))
                        }
                    },
                },
            },
        }
    }
}

/// The picture parameter set of `data` at `pos`, resolved against the
/// registered sequence parameter sets, and the position after it.
pub open spec fn spec_read_pps(
    data: Seq<u8>,
    pos: nat,
    table: Seq<Option<SequenceParameterSetView>>,
) -> Result<(PictureParameterSetView, nat), ParseError> {
    match spec_read_ue(data, pos) {
        Err(e) => Err(parse_error_of(e)),
        Ok((pid, p1)) => match spec_read_ue(data, p1) {
            Err(e) => Err(parse_error_of(e)),
            Ok((sid, p2)) => match spec_read_flag(data, p2) {
                Err(e) => Err(parse_error_of(e)),
                Ok((entropy, p3)) => match spec_read_flag(data, p3) {
                    Err(e) => Err(parse_error_of(e)),
                    Ok((bottom, p4)) => match spec_read_ue(data, p4) {
                        Err(e) => Err(parse_error_of(e)),
                        Ok((num, p5)) => match spec_pps_slice_groups(data, p5, num) {
                            Err(e) => Err(parse_error_of(e)),
                            Ok(((mt, rl, tls, brs, dir, rate, size, ids), p6)) => match
                                spec_pps_middle(data, p6) {
                                Err(e) => Err(parse_error_of(e)),
                                Ok(
                                    ((l0, l1, wp, wbi, qp, qs, cqp, dfc, cip, rpc), p7),
                                ) => match spec_pps_tail(
                                    data,
                                    p7,
                                    UnsignedExpGolombCode(sid),
                                    table,
                                ) {
                                    Err(e) => Err(e),
                                    Ok(((t8, mpf, s4, s8), p8)) => Ok(
                                        (
                                            PictureParameterSetView {
                                                pic_parameter_set_id: UnsignedExpGolombCode(pid),
                                                seq_parameter_set_id: UnsignedExpGolombCode(sid),
                                                entropy_coding_mode_flag: entropy,
                                                bottom_field_pic_order_in_frame_present_flag:
                                                    bottom,
                                                num_slice_groups_minus1: UnsignedExpGolombCode(
                                                    num,
                                                ),
                                                slice_group_map_type: mt,
                                                run_length_minus1: rl,
                                                top_left: tls,
                                                bottom_right: brs,
                                                slice_group_change_direction_flag: dir,
                                                slice_group_change_rate_minus1: rate,
                                                pic_size_in_map_units_minus1: size,
                                                slice_group_id: ids,
                                                num_ref_idx_l0_default_active_minus1: l0,
                                                num_ref_idx_l1_default_active_minus1: l1,
                                                weighted_pred_flag: wp,
                                                weighted_bipred_idc: wbi,
                                                pic_init_qp_minus26: qp,
                                                pic_init_qs_minus26: qs,
                                                chroma_qp_index_offset: cqp,
                                                deblocking_filter_control_present_flag: dfc,
                                                constrained_intra_pred_flag: cip,
                                                redundant_pic_cnt_present_flag: rpc,
                                                transform_8x8_mode_flag: t8,
                                                pic_scaling_matrix_present_flag: mpf,
                                                scaling_list_4x4: s4,
                                                scaling_list_8x8: s8,
                                            },
                                            p8,
                                        ),
                                    ),
                                },
                            },
                        },
                    },
                },
            },
        },
    }
}

fn read_pps_slice_groups(stream: &mut BitStream, num: u64) -> (r: Result<
    (
        Option<UnsignedExpGolombCode>,
        Option<Vec<UnsignedExpGolombCode>>,
        Option<Vec<UnsignedExpGolombCode>>,
        Option<Vec<UnsignedExpGolombCode>>,
        Option<bool>,
        Option<UnsignedExpGolombCode>,
        Option<UnsignedExpGolombCode>,
        Option<Vec<u8>>,
    ),
    BitStreamError,
>)
    requires
        old(stream).wf(),
        num <= u64::MAX - 1,
    ensures
        final(stream).wf(),
        final(stream).bytes() == old(stream).bytes(),
        match spec_pps_slice_groups(old(stream).bytes(), old(stream).cursor(), num) {
            Ok((t, p)) => r matches Ok(v) && v.0 == t.0 && opt_ue_seq_view(v.1) == t.1
                && opt_ue_seq_view(v.2) == t.2 && opt_ue_seq_view(v.3) == t.3 && v.4 == t.4 && v.5
                == t.5 && v.6 == t.6 && opt_bytes_view(v.7) == t.7 && final(stream).cursor() == p,
            Err(e) => r == Err::<
                (
                    Option<UnsignedExpGolombCode>,
                    Option<Vec<UnsignedExpGolombCode>>,
                    Option<Vec<UnsignedExpGolombCode>>,
                    Option<Vec<UnsignedExpGolombCode>>,
                    Option<bool>,
                    Option<UnsignedExpGolombCode>,
                    Option<UnsignedExpGolombCode>,
                    Option<Vec<u8>>,
                ),
                BitStreamError,
            >(e),
        },
{
    if num == 0 {
        return Ok((None, None, None, None, None, None, None, None));
    }
    let mt = match UnsignedExpGolombCode::read(stream) {
        Ok(v) => v,
        Err(e) => {
            return Err(e);
        },
    };
    if mt.0 == 0 {
        let rl = match read_ue_seq(stream, num + 1) {
            Ok(v) => v,
            Err(e) => {
                return Err(e);
            },
        };
        Ok((Some(mt), Some(rl), None, None, None, None, None, None))
    } else if mt.0 == 2 {
        let (tls, brs) = match read_ue_pairs(stream, num + 1) {
            Ok(v) => v,
            Err(e) => {
                return Err(e);
            },
        };
        Ok((Some(mt), None, Some(tls), Some(brs), None, None, None, None))
    } else if mt.0 == 3 || mt.0 == 4 || mt.0 == 5 {
        let dir = match stream.read_bit() {
            Ok(v) => v,
            Err(e) => {
                return Err(e);
            },
        };
        let rate = match UnsignedExpGolombCode::read(stream) {
            Ok(v) => v,
            Err(e) => {
                return Err(e);
            },
        };
        Ok((Some(mt), None, None, None, Some(dir), Some(rate), None, None))
    } else if mt.0 == 6 {
        let size = match UnsignedExpGolombCode::read(stream) {
            Ok(v) => v,
            Err(e) => {
                return Err(e);
            },
        };
        let w = ceil_log2_u64(num + 1);
        let ids = match read_group_ids(stream, size.0, w) {
            Ok(v) => v,
            Err(e) => {
                return Err(e);
            },
        };
        Ok((Some(mt), None, None, None, None, None, Some(size), Some(ids)))
    } else {
        Ok((Some(mt), None, None, None, None, None, None, None))
    }
}

fn read_pps_middle(stream: &mut BitStream) -> (r: Result<
    (
        UnsignedExpGolombCode,
        UnsignedExpGolombCode,
        bool,
        u8,
        SignedExpGolombCode,
        SignedExpGolombCode,
        SignedExpGolombCode,
        bool,
        bool,
        bool,
    ),
    BitStreamError,
>)
    requires
        old(stream).wf(),
    ensures
        final(stream).wf(),
        final(stream).bytes() == old(stream).bytes(),
        match spec_pps_middle(old(stream).bytes(), old(stream).cursor()) {
            Ok((t, p)) => r == Ok::<_, BitStreamError>(t) && final(stream).cursor() == p,
            Err(e) => r == Err::<
                (
                    UnsignedExpGolombCode,
                    UnsignedExpGolombCode,
                    bool,
                    u8,
                    SignedExpGolombCode,
                    SignedExpGolombCode,
                    SignedExpGolombCode,
                    bool,
                    bool,
                    bool,
                ),
                BitStreamError,
            >(e),
        },
{
    let l0 = match UnsignedExpGolombCode::read(stream) {
        Ok(v) => v,
        Err(e) => {
            return Err(e);
        },
    };
    let l1 = match UnsignedExpGolombCode::read(stream) {
        Ok(v) => v,
        Err(e) => {
            return Err(e);
        },
    };
    let wp = match stream.read_bit() {
        Ok(v) => v,
        Err(e) => {
            return Err(e);
        },
    };
    proof {
        lemma_bits_value_bound(old(stream).bytes(), stream.cursor(), 2);
        lemma_pow2_strictly_increases(2, 8);
        vstd::arithmetic::power2::lemma2_to64();
    }
    let wbi = match stream.read(2) {
        Ok(v) => v as u8,
        Err(e) => {
            return Err(e);
        },
    };
    let qp = match SignedExpGolombCode::read(stream) {
        Ok(v) => v,
        Err(e) => {
            return Err(e);
        },
    };
    let qs = match SignedExpGolombCode::read(stream) {
        Ok(v) => v,
        Err(e) => {
            return Err(e);
        },
    };
    let cqp = match SignedExpGolombCode::read(stream) {
        Ok(v) => v,
        Err(e) => {
            return Err(e);
        },
    };
    let dfc = match stream.read_bit() {
        Ok(v) => v,
        Err(e) => {
            return Err(e);
        },
    };
    let cip = match stream.read_bit() {
        Ok(v) => v,
        Err(e) => {
            return Err(e);
        },
    };
    let rpc = match stream.read_bit() {
        Ok(v) => v,
        Err(e) => {
            return Err(e);
        },
    };
    Ok((l0, l1, wp, wbi, qp, qs, cqp, dfc, cip, rpc))
}

fn read_pps_tail(
    stream: &mut BitStream,
    spsid: UnsignedExpGolombCode,
    decoder: &crate::decoder::Decoder,
) -> (r: Result<
    (Option<bool>, Option<bool>, Option<Vec<ScalingList>>, Option<Vec<ScalingList>>),
    ParseError,
>)
    requires
        old(stream).wf(),
        decoder.wf(),
    ensures
        final(stream).wf(),
        final(stream).bytes() == old(stream).bytes(),
        match spec_pps_tail(
            old(stream).bytes(),
            old(stream).cursor(),
            spsid,
            decoder@.sequence_parameter_sets,
        ) {
            Ok((t, p)) => r matches Ok(v) && v.0 == t.0 && v.1 == t.1 && opt_scaling_views(v.2)
                == t.2 && opt_scaling_views(v.3) == t.3 && final(stream).cursor() == p,
            Err(e) => r == Err::<
                (Option<bool>, Option<bool>, Option<Vec<ScalingList>>, Option<Vec<ScalingList>>),
                ParseError,
            >(e),
        },
{
    proof {
        stream.lemma_cursor_le_total();
    }
    if stream.remaining() == 0 {
        return Ok((None, None, None, None));
    }
    let t8 = match stream.read_bit() {
        Ok(v) => v,
        Err(e) => {
            return Err(to_parse_error(e));
        },
    };
    let mp = match stream.read_bit() {
        Ok(v) => v,
        Err(e) => {
            return Err(to_parse_error(e));
        },
    };
    let s4 = match read_opt_scaling_lists(stream, 6, 16, mp) {
        Ok(v) => v,
        Err(e) => {
            return Err(to_parse_error(e));
        },
    };
    if mp && t8 {
        match decoder.find_sequence_parameter_set(spsid) {
            None => Err(ParseError::MissingParameterSet),
            Some(sps) => {
                let count: u8 = match &sps.chroma_format_idc {
                    Some(c) => {
                        if c.0 != 3 {
                            2
                        } else {
                            6
                        }
                    },
                    None => 2,
                };
                let s8 = match crate::scaling_list::read_scaling_lists(stream, count, 64) {
                    Ok(v) => v,
                    Err(e) => {
                        return Err(to_parse_error(e));
                    },
                };
                Ok((Some(t8), Some(mp), s4, Some(s8)))
            },
        }
    } else {
        Ok((Some(t8), Some(mp), s4, None))
    }
}

impl PictureParameterSet {
    /// Parses a picture parameter set from `stream`, resolving its
    /// sequence-parameter-set reference against `decoder`.
    #[verifier::rlimit(60)]
    pub fn read(stream: &mut BitStream, decoder: &crate::decoder::Decoder) -> (r: Result<
        Self,
        ParseError,
    >)
        requires
            old(stream).wf(),
            decoder.wf(),
        ensures
            final(stream).wf(),
            final(stream).bytes() == old(stream).bytes(),
            match spec_read_pps(
                old(stream).bytes(),
                old(stream).cursor(),
                decoder@.sequence_parameter_sets,
            ) {
                Ok((v, p)) => r matches Ok(s) && s@ == v && final(stream).cursor() == p,
                Err(e) => r == Err::<Self, ParseError>(e),
            },
    {
        proof {
            lemma_ue_value_bound(old(stream).bytes(), old(stream).cursor());
        }
        let pid = match UnsignedExpGolombCode::read(stream) {
            Ok(v) => v,
            Err(e) => {
                return Err(to_parse_error(e));
            },
        };
        let sid = match UnsignedExpGolombCode::read(stream) {
            Ok(v) => v,
            Err(e) => {
                return Err(to_parse_error(e));
            },
        };
        let entropy = match stream.read_bit() {
            Ok(v) => v,
            Err(e) => {
                return Err(to_parse_error(e));
            },
        };
        let bottom = match stream.read_bit() {
            Ok(v) => v,
            Err(e) => {
                return Err(to_parse_error(e));
            },
        };
        proof {
            lemma_ue_value_bound(old(stream).bytes(), stream.cursor());
        }
        let num = match UnsignedExpGolombCode::read(stream) {
            Ok(v) => v,
            Err(e) => {
                return Err(to_parse_error(e));
            },
        };
        let (mt, rl, tls, brs, dir, rate, size, ids) = match read_pps_slice_groups(
            stream,
            num.0,
        ) {
            Ok(t) => t,
            Err(e) => {
                return Err(to_parse_error(e));
            },
        };
        let (l0, l1, wp, wbi, qp, qs, cqp, dfc, cip, rpc) = match read_pps_middle(stream) {
            Ok(t) => t,
            Err(e) => {
                return Err(to_parse_error(e));
            },
        };
        let (t8, mpf, s4, s8) = match read_pps_tail(stream, sid, decoder) {
            Ok(t) => t,
            Err(e) => {
                return Err(e);
            },
        };
        Ok(
            PictureParameterSet {
                pic_parameter_set_id: pid,
                seq_parameter_set_id: sid,
                entropy_coding_mode_flag: entropy,
                bottom_field_pic_order_in_frame_present_flag: bottom,
                num_slice_groups_minus1: num,
                slice_group_map_type: mt,
                run_length_minus1: rl,
                top_left: tls,
                bottom_right: brs,
                slice_group_change_direction_flag: dir,
                slice_group_change_rate_minus1: rate,
                pic_size_in_map_units_minus1: size,
                slice_group_id: ids,
                num_ref_idx_l0_default_active_minus1: l0,
                num_ref_idx_l1_default_active_minus1: l1,
                weighted_pred_flag: wp,
                weighted_bipred_idc: wbi,
                pic_init_qp_minus26: qp,
                pic_init_qs_minus26: qs,
                chroma_qp_index_offset: cqp,
                deblocking_filter_control_present_flag: dfc,
                constrained_intra_pred_flag: cip,
                redundant_pic_cnt_present_flag: rpc,
                transform_8x8_mode_flag: t8,
                pic_scaling_matrix_present_flag: mpf,
                scaling_list_4x4: s4,
                scaling_list_8x8: s8,
            },
        )
    }
}

} // verus!