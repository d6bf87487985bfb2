//! Delta-coded quantization scaling lists (H.264 clause 7.3.2.1.1.1).
//!
//! A list of `n` entries (16 or 64) is decoded from signed Exp-Golomb
//! deltas relative to a running scale, starting from 8.  A first scale of
//! zero selects the default matrix; a later scale of zero stops decoding
//! and repeats the last scale for the remaining entries.

use vstd::prelude::*;
use vstd::arithmetic::div_mod::lemma_add_mod_noop_right;

use crate::bit_stream::BitStream;
use crate::bit_stream::BitStreamError;
use crate::exp_golomb::spec_read_se;
use crate::exp_golomb::SignedExpGolombCode;

verus! {

/// The scale that follows `last` after a decoded delta of `delta`:
/// `(last + delta) mod 256`.
pub open spec fn scale_of(last: u8, delta: i64) -> u8 {
    ((last + delta) % 256) as u8
}

/// The entries produced from a running scale `last` (non-zero) when
/// `remaining` entries are still owed, together with the position after the
/// consumed codewords: `last` is appended; while more entries are owed, the
/// next delta is decoded, a resulting scale of zero repeats `last` for all
/// remaining entries, any other scale continues the run.
pub open spec fn spec_scaling_run(data: Seq<u8>, pos: nat, remaining: nat, last: u8) -> Result<
    (Seq<u8>, nat),
    BitStreamError,
>
    decreases remaining,
{
    if remaining <= 1 {
        Ok((seq![last], pos))
    } else {
        match spec_read_se(data, pos) {
            Err(e) => Err(e),
            Ok((delta, p2)) => {
                let next = scale_of(last, delta);
                if next == 0 {
                    Ok((Seq::new(remaining, |i: int| last), p2))
                } else {
                    match spec_scaling_run(data, p2, (remaining - 1) as nat, next) {
                        Err(e) => Err(e),
                        Ok((rest, p3)) => Ok((seq![last] + rest, p3)),
                    }
                }
            },
        }
    }
}

/// The mathematical value of a decoded [`ScalingList`]: its entries and
/// the default-matrix flag.
pub ghost struct ScalingListView {
    pub list: Seq<u8>,
    pub use_default_scaling_matrix_flag: bool,
}

/// A scaling list of `n` entries decoded from `data` at `pos`: the first
/// delta moves the scale from 8; a first scale of zero yields the default
/// list of all 8s with the default flag set, anything else starts the run.
pub open spec fn spec_read_scaling_list(data: Seq<u8>, pos: nat, n: nat) -> Result<
    (ScalingListView, nat),
    BitStreamError,
>
    recommends
        n >= 1,
{
    match spec_read_se(data, pos) {
        Err(e) => Err(e),
        Ok((delta, p1)) => {
            let first = scale_of(8, delta);
            if first == 0 {
                Ok(
                    (
                        ScalingListView {
                            list: Seq::new(n, |i: int| 8u8),
                            use_default_scaling_matrix_flag: true,
                        },
                        p1,
                    ),
                )
            } else {
                match spec_scaling_run(data, p1, n, first) {
                    Err(e) => Err(e),
                    Ok((l, p2)) => Ok(
                        (ScalingListView { list: l, use_default_scaling_matrix_flag: false }, p2),
                    ),
                }
            }
        },
    }
}

/// `count` scaling lists of `n` entries each, decoded one after the other.
pub open spec fn spec_read_scaling_lists(data: Seq<u8>, pos: nat, count: nat, n: nat) -> Result<
    (Seq<ScalingListView>, nat),
    BitStreamError,
>
    decreases count,
{
    if count == 0 {
        Ok((Seq::empty(), pos))
    } else {
        match spec_read_scaling_list(data, pos, n) {
            Err(e) => Err(e),
            Ok((first, p1)) => {
                match spec_read_scaling_lists(data, p1, (count - 1) as nat, n) {
                    Err(e) => Err(e),
                    Ok((rest, p2)) => Ok((seq![first] + rest, p2)),
                }
            },
        }
    }
}

/// A decoded scaling list always has exactly the requested number of
/// entries, and the default flag is set exactly when the first decoded
/// delta moves the scale to zero, in which case every entry is 8.
pub proof fn lemma_scaling_list_shape(data: Seq<u8>, pos: nat, n: nat)
    requires
        n >= 1,
    ensures
        spec_read_scaling_list(data, pos, n) matches Ok((v, _)) ==> {
            &&& v.list.len() == n
            &&& (v.use_default_scaling_matrix_flag <==> (spec_read_se(data, pos) matches Ok(
                (d, _),
            ) && scale_of(8, d) == 0))
            &&& (v.use_default_scaling_matrix_flag ==> forall|i: int|
                0 <= i < n ==> v.list[i] == 8)
        },
{
    if spec_read_scaling_list(data, pos, n) is Ok {
        match spec_read_se(data, pos) {
            Err(_) => {},
            Ok((delta, p1)) => {
                let first = scale_of(8, delta);
                if first != 0 {
                    lemma_scaling_run_len(data, p1, n, first);
                }
            },
        }
    }
}

proof fn lemma_scaling_run_len(data: Seq<u8>, pos: nat, remaining: nat, last: u8)
    requires
        remaining >= 1,
    ensures
        spec_scaling_run(data, pos, remaining, last) matches Ok((l, _)) ==> l.len() == remaining,
    decreases remaining,
{
    if remaining > 1 {
        match spec_read_se(data, pos) {
            Err(_) => {},
            Ok((delta, p2)) => {
                let next = scale_of(last, delta);
                if next != 0 {
                    lemma_scaling_run_len(data, p2, (remaining - 1) as nat, next);
                }
            },
        }
    }
}

/// A delta-coded quantization scaling matrix (16 or 64 entries) with its
/// default-matrix flag.
#[derive(Debug, Eq, PartialEq)]
pub struct ScalingList {
    pub list: Vec<u8>,
    pub use_default_scaling_matrix_flag: bool,
}

impl View for ScalingList {
    type V = ScalingListView;

    open spec fn view(&self) -> ScalingListView {
        ScalingListView {
            list: self.list@,
            use_default_scaling_matrix_flag: self.use_default_scaling_matrix_flag,
        }
    }
}

impl Clone for ScalingList {
    /// The copy has the same mathematical value.
    fn clone(&self) -> (r: Self)
        ensures
            r@ == self@,
    {
        ScalingList {
            list: vstd::slice::slice_to_vec(self.list.as_slice()),
            use_default_scaling_matrix_flag: self.use_default_scaling_matrix_flag,
        }
    }
}

/// Copies a vector of scaling lists; the copy has the same views.
pub fn clone_scaling_lists(v: &Vec<ScalingList>) -> (r: Vec<ScalingList>)
    ensures
        scaling_list_views(r@) == scaling_list_views(v@),
{
    let mut out: Vec<ScalingList> = Vec::new();
    let mut i: usize = 0;
    while i < v.len()
        invariant
            i <= v@.len(),
            out@.len() == i,
            forall|j: int| 0 <= j < i ==> (#[trigger] out@[j])@ == v@[j]@,
        decreases v@.len() - i,
    {
        out.push(v[i].clone());
        i = i + 1;
    }
    proof {
        assert(scaling_list_views(out@) =~= scaling_list_views(v@));
    }
    out
}

impl ScalingList {
    /// Decodes a scaling list of `size` entries from `stream`.
    pub fn read(stream: &mut BitStream, size: u8) -> (r: Result<Self, BitStreamError>)
        requires
            old(stream).wf(),
            size >= 1,
        ensures
            final(stream).wf(),
            final(stream).bytes() == old(stream).bytes(),
            match spec_read_scaling_list(old(stream).bytes(), old(stream).cursor(), size as nat) {
                Ok((v, p)) => r matches Ok(s) && s@ == v && final(stream).cursor() == p,
                Err(e) => r == Err::<Self, BitStreamError>(e),
            },
    {
        let delta = match SignedExpGolombCode::read(stream) {
            Ok(d) => d.0,
            Err(e) => {
                return Err(e);
            },
        };
        let first = add_scale(8, delta);
        if first == 0 {
            let mut list: Vec<u8> = Vec::new();
            let mut i: u8 = 0;
            while i < size
                invariant
                    i <= size,
                    list@ == Seq::new(i as nat, |j: int| 8u8),
                decreases size - i,
            {
                list.push(8);
                proof {
                    assert(list@ =~= Seq::new((i + 1) as nat, |j: int| 8u8));
                }
                i = i + 1;
            }
            Ok(ScalingList { list, use_default_scaling_matrix_flag: true })
        } else {
            let list = match Self::read_run(stream, size, first) {
                Ok(l) => l,
                Err(e) => {
                    return Err(e);
                },
            };
            Ok(ScalingList { list, use_default_scaling_matrix_flag: false })
        }
    }

    fn read_run(stream: &mut BitStream, remaining: u8, last: u8) -> (r: Result<
        Vec<u8>,
        BitStreamError,
    >)
        requires
            old(stream).wf(),
            remaining >= 1,
        ensures
            final(stream).wf(),
            final(stream).bytes() == old(stream).bytes(),
            match spec_scaling_run(
                old(stream).bytes(),
                old(stream).cursor(),
                remaining as nat,
                last,
            ) {
                Ok((l, p)) => r matches Ok(v) && v@ == l && final(stream).cursor() == p,
                Err(e) => r == Err::<Vec<u8>, BitStreamError>(e),
            },
        decreases remaining,
    {
        if remaining == 1 {
            let mut v: Vec<u8> = Vec::new();
            v.push(last);
            proof {
                assert(v@ =~= seq![last]);
            }
            return Ok(v);
        }
        let delta = match SignedExpGolombCode::read(stream) {
            Ok(d) => d.0,
            Err(e) => {
                return Err(e);
            },
        };
        let next = add_scale(last, delta);
        if next == 0 {
            let mut v: Vec<u8> = Vec::new();
            let mut i: u8 = 0;
            while i < remaining
                invariant
                    i <= remaining,
                    v@ == Seq::new(i as nat, |j: int| last),
                decreases remaining - i,
            {
                v.push(last);
                proof {
                    assert(v@ =~= Seq::new((i + 1) as nat, |j: int| last));
                }
                i = i + 1;
            }
            Ok(v)
        } else {
            let rest = match Self::read_run(stream, remaining - 1, next) {
                Ok(l) => l,
                Err(e) => {
                    return Err(e);
                },
            };
            let ghost rest0 = rest@;
            let mut v: Vec<u8> = Vec::new();
            v.push(last);
            let mut rest = rest;
            v.append(&mut rest);
            proof {
                assert(v@ =~= seq![last] + rest0);
            }
            Ok(v)
        }
    }
}

/// The views of a sequence of scaling lists.
pub open spec fn scaling_list_views(s: Seq<ScalingList>) -> Seq<ScalingListView> {
    s.map_values(|x: ScalingList| x@)
}

/// Decodes `count` scaling lists of `size` entries each, one after the
/// other.
pub fn read_scaling_lists(stream: &mut BitStream, count: u8, size: u8) -> (r: Result<
    Vec<ScalingList>,
    BitStreamError,
>)
    requires
        old(stream).wf(),
        size >= 1,
    ensures
        final(stream).wf(),
        final(stream).bytes() == old(stream).bytes(),
        match spec_read_scaling_lists(
            old(stream).bytes(),
            old(stream).cursor(),
            count as nat,
            size as nat,
        ) {
            Ok((ls, p)) => r matches Ok(v) && scaling_list_views(v@) == ls
                && final(stream).cursor() == p,
            Err(e) => r == Err::<Vec<ScalingList>, BitStreamError>(e),
        },
    decreases count,
{
    if count == 0 {
        let v: Vec<ScalingList> = Vec::new();
        proof {
            assert(scaling_list_views(v@) =~= Seq::<ScalingListView>::empty());
        }
        return Ok(v);
    }
    let first = match ScalingList::read(stream, size) {
        Ok(s) => s,
        Err(e) => {
            return Err(e);
        },
    };
    let rest = match read_scaling_lists(stream, count - 1, size) {
        Ok(v) => v,
        Err(e) => {
            return Err(e);
        },
    };
    let ghost first0 = first@;
    let ghost rest0 = rest@;
    let mut v: Vec<ScalingList> = Vec::new();
    v.push(first);
    let mut rest = rest;
    v.append(&mut rest);
    proof {
        assert(scaling_list_views(v@) =~= seq![first0] + scaling_list_views(rest0));
    }
    Ok(v)
}

/// A run of `count` scaling lists that is present only when `present`
/// holds; absent, it consumes nothing.
pub open spec fn spec_opt_scaling_lists(
    data: Seq<u8>,
    pos: nat,
    count: nat,
    n: nat,
    present: bool,
) -> Result<(Option<Seq<ScalingListView>>, nat), BitStreamError> {
    if !present {
        Ok((None, pos))
    } else {
        match spec_read_scaling_lists(data, pos, count, n) {
            Err(e) => Err(e),
            Ok((ls, p)) => Ok((Some(ls), p)),
        }
    }
}

/// The views of an optional vector of scaling lists.
pub open spec fn opt_scaling_views(v: Option<Vec<ScalingList>>) -> Option<Seq<ScalingListView>> {
    match v {
        Some(ls) => Some(scaling_list_views(ls@)),
        None => None,
    }
}

/// Reads `count` scaling lists of `size` entries if `present` holds;
/// hands back `None` otherwise.
pub fn read_opt_scaling_lists(stream: &mut BitStream, count: u8, size: u8, present: bool) -> (r:
    Result<Option<Vec<ScalingList>>, BitStreamError>)
    requires
        old(stream).wf(),
        size >= 1,
    ensures
        final(stream).wf(),
        final(stream).bytes() == old(stream).bytes(),
        match spec_opt_scaling_lists(
            old(stream).bytes(),
            old(stream).cursor(),
            count as nat,
            size as nat,
            present,
        ) {
            Ok((o, p)) => r matches Ok(v) && opt_scaling_views(v) == o && final(stream).cursor()
                == p,
            Err(e) => r == Err::<Option<Vec<ScalingList>>, BitStreamError>(e),
        },
{
    if !present {
        return Ok(None);
    }
    match read_scaling_lists(stream, count, size) {
        Ok(v) => Ok(Some(v)),
        Err(e) => Err(e),
    }
}

/// Computes `(last + delta) mod 256` without signed remainder
/// operations: the low byte of `delta` already is `delta mod 256`.
fn add_scale(last: u8, delta: i64) -> (r: u8)
    ensures
        r == scale_of(last, delta),
{
    let d8: u8 = #[verifier::truncate] (delta as u8);
    proof {
        lemma_low_byte(delta);
        lemma_add_mod_noop_right(last as int, delta as int, 256);
    }
    let s: u16 = (last as u16 + d8 as u16) % 256;
    s as u8
}

proof fn lemma_low_byte(delta: i64)
    by (bit_vector)
    ensures
        (delta as u8) as i64 == delta % 256i64,
{
}

} // verus!
