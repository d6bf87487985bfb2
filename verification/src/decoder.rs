//! The parameter set registry ("decoder" state).
//!
//! Parsed sequence and picture parameter sets are stored under their ids
//! (32 and 256 legal ids respectively) for later cross-reference by
//! records that name them.  Entries are only ever written by successful
//! parses and are never evicted; looking up an id that was never
//! registered yields nothing.

use vstd::prelude::*;
use vstd::slice::SliceAdditionalExecFns;

use crate::nal_unit::pic_param_set::PictureParameterSet;
use crate::nal_unit::pic_param_set::PictureParameterSetView;
use crate::nal_unit::seq_param_set::SequenceParameterSet;
use crate::nal_unit::seq_param_set::SequenceParameterSetView;
use crate::exp_golomb::UnsignedExpGolombCode;

verus! {

/// The view of an optional picture parameter set.
pub open spec fn opt_pps_view(o: Option<PictureParameterSet>) -> Option<PictureParameterSetView> {
    match o {
        Some(p) => Some(p@),
        None => None,
    }
}

/// The view of an optional sequence parameter set.
pub open spec fn opt_sps_view(o: Option<SequenceParameterSet>) -> Option<
    SequenceParameterSetView,
> {
    match o {
        Some(s) => Some(s@),
        None => None,
    }
}

/// The mathematical value of a [`Decoder`]: its two id-indexed tables.
pub ghost struct DecoderView {
    pub picture_parameter_sets: Seq<Option<PictureParameterSetView>>,
    pub sequence_parameter_sets: Seq<Option<SequenceParameterSetView>>,
}

/// The registry of parsed parameter sets, indexed by their ids.
pub struct Decoder {
    picture_parameter_sets: Vec<Option<PictureParameterSet>>,
    sequence_parameter_sets: Vec<Option<SequenceParameterSet>>,
}

impl View for Decoder {
    type V = DecoderView;

    closed spec fn view(&self) -> DecoderView {
        DecoderView {
            picture_parameter_sets: self.picture_parameter_sets@.map_values(
                |o: Option<PictureParameterSet>| opt_pps_view(o),
            ),
            sequence_parameter_sets: self.sequence_parameter_sets@.map_values(
                |o: Option<SequenceParameterSet>| opt_sps_view(o),
            ),
        }
    }
}

impl Decoder {
    /// A registry always has one slot for each legal id.
    pub open spec fn wf(&self) -> bool {
        &&& self@.picture_parameter_sets.len() == 256
        &&& self@.sequence_parameter_sets.len() == 32
    }

    /// Creates an empty registry.
    pub fn new() -> (r: Self)
        ensures
            r.wf(),
            forall|i: int| 0 <= i < 256 ==> r@.picture_parameter_sets[i] is None,
            forall|i: int| 0 <= i < 32 ==> r@.sequence_parameter_sets[i] is None,
    {
        let mut pic: Vec<Option<PictureParameterSet>> = Vec::new();
        let mut i: usize = 0;
        while i < 256
            invariant
                i <= 256,
                pic@.len() == i,
                forall|j: int| 0 <= j < i ==> pic@[j] is None,
            decreases 256 - i,
        {
            pic.push(None);
            i = i + 1;
        }
        let mut sequence: Vec<Option<SequenceParameterSet>> = Vec::new();
        let mut j: usize = 0;
        while j < 32
            invariant
                j <= 32,
                sequence@.len() == j,
                forall|k: int| 0 <= k < j ==> sequence@[k] is None,
            decreases 32 - j,
        {
            sequence.push(None);
            j = j + 1;
        }
        Decoder { picture_parameter_sets: pic, sequence_parameter_sets: sequence }
    }

    /// Registers a picture parameter set under its own id, overwriting
    /// any record stored there before.
    pub fn set_picture_parameter_set(&mut self, picture_parameter_set: PictureParameterSet)
        requires
            old(self).wf(),
            picture_parameter_set.pic_parameter_set_id.0 < 256,
        ensures
            final(self).wf(),
            final(self)@.picture_parameter_sets == old(self)@.picture_parameter_sets.update(
                picture_parameter_set.pic_parameter_set_id.0 as int,
                Some(picture_parameter_set@),
            ),
            final(self)@.sequence_parameter_sets == old(self)@.sequence_parameter_sets,
    {
        let id = picture_parameter_set.pic_parameter_set_id.0 as usize;
        let ghost v = picture_parameter_set@;
        self.picture_parameter_sets.as_mut_slice().set(id, Some(picture_parameter_set));
        proof {
            assert(self@.picture_parameter_sets =~= old(
                self,
            )@.picture_parameter_sets.update(id as int, Some(v)));
        }
    }

    /// Registers a sequence parameter set under its own id, overwriting
    /// any record stored there before.
    pub fn set_sequence_parameter_set(&mut self, sequence_parameter_set: SequenceParameterSet)
        requires
            old(self).wf(),
            sequence_parameter_set.seq_parameter_set_id.0 < 32,
        ensures
            final(self).wf(),
            final(self)@.sequence_parameter_sets == old(self)@.sequence_parameter_sets.update(
                sequence_parameter_set.seq_parameter_set_id.0 as int,
                Some(sequence_parameter_set@),
            ),
            final(self)@.picture_parameter_sets == old(self)@.picture_parameter_sets,
    {
        let id = sequence_parameter_set.seq_parameter_set_id.0 as usize;
        let ghost v = sequence_parameter_set@;
        self.sequence_parameter_sets.as_mut_slice().set(id, Some(sequence_parameter_set));
        proof {
            assert(self@.sequence_parameter_sets =~= old(
                self,
            )@.sequence_parameter_sets.update(id as int, Some(v)));
        }
    }

    /// Looks up the picture parameter set stored under `id`, if any; an
    /// id that was never registered, or lies outside the 256 legal ids,
    /// yields nothing.
    pub fn find_picture_parameter_set(&self, id: UnsignedExpGolombCode) -> (r: Option<
        &PictureParameterSet,
    >)
        requires
            self.wf(),
        ensures
            id.0 < 256 ==> match r {
                Some(p) => self@.picture_parameter_sets[id.0 as int] == Some(p@),
                None => self@.picture_parameter_sets[id.0 as int] is None,
            },
            id.0 >= 256 ==> r is None,
    {
        if id.0 < 256 {
            match &self.picture_parameter_sets[id.0 as usize] {
                Some(p) => Some(p),
                None => None,
            }
        } else {
            None
        }
    }

    /// Looks up the sequence parameter set stored under `id`, if any; an
    /// id that was never registered, or lies outside the 32 legal ids,
    /// yields nothing.
    pub fn find_sequence_parameter_set(&self, id: UnsignedExpGolombCode) -> (r: Option<
        &SequenceParameterSet,
    >)
        requires
            self.wf(),
        ensures
            id.0 < 32 ==> match r {
                Some(s) => self@.sequence_parameter_sets[id.0 as int] == Some(s@),
                None => self@.sequence_parameter_sets[id.0 as int] is None,
            },
            id.0 >= 32 ==> r is None,
    {
        if id.0 < 32 {
            match &self.sequence_parameter_sets[id.0 as usize] {
                Some(s) => Some(s),
                None => None,
            }
        } else {
            None
        }
    }
}

/// Registering a record makes it the one found under its id, leaves every
/// other id untouched, and a second record stored under the same id
/// replaces the first: the registry tables behave as maps from id to the
/// most recently stored record.
pub proof fn lemma_registry_get_set<T>(table: Seq<Option<T>>, id: int, a: T, b: T)
    requires
        0 <= id < table.len(),
    ensures
        table.update(id, Some(a))[id] == Some(a),
        forall|j: int| 0 <= j < table.len() && j != id ==> table.update(id, Some(a))[j] == table[j],
        table.update(id, Some(a)).update(id, Some(b)) == table.update(id, Some(b)),
{
    assert(table.update(id, Some(a)).update(id, Some(b)) =~= table.update(id, Some(b)));
}

} // verus!
