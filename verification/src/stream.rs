//! The NAL unit framer: a state machine over the raw Annex-B byte stream.
//!
//! It scans for start codes (`00 00 01` or `00 00 00 01`), strips
//! emulation-prevention bytes in place by shifting later bytes left, and
//! yields successive NAL unit byte ranges.  Each yielded unit is
//! byte-aligned and free of emulation-prevention bytes.

use vstd::prelude::*;
use vstd::slice::slice_subrange;
use vstd::slice::slice_to_vec;
use vstd::slice::SliceAdditionalExecFns;

use crate::bit_stream::BitStream;
use crate::decoder::Decoder;
use crate::decoder::DecoderView;
use crate::nal_unit::spec_read_nal_unit;
use crate::nal_unit::NalUnit;
use crate::nal_unit::NalUnitPayload;
use crate::nal_unit::NalUnitPayloadView;
use crate::nal_unit::NalUnitView;
use crate::nal_unit::ParseError;

verus! {

/// The error type of the framer.
#[derive(Clone, Copy, Debug, PartialEq, Eq, Structural)]
pub enum NalUnitStreamError {
    /// A `00 00` pair was followed by a byte that is neither a start-code
    /// terminator nor a valid emulation, or an emulation-prevention byte
    /// announced a byte above `03`.
    InvalidEmulation,
    /// The stream holds no leading start code.
    StartCodeNotFound,
    /// More than three consecutive zero bytes inside a unit.
    TooManyZeros,
    /// The unit's payload failed to decode.
    PayloadError(ParseError),
}

/// Where the framer stands: before the first start code, inside a unit
/// whose content begins at `start`, or past the end of the stream.
#[derive(Clone, Copy, Debug, PartialEq, Eq, Structural)]
pub enum FramerMode {
    Searching,
    InUnit,
    Finished,
}

/// The mathematical value of a [`NalUnitStream`].
pub ghost struct NalUnitStreamView {
    pub bytes: Seq<u8>,
    pub start: nat,
    pub mode: FramerMode,
}

/// The framer over a raw byte stream.
pub struct NalUnitStream {
    byte_stream: Vec<u8>,
    start: usize,
    mode: FramerMode,
}

impl View for NalUnitStream {
    type V = NalUnitStreamView;

    closed spec fn view(&self) -> NalUnitStreamView {
        NalUnitStreamView {
            bytes: self.byte_stream@,
            start: self.start as nat,
            mode: self.mode,
        }
    }
}

/// A run of `n` zero bytes.
pub open spec fn zeros_seq(n: nat) -> Seq<u8> {
    Seq::new(n, |i: int| 0u8)
}

/// The position just after the first start code of `data` at or after
/// `i`, given `zeros` zero bytes seen immediately before `i`: the stream
/// must open with two or more zero bytes and a `01`; anything else, or a
/// stream that ends first, has no start code.
pub open spec fn spec_scan_start(data: Seq<u8>, i: nat, zeros: nat) -> Option<nat>
    decreases data.len() - i,
{
    if i >= data.len() {
        None
    } else if data[i as int] == 0 {
        spec_scan_start(data, (i + 1) as nat, (zeros + 1) as nat)
    } else if zeros >= 2 && data[i as int] == 1 {
        Some((i + 1) as nat)
    } else {
        None
    }
}

/// What one in-unit scan yields: the unit's compacted bytes and where to
/// resume (with `at_end` marking a unit closed by the end of the buffer),
/// or the error the scan fails with.
pub ghost enum ScanOutcome {
    Unit { unit: Seq<u8>, resume: nat, at_end: bool },
    Fail { err: NalUnitStreamError },
}

/// The in-unit scan of `data` from `i`, with `written` the compacted
/// content so far, `zeros` the pending run of zero bytes, and `emu` set
/// right after an emulation-prevention byte.  Zero bytes are committed
/// only once a deciding byte follows: two or three zeros before a `01`
/// close the unit, two zeros before a `03` drop the `03` and emulate the
/// next byte (which must be at most `03`), two zeros before any other
/// byte are an invalid emulation, and runs of more than three zeros (or
/// three zeros before anything but `01`) are too many.  At the end of the
/// buffer the pending zeros are data, and a pending emulation is invalid.
pub open spec fn spec_scan_unit(
    data: Seq<u8>,
    i: nat,
    written: Seq<u8>,
    zeros: nat,
    emu: bool,
) -> ScanOutcome
    decreases data.len() - i,
{
    if i >= data.len() {
        if emu {
            ScanOutcome::Fail { err: NalUnitStreamError::InvalidEmulation }
        } else {
            ScanOutcome::Unit { unit: written + zeros_seq(zeros), resume: data.len(), at_end: true }
        }
    } else {
        let b = data[i as int];
        if emu {
            if b > 3 {
                ScanOutcome::Fail { err: NalUnitStreamError::InvalidEmulation }
            } else {
                spec_scan_unit(data, (i + 1) as nat, written + seq![b], 0, false)
            }
        } else if b == 0 {
            spec_scan_unit(data, (i + 1) as nat, written, (zeros + 1) as nat, false)
        } else if zeros < 2 {
            spec_scan_unit(data, (i + 1) as nat, written + zeros_seq(zeros) + seq![b], 0, false)
        } else if (zeros == 2 || zeros == 3) && b == 1 {
            ScanOutcome::Unit { unit: written, resume: (i + 1) as nat, at_end: false }
        } else if zeros == 2 && b == 3 {
            spec_scan_unit(data, (i + 1) as nat, written + zeros_seq(2), 0, true)
        } else if zeros == 2 {
            ScanOutcome::Fail { err: NalUnitStreamError::InvalidEmulation }
        } else {
            ScanOutcome::Fail { err: NalUnitStreamError::TooManyZeros }
        }
    }
}

/// The outcome of one `next_unit` call on a framer in the given state.
pub ghost enum FramerStep {
    End,
    Unit { unit: Seq<u8>, new_start: nat, finished: bool },
    Fail { err: NalUnitStreamError },
}

/// Turns a scan outcome into a framer step.
pub open spec fn step_of_scan(o: ScanOutcome) -> FramerStep {
    match o {
        ScanOutcome::Unit { unit, resume, at_end } => FramerStep::Unit {
            unit,
            new_start: resume,
            finished: at_end,
        },
        ScanOutcome::Fail { err } => FramerStep::Fail { err },
    }
}

/// The next framing step of a stream in state (`data`, `start`, `mode`):
/// a finished stream ends; a searching stream requires a leading start
/// code and then scans its first unit; a stream inside a unit scans on
/// from `start`.
pub open spec fn spec_next_unit(data: Seq<u8>, start: nat, mode: FramerMode) -> FramerStep {
    match mode {
        FramerMode::Finished => FramerStep::End,
        FramerMode::Searching => match spec_scan_start(data, start, 0) {
            None => FramerStep::Fail { err: NalUnitStreamError::StartCodeNotFound },
            Some(resume) => step_of_scan(spec_scan_unit(data, resume, Seq::empty(), 0, false)),
        },
        FramerMode::InUnit => step_of_scan(spec_scan_unit(data, start, Seq::empty(), 0, false)),
    }
}

/// The registry after one parsed unit: a sequence or picture parameter
/// set is stored under its id when the id is a legal index, anything
/// else leaves the registry untouched.
pub open spec fn spec_registry_after(d: DecoderView, u: NalUnitView) -> DecoderView {
    match u.payload {
        NalUnitPayloadView::SequenceParameterSet(s) => {
            if s.seq_parameter_set_id.0 < 32 {
                DecoderView {
                    sequence_parameter_sets: d.sequence_parameter_sets.update(
                        s.seq_parameter_set_id.0 as int,
                        Some(s),
                    ),
                    picture_parameter_sets: d.picture_parameter_sets,
                }
            } else {
                d
            }
        },
        NalUnitPayloadView::PictureParameterSet(p) => {
            if p.pic_parameter_set_id.0 < 256 {
                DecoderView {
                    picture_parameter_sets: d.picture_parameter_sets.update(
                        p.pic_parameter_set_id.0 as int,
                        Some(p),
                    ),
                    sequence_parameter_sets: d.sequence_parameter_sets,
                }
            } else {
                d
            }
        },
        _ => d,
    }
}

impl NalUnitStream {
    /// A framer's unit start never passes the end of its buffer, whose
    /// units must fit a bit cursor.
    pub open spec fn wf(&self) -> bool {
        &&& self@.start <= self@.bytes.len()
        &&& 8 * self@.bytes.len() <= usize::MAX - 7
    }

    /// Creates a framer over `byte_stream`, still searching for the
    /// first start code.
    pub fn new(byte_stream: Vec<u8>) -> (r: Self)
        requires
            8 * byte_stream@.len() <= usize::MAX - 7,
        ensures
            r.wf(),
            r@.bytes == byte_stream@,
            r@.start == 0,
            r@.mode == FramerMode::Searching,
    {
        NalUnitStream { byte_stream, start: 0, mode: FramerMode::Searching }
    }

    /// Yields the next NAL unit's bytes, compacted in place: start codes
    /// and emulation-prevention bytes are gone.  `Ok(None)` means the
    /// stream is exhausted.
    pub fn next_unit(&mut self) -> (r: Result<Option<Vec<u8>>, NalUnitStreamError>)
        requires
            old(self).wf(),
        ensures
            final(self).wf(),
            final(self)@.bytes.len() == old(self)@.bytes.len(),
            match spec_next_unit(old(self)@.bytes, old(self)@.start, old(self)@.mode) {
                FramerStep::End => r == Ok::<Option<Vec<u8>>, NalUnitStreamError>(None) && *final(self) == *old(self),
                FramerStep::Unit { unit, new_start, finished } => {
                    &&& r matches Ok(o) && o matches Some(v) && v@ == unit
                    &&& unit.len() <= old(self)@.bytes.len()
                    &&& final(self)@.start == new_start
                    &&& final(self)@.mode == (if finished {
                        FramerMode::Finished
                    } else {
                        FramerMode::InUnit
                    })
                    &&& final(self)@.bytes.skip(new_start as int) == old(self)@.bytes.skip(
                        new_start as int,
                    )
                },
                FramerStep::Fail { err } => r == Err::<Option<Vec<u8>>, NalUnitStreamError>(err),
            },
    {
        match self.mode {
            FramerMode::Finished => Ok(None),
            FramerMode::Searching => {
                let ghost data0 = self.byte_stream@;
                let len = self.byte_stream.len();
                let mut i: usize = self.start;
                let mut zeros: usize = 0;
                loop
                    invariant_except_break
                        spec_scan_start(data0, i as nat, zeros as nat) == spec_scan_start(
                            data0,
                            old(self)@.start,
                            0,
                        ),
                        i <= len,
                    invariant
                        *self == *old(self),
                        data0 == old(self)@.bytes,
                        len == data0.len(),
                        old(self).wf(),
                        old(self)@.mode == FramerMode::Searching,
                        zeros <= i,
                    ensures
                        i < len,
                        spec_scan_start(data0, old(self)@.start, 0) == Some((i + 1) as nat),
                    decreases len - i,
                {
                    if i >= len {
                        return Err(NalUnitStreamError::StartCodeNotFound);
                    }
                    let b = self.byte_stream[i];
                    if b == 0 {
                        zeros = zeros + 1;
                        i = i + 1;
                    } else if zeros >= 2 && b == 1 {
                        break ;
                    } else {
                        return Err(NalUnitStreamError::StartCodeNotFound);
                    }
                }
                self.start = i + 1;
                self.mode = FramerMode::InUnit;
                match self.take_unit() {
                    Ok(v) => Ok(Some(v)),
                    Err(e) => Err(e),
                }
            },
            FramerMode::InUnit => {
                match self.take_unit() {
                    Ok(v) => Ok(Some(v)),
                    Err(e) => Err(e),
                }
            },
        }
    }

    /// Scans the unit that begins at `start`, compacting it in place,
    /// and yields its bytes.
    fn take_unit(&mut self) -> (r: Result<Vec<u8>, NalUnitStreamError>)
        requires
            old(self).wf(),
        ensures
            final(self).wf(),
            final(self)@.bytes.len() == old(self)@.bytes.len(),
            match spec_scan_unit(old(self)@.bytes, old(self)@.start, Seq::empty(), 0, false) {
                ScanOutcome::Unit { unit, resume, at_end } => {
                    &&& r matches Ok(v) && v@ == unit
                    &&& unit.len() <= old(self)@.bytes.len()
                    &&& final(self)@.start == resume
                    &&& final(self)@.mode == (if at_end {
                        FramerMode::Finished
                    } else {
                        FramerMode::InUnit
                    })
                    &&& final(self)@.bytes.skip(resume as int) == old(self)@.bytes.skip(
                        resume as int,
                    )
                },
                ScanOutcome::Fail { err } => r == Err::<Vec<u8>, NalUnitStreamError>(err),
            },
    {
        let ghost data0 = self.byte_stream@;
        let start = self.start;
        let len = self.byte_stream.len();
        let mut i: usize = start;
        let mut wi: usize = start;
        let mut zeros: usize = 0;
        let mut emu: bool = false;
        let ghost mut written: Seq<u8> = Seq::empty();
        proof {
            assert(self.byte_stream@.subrange(start as int, start as int) =~= written + zeros_seq(
                0,
            ));
            assert(self.byte_stream@.skip(i as int) =~= data0.skip(i as int));
        }
        loop
            invariant
                start <= wi <= i <= len,
                wi == start + written.len() + zeros,
                emu ==> zeros == 0,
                self.byte_stream@.len() == data0.len(),
                len == data0.len(),
                self.byte_stream@.subrange(start as int, wi as int) == written + zeros_seq(
                    zeros as nat,
                ),
                self.byte_stream@.skip(i as int) == data0.skip(i as int),
                self.start == start,
                self.mode == old(self).mode,
                start == old(self)@.start,
                data0 == old(self)@.bytes,
                8 * data0.len() <= usize::MAX - 7,
                spec_scan_unit(data0, i as nat, written, zeros as nat, emu) == spec_scan_unit(
                    data0,
                    start as nat,
                    Seq::empty(),
                    0,
                    false,
                ),
            decreases len - i,
        {
            if i >= len {
                if emu {
                    return Err(NalUnitStreamError::InvalidEmulation);
                }
                let v = slice_to_vec(slice_subrange(self.byte_stream.as_slice(), start, wi));
                self.start = len;
                self.mode = FramerMode::Finished;
                proof {
                    assert(self.byte_stream@.skip(len as int) =~= data0.skip(len as int));
                }
                return Ok(v);
            }
            let b = self.byte_stream[i];
            proof {
                assert(self.byte_stream@[i as int] == data0[i as int]) by {
                    assert(self.byte_stream@.skip(i as int)[0] == self.byte_stream@[i as int]);
                    assert(data0.skip(i as int)[0] == data0[i as int]);
                }
            }
            let ghost pre = self.byte_stream@;
            self.byte_stream.as_mut_slice().set(wi, b);
            proof {
                assert(self.byte_stream@.subrange(start as int, wi + 1) =~= pre.subrange(
                    start as int,
                    wi as int,
                ) + seq![b]);
                assert(self.byte_stream@.skip(i as int) =~= data0.skip(i as int));
                assert forall|k: int| 0 <= k < data0.len() - (i + 1) implies #[trigger] (
                self.byte_stream@.skip(i + 1)[k]) == data0.skip(i + 1)[k] by {
                    assert(self.byte_stream@.skip(i as int)[k + 1] == data0.skip(i as int)[k + 1]);
                }
                assert(self.byte_stream@.skip(i + 1) =~= data0.skip(i + 1));
            }
            wi = wi + 1;
            if emu {
                if b > 3 {
                    return Err(NalUnitStreamError::InvalidEmulation);
                }
                proof {
                    written = written + seq![b];
                    assert(self.byte_stream@.subrange(start as int, wi as int) =~= written
                        + zeros_seq(0));
                }
                emu = false;
                i = i + 1;
            } else if b == 0 {
                proof {
                    assert(self.byte_stream@.subrange(start as int, wi as int) =~= written
                        + zeros_seq((zeros + 1) as nat));
                }
                zeros = zeros + 1;
                i = i + 1;
            } else if zeros < 2 {
                proof {
                    written = written + zeros_seq(zeros as nat) + seq![b];
                    assert(self.byte_stream@.subrange(start as int, wi as int) =~= written
                        + zeros_seq(0));
                }
                zeros = 0;
                i = i + 1;
            } else if (zeros == 2 || zeros == 3) && b == 1 {
                let end = wi - zeros - 1;
                proof {
                    assert(self.byte_stream@.subrange(start as int, end as int) =~= written);
                }
                let v = slice_to_vec(slice_subrange(self.byte_stream.as_slice(), start, end));
                self.start = i + 1;
                self.mode = FramerMode::InUnit;
                proof {
                    assert(self.byte_stream@.skip(i + 1) =~= data0.skip(i + 1));
                }
                return Ok(v);
            } else if zeros == 2 && b == 3 {
                wi = wi - 1;
                proof {
                    written = written + zeros_seq(2);
                    assert(self.byte_stream@.subrange(start as int, wi as int) =~= written
                        + zeros_seq(0));
                }
                zeros = 0;
                emu = true;
                i = i + 1;
            } else if zeros == 2 {
                return Err(NalUnitStreamError::InvalidEmulation);
            } else {
                return Err(NalUnitStreamError::TooManyZeros);
            }
        }
    }

    /// Yields the next NAL unit, parsed; a sequence or picture parameter
    /// set is also registered in `decoder` when its id is a legal index.
    /// `Ok(None)` means the stream is exhausted.
    pub fn next(&mut self, decoder: &mut Decoder) -> (r: Result<Option<NalUnit>, NalUnitStreamError>)
        requires
            old(self).wf(),
            old(decoder).wf(),
        ensures
            final(self).wf(),
            final(decoder).wf(),
            match spec_next_unit(old(self)@.bytes, old(self)@.start, old(self)@.mode) {
                FramerStep::End => r == Ok::<Option<NalUnit>, NalUnitStreamError>(None) && *final(decoder) == *old(decoder),
                FramerStep::Fail { err } => r == Err::<Option<NalUnit>, NalUnitStreamError>(err)
                    && *final(decoder) == *old(decoder),
                FramerStep::Unit { unit, new_start, finished } => match spec_read_nal_unit(
                    unit,
                    0,
                    old(decoder)@.sequence_parameter_sets,
                ) {
                    Err(e) => r == Err::<Option<NalUnit>, NalUnitStreamError>(
                        NalUnitStreamError::PayloadError(e),
                    ) && *final(decoder) == *old(decoder),
                    Ok((u, _)) => {
                        &&& r matches Ok(o) && o matches Some(n) && n@ == u
                        &&& final(decoder)@ == spec_registry_after(old(decoder)@, u)
                    },
                },
            },
    {
        let unit = match self.next_unit() {
            Ok(None) => {
                return Ok(None);
            },
            Ok(Some(v)) => v,
            Err(e) => {
                return Err(e);
            },
        };
        let mut stream = BitStream::new(unit.as_slice());
        let nal = match NalUnit::read(&mut stream, decoder) {
            Ok(u) => u,
            Err(e) => {
                return Err(NalUnitStreamError::PayloadError(e));
            },
        };
        match &nal.payload {
            NalUnitPayload::SequenceParameterSet(s) => {
                if s.seq_parameter_set_id.0 < 32 {
                    let copy = s.clone();
                    decoder.set_sequence_parameter_set(copy);
                }
            },
            NalUnitPayload::PictureParameterSet(p) => {
                if p.pic_parameter_set_id.0 < 256 {
                    let copy = p.clone();
                    decoder.set_picture_parameter_set(copy);
                }
            },
            _ => {},
        }
        Ok(Some(nal))
    }
}

} // verus!
