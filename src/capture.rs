//! The end of a capture session as a state machine: the stop-on-flush
//! sequence, the drain until the hardware reports ready and the FIFO is
//! empty, then capture disabled.
//!
//! The sequencer performs no I/O. It names the next register access; the
//! caller makes it and hands back the word loaded, or reports the store done.
//! A failed access aborts the session on the caller's side.
use vstd::prelude::*;
use crate::fifo::{control_word, manual_flush_value, stop_on_flush_value};
use crate::registers::{
    bit_set, with_bit, EMPTY_SENTINEL, FFCR_BIT_FLUSHMAN, FFCR_BIT_STOPONFL, REGISTER_OFFSET_CTL,
    REGISTER_OFFSET_FFCR, REGISTER_OFFSET_RRD, REGISTER_OFFSET_STS, STATUS_BIT_READY, FormatFlushControl, Status,
    lemma_with_bit,
};

verus! {

/// Why the sequencer gave up.
#[derive(Clone, Copy, PartialEq, Eq, Debug)]
pub enum CaptureError {
    /// Stop-on-flush did not read back as set, so no flush was requested.
    StopNotLatched,
    /// The FIFO was polled as often as allowed without seeing it ready and
    /// empty in the same poll.
    DrainIncomplete,
}

/// A register access for the caller to make.
#[derive(Clone, Copy, PartialEq, Eq, Debug)]
pub enum Access {
    /// Load the whole register at `offset` and hand the word to `loaded`.
    Load { offset: u32 },
    /// Store `value` as the whole register at `offset`, then call `stored`.
    Store { offset: u32, value: u32 },
}

/// Where the sequence stands.
#[derive(Clone, Copy, PartialEq, Eq, Debug)]
pub enum Phase {
    /// Load Flush/Format Control to set stop-on-flush in it.
    LoadControl,
    /// Store Flush/Format Control with stop-on-flush set.
    StoreStop { value: u32 },
    /// Load Flush/Format Control back to see stop-on-flush set.
    LoadBack,
    /// Store Flush/Format Control with a manual flush requested.
    StoreFlush { value: u32 },
    /// Load the Status register: the first half of a drain poll.
    PollStatus,
    /// Load the read-data register: the second half of a drain poll, with
    /// whether the status just loaded showed ready.
    ReadData { ready: bool },
    /// Store 0 to the control register.
    Disable,
    /// Drained and disabled.
    Finished,
    /// Gave up.
    Failed(CaptureError),
}

/// The access that `phase` asks for; none once the sequence has ended.
pub open spec fn access_of(phase: Phase) -> Option<Access> {
    match phase {
        Phase::LoadControl => Some(Access::Load { offset: REGISTER_OFFSET_FFCR }),
        Phase::StoreStop { value } => Some(Access::Store { offset: REGISTER_OFFSET_FFCR, value }),
        Phase::LoadBack => Some(Access::Load { offset: REGISTER_OFFSET_FFCR }),
        Phase::StoreFlush { value } => Some(Access::Store { offset: REGISTER_OFFSET_FFCR, value }),
        Phase::PollStatus => Some(Access::Load { offset: REGISTER_OFFSET_STS }),
        Phase::ReadData { .. } => Some(Access::Load { offset: REGISTER_OFFSET_RRD }),
        Phase::Disable => Some(Access::Store { offset: REGISTER_OFFSET_CTL, value: 0 }),
        Phase::Finished => None,
        Phase::Failed(_) => None,
    }
}

/// The data word a read-data load adds to the drained stream: none for the
/// empty sentinel.
pub open spec fn drained_by(value: u32) -> Seq<u32> {
    if value == EMPTY_SENTINEL {
        Seq::empty()
    } else {
        seq![value]
    }
}

/// Stop, drain and disable a trace FIFO, one register access at a time.
pub struct CaptureSequencer {
    phase: Phase,
    polls_left: usize,
    words: Vec<u32>,
}

impl CaptureSequencer {
    /// Where the sequence stands.
    pub closed spec fn phase_of(&self) -> Phase {
        self.phase
    }

    /// How many more drain polls are allowed, the one under way included.
    pub closed spec fn polls_left(&self) -> nat {
        self.polls_left as nat
    }

    /// The data words drained so far, in drain order.
    pub closed spec fn drained(&self) -> Seq<u32> {
        self.words@
    }

    /// A sequencer that will poll the FIFO at most `max_polls` times while draining.
    pub fn new(max_polls: usize) -> (r: Self)
        ensures
            r.phase_of() == Phase::LoadControl,
            r.polls_left() == max_polls,
            r.drained() == Seq::<u32>::empty(),
    {
        CaptureSequencer { phase: Phase::LoadControl, polls_left: max_polls, words: Vec::new() }
    }

    /// Where the sequence stands.
    pub fn phase(&self) -> (r: Phase)
        ensures
            r == self.phase_of(),
    {
        self.phase
    }

    /// The register access to make next; `None` once the sequence has ended.
    pub fn next_access(&self) -> (r: Option<Access>)
        ensures
            r == access_of(self.phase_of()),
    {
        match self.phase {
            Phase::LoadControl => Some(Access::Load { offset: REGISTER_OFFSET_FFCR }),
            Phase::StoreStop { value } => Some(Access::Store { offset: REGISTER_OFFSET_FFCR, value }),
            Phase::LoadBack => Some(Access::Load { offset: REGISTER_OFFSET_FFCR }),
            Phase::StoreFlush { value } => Some(Access::Store { offset: REGISTER_OFFSET_FFCR, value }),
            Phase::PollStatus => Some(Access::Load { offset: REGISTER_OFFSET_STS }),
            Phase::ReadData { .. } => Some(Access::Load { offset: REGISTER_OFFSET_RRD }),
            Phase::Disable => Some(Access::Store { offset: REGISTER_OFFSET_CTL, value: control_word(false) }),
            Phase::Finished => None,
            Phase::Failed(_) => None,
        }
    }

    /// Hand over the word that the requested load returned. A drain poll
    /// ends the drain exactly when its status showed ready and its read found
    /// the empty sentinel; any other poll keeps its data word and polls
    /// again, unless no poll is left. Where no load was asked for, nothing
    /// changes.
    pub fn loaded(&mut self, value: u32)
        ensures
            match old(self).phase_of() {
                Phase::LoadControl => final(self).phase_of()
                    == (Phase::StoreStop { value: with_bit(value, FFCR_BIT_STOPONFL, true) })
                    && final(self).drained() == old(self).drained()
                    && final(self).polls_left() == old(self).polls_left(),
                Phase::LoadBack => final(self).phase_of() == (if bit_set(value, FFCR_BIT_STOPONFL) {
                    Phase::StoreFlush { value: with_bit(value, FFCR_BIT_FLUSHMAN, true) }
                } else {
                    Phase::Failed(CaptureError::StopNotLatched)
                }) && final(self).drained() == old(self).drained()
                    && final(self).polls_left() == old(self).polls_left(),
                Phase::PollStatus => final(self).phase_of()
                    == (Phase::ReadData { ready: bit_set(value, STATUS_BIT_READY) })
                    && final(self).drained() == old(self).drained()
                    && final(self).polls_left() == old(self).polls_left(),
                Phase::ReadData { ready } => final(self).drained() == old(self).drained() + drained_by(value)
                    && if ready && value == EMPTY_SENTINEL {
                        final(self).phase_of() == Phase::Disable
                            && final(self).polls_left() == old(self).polls_left()
                    } else if old(self).polls_left() <= 1 {
                        final(self).phase_of() == Phase::Failed(CaptureError::DrainIncomplete)
                            && final(self).polls_left() == 0
                    } else {
                        final(self).phase_of() == Phase::PollStatus
                            && final(self).polls_left() == old(self).polls_left() - 1
                    },
                _ => *final(self) == *old(self),
            },
    {
        match self.phase {
            Phase::LoadControl => {
                self.phase = Phase::StoreStop { value: stop_on_flush_value(value, true) };
            },
            Phase::LoadBack => {
                if FormatFlushControl(value).stoponfl() {
                    self.phase = Phase::StoreFlush { value: manual_flush_value(value) };
                } else {
                    self.phase = Phase::Failed(CaptureError::StopNotLatched);
                }
            },
            Phase::PollStatus => {
                self.phase = Phase::ReadData { ready: Status(value).ready() };
            },
            Phase::ReadData { ready } => {
                if value != EMPTY_SENTINEL {
                    self.words.push(value);
                }
                if ready && value == EMPTY_SENTINEL {
                    self.phase = Phase::Disable;
                } else if self.polls_left <= 1 {
                    self.polls_left = 0;
                    self.phase = Phase::Failed(CaptureError::DrainIncomplete);
                } else {
                    self.polls_left = self.polls_left - 1;
                    self.phase = Phase::PollStatus;
                }
                assert(self.words@ =~= old(self).words@ + drained_by(value));
            },
            _ => {},
        }
    }

    /// Report the requested store done. After the flush request the drain
    /// begins, or fails at once where no poll is allowed. Where no store was
    /// asked for, nothing changes.
    pub fn stored(&mut self)
        ensures
            final(self).drained() == old(self).drained(),
            final(self).polls_left() == old(self).polls_left(),
            match old(self).phase_of() {
                Phase::StoreStop { .. } => final(self).phase_of() == Phase::LoadBack,
                Phase::StoreFlush { .. } => final(self).phase_of() == if old(self).polls_left() == 0 {
                    Phase::Failed(CaptureError::DrainIncomplete)
                } else {
                    Phase::PollStatus
                },
                Phase::Disable => final(self).phase_of() == Phase::Finished,
                _ => *final(self) == *old(self),
            },
    {
        match self.phase {
            Phase::StoreStop { .. } => {
                self.phase = Phase::LoadBack;
            },
            Phase::StoreFlush { .. } => {
                if self.polls_left == 0 {
                    self.phase = Phase::Failed(CaptureError::DrainIncomplete);
                } else {
                    self.phase = Phase::PollStatus;
                }
            },
            Phase::Disable => {
                self.phase = Phase::Finished;
            },
            _ => {},
        }
    }

    /// The outcome: the drained words in drain order once finished, the
    /// reason where the sequence gave up, and `None` while it is under way.
    pub fn outcome(&self) -> (r: Option<Result<Vec<u32>, CaptureError>>)
        ensures
            match self.phase_of() {
                Phase::Finished => r matches Some(Ok(words)) && words@ == self.drained(),
                Phase::Failed(e) => r == Some(Err::<Vec<u32>, CaptureError>(e)),
                _ => r is None,
            },
    {
        match self.phase {
            Phase::Finished => Some(Ok(self.words.clone())),
            Phase::Failed(e) => Some(Err(e)),
            _ => None,
        }
    }
}

/// The manual flush is requested only over a Flush/Format Control word read
/// back with stop-on-flush set, and the word stored keeps it set: capture
/// stops at that flush. The word stored before it sets stop-on-flush.
pub proof fn lemma_stop_before_flush(a: u32, b: u32)
    requires
        bit_set(b, FFCR_BIT_STOPONFL),
    ensures
        bit_set(with_bit(a, FFCR_BIT_STOPONFL, true), FFCR_BIT_STOPONFL),
        bit_set(with_bit(b, FFCR_BIT_FLUSHMAN, true), FFCR_BIT_FLUSHMAN),
        bit_set(with_bit(b, FFCR_BIT_FLUSHMAN, true), FFCR_BIT_STOPONFL),
{
    lemma_with_bit(a, FFCR_BIT_STOPONFL, true);
    lemma_with_bit(b, FFCR_BIT_FLUSHMAN, true);
}

} // verus!
