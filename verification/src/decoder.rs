//! Sample-level state machine that turns a boolean amplitude waveform,
//! sampled every 10 ms, into a 59-bit timeframe register one second at a
//! time.
//!
//! A second's bit is signalled by 100 ms (a 0) or 200 ms (a 1) of high
//! signal at the start of its 1000 ms slot. The machine waits for the
//! rising edge, tallies high samples in the first two 100 ms windows to
//! decide the bit, then rides out the rest of the slot checking that it
//! stays quiet. The ~1.8 s silence before a new minute is detected as an
//! end-of-cycle event. Any ambiguous or noisy slot discards the minute in
//! progress and restarts phase acquisition.

use vstd::prelude::*;

use crate::bits::bit64;
use crate::bits::lemma_clear_bit;
use crate::bits::lemma_set_bit;

verus! {

/// The phase the decoder is in between two samples.
#[derive(Clone, Copy)]
pub enum DecoderState {
    /// Low signal; waiting for the rising edge that starts a bit, or for
    /// the long silence that marks the end of a minute.
    WaitingForPhase,
    /// Inside the first 200 ms of a bit slot, tallying high samples to
    /// decide the bit value.
    PhaseFound,
    /// A bit was decided on this very sample.
    BitReceived,
    /// The last slot could not be read; the minute in progress was
    /// discarded.
    FaultyBit,
    /// The end-of-minute silence was detected on this very sample.
    EndOfCycle,
    /// Riding out the remainder of a bit slot after its value was
    /// decided.
    Idle,
}

/// The decoder's abstract state: its counters, phase, register and bit
/// position, as the contracts speak of them.
pub ghost struct DecoderModel {
    /// Samples seen since the last phase change.
    pub sample_count: nat,
    /// High samples tallied in the first 100 ms window of the current
    /// bit slot (a high count here suggests a 0).
    pub zero_bit_count: nat,
    /// High samples tallied in the second 100 ms window of the current
    /// bit slot (a high count here suggests a 1).
    pub one_bit_count: nat,
    /// Unexpectedly high samples seen while riding out the bit slot.
    pub non_idle_count: nat,
    /// The current phase.
    pub state: DecoderState,
    /// The accumulated timeframe register.
    pub data: u64,
    /// The bit position the next decoded bit will be written to; doubles
    /// as the current second of the minute once a cycle boundary has
    /// been seen.
    pub data_pos: nat,
}

impl DecoderModel {
    /// The state a freshly created decoder starts in.
    pub open spec fn init() -> DecoderModel {
        DecoderModel {
            sample_count: 0,
            zero_bit_count: 0,
            one_bit_count: 0,
            non_idle_count: 0,
            state: DecoderState::WaitingForPhase,
            data: 0,
            data_pos: 0,
        }
    }

    /// Bounds that hold of every reachable decoder state: each counter
    /// stays within its phase's window and the bit position never leaves
    /// the register.
    pub open spec fn wf(self) -> bool {
        &&& self.data_pos <= 64
        &&& self.zero_bit_count <= 20
        &&& self.one_bit_count <= 20
        &&& self.non_idle_count <= 91
        &&& match self.state {
            DecoderState::PhaseFound => {
                &&& self.sample_count <= 20
                &&& self.zero_bit_count <= self.sample_count
                &&& self.one_bit_count <= self.sample_count
                &&& self.non_idle_count == 0
            },
            DecoderState::BitReceived | DecoderState::Idle => {
                &&& self.sample_count <= 90
                &&& self.non_idle_count <= self.sample_count
            },
            DecoderState::WaitingForPhase | DecoderState::FaultyBit | DecoderState::EndOfCycle => {
                self.sample_count <= 181
            },
        }
    }

    /// The decoder's transition on one sample: the state after `read_bit`
    /// is this function of the state before it.
    pub open spec fn step(self, is_high: bool) -> DecoderModel {
        match self.state {
            DecoderState::WaitingForPhase | DecoderState::FaultyBit | DecoderState::EndOfCycle => {
                if is_high {
                    DecoderModel {
                        sample_count: 1,
                        zero_bit_count: 1,
                        one_bit_count: 0,
                        non_idle_count: 0,
                        state: DecoderState::PhaseFound,
                        ..self
                    }
                } else if self.sample_count > 180 {
                    DecoderModel {
                        sample_count: 1,
                        state: DecoderState::EndOfCycle,
                        data_pos: 0,
                        ..self
                    }
                } else {
                    DecoderModel {
                        sample_count: self.sample_count + 1,
                        state: DecoderState::WaitingForPhase,
                        ..self
                    }
                }
            },
            DecoderState::PhaseFound => {
                if self.sample_count < 20 {
                    if is_high && self.sample_count < 10 {
                        DecoderModel {
                            sample_count: self.sample_count + 1,
                            zero_bit_count: self.zero_bit_count + 1,
                            ..self
                        }
                    } else if is_high {
                        DecoderModel {
                            sample_count: self.sample_count + 1,
                            one_bit_count: self.one_bit_count + 1,
                            ..self
                        }
                    } else {
                        DecoderModel { sample_count: self.sample_count + 1, ..self }
                    }
                } else if self.data_pos >= 64 {
                    DecoderModel {
                        sample_count: self.sample_count + 1,
                        state: DecoderState::FaultyBit,
                        data_pos: 0,
                        ..self
                    }
                } else if self.one_bit_count > 3 {
                    DecoderModel {
                        sample_count: self.sample_count + 1,
                        state: DecoderState::BitReceived,
                        data: self.data | (1u64 << (self.data_pos as u64)),
                        data_pos: self.data_pos + 1,
                        ..self
                    }
                } else if self.zero_bit_count > 3 {
                    DecoderModel {
                        sample_count: self.sample_count + 1,
                        state: DecoderState::BitReceived,
                        data: self.data & !(1u64 << (self.data_pos as u64)),
                        data_pos: self.data_pos + 1,
                        ..self
                    }
                } else {
                    DecoderModel {
                        sample_count: self.sample_count + 1,
                        state: DecoderState::FaultyBit,
                        data_pos: 0,
                        ..self
                    }
                }
            },
            DecoderState::BitReceived | DecoderState::Idle => {
                let tally = if is_high {
                    self.non_idle_count + 1
                } else {
                    self.non_idle_count
                };
                if self.sample_count >= 90 {
                    if tally < 10 {
                        DecoderModel {
                            sample_count: self.sample_count + 1,
                            non_idle_count: tally,
                            state: DecoderState::WaitingForPhase,
                            ..self
                        }
                    } else {
                        DecoderModel {
                            sample_count: self.sample_count + 1,
                            non_idle_count: tally,
                            state: DecoderState::FaultyBit,
                            data_pos: 0,
                            ..self
                        }
                    }
                } else {
                    DecoderModel {
                        sample_count: self.sample_count + 1,
                        non_idle_count: tally,
                        state: DecoderState::Idle,
                        ..self
                    }
                }
            },
        }
    }

    /// One step from a well-formed state lands in a well-formed state, so
    /// the bounds of `wf` are an invariant of the machine.
    pub proof fn lemma_step_preserves_wf(self, is_high: bool)
        requires
            self.wf(),
        ensures
            self.step(is_high).wf(),
    {
    }
}

/// A simple timeslot-based DCF77 decoder. Create it once, then call
/// `read_bit` exactly once every 10 ms with the sampled signal level; the
/// query methods report bit, fault and cycle events after each call.
pub struct SimpleDCF77Decoder {
    /// Number of samples since the last phase change.
    sample_count: u8,
    /// Number of high samples during the first 100 ms of the scan phase.
    zero_bit_count: u8,
    /// Number of high samples between 100 and 200 ms of the scan phase.
    one_bit_count: u8,
    /// Number of non-idle samples after a valid bit was detected.
    non_idle_count: u8,
    /// Current state of the decoder.
    state: DecoderState,
    /// The raw data received from the DCF77 signal.
    data: u64,
    /// Current position in the bitstream.
    data_pos: usize,
}

impl View for SimpleDCF77Decoder {
    type V = DecoderModel;

    closed spec fn view(&self) -> DecoderModel {
        DecoderModel {
            sample_count: self.sample_count as nat,
            zero_bit_count: self.zero_bit_count as nat,
            one_bit_count: self.one_bit_count as nat,
            non_idle_count: self.non_idle_count as nat,
            state: self.state,
            data: self.data,
            data_pos: self.data_pos as nat,
        }
    }
}

impl SimpleDCF77Decoder {
    /// Create a new decoder state machine, waiting for the first rising
    /// edge with an empty register.
    pub fn new() -> (r: Self)
        ensures
            r@ == DecoderModel::init(),
            r@.wf(),
    {
        Self {
            sample_count: 0,
            zero_bit_count: 0,
            one_bit_count: 0,
            non_idle_count: 0,
            state: DecoderState::WaitingForPhase,
            data: 0,
            data_pos: 0,
        }
    }

    /// The raw accumulated register, for decoding of the current
    /// date/time once a cycle boundary fires.
    pub fn raw_data(&self) -> (r: u64)
        ensures
            r == self@.data,
    {
        self.data
    }

    /// True exactly when the last sample completed an individual bit.
    pub fn bit_complete(&self) -> (r: bool)
        ensures
            r == (self@.state is BitReceived),
    {
        match self.state {
            DecoderState::BitReceived => true,
            _ => false,
        }
    }

    /// True exactly when the last sample found the current bit unreadable
    /// and discarded the minute in progress.
    pub fn bit_faulty(&self) -> (r: bool)
        ensures
            r == (self@.state is FaultyBit),
    {
        match self.state {
            DecoderState::FaultyBit => true,
            _ => false,
        }
    }

    /// True exactly when the last sample detected the end-of-minute
    /// silence.
    pub fn end_of_cycle(&self) -> (r: bool)
        ensures
            r == (self@.state is EndOfCycle),
    {
        match self.state {
            DecoderState::EndOfCycle => true,
            _ => false,
        }
    }

    /// The value of the latest received bit, mainly for live display;
    /// false while no bit of the current minute has been decoded yet.
    pub fn latest_bit(&self) -> (r: bool)
        requires
            self@.wf(),
        ensures
            r == (self@.data_pos > 0 && bit64(self@.data, self@.data_pos - 1)),
    {
        if self.data_pos == 0 {
            false
        } else {
            (self.data >> ((self.data_pos - 1) as u64)) & 1 == 1
        }
    }

    /// The current position of the bit counter, identical to the current
    /// second of the minute after the latest recognized end of a cycle.
    pub fn seconds(&self) -> (r: usize)
        ensures
            r as nat == self@.data_pos,
    {
        self.data_pos
    }

    /// Ingest the latest sample of the GPIO input the receiver is
    /// connected to; the decoder takes exactly one `step` of its
    /// transition relation.
    pub fn read_bit(&mut self, bit: bool)
        requires
            old(self)@.wf(),
        ensures
            final(self)@ == old(self)@.step(bit),
            final(self)@.wf(),
    {
        let next: DecoderState = match self.state {
            DecoderState::EndOfCycle | DecoderState::WaitingForPhase | DecoderState::FaultyBit => {
                if bit {
                    self.zero_bit_count = 1;
                    self.one_bit_count = 0;
                    self.sample_count = 0;
                    self.non_idle_count = 0;
                    DecoderState::PhaseFound
                } else {
                    if self.sample_count > 180 {
                        self.data_pos = 0;
                        self.sample_count = 0;
                        DecoderState::EndOfCycle
                    } else {
                        DecoderState::WaitingForPhase
                    }
                }
            },
            DecoderState::PhaseFound => {
                if self.sample_count < 20 {
                    if bit {
                        if self.sample_count < 10 {
                            self.zero_bit_count = self.zero_bit_count + 1;
                        } else {
                            self.one_bit_count = self.one_bit_count + 1;
                        }
                    }
                    DecoderState::PhaseFound
                } else {
                    if self.data_pos >= 64 {
                        self.data_pos = 0;
                        DecoderState::FaultyBit
                    } else if self.one_bit_count > 3 {
                        self.data = self.data | (1u64 << (self.data_pos as u64));
                        self.data_pos = self.data_pos + 1;
                        DecoderState::BitReceived
                    } else if self.zero_bit_count > 3 {
                        self.data = self.data & !(1u64 << (self.data_pos as u64));
                        self.data_pos = self.data_pos + 1;
                        DecoderState::BitReceived
                    } else {
                        self.data_pos = 0;
                        DecoderState::FaultyBit
                    }
                }
            },
            DecoderState::BitReceived | DecoderState::Idle => {
                if bit {
                    self.non_idle_count = self.non_idle_count + 1;
                }
                if self.sample_count >= 90 {
                    if self.non_idle_count < 10 {
                        DecoderState::WaitingForPhase
                    } else {
                        self.data_pos = 0;
                        DecoderState::FaultyBit
                    }
                } else {
                    DecoderState::Idle
                }
            },
        };
        self.state = next;
        self.sample_count = self.sample_count + 1;
        proof {
            old(self)@.lemma_step_preserves_wf(bit);
        }
    }
}

/// Deciding a bit with more than 3 high samples tallied in the second
/// 100 ms window yields a 1: the machine reports the bit complete, writes
/// a 1 at the current position, advances the position, and leaves every
/// other register bit unchanged.
pub proof fn lemma_decides_one(m: DecoderModel, is_high: bool)
    requires
        m.state is PhaseFound,
        m.sample_count >= 20,
        m.data_pos < 64,
        m.one_bit_count > 3,
    ensures
        ({
            let p = m.step(is_high);
            &&& p.state is BitReceived
            &&& p.data_pos == m.data_pos + 1
            &&& bit64(p.data, m.data_pos as int)
            &&& forall|i: int|
                0 <= i < 64 && i != m.data_pos ==> bit64(p.data, i) == bit64(m.data, i)
        }),
{
    lemma_set_bit(m.data, m.data_pos as u64);
}

/// Deciding a bit with at most 3 high samples in the second window but
/// more than 3 in the first yields a 0: the machine reports the bit
/// complete, writes a 0 at the current position, advances the position,
/// and leaves every other register bit unchanged.
pub proof fn lemma_decides_zero(m: DecoderModel, is_high: bool)
    requires
        m.state is PhaseFound,
        m.sample_count >= 20,
        m.data_pos < 64,
        m.one_bit_count <= 3,
        m.zero_bit_count > 3,
    ensures
        ({
            let p = m.step(is_high);
            &&& p.state is BitReceived
            &&& p.data_pos == m.data_pos + 1
            &&& !bit64(p.data, m.data_pos as int)
            &&& forall|i: int|
                0 <= i < 64 && i != m.data_pos ==> bit64(p.data, i) == bit64(m.data, i)
        }),
{
    lemma_clear_bit(m.data, m.data_pos as u64);
}

/// Deciding a bit with at most 3 high samples tallied in each of the two
/// 100 ms windows is ambiguous: the machine reports the bit faulty,
/// resets the bit position to 0, and leaves the register unchanged.
pub proof fn lemma_ambiguous_bit_faults(m: DecoderModel, is_high: bool)
    requires
        m.state is PhaseFound,
        m.sample_count >= 20,
        m.one_bit_count <= 3,
        m.zero_bit_count <= 3,
    ensures
        m.step(is_high).state is FaultyBit,
        m.step(is_high).data_pos == 0,
        m.step(is_high).data == m.data,
{
}

/// A low sample after more than 180 consecutive low samples while waiting
/// for a phase is the end-of-minute silence: the machine reports end of
/// cycle, resets the bit position to 0, and leaves the register
/// unchanged.
pub proof fn lemma_silence_ends_cycle(m: DecoderModel)
    requires
        m.state is WaitingForPhase,
        m.sample_count > 180,
    ensures
        m.step(false).state is EndOfCycle,
        m.step(false).data_pos == 0,
        m.step(false).data == m.data,
{
}

} // verus!
