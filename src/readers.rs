use vstd::prelude::*;
use crate::engine::{
    after_output, count_output, fits_limit, oversteps, within_limit, DecoderResult, Operation, Phase, Step,
    StreamFault,
};

verus! {

/// What a reader adapter does at the start of a read.
#[derive(Debug, Copy, Clone, PartialEq, Eq, Structural)]
pub enum ReadStart {
    /// Report end of stream: zero bytes.
    Eof,
    /// Report the fault that stopped the stream.
    Fail(StreamFault),
    /// Pull from the source and call the engine.
    Proceed,
}

/// What a reader adapter does after an engine call.
#[derive(Debug, Copy, Clone, PartialEq, Eq, Structural)]
pub enum ReadOutcome {
    /// Return this many bytes to the caller.
    Ready(usize),
    /// Pull from the source and call the engine again.
    Retry,
    /// Report the fault.
    Fail(StreamFault),
}

/// How a reader in `phase` starts a read.
pub open spec fn read_start(phase: Phase) -> ReadStart {
    match phase {
        Phase::Running => ReadStart::Proceed,
        Phase::Finished => ReadStart::Eof,
        Phase::Failed(f) => ReadStart::Fail(f),
    }
}

/// Moves a reader to a failed phase and reports the fault.
pub open spec fn fail_read(f: StreamFault) -> (Phase, ReadOutcome) {
    (Phase::Failed(f), ReadOutcome::Fail(f))
}

/// The compressing reader's step: the source offered `available` bytes, the
/// caller's buffer holds `capacity`, and the encoder made `step` and reports
/// whether it has ended the stream.
///
/// Produced bytes go to the caller. With nothing produced, an ended stream is
/// the end of the read, an empty caller buffer gives zero bytes, consumed input
/// calls for another round, and a call that did nothing is a stall.
pub open spec fn compress_read_step(
    available: usize,
    capacity: usize,
    step: Step,
    engine_finished: bool,
) -> (Phase, ReadOutcome) {
    if oversteps(available, capacity, step) {
        fail_read(StreamFault::EngineFault)
    } else if step.produced > 0 {
        (
            if engine_finished {
                Phase::Finished
            } else {
                Phase::Running
            },
            ReadOutcome::Ready(step.produced),
        )
    } else if engine_finished {
        (Phase::Finished, ReadOutcome::Ready(0))
    } else if capacity == 0 {
        (Phase::Running, ReadOutcome::Ready(0))
    } else if step.consumed > 0 {
        (Phase::Running, ReadOutcome::Retry)
    } else {
        fail_read(StreamFault::Stalled)
    }
}

/// The decompressing reader's step: the source offered `available` bytes, the
/// caller's buffer holds `capacity`, and the decoder made `step` and reports
/// `result`.
///
/// A decoded stream ends the read; bytes after it in the source are left
/// unread. A decode error is kept and reported from then on. A source that
/// ends while the decoder still needs input is a truncated stream.
pub open spec fn decompress_read_step(
    available: usize,
    capacity: usize,
    step: Step,
    result: DecoderResult,
) -> (Phase, ReadOutcome) {
    if oversteps(available, capacity, step) {
        fail_read(StreamFault::EngineFault)
    } else {
        match result {
            DecoderResult::Error => fail_read(StreamFault::Corrupt),
            DecoderResult::Success => (Phase::Finished, ReadOutcome::Ready(step.produced)),
            DecoderResult::NeedsMoreInput => {
                if step.produced > 0 {
                    (Phase::Running, ReadOutcome::Ready(step.produced))
                } else if available == 0 {
                    fail_read(StreamFault::Truncated)
                } else if step.consumed > 0 {
                    (Phase::Running, ReadOutcome::Retry)
                } else {
                    fail_read(StreamFault::Stalled)
                }
            },
            DecoderResult::NeedsMoreOutput => {
                if step.produced > 0 {
                    (Phase::Running, ReadOutcome::Ready(step.produced))
                } else if capacity == 0 {
                    (Phase::Running, ReadOutcome::Ready(0))
                } else if step.consumed > 0 {
                    (Phase::Running, ReadOutcome::Retry)
                } else {
                    fail_read(StreamFault::Stalled)
                }
            },
        }
    }
}

/// The decompressing reader's step under an output ceiling with `remaining`
/// bytes left: output beyond the ceiling stops the stream; otherwise the step
/// goes as without one.
pub open spec fn decompress_read_limited(
    remaining: Option<u64>,
    available: usize,
    capacity: usize,
    step: Step,
    result: DecoderResult,
) -> (Phase, ReadOutcome) {
    if !oversteps(available, capacity, step) && !within_limit(remaining, step.produced) {
        fail_read(StreamFault::OutputTooLarge)
    } else {
        decompress_read_step(available, capacity, step, result)
    }
}

/// The decisions of a reader that compresses what it pulls from its source.
pub struct CompressorReaderState {
    phase: Phase,
}

impl View for CompressorReaderState {
    type V = Phase;

    closed spec fn view(&self) -> Phase {
        self.phase
    }
}

impl CompressorReaderState {

    /// Stops the stream with a fault found outside this state, such as an
    /// engine that reported failure; it is reported from then on.
    pub fn fail(&mut self, f: StreamFault)
        ensures
            final(self)@ == Phase::Failed(f),
    {
        self.phase = Phase::Failed(f);
    }
    /// A reader at the start of its stream.
    pub fn new() -> (r: CompressorReaderState)
        ensures
            r@ == Phase::Running,
    {
        CompressorReaderState { phase: Phase::Running }
    }

    /// Where the reader stands.
    pub fn phase(&self) -> (r: Phase)
        ensures
            r == self@,
    {
        self.phase
    }

    /// How a read starts.
    pub fn start(&self) -> (r: ReadStart)
        ensures
            r == read_start(self@),
    {
        match self.phase {
            Phase::Running => ReadStart::Proceed,
            Phase::Finished => ReadStart::Eof,
            Phase::Failed(f) => ReadStart::Fail(f),
        }
    }

    /// The operation to ask of the encoder when the source offers `available`
    /// bytes: a source with nothing left means the stream is to be finished.
    pub fn operation(&self, available: usize) -> (r: Operation)
        ensures
            r == (if available == 0 {
                Operation::Finish
            } else {
                Operation::Process
            }),
    {
        if available == 0 {
            Operation::Finish
        } else {
            Operation::Process
        }
    }

    /// Takes in what an encoder call did and decides how the read goes on.
    pub fn after_step(
        &mut self,
        available: usize,
        capacity: usize,
        step: Step,
        engine_finished: bool,
    ) -> (r: ReadOutcome)
        requires
            old(self)@ == Phase::Running,
        ensures
            (final(self)@, r) == compress_read_step(available, capacity, step, engine_finished),
    {
        if step.consumed > available || step.produced > capacity {
            self.phase = Phase::Failed(StreamFault::EngineFault);
            ReadOutcome::Fail(StreamFault::EngineFault)
        } else if step.produced > 0 {
            if engine_finished {
                self.phase = Phase::Finished;
            }
            ReadOutcome::Ready(step.produced)
        } else if engine_finished {
            self.phase = Phase::Finished;
            ReadOutcome::Ready(0)
        } else if capacity == 0 {
            ReadOutcome::Ready(0)
        } else if step.consumed > 0 {
            ReadOutcome::Retry
        } else {
            self.phase = Phase::Failed(StreamFault::Stalled);
            ReadOutcome::Fail(StreamFault::Stalled)
        }
    }
}

/// The decisions of a reader that decompresses what it pulls from its source,
/// with an optional ceiling on the bytes it decodes.
pub struct DecompressorReaderState {
    phase: Phase,
    remaining: Option<u64>,
}

impl View for DecompressorReaderState {
    type V = Phase;

    closed spec fn view(&self) -> Phase {
        self.phase
    }
}

impl DecompressorReaderState {

    /// Stops the stream with a fault found outside this state, such as an
    /// engine that reported failure; it is reported from then on.
    pub fn fail(&mut self, f: StreamFault)
        ensures
            final(self)@ == Phase::Failed(f),
            final(self).spec_remaining() == old(self).spec_remaining(),
    {
        self.phase = Phase::Failed(f);
    }
    /// How many more bytes the reader may decode; `None` is no ceiling.
    pub closed spec fn spec_remaining(&self) -> Option<u64> {
        self.remaining
    }

    /// A reader at the start of its stream, with no ceiling.
    pub fn new() -> (r: DecompressorReaderState)
        ensures
            r@ == Phase::Running,
            r.spec_remaining() == None::<u64>,
    {
        DecompressorReaderState { phase: Phase::Running, remaining: None }
    }

    /// A reader at the start of its stream that decodes at most `limit` bytes,
    /// when given.
    pub fn with_limit(limit: Option<u64>) -> (r: DecompressorReaderState)
        ensures
            r@ == Phase::Running,
            r.spec_remaining() == limit,
    {
        DecompressorReaderState { phase: Phase::Running, remaining: limit }
    }

    /// Where the reader stands.
    pub fn phase(&self) -> (r: Phase)
        ensures
            r == self@,
    {
        self.phase
    }

    /// How many more bytes the reader may decode.
    pub fn remaining(&self) -> (r: Option<u64>)
        ensures
            r == self.spec_remaining(),
    {
        self.remaining
    }

    /// How a read starts.
    pub fn start(&self) -> (r: ReadStart)
        ensures
            r == read_start(self@),
    {
        match self.phase {
            Phase::Running => ReadStart::Proceed,
            Phase::Finished => ReadStart::Eof,
            Phase::Failed(f) => ReadStart::Fail(f),
        }
    }

    /// Takes in what a decoder call did and decides how the read goes on.
    /// Output that the stream keeps counts against the ceiling.
    pub fn after_step(
        &mut self,
        available: usize,
        capacity: usize,
        step: Step,
        result: DecoderResult,
    ) -> (r: ReadOutcome)
        requires
            old(self)@ == Phase::Running,
        ensures
            (final(self)@, r) == decompress_read_limited(
                old(self).spec_remaining(),
                available,
                capacity,
                step,
                result,
            ),
            final(self).spec_remaining() == (if final(self)@ is Failed {
                old(self).spec_remaining()
            } else {
                after_output(old(self).spec_remaining(), step.produced)
            }),
    {
        if step.consumed > available || step.produced > capacity {
            self.phase = Phase::Failed(StreamFault::EngineFault);
            return ReadOutcome::Fail(StreamFault::EngineFault);
        }
        if !fits_limit(self.remaining, step.produced) {
            self.phase = Phase::Failed(StreamFault::OutputTooLarge);
            return ReadOutcome::Fail(StreamFault::OutputTooLarge);
        }
        let counted = count_output(self.remaining, step.produced);
        match result {
            DecoderResult::Error => {
                self.phase = Phase::Failed(StreamFault::Corrupt);
                ReadOutcome::Fail(StreamFault::Corrupt)
            },
            DecoderResult::Success => {
                self.phase = Phase::Finished;
                self.remaining = counted;
                ReadOutcome::Ready(step.produced)
            },
            DecoderResult::NeedsMoreInput => {
                if step.produced > 0 {
                    self.remaining = counted;
                    ReadOutcome::Ready(step.produced)
                } else if available == 0 {
                    self.phase = Phase::Failed(StreamFault::Truncated);
                    ReadOutcome::Fail(StreamFault::Truncated)
                } else if step.consumed > 0 {
                    self.remaining = counted;
                    ReadOutcome::Retry
                } else {
                    self.phase = Phase::Failed(StreamFault::Stalled);
                    ReadOutcome::Fail(StreamFault::Stalled)
                }
            },
            DecoderResult::NeedsMoreOutput => {
                if step.produced > 0 {
                    self.remaining = counted;
                    ReadOutcome::Ready(step.produced)
                } else if capacity == 0 {
                    self.remaining = counted;
                    ReadOutcome::Ready(0)
                } else if step.consumed > 0 {
                    self.remaining = counted;
                    ReadOutcome::Retry
                } else {
                    self.phase = Phase::Failed(StreamFault::Stalled);
                    ReadOutcome::Fail(StreamFault::Stalled)
                }
            },
        }
    }
}

/// End of stream is stable for the compressing reader: a read into a
/// non-empty buffer that returns zero bytes leaves the reader finished, and a
/// finished reader answers every later read with end of stream, without
/// touching its source or its engine.
pub proof fn lemma_compress_eof_is_stable(
    available: usize,
    capacity: usize,
    step: Step,
    engine_finished: bool,
)
    requires
        capacity > 0,
        compress_read_step(available, capacity, step, engine_finished).1 == ReadOutcome::Ready(0),
    ensures
        compress_read_step(available, capacity, step, engine_finished).0 == Phase::Finished,
        read_start(compress_read_step(available, capacity, step, engine_finished).0)
            == ReadStart::Eof,
{
}

/// End of stream is stable for the decompressing reader: a read into a
/// non-empty buffer that returns zero bytes leaves the reader finished, and a
/// finished reader answers every later read with end of stream.
pub proof fn lemma_decompress_eof_is_stable(
    remaining: Option<u64>,
    available: usize,
    capacity: usize,
    step: Step,
    result: DecoderResult,
)
    requires
        capacity > 0,
        decompress_read_limited(remaining, available, capacity, step, result).1 == ReadOutcome::Ready(0),
    ensures
        decompress_read_limited(remaining, available, capacity, step, result).0 == Phase::Finished,
        read_start(decompress_read_limited(remaining, available, capacity, step, result).0) == ReadStart::Eof,
{
}

/// A fault is kept: a read step that reports a fault leaves the reader in a
/// phase that reports the same fault on every later read.
pub proof fn lemma_decompress_fault_is_sticky(
    remaining: Option<u64>,
    available: usize,
    capacity: usize,
    step: Step,
    result: DecoderResult,
    f: StreamFault,
)
    requires
        decompress_read_limited(remaining, available, capacity, step, result).1 == ReadOutcome::Fail(f),
    ensures
        read_start(decompress_read_limited(remaining, available, capacity, step, result).0) == ReadStart::Fail(f),
{
}

} // verus!
