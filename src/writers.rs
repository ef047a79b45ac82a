use vstd::prelude::*;
use crate::engine::{
    after_output, count_output, fits_limit, within_limit, DecoderResult, Operation, Phase,
    StreamFault,
};
use crate::staging::Staging;

verus! {

/// What a writer adapter does at the start of a write, flush, finish or close.
#[derive(Debug, Copy, Clone, PartialEq, Eq, Structural)]
pub enum WriteStart {
    /// Hand the staged bytes to the sink first.
    Drain,
    /// Return at once, reporting this many bytes taken.
    Done(usize),
    /// Report the fault that stopped the stream.
    Fail(StreamFault),
    /// Call the engine.
    Run,
}

/// What a writer adapter does after an engine call.
#[derive(Debug, Copy, Clone, PartialEq, Eq, Structural)]
pub enum WriteOutcome {
    /// This many bytes of the caller's input were taken; hand the staged bytes
    /// to the sink and return.
    Accepted(usize),
    /// The call is complete; hand the staged bytes to the sink and return.
    Complete,
    /// Hand the staged bytes to the sink and call the engine again.
    Retry,
    /// Report the fault.
    Fail(StreamFault),
}

/// The abstract state of a writer adapter: its phase and the bytes staged for
/// the sink, oldest first.
pub type WriterView = (Phase, Seq<u8>);

/// Whether `output` bytes fit beside `pending` in a region of `capacity`.
pub open spec fn fits(pending: Seq<u8>, capacity: nat, output: Seq<u8>) -> bool {
    pending.len() + output.len() <= capacity
}

/// Moves a writer to a failed phase, keeping what it staged, and reports the
/// fault.
pub open spec fn fail_write(pending: Seq<u8>, f: StreamFault) -> (WriterView, WriteOutcome) {
    ((Phase::Failed(f), pending), WriteOutcome::Fail(f))
}

/// Keeps a writer running with `output` staged after what it had.
pub open spec fn stage(pending: Seq<u8>, output: Seq<u8>, o: WriteOutcome) -> (
    WriterView,
    WriteOutcome,
) {
    ((Phase::Running, pending + output), o)
}

/// How the compressing writer starts to take `input_len` bytes: a fault is
/// reported, staged bytes go to the sink first, and a finished stream takes no
/// more input.
pub open spec fn compress_write_start(v: WriterView, input_len: usize) -> WriteStart {
    match v.0 {
        Phase::Failed(f) => WriteStart::Fail(f),
        Phase::Finished => WriteStart::Fail(StreamFault::WriteAfterFinish),
        Phase::Running => {
            if v.1.len() > 0 {
                WriteStart::Drain
            } else if input_len == 0 {
                WriteStart::Done(0)
            } else {
                WriteStart::Run
            }
        },
    }
}

/// The compressing writer's step: the encoder took `consumed` of `input_len`
/// bytes and produced `output`, which is staged for the sink.
pub open spec fn compress_write_step(
    pending: Seq<u8>,
    capacity: nat,
    input_len: usize,
    consumed: usize,
    output: Seq<u8>,
) -> (WriterView, WriteOutcome) {
    if consumed > input_len || !fits(pending, capacity, output) {
        fail_write(pending, StreamFault::EngineFault)
    } else if consumed > 0 {
        stage(pending, output, WriteOutcome::Accepted(consumed))
    } else if output.len() > 0 {
        stage(pending, output, WriteOutcome::Retry)
    } else {
        fail_write(pending, StreamFault::Stalled)
    }
}

/// How a writer starts a flush, a finish or a close: a fault is reported,
/// staged bytes go to the sink first, a finished stream is done, and a running
/// one calls the engine.
pub open spec fn close_start(v: WriterView) -> WriteStart {
    match v.0 {
        Phase::Failed(f) => WriteStart::Fail(f),
        _ => {
            if v.1.len() > 0 {
                WriteStart::Drain
            } else if v.0 == Phase::Finished {
                WriteStart::Done(0)
            } else {
                WriteStart::Run
            }
        },
    }
}

/// The compressing writer's finishing step: the encoder, asked to finish with
/// no input, produced `output` and reports whether the stream has ended.
pub open spec fn compress_finish_step(
    pending: Seq<u8>,
    capacity: nat,
    output: Seq<u8>,
    engine_finished: bool,
) -> (WriterView, WriteOutcome) {
    if !fits(pending, capacity, output) {
        fail_write(pending, StreamFault::EngineFault)
    } else if engine_finished {
        ((Phase::Finished, pending + output), WriteOutcome::Complete)
    } else if output.len() > 0 {
        stage(pending, output, WriteOutcome::Retry)
    } else {
        fail_write(pending, StreamFault::Stalled)
    }
}

/// The compressing writer's flushing step: the encoder, asked to flush with no
/// input, produced `output` and reports whether it holds more.
pub open spec fn compress_flush_step(
    pending: Seq<u8>,
    capacity: nat,
    output: Seq<u8>,
    has_more_output: bool,
) -> (WriterView, WriteOutcome) {
    if !fits(pending, capacity, output) {
        fail_write(pending, StreamFault::EngineFault)
    } else if !has_more_output {
        stage(pending, output, WriteOutcome::Complete)
    } else if output.len() > 0 {
        stage(pending, output, WriteOutcome::Retry)
    } else {
        fail_write(pending, StreamFault::Stalled)
    }
}

/// How the decompressing writer starts to take `input_len` bytes: a fault is
/// reported, staged bytes go to the sink first, and bytes after a complete
/// stream are taken and ignored.
pub open spec fn decompress_write_start(v: WriterView, input_len: usize) -> WriteStart {
    match v.0 {
        Phase::Failed(f) => WriteStart::Fail(f),
        _ => {
            if v.1.len() > 0 {
                WriteStart::Drain
            } else if v.0 == Phase::Finished {
                WriteStart::Done(input_len)
            } else if input_len == 0 {
                WriteStart::Done(0)
            } else {
                WriteStart::Run
            }
        },
    }
}

/// The decompressing writer's step: the decoder took `consumed` of
/// `input_len` bytes, produced `output`, which is staged for the sink, and
/// reports `result`.
pub open spec fn decompress_write_step(
    pending: Seq<u8>,
    capacity: nat,
    input_len: usize,
    consumed: usize,
    output: Seq<u8>,
    result: DecoderResult,
) -> (WriterView, WriteOutcome) {
    if consumed > input_len || !fits(pending, capacity, output) {
        fail_write(pending, StreamFault::EngineFault)
    } else {
        match result {
            DecoderResult::Error => fail_write(pending, StreamFault::Corrupt),
            DecoderResult::Success => (
                (Phase::Finished, pending + output),
                WriteOutcome::Accepted(input_len),
            ),
            DecoderResult::NeedsMoreInput => {
                if consumed > 0 {
                    stage(pending, output, WriteOutcome::Accepted(consumed))
                } else {
                    fail_write(pending, StreamFault::Stalled)
                }
            },
            DecoderResult::NeedsMoreOutput => {
                if consumed > 0 {
                    stage(pending, output, WriteOutcome::Accepted(consumed))
                } else if output.len() > 0 {
                    stage(pending, output, WriteOutcome::Retry)
                } else {
                    fail_write(pending, StreamFault::Stalled)
                }
            },
        }
    }
}

/// The decompressing writer's closing step: the decoder, given no input,
/// produced `output` and reports `result`. A decoder that still needs input
/// when the writer closes has an incomplete stream.
pub open spec fn decompress_close_step(
    pending: Seq<u8>,
    capacity: nat,
    output: Seq<u8>,
    result: DecoderResult,
) -> (WriterView, WriteOutcome) {
    if !fits(pending, capacity, output) {
        fail_write(pending, StreamFault::EngineFault)
    } else {
        match result {
            DecoderResult::Error => fail_write(pending, StreamFault::Corrupt),
            DecoderResult::Success => ((Phase::Finished, pending + output), WriteOutcome::Retry),
            DecoderResult::NeedsMoreInput => fail_write(pending, StreamFault::Incomplete),
            DecoderResult::NeedsMoreOutput => {
                if output.len() > 0 {
                    stage(pending, output, WriteOutcome::Retry)
                } else {
                    fail_write(pending, StreamFault::Stalled)
                }
            },
        }
    }
}

/// The phase and the staging region that both writer adapters keep.
struct WriterCore {
    phase: Phase,
    staging: Staging,
}

impl WriterCore {
    closed spec fn view(&self) -> WriterView {
        (self.phase, self.staging@)
    }

    closed spec fn wf(&self) -> bool {
        self.staging.wf()
    }

    closed spec fn capacity(&self) -> nat {
        self.staging.spec_capacity()
    }

    fn new(capacity: usize) -> (r: WriterCore)
        requires
            capacity > 0,
        ensures
            r.wf(),
            r.view() == (Phase::Running, Seq::<u8>::empty()),
            r.capacity() == capacity,
    {
        WriterCore { phase: Phase::Running, staging: Staging::new(capacity) }
    }

    fn fits(&self, output: &[u8]) -> (r: bool)
        requires
            self.wf(),
        ensures
            r == fits(self.view().1, self.capacity(), output@),
    {
        output.len() <= self.staging.room()
    }

    fn fail(&mut self, f: StreamFault) -> (r: WriteOutcome)
        requires
            old(self).wf(),
        ensures
            final(self).wf(),
            final(self).capacity() == old(self).capacity(),
            (final(self).view(), r) == fail_write(old(self).view().1, f),
    {
        self.phase = Phase::Failed(f);
        WriteOutcome::Fail(f)
    }

    fn stage(&mut self, phase: Phase, output: &[u8], o: WriteOutcome) -> (r: WriteOutcome)
        requires
            old(self).wf(),
            fits(old(self).view().1, old(self).capacity(), output@),
        ensures
            final(self).wf(),
            final(self).capacity() == old(self).capacity(),
            final(self).view() == (phase, old(self).view().1 + output@),
            r == o,
    {
        self.phase = phase;
        self.staging.push(output);
        o
    }

    fn drained(&mut self, n: usize)
        requires
            old(self).wf(),
            n <= old(self).view().1.len(),
        ensures
            final(self).wf(),
            final(self).capacity() == old(self).capacity(),
            final(self).view() == (old(self).view().0, old(self).view().1.skip(n as int)),
    {
        self.staging.consume(n);
    }

    fn close_start(&self) -> (r: WriteStart)
        requires
            self.wf(),
        ensures
            r == close_start(self.view()),
    {
        match self.phase {
            Phase::Failed(f) => WriteStart::Fail(f),
            _ => {
                if !self.staging.is_empty() {
                    WriteStart::Drain
                } else if self.phase == Phase::Finished {
                    WriteStart::Done(0)
                } else {
                    WriteStart::Run
                }
            },
        }
    }
}

/// The decisions of a writer that compresses what it is given and hands the
/// compressed bytes to its sink.
pub struct CompressorWriterState {
    core: WriterCore,
}

impl View for CompressorWriterState {
    type V = WriterView;

    closed spec fn view(&self) -> WriterView {
        self.core.view()
    }
}

impl CompressorWriterState {

    /// Stops the stream with a fault found outside this state, such as an
    /// engine that reported failure, keeping what is staged; the fault is
    /// reported from then on.
    pub fn fail(&mut self, f: StreamFault)
        requires
            old(self).wf(),
        ensures
            final(self).wf(),
            final(self).spec_capacity() == old(self).spec_capacity(),
            final(self)@ == (Phase::Failed(f), old(self)@.1),
    {
        self.core.fail(f);
    }
    /// The staging region stays consistent.
    pub closed spec fn wf(&self) -> bool {
        self.core.wf()
    }

    /// The fixed size of the staging region.
    pub closed spec fn spec_capacity(&self) -> nat {
        self.core.capacity()
    }

    /// A writer at the start of its stream, staging up to `capacity` bytes.
    pub fn new(capacity: usize) -> (r: CompressorWriterState)
        requires
            capacity > 0,
        ensures
            r.wf(),
            r@ == (Phase::Running, Seq::<u8>::empty()),
            r.spec_capacity() == capacity,
    {
        CompressorWriterState { core: WriterCore::new(capacity) }
    }

    /// Where the writer stands.
    pub fn phase(&self) -> (r: Phase)
        ensures
            r == self@.0,
    {
        self.core.phase
    }

    /// The bytes staged for the sink, oldest first.
    pub fn pending(&self) -> (r: &[u8])
        requires
            self.wf(),
        ensures
            r@ == self@.1,
    {
        self.core.staging.pending()
    }

    /// How many bytes the engine may produce in its next call.
    pub fn room(&self) -> (r: usize)
        requires
            self.wf(),
        ensures
            r == self.spec_capacity() - self@.1.len(),
    {
        self.core.staging.room()
    }

    /// Records that the sink took the `n` oldest staged bytes.
    pub fn drained(&mut self, n: usize)
        requires
            old(self).wf(),
            n <= old(self)@.1.len(),
        ensures
            final(self).wf(),
            final(self).spec_capacity() == old(self).spec_capacity(),
            final(self)@ == (old(self)@.0, old(self)@.1.skip(n as int)),
    {
        self.core.drained(n);
    }

    /// How a write of `input_len` bytes starts.
    pub fn write_start(&self, input_len: usize) -> (r: WriteStart)
        requires
            self.wf(),
        ensures
            r == compress_write_start(self@, input_len),
    {
        match self.core.phase {
            Phase::Failed(f) => WriteStart::Fail(f),
            Phase::Finished => WriteStart::Fail(StreamFault::WriteAfterFinish),
            Phase::Running => {
                if !self.core.staging.is_empty() {
                    WriteStart::Drain
                } else if input_len == 0 {
                    WriteStart::Done(0)
                } else {
                    WriteStart::Run
                }
            },
        }
    }

    /// The operation to ask of the encoder during a write.
    pub fn write_operation(&self) -> (r: Operation)
        ensures
            r == Operation::Process,
    {
        Operation::Process
    }

    /// Takes in what an encoder call on `input_len` bytes of input did.
    pub fn after_write_step(&mut self, input_len: usize, consumed: usize, output: &[u8]) -> (r:
        WriteOutcome)
        requires
            old(self).wf(),
            old(self)@.0 == Phase::Running,
        ensures
            final(self).wf(),
            final(self).spec_capacity() == old(self).spec_capacity(),
            (final(self)@, r) == compress_write_step(
                old(self)@.1,
                old(self).spec_capacity(),
                input_len,
                consumed,
                output@,
            ),
    {
        if consumed > input_len || !self.core.fits(output) {
            self.core.fail(StreamFault::EngineFault)
        } else if consumed > 0 {
            self.core.stage(Phase::Running, output, WriteOutcome::Accepted(consumed))
        } else if output.len() > 0 {
            self.core.stage(Phase::Running, output, WriteOutcome::Retry)
        } else {
            self.core.fail(StreamFault::Stalled)
        }
    }

    /// How a flush or a finish starts.
    pub fn close_start(&self) -> (r: WriteStart)
        requires
            self.wf(),
        ensures
            r == close_start(self@),
    {
        self.core.close_start()
    }

    /// Takes in what an encoder call asked to finish the stream did.
    pub fn after_finish_step(&mut self, output: &[u8], engine_finished: bool) -> (r: WriteOutcome)
        requires
            old(self).wf(),
            old(self)@.0 == Phase::Running,
        ensures
            final(self).wf(),
            final(self).spec_capacity() == old(self).spec_capacity(),
            (final(self)@, r) == compress_finish_step(
                old(self)@.1,
                old(self).spec_capacity(),
                output@,
                engine_finished,
            ),
    {
        if !self.core.fits(output) {
            self.core.fail(StreamFault::EngineFault)
        } else if engine_finished {
            self.core.stage(Phase::Finished, output, WriteOutcome::Complete)
        } else if output.len() > 0 {
            self.core.stage(Phase::Running, output, WriteOutcome::Retry)
        } else {
            self.core.fail(StreamFault::Stalled)
        }
    }

    /// Takes in what an encoder call asked to flush did.
    pub fn after_flush_step(&mut self, output: &[u8], has_more_output: bool) -> (r: WriteOutcome)
        requires
            old(self).wf(),
            old(self)@.0 == Phase::Running,
        ensures
            final(self).wf(),
            final(self).spec_capacity() == old(self).spec_capacity(),
            (final(self)@, r) == compress_flush_step(
                old(self)@.1,
                old(self).spec_capacity(),
                output@,
                has_more_output,
            ),
    {
        if !self.core.fits(output) {
            self.core.fail(StreamFault::EngineFault)
        } else if !has_more_output {
            self.core.stage(Phase::Running, output, WriteOutcome::Complete)
        } else if output.len() > 0 {
            self.core.stage(Phase::Running, output, WriteOutcome::Retry)
        } else {
            self.core.fail(StreamFault::Stalled)
        }
    }
}

/// A decompressing writer's step under an output ceiling with `remaining`
/// bytes left: when the engine stayed within its room (`in_room`), output
/// beyond the ceiling stops the stream; otherwise the step goes as `base`.
pub open spec fn under_limit(
    remaining: Option<u64>,
    pending: Seq<u8>,
    in_room: bool,
    output: Seq<u8>,
    base: (WriterView, WriteOutcome),
) -> (WriterView, WriteOutcome) {
    if in_room && !within_limit(remaining, output.len() as usize) {
        fail_write(pending, StreamFault::OutputTooLarge)
    } else {
        base
    }
}

/// The decisions of a writer that decompresses what it is given and hands the
/// decoded bytes to its sink, with an optional ceiling on the bytes it decodes.
pub struct DecompressorWriterState {
    core: WriterCore,
    remaining: Option<u64>,
}

impl View for DecompressorWriterState {
    type V = WriterView;

    closed spec fn view(&self) -> WriterView {
        self.core.view()
    }
}

impl DecompressorWriterState {

    /// Stops the stream with a fault found outside this state, such as an
    /// engine that reported failure, keeping what is staged; the fault is
    /// reported from then on.
    pub fn fail(&mut self, f: StreamFault)
        requires
            old(self).wf(),
        ensures
            final(self).wf(),
            final(self).spec_capacity() == old(self).spec_capacity(),
            final(self)@ == (Phase::Failed(f), old(self)@.1),
            final(self).spec_remaining() == old(self).spec_remaining(),
    {
        self.core.fail(f);
    }
    /// How many more bytes the writer may decode; `None` is no ceiling.
    pub closed spec fn spec_remaining(&self) -> Option<u64> {
        self.remaining
    }

    /// How many more bytes the writer may decode.
    pub fn remaining(&self) -> (r: Option<u64>)
        ensures
            r == self.spec_remaining(),
    {
        self.remaining
    }

    /// A writer at the start of its stream, staging up to `capacity` bytes and
    /// decoding at most `limit` bytes, when given.
    pub fn with_limit(capacity: usize, limit: Option<u64>) -> (r: DecompressorWriterState)
        requires
            capacity > 0,
        ensures
            r.wf(),
            r@ == (Phase::Running, Seq::<u8>::empty()),
            r.spec_capacity() == capacity,
            r.spec_remaining() == limit,
    {
        DecompressorWriterState { core: WriterCore::new(capacity), remaining: limit }
    }

    /// The staging region stays consistent.
    pub closed spec fn wf(&self) -> bool {
        self.core.wf()
    }

    /// The fixed size of the staging region.
    pub closed spec fn spec_capacity(&self) -> nat {
        self.core.capacity()
    }

    /// A writer at the start of its stream, staging up to `capacity` bytes,
    /// with no ceiling.
    pub fn new(capacity: usize) -> (r: DecompressorWriterState)
        requires
            capacity > 0,
        ensures
            r.wf(),
            r@ == (Phase::Running, Seq::<u8>::empty()),
            r.spec_capacity() == capacity,
            r.spec_remaining() == None::<u64>,
    {
        DecompressorWriterState { core: WriterCore::new(capacity), remaining: None }
    }

    /// Where the writer stands.
    pub fn phase(&self) -> (r: Phase)
        ensures
            r == self@.0,
    {
        self.core.phase
    }

    /// The bytes staged for the sink, oldest first.
    pub fn pending(&self) -> (r: &[u8])
        requires
            self.wf(),
        ensures
            r@ == self@.1,
    {
        self.core.staging.pending()
    }

    /// How many bytes the decoder may produce in its next call.
    pub fn room(&self) -> (r: usize)
        requires
            self.wf(),
        ensures
            r == self.spec_capacity() - self@.1.len(),
    {
        self.core.staging.room()
    }

    /// Records that the sink took the `n` oldest staged bytes.
    pub fn drained(&mut self, n: usize)
        requires
            old(self).wf(),
            n <= old(self)@.1.len(),
        ensures
            final(self).wf(),
            final(self).spec_capacity() == old(self).spec_capacity(),
            final(self)@ == (old(self)@.0, old(self)@.1.skip(n as int)),
            final(self).spec_remaining() == old(self).spec_remaining(),
    {
        self.core.drained(n);
    }

    /// How a write of `input_len` bytes starts.
    pub fn write_start(&self, input_len: usize) -> (r: WriteStart)
        requires
            self.wf(),
        ensures
            r == decompress_write_start(self@, input_len),
    {
        match self.core.phase {
            Phase::Failed(f) => WriteStart::Fail(f),
            _ => {
                if !self.core.staging.is_empty() {
                    WriteStart::Drain
                } else if self.core.phase == Phase::Finished {
                    WriteStart::Done(input_len)
                } else if input_len == 0 {
                    WriteStart::Done(0)
                } else {
                    WriteStart::Run
                }
            },
        }
    }

    /// Takes in what a decoder call on `input_len` bytes of input did.
    pub fn after_write_step(
        &mut self,
        input_len: usize,
        consumed: usize,
        output: &[u8],
        result: DecoderResult,
    ) -> (r: WriteOutcome)
        requires
            old(self).wf(),
            old(self)@.0 == Phase::Running,
        ensures
            final(self).wf(),
            final(self).spec_capacity() == old(self).spec_capacity(),
            (final(self)@, r) == under_limit(
                old(self).spec_remaining(),
                old(self)@.1,
                consumed <= input_len && fits(old(self)@.1, old(self).spec_capacity(), output@),
                output@,
                decompress_write_step(
                    old(self)@.1,
                    old(self).spec_capacity(),
                    input_len,
                    consumed,
                    output@,
                    result,
                ),
            ),
            final(self).spec_remaining() == (if final(self)@.0 is Failed {
                old(self).spec_remaining()
            } else {
                after_output(old(self).spec_remaining(), output@.len() as usize)
            }),
    {
        if consumed > input_len || !self.core.fits(output) {
            return self.core.fail(StreamFault::EngineFault);
        }
        if !fits_limit(self.remaining, output.len()) {
            return self.core.fail(StreamFault::OutputTooLarge);
        }
        let counted = count_output(self.remaining, output.len());
        match result {
            DecoderResult::Error => self.core.fail(StreamFault::Corrupt),
            DecoderResult::Success => {
                self.remaining = counted;
                self.core.stage(Phase::Finished, output, WriteOutcome::Accepted(input_len))
            },
            DecoderResult::NeedsMoreInput => {
                if consumed > 0 {
                    self.remaining = counted;
                    self.core.stage(Phase::Running, output, WriteOutcome::Accepted(consumed))
                } else {
                    self.core.fail(StreamFault::Stalled)
                }
            },
            DecoderResult::NeedsMoreOutput => {
                if consumed > 0 {
                    self.remaining = counted;
                    self.core.stage(Phase::Running, output, WriteOutcome::Accepted(consumed))
                } else if output.len() > 0 {
                    self.remaining = counted;
                    self.core.stage(Phase::Running, output, WriteOutcome::Retry)
                } else {
                    self.core.fail(StreamFault::Stalled)
                }
            },
        }
    }

    /// How a close starts.
    pub fn close_start(&self) -> (r: WriteStart)
        requires
            self.wf(),
        ensures
            r == close_start(self@),
    {
        self.core.close_start()
    }

    /// Takes in what a decoder call with no input did while closing.
    pub fn after_close_step(&mut self, output: &[u8], result: DecoderResult) -> (r: WriteOutcome)
        requires
            old(self).wf(),
            old(self)@.0 == Phase::Running,
        ensures
            final(self).wf(),
            final(self).spec_capacity() == old(self).spec_capacity(),
            (final(self)@, r) == under_limit(
                old(self).spec_remaining(),
                old(self)@.1,
                fits(old(self)@.1, old(self).spec_capacity(), output@),
                output@,
                decompress_close_step(old(self)@.1, old(self).spec_capacity(), output@, result),
            ),
            final(self).spec_remaining() == (if final(self)@.0 is Failed {
                old(self).spec_remaining()
            } else {
                after_output(old(self).spec_remaining(), output@.len() as usize)
            }),
    {
        if !self.core.fits(output) {
            return self.core.fail(StreamFault::EngineFault);
        }
        if !fits_limit(self.remaining, output.len()) {
            return self.core.fail(StreamFault::OutputTooLarge);
        }
        let counted = count_output(self.remaining, output.len());
        match result {
            DecoderResult::Error => self.core.fail(StreamFault::Corrupt),
            DecoderResult::Success => {
                self.remaining = counted;
                self.core.stage(Phase::Finished, output, WriteOutcome::Retry)
            },
            DecoderResult::NeedsMoreInput => self.core.fail(StreamFault::Incomplete),
            DecoderResult::NeedsMoreOutput => {
                if output.len() > 0 {
                    self.remaining = counted;
                    self.core.stage(Phase::Running, output, WriteOutcome::Retry)
                } else {
                    self.core.fail(StreamFault::Stalled)
                }
            },
        }
    }
}

/// Finishing is idempotent: a finish returns only when the writer is finished
/// with nothing staged, and a finish started there returns at once, without
/// calling the engine or writing to the sink.
pub proof fn lemma_finish_is_idempotent(v: WriterView)
    requires
        close_start(v) == WriteStart::Done(0),
    ensures
        v.0 == Phase::Finished,
        v.1.len() == 0,
        close_start((Phase::Finished, Seq::<u8>::empty())) == WriteStart::Done(0),
{
}

/// Once the encoder ends the stream, the writer is finished and keeps what the
/// last call produced after what it had staged; draining it then leads to a
/// finish that returns at once.
pub proof fn lemma_finish_step_ends_stream(pending: Seq<u8>, capacity: nat, output: Seq<u8>)
    requires
        fits(pending, capacity, output),
    ensures
        compress_finish_step(pending, capacity, output, true) == (
            (Phase::Finished, pending + output),
            WriteOutcome::Complete,
        ),
        close_start((Phase::Finished, (pending + output).skip((pending + output).len() as int)))
            == WriteStart::Done(0),
{
}

/// Staged bytes are never lost or reordered by a step that goes on: the bytes
/// waiting afterwards are those waiting before followed by the new output.
pub proof fn lemma_write_step_keeps_order(
    pending: Seq<u8>,
    capacity: nat,
    input_len: usize,
    consumed: usize,
    output: Seq<u8>,
)
    ensures
        ({
            let (v, o) = compress_write_step(pending, capacity, input_len, consumed, output);
            v.0 == Phase::Running ==> v.1 == pending + output
        }),
        ({
            let (v, o) = compress_write_step(pending, capacity, input_len, consumed, output);
            v.0 != Phase::Running ==> v.1 == pending
        }),
{
}

} // verus!
