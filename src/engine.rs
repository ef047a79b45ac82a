use vstd::prelude::*;

verus! {

/// What an engine call is asked to do with its input.
#[derive(Debug, Copy, Clone, PartialEq, Eq, Structural)]
pub enum Operation {
    /// Consume input and produce output as the engine sees fit.
    Process,
    /// Produce all output for the input consumed so far.
    Flush,
    /// Consume the last input and end the stream.
    Finish,
}

impl Operation {
    /// The number by which the native encoder knows the operation.
    pub open spec fn spec_code(&self) -> i32 {
        match self {
            Operation::Process => 0,
            Operation::Flush => 1,
            Operation::Finish => 2,
        }
    }

    /// The number by which the native encoder knows the operation.
    #[verifier::when_used_as_spec(spec_code)]
    pub fn code(&self) -> (r: i32)
        ensures
            r == self.spec_code(),
    {
        match self {
            Operation::Process => 0,
            Operation::Flush => 1,
            Operation::Finish => 2,
        }
    }
}

/// What a decoder call reports.
#[derive(Debug, Copy, Clone, PartialEq, Eq, Structural)]
pub enum DecoderResult {
    /// The input is malformed, or the engine failed.
    Error,
    /// A complete stream was decoded.
    Success,
    /// All input was consumed and the stream is not complete yet.
    NeedsMoreInput,
    /// The output is full and more output is pending.
    NeedsMoreOutput,
}

/// The decoder result that the native decoder reports by `code`; a code it
/// never reports counts as an error.
pub open spec fn decoder_result_of(code: i32) -> DecoderResult {
    if code == 1 {
        DecoderResult::Success
    } else if code == 2 {
        DecoderResult::NeedsMoreInput
    } else if code == 3 {
        DecoderResult::NeedsMoreOutput
    } else {
        DecoderResult::Error
    }
}

impl DecoderResult {
    /// The decoder result that the native decoder reports by `code`.
    pub fn from_code(code: i32) -> (r: DecoderResult)
        ensures
            r == decoder_result_of(code),
    {
        if code == 1 {
            DecoderResult::Success
        } else if code == 2 {
            DecoderResult::NeedsMoreInput
        } else if code == 3 {
            DecoderResult::NeedsMoreOutput
        } else {
            DecoderResult::Error
        }
    }
}

/// How far one engine call got: bytes of input consumed and bytes of output
/// produced.
#[derive(Debug, Copy, Clone, PartialEq, Eq, Structural)]
pub struct Step {
    /// Bytes of input consumed.
    pub consumed: usize,
    /// Bytes of output produced.
    pub produced: usize,
}

/// Why a streaming adapter stopped.
#[derive(Debug, Copy, Clone, PartialEq, Eq, Structural)]
pub enum StreamFault {
    /// The engine reported more input consumed or more output produced than
    /// it was given room for.
    EngineFault,
    /// The engine reported that it failed.
    EngineError,
    /// The engine made no progress while it still reported pending work.
    Stalled,
    /// The decoder found the compressed input malformed.
    Corrupt,
    /// The source ended before the compressed stream did.
    Truncated,
    /// The writer was closed before the compressed stream ended.
    Incomplete,
    /// More input was written after the stream was finished.
    WriteAfterFinish,
    /// The decoded output grew beyond the ceiling set for it.
    OutputTooLarge,
}

/// Where an adapter stands: still working, done with its stream, or stopped
/// by a fault that it reports from then on.
#[derive(Debug, Copy, Clone, PartialEq, Eq, Structural)]
pub enum Phase {
    /// The stream is in progress.
    Running,
    /// The engine has ended the stream; it is not called again.
    Finished,
    /// A fault stopped the stream; it is not called again.
    Failed(StreamFault),
}

/// Whether an engine call reported more than it was given room for.
pub open spec fn oversteps(available: usize, capacity: usize, step: Step) -> bool {
    step.consumed > available || step.produced > capacity
}

/// Whether `produced` more bytes stay within an output ceiling that has
/// `remaining` bytes left; `None` is no ceiling.
pub open spec fn within_limit(remaining: Option<u64>, produced: usize) -> bool {
    match remaining {
        Some(r) => produced <= r,
        None => true,
    }
}

/// What is left of an output ceiling after `produced` more bytes.
pub open spec fn after_output(remaining: Option<u64>, produced: usize) -> Option<u64> {
    match remaining {
        Some(r) => Some((r - produced) as u64),
        None => None,
    }
}

/// Counts `produced` bytes against an output ceiling with `remaining` bytes
/// left; they must fit.
pub fn count_output(remaining: Option<u64>, produced: usize) -> (r: Option<u64>)
    requires
        within_limit(remaining, produced),
    ensures
        r == after_output(remaining, produced),
{
    match remaining {
        Some(left) => Some(left - produced as u64),
        None => None,
    }
}

/// Whether `produced` more bytes stay within an output ceiling that has
/// `remaining` bytes left.
pub fn fits_limit(remaining: Option<u64>, produced: usize) -> (r: bool)
    ensures
        r == within_limit(remaining, produced),
{
    match remaining {
        Some(left) => produced as u64 <= left,
        None => true,
    }
}

} // verus!
