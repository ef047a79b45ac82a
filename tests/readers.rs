use brotlic::{
    CompressorReaderState, DecoderResult, DecompressorReaderState, Operation, Phase, ReadOutcome,
    ReadStart, Step, StreamFault,
};

fn step(consumed: usize, produced: usize) -> Step {
    Step { consumed, produced }
}

#[test]
fn compressing_reader_finishes_when_source_is_empty() {
    let r = CompressorReaderState::new();
    assert_eq!(r.operation(0), Operation::Finish);
    assert_eq!(r.operation(10), Operation::Process);
}

#[test]
fn compressing_reader_eof_is_stable() {
    let mut r = CompressorReaderState::new();
    assert_eq!(r.start(), ReadStart::Proceed);
    assert_eq!(r.after_step(100, 64, step(100, 0), false), ReadOutcome::Retry);
    assert_eq!(r.after_step(0, 64, step(0, 12), false), ReadOutcome::Ready(12));
    assert_eq!(r.after_step(0, 64, step(0, 0), true), ReadOutcome::Ready(0));
    assert_eq!(r.phase(), Phase::Finished);
    assert_eq!(r.start(), ReadStart::Eof);
    assert_eq!(r.start(), ReadStart::Eof);
}

#[test]
fn compressing_reader_last_output_then_eof() {
    let mut r = CompressorReaderState::new();
    assert_eq!(r.after_step(0, 64, step(0, 7), true), ReadOutcome::Ready(7));
    assert_eq!(r.start(), ReadStart::Eof);
}

#[test]
fn compressing_reader_detects_stall() {
    let mut r = CompressorReaderState::new();
    assert_eq!(r.after_step(5, 64, step(0, 0), false), ReadOutcome::Fail(StreamFault::Stalled));
    assert_eq!(r.start(), ReadStart::Fail(StreamFault::Stalled));
}

#[test]
fn compressing_reader_empty_buffer_reads_nothing() {
    let mut r = CompressorReaderState::new();
    assert_eq!(r.after_step(5, 0, step(0, 0), false), ReadOutcome::Ready(0));
    assert_eq!(r.start(), ReadStart::Proceed);
}

#[test]
fn compressing_reader_refuses_overstep() {
    let mut r = CompressorReaderState::new();
    assert_eq!(
        r.after_step(5, 8, step(6, 0), false),
        ReadOutcome::Fail(StreamFault::EngineFault)
    );
}

#[test]
fn decompressing_reader_success_then_eof() {
    let mut r = DecompressorReaderState::new();
    assert_eq!(
        r.after_step(20, 64, step(20, 30), DecoderResult::NeedsMoreOutput),
        ReadOutcome::Ready(30)
    );
    assert_eq!(r.after_step(0, 64, step(0, 4), DecoderResult::Success), ReadOutcome::Ready(4));
    assert_eq!(r.start(), ReadStart::Eof);
    assert_eq!(r.start(), ReadStart::Eof);
}

#[test]
fn decompressing_reader_truncated_stream() {
    let mut r = DecompressorReaderState::new();
    assert_eq!(
        r.after_step(0, 64, step(0, 0), DecoderResult::NeedsMoreInput),
        ReadOutcome::Fail(StreamFault::Truncated)
    );
    assert_eq!(r.start(), ReadStart::Fail(StreamFault::Truncated));
}

#[test]
fn decompressing_reader_error_is_sticky() {
    let mut r = DecompressorReaderState::new();
    assert_eq!(
        r.after_step(3, 64, step(3, 0), DecoderResult::Error),
        ReadOutcome::Fail(StreamFault::Corrupt)
    );
    assert_eq!(r.start(), ReadStart::Fail(StreamFault::Corrupt));
    assert_eq!(r.start(), ReadStart::Fail(StreamFault::Corrupt));
}

#[test]
fn decompressing_reader_needs_more_input_retries() {
    let mut r = DecompressorReaderState::new();
    assert_eq!(
        r.after_step(9, 64, step(9, 0), DecoderResult::NeedsMoreInput),
        ReadOutcome::Retry
    );
    assert_eq!(r.phase(), Phase::Running);
}

#[test]
fn decoder_result_codes() {
    assert_eq!(DecoderResult::from_code(0), DecoderResult::Error);
    assert_eq!(DecoderResult::from_code(1), DecoderResult::Success);
    assert_eq!(DecoderResult::from_code(2), DecoderResult::NeedsMoreInput);
    assert_eq!(DecoderResult::from_code(3), DecoderResult::NeedsMoreOutput);
    assert_eq!(DecoderResult::from_code(7), DecoderResult::Error);
    assert_eq!(Operation::Finish.code(), brotlic_sys::BrotliEncoderOperation_BROTLI_OPERATION_FINISH);
    assert_eq!(Operation::Flush.code(), brotlic_sys::BrotliEncoderOperation_BROTLI_OPERATION_FLUSH);
    assert_eq!(
        Operation::Process.code(),
        brotlic_sys::BrotliEncoderOperation_BROTLI_OPERATION_PROCESS
    );
}

#[test]
fn decompressing_reader_output_ceiling() {
    let mut r = DecompressorReaderState::with_limit(Some(10));
    assert_eq!(r.remaining(), Some(10));
    assert_eq!(
        r.after_step(5, 64, step(5, 6), DecoderResult::NeedsMoreInput),
        ReadOutcome::Ready(6)
    );
    assert_eq!(r.remaining(), Some(4));
    assert_eq!(
        r.after_step(5, 64, step(5, 5), DecoderResult::NeedsMoreInput),
        ReadOutcome::Fail(StreamFault::OutputTooLarge)
    );
    assert_eq!(r.start(), ReadStart::Fail(StreamFault::OutputTooLarge));
}

#[test]
fn decompressing_reader_ceiling_reached_exactly() {
    let mut r = DecompressorReaderState::with_limit(Some(4));
    assert_eq!(r.after_step(5, 64, step(5, 4), DecoderResult::Success), ReadOutcome::Ready(4));
    assert_eq!(r.remaining(), Some(0));
    assert_eq!(r.start(), ReadStart::Eof);
}

#[test]
fn reader_fault_from_outside_is_sticky() {
    let mut r = CompressorReaderState::new();
    r.fail(StreamFault::EngineError);
    assert_eq!(r.start(), ReadStart::Fail(StreamFault::EngineError));
    let mut d = DecompressorReaderState::with_limit(Some(5));
    d.fail(StreamFault::EngineFault);
    assert_eq!(d.start(), ReadStart::Fail(StreamFault::EngineFault));
    assert_eq!(d.remaining(), Some(5));
}
