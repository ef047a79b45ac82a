use vstd::prelude::*;
use crate::params::Quality;

verus! {

/// An error returned by a one-shot compression: the output was too small, or
/// the encoder failed.
#[derive(Debug, Copy, Clone, PartialEq, Eq, Structural)]
pub struct CompressionError;

impl CompressionError {
    /// What went wrong, in words.
    pub fn message(&self) -> (r: &'static str)
        ensures
            r@ == "buffer was too small or compression error occurred"@,
    {
        "buffer was too small or compression error occurred"
    }
}

/// An error returned by a one-shot decompression: the output was too small, or
/// the input is not one complete compressed stream.
#[derive(Debug, Copy, Clone, PartialEq, Eq, Structural)]
pub struct DecompressionError;

impl DecompressionError {
    /// What went wrong, in words.
    pub fn message(&self) -> (r: &'static str)
        ensures
            r@ == "buffer was too small or decompression error occurred"@,
    {
        "buffer was too small or decompression error occurred"
    }
}

/// Input bytes per large block in the worst-case layout of a compressed stream.
pub const LARGE_BLOCK_BYTES: usize = 16384;

/// The largest size that compressing `n` bytes at quality 2 or more can take:
/// `n` bytes stored as uncompressed blocks, four header bytes per large block,
/// and six bytes of stream framing; an empty input takes two bytes. A size
/// that does not fit in `usize` is reported as 0.
pub open spec fn max_compressed_size(n: nat) -> nat {
    if n == 0 {
        2
    } else if n + 4 * (n / LARGE_BLOCK_BYTES as nat) + 6 <= usize::MAX {
        n + 4 * (n / LARGE_BLOCK_BYTES as nat) + 6
    } else {
        0
    }
}

/// An upper bound on the compressed size of `input_size` bytes at `quality`.
///
/// The bound is only defined for a quality of at least 2; below that `None` is
/// returned.
pub fn compress_bound(input_size: usize, quality: Quality) -> (r: Option<usize>)
    ensures
        quality.spec_value() >= 2 ==> r == Some(max_compressed_size(input_size as nat) as usize),
        quality.spec_value() < 2 ==> r.is_none(),
{
    if quality.value() < 2 {
        return None;
    }
    if input_size == 0 {
        return Some(2);
    }
    let large_blocks: usize = input_size / LARGE_BLOCK_BYTES;
    let overhead: usize = 4 * large_blocks + 6;
    if input_size <= usize::MAX - overhead {
        Some(input_size + overhead)
    } else {
        Some(0)
    }
}

/// What a one-shot compression into `capacity` bytes returns when the encoder
/// reports `accepted` and `written` bytes.
pub open spec fn compression_result(capacity: usize, accepted: bool, written: usize) -> Result<
    usize,
    CompressionError,
> {
    if accepted && 0 < written <= capacity {
        Ok(written)
    } else {
        Err(CompressionError)
    }
}

/// The result of a one-shot compression into an output of `capacity` bytes,
/// given what the encoder reported: whether it accepted the job, and how many
/// bytes it wrote.
///
/// A compressed stream is never empty and never longer than the output it was
/// written to, so a report of success that breaks either is an error too. In
/// particular an output of no bytes always gives an error.
pub fn compression_outcome(capacity: usize, accepted: bool, written: usize) -> (r: Result<
    usize,
    CompressionError,
>)
    ensures
        r == compression_result(capacity, accepted, written),
{
    if accepted && 0 < written && written <= capacity {
        Ok(written)
    } else {
        Err(CompressionError)
    }
}

/// The result code by which the native decoder reports success.
pub const DECODER_RESULT_SUCCESS: i32 = 1;

/// What a one-shot decompression into `capacity` bytes returns when the
/// decoder reports `result_code` and `written` bytes.
pub open spec fn decompression_result(capacity: usize, result_code: i32, written: usize) -> Result<
    usize,
    DecompressionError,
> {
    if result_code == DECODER_RESULT_SUCCESS && written <= capacity {
        Ok(written)
    } else {
        Err(DecompressionError)
    }
}

/// The result of a one-shot decompression into an output of `capacity` bytes,
/// given the decoder's result code and the number of bytes it wrote.
///
/// Only a report of success on a complete stream that fits the output gives
/// `Ok`; every other code is an error.
pub fn decompression_outcome(capacity: usize, result_code: i32, written: usize) -> (r: Result<
    usize,
    DecompressionError,
>)
    ensures
        r == decompression_result(capacity, result_code, written),
{
    if result_code == DECODER_RESULT_SUCCESS && written <= capacity {
        Ok(written)
    } else {
        Err(DecompressionError)
    }
}

/// Compressing into an output of no bytes fails, whatever the encoder reports.
pub proof fn lemma_empty_output_fails_compression(accepted: bool, written: usize)
    ensures
        compression_result(0, accepted, written) == Err::<usize, CompressionError>(
            CompressionError,
        ),
{
}

/// Decompressing into an output of no bytes fails, unless the decoder reports
/// a complete stream that decodes to nothing.
pub proof fn lemma_empty_output_fails_decompression(result_code: i32, written: usize)
    requires
        !(result_code == DECODER_RESULT_SUCCESS && written == 0),
    ensures
        decompression_result(0, result_code, written) == Err::<usize, DecompressionError>(
            DecompressionError,
        ),
{
}

/// The bound on compressed sizes is never below the input size, as long as it
/// fits in `usize`.
pub proof fn lemma_bound_covers_input(n: usize)
    requires
        n as nat + 4 * (n as nat / LARGE_BLOCK_BYTES as nat) + 6 <= usize::MAX,
    ensures
        max_compressed_size(n as nat) >= n as nat + 2,
{
}

} // verus!
