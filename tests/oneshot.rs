use brotlic::oneshot::DECODER_RESULT_SUCCESS;
use brotlic::{
    compress_bound, compression_outcome, decompression_outcome, CompressionError,
    DecompressionError, Quality,
};

#[test]
fn bound_is_undefined_below_quality_two() {
    assert_eq!(compress_bound(100, Quality::new(0).unwrap()), None);
    assert_eq!(compress_bound(100, Quality::new(1).unwrap()), None);
}

#[test]
fn bound_values() {
    let q = Quality::new(2).unwrap();
    assert_eq!(compress_bound(0, q), Some(2));
    assert_eq!(compress_bound(1, q), Some(7));
    assert_eq!(compress_bound(1024, Quality::best()), Some(1030));
    assert_eq!(compress_bound(16384, q), Some(16394));
    assert_eq!(compress_bound(8192, q), Some(8198));
}

#[test]
fn bound_that_does_not_fit_is_zero() {
    assert_eq!(compress_bound(usize::MAX, Quality::best()), Some(0));
}

#[test]
fn compression_into_empty_output_fails() {
    assert_eq!(compression_outcome(0, true, 0), Err(CompressionError));
    assert_eq!(compression_outcome(0, true, 1), Err(CompressionError));
}

#[test]
fn compression_outcome_values() {
    assert_eq!(compression_outcome(16, true, 9), Ok(9));
    assert_eq!(compression_outcome(16, false, 9), Err(CompressionError));
    assert_eq!(compression_outcome(8, true, 9), Err(CompressionError));
}

#[test]
fn decompression_outcome_values() {
    assert_eq!(DECODER_RESULT_SUCCESS, brotlic_sys::BrotliDecoderResult_BROTLI_DECODER_RESULT_SUCCESS);
    assert_eq!(decompression_outcome(1024, 1, 1024), Ok(1024));
    assert_eq!(decompression_outcome(1024, 0, 10), Err(DecompressionError));
    assert_eq!(decompression_outcome(1024, 3, 10), Err(DecompressionError));
    assert_eq!(decompression_outcome(4, 1, 10), Err(DecompressionError));
}

#[test]
fn decompressing_empty_stream_into_empty_output_succeeds() {
    assert_eq!(decompression_outcome(0, DECODER_RESULT_SUCCESS, 0), Ok(0));
    assert_eq!(decompression_outcome(0, 0, 0), Err(DecompressionError));
}
