use brotlic::options::{
    DECODER_PARAM_LARGE_WINDOW, ENCODER_PARAM_LARGE_WINDOW, ENCODER_PARAM_LGBLOCK,
    ENCODER_PARAM_LGWIN, ENCODER_PARAM_MODE, ENCODER_PARAM_NDIRECT, ENCODER_PARAM_NPOSTFIX,
    ENCODER_PARAM_QUALITY, ENCODER_PARAM_STREAM_OFFSET,
};
use brotlic::{
    BlockSize, BrotliDecoderOptions, BrotliEncoderOptions, CompressionMode, LargeWindowSize,
    ParameterError, Quality, Setting, WindowSize,
};

fn s(param: i32, value: u32) -> Setting {
    Setting { param, value }
}

#[test]
fn empty_options_give_no_settings() {
    assert_eq!(BrotliEncoderOptions::new().settings(), Ok(vec![]));
    assert_eq!(BrotliDecoderOptions::new().settings(), vec![]);
}

#[test]
fn encoder_settings_in_order() {
    let o = BrotliEncoderOptions::new()
        .block_size(BlockSize::best())
        .quality(Quality::best())
        .window_size(WindowSize::best())
        .mode(CompressionMode::Text);
    assert_eq!(
        o.settings(),
        Ok(vec![
            s(ENCODER_PARAM_MODE, 1),
            s(ENCODER_PARAM_QUALITY, 11),
            s(ENCODER_PARAM_LGWIN, 24),
            s(ENCODER_PARAM_LGBLOCK, 24),
        ])
    );
}

#[test]
fn large_window_takes_the_place_of_window() {
    let o = BrotliEncoderOptions::new()
        .window_size(WindowSize::worst())
        .large_window_size(LargeWindowSize::best());
    assert_eq!(
        o.settings(),
        Ok(vec![s(ENCODER_PARAM_LARGE_WINDOW, 1), s(ENCODER_PARAM_LGWIN, 30)])
    );
}

#[test]
fn postfix_beyond_three_is_refused() {
    let o = BrotliEncoderOptions::new().postfix_bits(4);
    assert_eq!(o.settings(), Err(ParameterError::InvalidPostfix));
    let ok = BrotliEncoderOptions::new().postfix_bits(3);
    assert_eq!(ok.settings(), Ok(vec![s(ENCODER_PARAM_NPOSTFIX, 3)]));
}

#[test]
fn direct_distance_codes_must_fit_postfix() {
    let o = BrotliEncoderOptions::new().postfix_bits(2).direct_distance_codes(6);
    assert_eq!(o.settings(), Err(ParameterError::InvalidDirectDistanceCodes));
    let o = BrotliEncoderOptions::new().direct_distance_codes(16);
    assert_eq!(o.settings(), Err(ParameterError::InvalidDirectDistanceCodes));
    let o = BrotliEncoderOptions::new().postfix_bits(3).direct_distance_codes(128);
    assert_eq!(o.settings(), Err(ParameterError::InvalidDirectDistanceCodes));
    let o = BrotliEncoderOptions::new().postfix_bits(3).direct_distance_codes(120);
    assert_eq!(
        o.settings(),
        Ok(vec![s(ENCODER_PARAM_NPOSTFIX, 3), s(ENCODER_PARAM_NDIRECT, 120)])
    );
    let o = BrotliEncoderOptions::new().direct_distance_codes(15);
    assert_eq!(o.settings(), Ok(vec![s(ENCODER_PARAM_NDIRECT, 15)]));
}

#[test]
fn stream_offset_beyond_limit_is_refused() {
    let o = BrotliEncoderOptions::new().stream_offset((1 << 30) + 1);
    assert_eq!(o.settings(), Err(ParameterError::InvalidStreamOffset));
    let o = BrotliEncoderOptions::new().stream_offset(1 << 30);
    assert_eq!(o.settings(), Ok(vec![s(ENCODER_PARAM_STREAM_OFFSET, 1 << 30)]));
}

#[test]
fn decoder_settings_in_order() {
    let o = BrotliDecoderOptions::new()
        .non_std_window_size_support(true)
        .disable_ring_buffer_reallocation(false);
    assert_eq!(o.settings(), vec![s(0, 0), s(DECODER_PARAM_LARGE_WINDOW, 1)]);
}

#[test]
fn parameter_numbers_match_native_engine() {
    assert_eq!(ENCODER_PARAM_MODE, brotlic_sys::BrotliEncoderParameter_BROTLI_PARAM_MODE);
    assert_eq!(ENCODER_PARAM_QUALITY, brotlic_sys::BrotliEncoderParameter_BROTLI_PARAM_QUALITY);
    assert_eq!(ENCODER_PARAM_LGWIN, brotlic_sys::BrotliEncoderParameter_BROTLI_PARAM_LGWIN);
    assert_eq!(ENCODER_PARAM_LGBLOCK, brotlic_sys::BrotliEncoderParameter_BROTLI_PARAM_LGBLOCK);
    assert_eq!(
        ENCODER_PARAM_LARGE_WINDOW,
        brotlic_sys::BrotliEncoderParameter_BROTLI_PARAM_LARGE_WINDOW
    );
    assert_eq!(ENCODER_PARAM_NPOSTFIX, brotlic_sys::BrotliEncoderParameter_BROTLI_PARAM_NPOSTFIX);
    assert_eq!(ENCODER_PARAM_NDIRECT, brotlic_sys::BrotliEncoderParameter_BROTLI_PARAM_NDIRECT);
    assert_eq!(
        ENCODER_PARAM_STREAM_OFFSET,
        brotlic_sys::BrotliEncoderParameter_BROTLI_PARAM_STREAM_OFFSET
    );
    assert_eq!(
        DECODER_PARAM_LARGE_WINDOW,
        brotlic_sys::BrotliDecoderParameter_BROTLI_DECODER_PARAM_LARGE_WINDOW
    );
}

#[test]
fn output_limit_is_not_a_native_setting() {
    let o = BrotliDecoderOptions::new().output_limit(100);
    assert_eq!(o.output_limit, Some(100));
    assert_eq!(o.settings(), vec![]);
}
