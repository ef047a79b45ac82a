use brotlic::params::{
    DEFAULT_QUALITY, DEFAULT_WINDOW_BITS, LARGE_MAX_WINDOW_BITS, MAX_INPUT_BLOCK_BITS,
    MAX_QUALITY, MAX_WINDOW_BITS, MIN_INPUT_BLOCK_BITS, MIN_QUALITY, MIN_WINDOW_BITS,
};
use brotlic::{
    BlockSize, BlockSizeError, CompressionMode, LargeWindowSize, LargeWindowSizeError, Quality,
    QualityError, WindowSize, WindowSizeError,
};

#[test]
fn quality_bounds() {
    assert_eq!(Quality::new(0).unwrap(), Quality::worst());
    assert_eq!(Quality::new(11).unwrap(), Quality::best());
    assert_eq!(Quality::new(12), Err(QualityError));
    assert_eq!(Quality::new(255), Err(QualityError));
    assert_eq!(Quality::new(5).unwrap().value(), 5);
}

#[test]
fn quality_default_is_best() {
    assert_eq!(Quality::default(), Quality::best());
    assert_eq!(<Quality as Default>::default().value(), 11);
}

#[test]
fn window_size_bounds() {
    assert_eq!(WindowSize::new(10).unwrap(), WindowSize::worst());
    assert_eq!(WindowSize::new(24).unwrap(), WindowSize::best());
    assert_eq!(WindowSize::new(9), Err(WindowSizeError));
    assert_eq!(WindowSize::new(25), Err(WindowSizeError));
    assert_eq!(WindowSize::new(22).unwrap(), WindowSize::default());
    assert_eq!(<WindowSize as Default>::default().bits(), 22);
}

#[test]
fn large_window_size_bounds() {
    assert_eq!(LargeWindowSize::new(10).unwrap(), LargeWindowSize::worst());
    assert_eq!(LargeWindowSize::new(30).unwrap(), LargeWindowSize::best());
    assert_eq!(LargeWindowSize::new(31), Err(LargeWindowSizeError));
    assert_eq!(LargeWindowSize::new(9), Err(LargeWindowSizeError));
    assert_eq!(LargeWindowSize::new(22).unwrap(), LargeWindowSize::default());
}

#[test]
fn block_size_bounds() {
    assert_eq!(BlockSize::new(16).unwrap(), BlockSize::worst());
    assert_eq!(BlockSize::new(24).unwrap(), BlockSize::best());
    assert_eq!(BlockSize::new(15), Err(BlockSizeError));
    assert_eq!(BlockSize::new(25), Err(BlockSizeError));
}

#[test]
fn window_size_converts_both_ways() {
    let w = WindowSize::new(24).unwrap();
    let l = LargeWindowSize::from(w);
    assert_eq!(l.bits(), 24);
    assert_eq!(WindowSize::try_from(l), Ok(w));
    let w10 = WindowSize::worst();
    assert_eq!(WindowSize::try_from(LargeWindowSize::from(w10)), Ok(w10));
}

#[test]
fn large_window_size_beyond_standard_does_not_narrow() {
    let l = LargeWindowSize::new(25).unwrap();
    assert_eq!(WindowSize::try_from(l), Err(WindowSizeError));
    assert_eq!(WindowSize::try_from(LargeWindowSize::best()), Err(WindowSizeError));
}

#[test]
fn compression_mode_codes() {
    assert_eq!(CompressionMode::default(), CompressionMode::Generic);
    assert_eq!(CompressionMode::Generic.code(), brotlic_sys::BrotliEncoderMode_BROTLI_MODE_GENERIC);
    assert_eq!(CompressionMode::Text.code(), brotlic_sys::BrotliEncoderMode_BROTLI_MODE_TEXT);
    assert_eq!(CompressionMode::Font.code(), brotlic_sys::BrotliEncoderMode_BROTLI_MODE_FONT);
}

#[test]
fn limits_match_native_engine() {
    assert_eq!(MIN_QUALITY, brotlic_sys::BROTLI_MIN_QUALITY);
    assert_eq!(MAX_QUALITY, brotlic_sys::BROTLI_MAX_QUALITY);
    assert_eq!(DEFAULT_QUALITY, brotlic_sys::BROTLI_DEFAULT_QUALITY);
    assert_eq!(MIN_WINDOW_BITS, brotlic_sys::BROTLI_MIN_WINDOW_BITS);
    assert_eq!(MAX_WINDOW_BITS, brotlic_sys::BROTLI_MAX_WINDOW_BITS);
    assert_eq!(DEFAULT_WINDOW_BITS, brotlic_sys::BROTLI_DEFAULT_WINDOW);
    assert_eq!(LARGE_MAX_WINDOW_BITS, brotlic_sys::BROTLI_LARGE_MAX_WINDOW_BITS);
    assert_eq!(MIN_INPUT_BLOCK_BITS, brotlic_sys::BROTLI_MIN_INPUT_BLOCK_BITS);
    assert_eq!(MAX_INPUT_BLOCK_BITS, brotlic_sys::BROTLI_MAX_INPUT_BLOCK_BITS);
}

#[test]
fn error_messages() {
    assert_eq!(
        QualityError.message(),
        "quality out of range (must be between 0 and 11 inclusive)"
    );
    assert_eq!(
        WindowSizeError.message(),
        "window size out of range (must be between 10 and 24 inclusive)"
    );
    assert_eq!(
        LargeWindowSizeError.message(),
        "large window size out of range (must be between 10 and 30 inclusive)"
    );
    assert_eq!(
        BlockSizeError.message(),
        "block size out of range (must be between 16 and 24 inclusive)"
    );
    assert_eq!(
        brotlic::ParameterError::InvalidPostfix.message(),
        "invalid number of postfix bits"
    );
    assert_eq!(
        brotlic::CompressionError.message(),
        "buffer was too small or compression error occurred"
    );
}
