use vstd::prelude::*;
use vstd::std_specs::convert::FromSpec;
use vstd::std_specs::convert::TryFromSpec;

verus! {

/// Lowest encoder quality.
pub const MIN_QUALITY: u8 = 0;

/// Default encoder quality (the highest one).
pub const DEFAULT_QUALITY: u8 = 11;

/// Highest encoder quality.
pub const MAX_QUALITY: u8 = 11;

/// Smallest sliding window, in bits.
pub const MIN_WINDOW_BITS: u8 = 10;

/// Default sliding window, in bits.
pub const DEFAULT_WINDOW_BITS: u8 = 22;

/// Largest sliding window of the standard format, in bits.
pub const MAX_WINDOW_BITS: u8 = 24;

/// Largest sliding window of the large-window extension, in bits.
pub const LARGE_MAX_WINDOW_BITS: u8 = 30;

/// Smallest input block, in bits.
pub const MIN_INPUT_BLOCK_BITS: u8 = 16;

/// Largest input block, in bits.
pub const MAX_INPUT_BLOCK_BITS: u8 = 24;

/// Quality level of the compression: 0 favours speed, 11 favours ratio.
#[derive(Debug, Copy, Clone, PartialEq, Eq, Structural, PartialOrd, Ord)]
pub struct Quality(u8);

/// An error returned by [`Quality::new`].
#[derive(Debug, Copy, Clone, PartialEq, Eq, Structural)]
pub struct QualityError;

impl QualityError {
    /// What went wrong, in words.
    pub fn message(&self) -> (r: &'static str)
        ensures
            r@ == "quality out of range (must be between 0 and 11 inclusive)"@,
    {
        "quality out of range (must be between 0 and 11 inclusive)"
    }
}

impl Quality {
    /// The quality level as a number.
    pub closed spec fn spec_value(&self) -> u8 {
        self.0
    }

    /// Only qualities in the valid range exist.
    #[verifier::type_invariant]
    closed spec fn in_range(&self) -> bool {
        MIN_QUALITY <= self.0 <= MAX_QUALITY
    }

    /// Every quality lies in the valid range.
    pub open spec fn wf(&self) -> bool {
        MIN_QUALITY <= self.spec_value() <= MAX_QUALITY
    }

    /// Makes a quality from `value`, which must lie in 0..=11.
    pub fn new(value: u8) -> (r: Result<Quality, QualityError>)
        ensures
            MIN_QUALITY <= value <= MAX_QUALITY <==> r.is_ok(),
            r.is_ok() ==> r.unwrap().spec_value() == value,
    {
        if MIN_QUALITY <= value && value <= MAX_QUALITY {
            Ok(Quality(value))
        } else {
            Err(QualityError)
        }
    }

    /// The highest quality, which maximises the compression ratio.
    pub fn best() -> (r: Quality)
        ensures
            r.spec_value() == MAX_QUALITY,
    {
        Quality(MAX_QUALITY)
    }

    /// The default quality, currently the highest one.
    pub fn default() -> (r: Quality)
        ensures
            r.spec_value() == DEFAULT_QUALITY,
    {
        Quality(DEFAULT_QUALITY)
    }

    /// The lowest quality, which maximises speed.
    pub fn worst() -> (r: Quality)
        ensures
            r.spec_value() == MIN_QUALITY,
    {
        Quality(MIN_QUALITY)
    }

    /// The quality level as a number.
    #[verifier::when_used_as_spec(spec_value)]
    pub fn value(&self) -> (r: u8)
        ensures
            r == self.spec_value(),
            self.wf(),
    {
        proof {
            use_type_invariant(self);
        }
        self.0
    }
}

/// Two qualities with the same level are the same quality.
pub proof fn lemma_quality_eq(a: Quality, b: Quality)
    requires
        a.spec_value() == b.spec_value(),
    ensures
        a == b,
{
}

impl Default for Quality {
    fn default() -> (r: Quality)
        ensures
            r.spec_value() == DEFAULT_QUALITY,
    {
        Quality::default()
    }
}

/// The sliding window size, in bits, of the standard format: 10 (1 KiB) to
/// 24 (16 MiB).
#[derive(Debug, Copy, Clone, PartialEq, Eq, Structural, PartialOrd, Ord)]
pub struct WindowSize(u8);

/// An error returned by [`WindowSize::new`].
#[derive(Debug, Copy, Clone, PartialEq, Eq, Structural)]
pub struct WindowSizeError;

impl WindowSizeError {
    /// What went wrong, in words.
    pub fn message(&self) -> (r: &'static str)
        ensures
            r@ == "window size out of range (must be between 10 and 24 inclusive)"@,
    {
        "window size out of range (must be between 10 and 24 inclusive)"
    }
}

impl WindowSize {
    /// The window size in bits.
    pub closed spec fn spec_bits(&self) -> u8 {
        self.0
    }

    /// Only window sizes in the valid range exist.
    #[verifier::type_invariant]
    closed spec fn in_range(&self) -> bool {
        MIN_WINDOW_BITS <= self.0 <= MAX_WINDOW_BITS
    }

    /// Every window size lies in the valid range.
    pub open spec fn wf(&self) -> bool {
        MIN_WINDOW_BITS <= self.spec_bits() <= MAX_WINDOW_BITS
    }

    /// Makes a window size from `bits`, which must lie in 10..=24.
    pub fn new(bits: u8) -> (r: Result<WindowSize, WindowSizeError>)
        ensures
            MIN_WINDOW_BITS <= bits <= MAX_WINDOW_BITS <==> r.is_ok(),
            r.is_ok() ==> r.unwrap().spec_bits() == bits,
    {
        if MIN_WINDOW_BITS <= bits && bits <= MAX_WINDOW_BITS {
            Ok(WindowSize(bits))
        } else {
            Err(WindowSizeError)
        }
    }

    /// The largest window of the standard format, 24 bits.
    pub fn best() -> (r: WindowSize)
        ensures
            r.spec_bits() == MAX_WINDOW_BITS,
    {
        WindowSize(MAX_WINDOW_BITS)
    }

    /// The default window, 22 bits.
    pub fn default() -> (r: WindowSize)
        ensures
            r.spec_bits() == DEFAULT_WINDOW_BITS,
    {
        WindowSize(DEFAULT_WINDOW_BITS)
    }

    /// The smallest window, 10 bits.
    pub fn worst() -> (r: WindowSize)
        ensures
            r.spec_bits() == MIN_WINDOW_BITS,
    {
        WindowSize(MIN_WINDOW_BITS)
    }

    /// The window size in bits.
    #[verifier::when_used_as_spec(spec_bits)]
    pub fn bits(&self) -> (r: u8)
        ensures
            r == self.spec_bits(),
            self.wf(),
    {
        proof {
            use_type_invariant(self);
        }
        self.0
    }
}

/// Two window sizes with the same number of bits are the same.
pub proof fn lemma_window_size_eq(a: WindowSize, b: WindowSize)
    requires
        a.spec_bits() == b.spec_bits(),
    ensures
        a == b,
{
}

impl Default for WindowSize {
    fn default() -> (r: WindowSize)
        ensures
            r.spec_bits() == DEFAULT_WINDOW_BITS,
    {
        WindowSize::default()
    }
}

/// The sliding window size, in bits, of the large-window extension: 10 (1 KiB)
/// to 30 (1 GiB). A decoder must be told to accept such streams.
#[derive(Debug, Copy, Clone, PartialEq, Eq, Structural, PartialOrd, Ord)]
pub struct LargeWindowSize(u8);

/// An error returned by [`LargeWindowSize::new`].
#[derive(Debug, Copy, Clone, PartialEq, Eq, Structural)]
pub struct LargeWindowSizeError;

impl LargeWindowSizeError {
    /// What went wrong, in words.
    pub fn message(&self) -> (r: &'static str)
        ensures
            r@ == "large window size out of range (must be between 10 and 30 inclusive)"@,
    {
        "large window size out of range (must be between 10 and 30 inclusive)"
    }
}

impl LargeWindowSize {
    /// The window size in bits.
    pub closed spec fn spec_bits(&self) -> u8 {
        self.0
    }

    /// Only large window sizes in the valid range exist.
    #[verifier::type_invariant]
    closed spec fn in_range(&self) -> bool {
        MIN_WINDOW_BITS <= self.0 <= LARGE_MAX_WINDOW_BITS
    }

    /// Every large window size lies in the valid range.
    pub open spec fn wf(&self) -> bool {
        MIN_WINDOW_BITS <= self.spec_bits() <= LARGE_MAX_WINDOW_BITS
    }

    /// Makes a large window size from `bits`, which must lie in 10..=30.
    pub fn new(bits: u8) -> (r: Result<LargeWindowSize, LargeWindowSizeError>)
        ensures
            MIN_WINDOW_BITS <= bits <= LARGE_MAX_WINDOW_BITS <==> r.is_ok(),
            r.is_ok() ==> r.unwrap().spec_bits() == bits,
    {
        if MIN_WINDOW_BITS <= bits && bits <= LARGE_MAX_WINDOW_BITS {
            Ok(LargeWindowSize(bits))
        } else {
            Err(LargeWindowSizeError)
        }
    }

    /// The largest window, 30 bits.
    pub fn best() -> (r: LargeWindowSize)
        ensures
            r.spec_bits() == LARGE_MAX_WINDOW_BITS,
    {
        LargeWindowSize(LARGE_MAX_WINDOW_BITS)
    }

    /// The default window, 22 bits.
    pub fn default() -> (r: LargeWindowSize)
        ensures
            r.spec_bits() == DEFAULT_WINDOW_BITS,
    {
        LargeWindowSize(DEFAULT_WINDOW_BITS)
    }

    /// The smallest window, 10 bits.
    pub fn worst() -> (r: LargeWindowSize)
        ensures
            r.spec_bits() == MIN_WINDOW_BITS,
    {
        LargeWindowSize(MIN_WINDOW_BITS)
    }

    /// The window size in bits.
    #[verifier::when_used_as_spec(spec_bits)]
    pub fn bits(&self) -> (r: u8)
        ensures
            r == self.spec_bits(),
            self.wf(),
    {
        proof {
            use_type_invariant(self);
        }
        self.0
    }
}

/// Two large window sizes with the same number of bits are the same.
pub proof fn lemma_large_window_size_eq(a: LargeWindowSize, b: LargeWindowSize)
    requires
        a.spec_bits() == b.spec_bits(),
    ensures
        a == b,
{
}

impl Default for LargeWindowSize {
    fn default() -> (r: LargeWindowSize)
        ensures
            r.spec_bits() == DEFAULT_WINDOW_BITS,
    {
        LargeWindowSize::default()
    }
}

impl From<WindowSize> for LargeWindowSize {
    /// Every window size is a large window size of the same number of bits.
    fn from(window_size: WindowSize) -> (r: LargeWindowSize)
        ensures
            r.spec_bits() == window_size.spec_bits(),
    {
        proof {
            use_type_invariant(&window_size);
        }
        LargeWindowSize(window_size.0)
    }
}

impl vstd::std_specs::convert::FromSpecImpl<WindowSize> for LargeWindowSize {
    open spec fn obeys_from_spec() -> bool {
        true
    }

    closed spec fn from_spec(v: WindowSize) -> LargeWindowSize {
        LargeWindowSize(v.0)
    }
}

impl TryFrom<LargeWindowSize> for WindowSize {
    type Error = WindowSizeError;

    /// A large window size converts back only when it is at most 24 bits.
    fn try_from(large: LargeWindowSize) -> (r: Result<WindowSize, WindowSizeError>)
        ensures
            r.is_ok() <==> MIN_WINDOW_BITS <= large.spec_bits() <= MAX_WINDOW_BITS,
            r.is_ok() ==> r.unwrap().spec_bits() == large.spec_bits(),
    {
        if MIN_WINDOW_BITS <= large.0 && large.0 <= MAX_WINDOW_BITS {
            Ok(WindowSize(large.0))
        } else {
            Err(WindowSizeError)
        }
    }
}

impl vstd::std_specs::convert::TryFromSpecImpl<LargeWindowSize> for WindowSize {
    open spec fn obeys_try_from_spec() -> bool {
        true
    }

    closed spec fn try_from_spec(v: LargeWindowSize) -> Result<WindowSize, WindowSizeError> {
        if MIN_WINDOW_BITS <= v.0 <= MAX_WINDOW_BITS {
            Ok(WindowSize(v.0))
        } else {
            Err(WindowSizeError)
        }
    }
}

/// Converting a window size to a large one and back gives it back unchanged.
pub proof fn lemma_window_size_round_trip(w: WindowSize)
    requires
        w.wf(),
    ensures
        WindowSize::try_from_spec(LargeWindowSize::from_spec(w)) == Ok::<
            WindowSize,
            WindowSizeError,
        >(w),
{
}

/// A large window size converts to a window size exactly when it has at most
/// 24 bits, and then keeps its number of bits.
pub proof fn lemma_large_window_size_narrowing(l: LargeWindowSize)
    requires
        l.wf(),
    ensures
        WindowSize::try_from_spec(l).is_ok() <==> l.spec_bits() <= MAX_WINDOW_BITS,
        WindowSize::try_from_spec(l).is_ok() ==> WindowSize::try_from_spec(l).unwrap().spec_bits()
            == l.spec_bits(),
{
}

/// The recommended input block size, in bits: 16 to 24.
#[derive(Debug, Copy, Clone, PartialEq, Eq, Structural, PartialOrd, Ord)]
pub struct BlockSize(u8);

/// An error returned by [`BlockSize::new`].
#[derive(Debug, Copy, Clone, PartialEq, Eq, Structural)]
pub struct BlockSizeError;

impl BlockSizeError {
    /// What went wrong, in words.
    pub fn message(&self) -> (r: &'static str)
        ensures
            r@ == "block size out of range (must be between 16 and 24 inclusive)"@,
    {
        "block size out of range (must be between 16 and 24 inclusive)"
    }
}

impl BlockSize {
    /// The block size in bits.
    pub closed spec fn spec_bits(&self) -> u8 {
        self.0
    }

    /// Only block sizes in the valid range exist.
    #[verifier::type_invariant]
    closed spec fn in_range(&self) -> bool {
        MIN_INPUT_BLOCK_BITS <= self.0 <= MAX_INPUT_BLOCK_BITS
    }

    /// Every block size lies in the valid range.
    pub open spec fn wf(&self) -> bool {
        MIN_INPUT_BLOCK_BITS <= self.spec_bits() <= MAX_INPUT_BLOCK_BITS
    }

    /// Makes a block size from `bits`, which must lie in 16..=24.
    pub fn new(bits: u8) -> (r: Result<BlockSize, BlockSizeError>)
        ensures
            MIN_INPUT_BLOCK_BITS <= bits <= MAX_INPUT_BLOCK_BITS <==> r.is_ok(),
            r.is_ok() ==> r.unwrap().spec_bits() == bits,
    {
        if MIN_INPUT_BLOCK_BITS <= bits && bits <= MAX_INPUT_BLOCK_BITS {
            Ok(BlockSize(bits))
        } else {
            Err(BlockSizeError)
        }
    }

    /// The largest block, 24 bits.
    pub fn best() -> (r: BlockSize)
        ensures
            r.spec_bits() == MAX_INPUT_BLOCK_BITS,
    {
        BlockSize(MAX_INPUT_BLOCK_BITS)
    }

    /// The smallest block, 16 bits.
    pub fn worst() -> (r: BlockSize)
        ensures
            r.spec_bits() == MIN_INPUT_BLOCK_BITS,
    {
        BlockSize(MIN_INPUT_BLOCK_BITS)
    }

    /// The block size in bits.
    #[verifier::when_used_as_spec(spec_bits)]
    pub fn bits(&self) -> (r: u8)
        ensures
            r == self.spec_bits(),
            self.wf(),
    {
        proof {
            use_type_invariant(self);
        }
        self.0
    }
}

/// Two block sizes with the same number of bits are the same.
pub proof fn lemma_block_size_eq(a: BlockSize, b: BlockSize)
    requires
        a.spec_bits() == b.spec_bits(),
    ensures
        a == b,
{
}

/// Tunes the encoder for a kind of input.
#[derive(Debug, Copy, Clone, PartialEq, Eq, Structural)]
pub enum CompressionMode {
    /// Nothing is known of the input.
    Generic,
    /// UTF-8 text.
    Text,
    /// WOFF 2.0 fonts.
    Font,
}

impl CompressionMode {
    /// The number by which the native encoder knows the mode.
    pub open spec fn spec_code(&self) -> i32 {
        match self {
            CompressionMode::Generic => 0,
            CompressionMode::Text => 1,
            CompressionMode::Font => 2,
        }
    }

    /// The number by which the native encoder knows the mode.
    #[verifier::when_used_as_spec(spec_code)]
    pub fn code(&self) -> (r: i32)
        ensures
            r == self.spec_code(),
    {
        match self {
            CompressionMode::Generic => 0,
            CompressionMode::Text => 1,
            CompressionMode::Font => 2,
        }
    }
}

impl Default for CompressionMode {
    fn default() -> (r: CompressionMode)
        ensures
            r == CompressionMode::Generic,
    {
        CompressionMode::Generic
    }
}

/// Why an engine refused its options.
#[derive(Debug, Copy, Clone, PartialEq, Eq, Structural)]
pub enum ParameterError {
    /// The engine refused a parameter.
    Generic,
    /// The number of postfix bits is out of range.
    InvalidPostfix,
    /// The number of direct distance codes is out of range or not a valid step.
    InvalidDirectDistanceCodes,
    /// The stream offset is beyond its maximum.
    InvalidStreamOffset,
}

impl ParameterError {
    /// What went wrong, in words.
    pub fn message(&self) -> (r: &'static str)
        ensures
            r@ == (match self {
                ParameterError::Generic => "invalid parameter"@,
                ParameterError::InvalidPostfix => "invalid number of postfix bits"@,
                ParameterError::InvalidDirectDistanceCodes => "invalid number of direct distance codes"@,
                ParameterError::InvalidStreamOffset => "stream offset was out of range"@,
            }),
    {
        match self {
            ParameterError::Generic => "invalid parameter",
            ParameterError::InvalidPostfix => "invalid number of postfix bits",
            ParameterError::InvalidDirectDistanceCodes => "invalid number of direct distance codes",
            ParameterError::InvalidStreamOffset => "stream offset was out of range",
        }
    }
}

} // verus!
