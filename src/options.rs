use vstd::prelude::*;
use crate::params::{BlockSize, CompressionMode, LargeWindowSize, ParameterError, Quality, WindowSize};

verus! {

/// Native encoder parameter: the compression mode.
pub const ENCODER_PARAM_MODE: i32 = 0;
/// Native encoder parameter: the quality.
pub const ENCODER_PARAM_QUALITY: i32 = 1;
/// Native encoder parameter: the sliding window, in bits.
pub const ENCODER_PARAM_LGWIN: i32 = 2;
/// Native encoder parameter: the input block, in bits.
pub const ENCODER_PARAM_LGBLOCK: i32 = 3;
/// Native encoder parameter: switch off literal context modeling.
pub const ENCODER_PARAM_DISABLE_LITERAL_CONTEXT_MODELING: i32 = 4;
/// Native encoder parameter: the expected input size.
pub const ENCODER_PARAM_SIZE_HINT: i32 = 5;
/// Native encoder parameter: allow windows beyond the standard format.
pub const ENCODER_PARAM_LARGE_WINDOW: i32 = 6;
/// Native encoder parameter: the number of postfix bits.
pub const ENCODER_PARAM_NPOSTFIX: i32 = 7;
/// Native encoder parameter: the number of direct distance codes.
pub const ENCODER_PARAM_NDIRECT: i32 = 8;
/// Native encoder parameter: the offset of the stream in a larger one.
pub const ENCODER_PARAM_STREAM_OFFSET: i32 = 9;

/// Native decoder parameter: keep the ring buffer at its first size.
pub const DECODER_PARAM_DISABLE_RING_BUFFER_REALLOCATION: i32 = 0;
/// Native decoder parameter: accept windows beyond the standard format.
pub const DECODER_PARAM_LARGE_WINDOW: i32 = 1;

/// Largest number of postfix bits.
pub const MAX_NPOSTFIX: u32 = 3;
/// Largest number of direct distance codes.
pub const MAX_NDIRECT: u32 = 120;
/// Largest stream offset.
pub const MAX_STREAM_OFFSET: u32 = 1073741824;

/// One parameter to hand to a native engine before its first use.
#[derive(Debug, Copy, Clone, PartialEq, Eq, Structural)]
pub struct Setting {
    /// The native parameter number.
    pub param: i32,
    /// Its value.
    pub value: u32,
}

/// The one setting `(param, value)` when `present`, else nothing.
pub open spec fn setting_if(present: bool, param: i32, value: u32) -> Seq<Setting> {
    if present {
        seq![Setting { param, value }]
    } else {
        Seq::empty()
    }
}

fn push_if(v: &mut Vec<Setting>, present: bool, param: i32, value: u32)
    ensures
        final(v)@ == old(v)@ + setting_if(present, param, value),
{
    if present {
        v.push(Setting { param, value });
        assert(final(v)@ =~= old(v)@ + setting_if(present, param, value));
    } else {
        assert(old(v)@ + setting_if(present, param, value) =~= old(v)@);
    }
}

/// `2` to the power `postfix`, for the postfix bits the format allows.
pub open spec fn postfix_step(postfix: u32) -> u32 {
    if postfix == 0 {
        1
    } else if postfix == 1 {
        2
    } else if postfix == 2 {
        4
    } else {
        8
    }
}

/// Whether `ndirect` direct distance codes fit `postfix` postfix bits: a
/// multiple of `2^postfix` of at most fifteen such steps, and at most 120.
pub open spec fn direct_codes_fit(ndirect: u32, postfix: u32) -> bool {
    &&& ndirect <= MAX_NDIRECT
    &&& ndirect % postfix_step(postfix) == 0
    &&& ndirect / postfix_step(postfix) <= 15
}

/// The options of a compression engine. An option left unset keeps the
/// engine's default.
#[derive(Debug, PartialEq, Eq, Structural)]
pub struct BrotliEncoderOptions {
    /// The kind of input to tune for.
    pub mode: Option<CompressionMode>,
    /// The quality.
    pub quality: Option<Quality>,
    /// The sliding window of the standard format.
    pub window_size: Option<WindowSize>,
    /// A sliding window of the large-window extension; it takes the place of
    /// `window_size`.
    pub large_window_size: Option<LargeWindowSize>,
    /// The input block.
    pub block_size: Option<BlockSize>,
    /// Whether literal context modeling is switched off.
    pub disable_context_modeling: Option<bool>,
    /// The expected input size.
    pub size_hint: Option<u32>,
    /// The number of postfix bits.
    pub postfix_bits: Option<u32>,
    /// The number of direct distance codes.
    pub direct_distance_codes: Option<u32>,
    /// The offset of the stream in a larger one.
    pub stream_offset: Option<u32>,
}

/// Why the engine would refuse `o`, if it would: postfix bits beyond three,
/// direct distance codes that do not fit the postfix bits (none set counts as
/// zero), or a stream offset beyond 2^30.
pub open spec fn encoder_options_check(o: BrotliEncoderOptions) -> Result<(), ParameterError> {
    let postfix = match o.postfix_bits {
        Some(p) => p,
        None => 0,
    };
    if postfix > MAX_NPOSTFIX {
        Err(ParameterError::InvalidPostfix)
    } else if o.direct_distance_codes.is_some() && !direct_codes_fit(
        o.direct_distance_codes.unwrap(),
        postfix,
    ) {
        Err(ParameterError::InvalidDirectDistanceCodes)
    } else if o.stream_offset.is_some() && o.stream_offset.unwrap() > MAX_STREAM_OFFSET {
        Err(ParameterError::InvalidStreamOffset)
    } else {
        Ok(())
    }
}

/// The settings that put `o` into an engine, in this order: mode, quality,
/// window (with the large-window switch when a large window is set), block,
/// context modeling, size hint, postfix bits, direct distance codes, stream
/// offset.
pub open spec fn encoder_settings(o: BrotliEncoderOptions) -> Seq<Setting> {
    Seq::empty() + setting_if(
        o.mode.is_some(),
        ENCODER_PARAM_MODE,
        o.mode.unwrap().spec_code() as u32,
    ) + setting_if(
        o.quality.is_some(),
        ENCODER_PARAM_QUALITY,
        o.quality.unwrap().spec_value() as u32,
    ) + setting_if(o.large_window_size.is_some(), ENCODER_PARAM_LARGE_WINDOW, 1) + setting_if(
        o.large_window_size.is_some() || o.window_size.is_some(),
        ENCODER_PARAM_LGWIN,
        if o.large_window_size.is_some() {
            o.large_window_size.unwrap().spec_bits() as u32
        } else {
            o.window_size.unwrap().spec_bits() as u32
        },
    ) + setting_if(
        o.block_size.is_some(),
        ENCODER_PARAM_LGBLOCK,
        o.block_size.unwrap().spec_bits() as u32,
    ) + setting_if(
        o.disable_context_modeling.is_some(),
        ENCODER_PARAM_DISABLE_LITERAL_CONTEXT_MODELING,
        if o.disable_context_modeling == Some(true) {
            1
        } else {
            0
        },
    ) + setting_if(o.size_hint.is_some(), ENCODER_PARAM_SIZE_HINT, o.size_hint.unwrap())
        + setting_if(o.postfix_bits.is_some(), ENCODER_PARAM_NPOSTFIX, o.postfix_bits.unwrap())
        + setting_if(
        o.direct_distance_codes.is_some(),
        ENCODER_PARAM_NDIRECT,
        o.direct_distance_codes.unwrap(),
    ) + setting_if(
        o.stream_offset.is_some(),
        ENCODER_PARAM_STREAM_OFFSET,
        o.stream_offset.unwrap(),
    )
}

impl BrotliEncoderOptions {
    /// Options with nothing set.
    pub fn new() -> (r: BrotliEncoderOptions)
        ensures
            r == (BrotliEncoderOptions {
                mode: None,
                quality: None,
                window_size: None,
                large_window_size: None,
                block_size: None,
                disable_context_modeling: None,
                size_hint: None,
                postfix_bits: None,
                direct_distance_codes: None,
                stream_offset: None,
            }),
    {
        BrotliEncoderOptions {
            mode: None,
            quality: None,
            window_size: None,
            large_window_size: None,
            block_size: None,
            disable_context_modeling: None,
            size_hint: None,
            postfix_bits: None,
            direct_distance_codes: None,
            stream_offset: None,
        }
    }

    /// Sets the compression mode.
    pub fn mode(self, mode: CompressionMode) -> (r: BrotliEncoderOptions)
        ensures
            r == (BrotliEncoderOptions { mode: Some(mode), ..self }),
    {
        BrotliEncoderOptions { mode: Some(mode), ..self }
    }

    /// Sets the quality.
    pub fn quality(self, quality: Quality) -> (r: BrotliEncoderOptions)
        ensures
            r == (BrotliEncoderOptions { quality: Some(quality), ..self }),
    {
        BrotliEncoderOptions { quality: Some(quality), ..self }
    }

    /// Sets the sliding window of the standard format.
    pub fn window_size(self, window_size: WindowSize) -> (r: BrotliEncoderOptions)
        ensures
            r == (BrotliEncoderOptions { window_size: Some(window_size), ..self }),
    {
        BrotliEncoderOptions { window_size: Some(window_size), ..self }
    }

    /// Sets a sliding window of the large-window extension.
    pub fn large_window_size(self, large_window_size: LargeWindowSize) -> (r: BrotliEncoderOptions)
        ensures
            r == (BrotliEncoderOptions { large_window_size: Some(large_window_size), ..self }),
    {
        BrotliEncoderOptions { large_window_size: Some(large_window_size), ..self }
    }

    /// Sets the input block.
    pub fn block_size(self, block_size: BlockSize) -> (r: BrotliEncoderOptions)
        ensures
            r == (BrotliEncoderOptions { block_size: Some(block_size), ..self }),
    {
        BrotliEncoderOptions { block_size: Some(block_size), ..self }
    }

    /// Switches literal context modeling off or on.
    pub fn disable_context_modeling(self, disable: bool) -> (r: BrotliEncoderOptions)
        ensures
            r == (BrotliEncoderOptions { disable_context_modeling: Some(disable), ..self }),
    {
        BrotliEncoderOptions { disable_context_modeling: Some(disable), ..self }
    }

    /// Sets the expected input size.
    pub fn size_hint(self, size_hint: u32) -> (r: BrotliEncoderOptions)
        ensures
            r == (BrotliEncoderOptions { size_hint: Some(size_hint), ..self }),
    {
        BrotliEncoderOptions { size_hint: Some(size_hint), ..self }
    }

    /// Sets the number of postfix bits.
    pub fn postfix_bits(self, bits: u32) -> (r: BrotliEncoderOptions)
        ensures
            r == (BrotliEncoderOptions { postfix_bits: Some(bits), ..self }),
    {
        BrotliEncoderOptions { postfix_bits: Some(bits), ..self }
    }

    /// Sets the number of direct distance codes.
    pub fn direct_distance_codes(self, codes: u32) -> (r: BrotliEncoderOptions)
        ensures
            r == (BrotliEncoderOptions { direct_distance_codes: Some(codes), ..self }),
    {
        BrotliEncoderOptions { direct_distance_codes: Some(codes), ..self }
    }

    /// Sets the offset of the stream in a larger one.
    pub fn stream_offset(self, offset: u32) -> (r: BrotliEncoderOptions)
        ensures
            r == (BrotliEncoderOptions { stream_offset: Some(offset), ..self }),
    {
        BrotliEncoderOptions { stream_offset: Some(offset), ..self }
    }

    /// Checks the options against each other and, when they hold, gives the
    /// settings to hand to a fresh engine. The options are used up.
    pub fn settings(self) -> (r: Result<Vec<Setting>, ParameterError>)
        ensures
            r.is_ok() <==> encoder_options_check(self) == Ok::<(), ParameterError>(()),
            r matches Err(e) ==> encoder_options_check(self) == Err::<(), ParameterError>(e),
            r matches Ok(v) ==> v@ == encoder_settings(self),
    {
        let postfix: u32 = match self.postfix_bits {
            Some(p) => p,
            None => 0,
        };
        if postfix > MAX_NPOSTFIX {
            return Err(ParameterError::InvalidPostfix);
        }
        if let Some(n) = self.direct_distance_codes {
            let step: u32 = if postfix == 0 {
                1
            } else if postfix == 1 {
                2
            } else if postfix == 2 {
                4
            } else {
                8
            };
            if !(n <= MAX_NDIRECT && n % step == 0 && n / step <= 15) {
                return Err(ParameterError::InvalidDirectDistanceCodes);
            }
        }
        if let Some(s) = self.stream_offset {
            if s > MAX_STREAM_OFFSET {
                return Err(ParameterError::InvalidStreamOffset);
            }
        }
        let mut v: Vec<Setting> = Vec::new();
        let mode_code: u32 = match self.mode {
            Some(m) => m.code() as u32,
            None => 0,
        };
        push_if(&mut v, self.mode.is_some(), ENCODER_PARAM_MODE, mode_code);
        let quality: u32 = match self.quality {
            Some(q) => q.value() as u32,
            None => 0,
        };
        push_if(&mut v, self.quality.is_some(), ENCODER_PARAM_QUALITY, quality);
        push_if(&mut v, self.large_window_size.is_some(), ENCODER_PARAM_LARGE_WINDOW, 1);
        let window: u32 = match self.large_window_size {
            Some(l) => l.bits() as u32,
            None => match self.window_size {
                Some(w) => w.bits() as u32,
                None => 0,
            },
        };
        push_if(
            &mut v,
            self.large_window_size.is_some() || self.window_size.is_some(),
            ENCODER_PARAM_LGWIN,
            window,
        );
        let block: u32 = match self.block_size {
            Some(b) => b.bits() as u32,
            None => 0,
        };
        push_if(&mut v, self.block_size.is_some(), ENCODER_PARAM_LGBLOCK, block);
        let disable: u32 = match self.disable_context_modeling {
            Some(true) => 1,
            _ => 0,
        };
        push_if(
            &mut v,
            self.disable_context_modeling.is_some(),
            ENCODER_PARAM_DISABLE_LITERAL_CONTEXT_MODELING,
            disable,
        );
        let hint: u32 = match self.size_hint {
            Some(h) => h,
            None => 0,
        };
        push_if(&mut v, self.size_hint.is_some(), ENCODER_PARAM_SIZE_HINT, hint);
        push_if(&mut v, self.postfix_bits.is_some(), ENCODER_PARAM_NPOSTFIX, postfix);
        let ndirect: u32 = match self.direct_distance_codes {
            Some(n) => n,
            None => 0,
        };
        push_if(&mut v, self.direct_distance_codes.is_some(), ENCODER_PARAM_NDIRECT, ndirect);
        let offset: u32 = match self.stream_offset {
            Some(s) => s,
            None => 0,
        };
        push_if(&mut v, self.stream_offset.is_some(), ENCODER_PARAM_STREAM_OFFSET, offset);
        Ok(v)
    }
}

/// The options of a decompression engine. An option left unset keeps the
/// engine's default.
#[derive(Debug, PartialEq, Eq, Structural)]
pub struct BrotliDecoderOptions {
    /// Whether the ring buffer keeps its first size.
    pub disable_ring_buffer_reallocation: Option<bool>,
    /// Whether streams with windows beyond the standard format are accepted.
    pub non_std_window_size_support: Option<bool>,
    /// The most bytes a stream may decode to; decoding beyond it fails. This
    /// is kept by the adapters, not handed to the engine.
    pub output_limit: Option<u64>,
}

/// The number a native engine takes for `b`.
pub open spec fn flag(b: bool) -> u32 {
    if b {
        1
    } else {
        0
    }
}

/// The settings that put `o` into a decoder: ring buffer reallocation, then
/// large windows.
pub open spec fn decoder_settings(o: BrotliDecoderOptions) -> Seq<Setting> {
    Seq::empty() + setting_if(
        o.disable_ring_buffer_reallocation.is_some(),
        DECODER_PARAM_DISABLE_RING_BUFFER_REALLOCATION,
        flag(o.disable_ring_buffer_reallocation.unwrap()),
    ) + setting_if(
        o.non_std_window_size_support.is_some(),
        DECODER_PARAM_LARGE_WINDOW,
        flag(o.non_std_window_size_support.unwrap()),
    )
}

impl BrotliDecoderOptions {
    /// Options with nothing set.
    pub fn new() -> (r: BrotliDecoderOptions)
        ensures
            r == (BrotliDecoderOptions {
                disable_ring_buffer_reallocation: None,
                non_std_window_size_support: None,
                output_limit: None,
            }),
    {
        BrotliDecoderOptions {
            disable_ring_buffer_reallocation: None,
            non_std_window_size_support: None,
            output_limit: None,
        }
    }

    /// Lets a stream decode to at most `limit` bytes.
    pub fn output_limit(self, limit: u64) -> (r: BrotliDecoderOptions)
        ensures
            r == (BrotliDecoderOptions { output_limit: Some(limit), ..self }),
    {
        BrotliDecoderOptions { output_limit: Some(limit), ..self }
    }

    /// Keeps the ring buffer at its first size, or lets it grow.
    pub fn disable_ring_buffer_reallocation(self, disable: bool) -> (r: BrotliDecoderOptions)
        ensures
            r == (BrotliDecoderOptions { disable_ring_buffer_reallocation: Some(disable), ..self }),
    {
        BrotliDecoderOptions { disable_ring_buffer_reallocation: Some(disable), ..self }
    }

    /// Accepts streams with windows beyond the standard format, or not.
    pub fn non_std_window_size_support(self, support: bool) -> (r: BrotliDecoderOptions)
        ensures
            r == (BrotliDecoderOptions { non_std_window_size_support: Some(support), ..self }),
    {
        BrotliDecoderOptions { non_std_window_size_support: Some(support), ..self }
    }

    /// The settings to hand to a fresh decoder. The options are used up.
    pub fn settings(self) -> (r: Vec<Setting>)
        ensures
            r@ == decoder_settings(self),
    {
        let mut v: Vec<Setting> = Vec::new();
        let ring: u32 = match self.disable_ring_buffer_reallocation {
            Some(true) => 1,
            _ => 0,
        };
        push_if(
            &mut v,
            self.disable_ring_buffer_reallocation.is_some(),
            DECODER_PARAM_DISABLE_RING_BUFFER_REALLOCATION,
            ring,
        );
        let large: u32 = match self.non_std_window_size_support {
            Some(true) => 1,
            _ => 0,
        };
        push_if(&mut v, self.non_std_window_size_support.is_some(), DECODER_PARAM_LARGE_WINDOW, large);
        v
    }
}

} // verus!
