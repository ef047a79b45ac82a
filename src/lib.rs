//! Brotli compression with verified parameter handling, one-shot result
//! interpretation and streaming adapter state machines.
//!
//! The codec itself is the native brotli engine. This crate holds the logic
//! around it: range-checked parameters, the engine options and the settings
//! they turn into, the bound on compressed sizes, how an engine's reported
//! outcome becomes a result, the staging region that sits between an engine
//! and a sink, and the decision that each of the four streaming adapters takes
//! after every engine call.

pub mod engine;
pub mod oneshot;
pub mod options;
pub mod params;
pub mod readers;
pub mod staging;
pub mod writers;

pub use engine::{DecoderResult, Operation, Phase, Step, StreamFault};
pub use oneshot::{
    compress_bound, compression_outcome, decompression_outcome, CompressionError,
    DecompressionError,
};
pub use options::{BrotliDecoderOptions, BrotliEncoderOptions, Setting};
pub use params::{
    BlockSize, BlockSizeError, CompressionMode, LargeWindowSize, LargeWindowSizeError,
    ParameterError, Quality, QualityError, WindowSize, WindowSizeError,
};
pub use readers::{CompressorReaderState, DecompressorReaderState, ReadOutcome, ReadStart};
pub use staging::Staging;
pub use writers::{CompressorWriterState, DecompressorWriterState, WriteOutcome, WriteStart};
