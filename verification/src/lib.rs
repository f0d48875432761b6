//! A typed binding layer for the Oodle data-compression library.
//!
//! The compression algorithms themselves live in a precompiled native
//! module that is loaded at run time.  This crate holds everything about
//! that binding that can be stated and checked: the closed enumerations of
//! compressors and levels with their exact ABI codes, the names of the
//! three required exported symbols, the fixed safe defaults passed to every
//! decompress call, and the translation of the native functions' sentinel
//! return value into typed results.

mod abi;
mod error;
mod options;
mod symbols;

pub use abi::OodleCheckCrc;
pub use abi::OodleCompressionLevel;
pub use abi::OodleCompressor;
pub use abi::OodleDecodeThreadPhase;
pub use abi::OodleFuzzSafe;
pub use abi::OodleVerbosity;
pub use error::check_compress_result;
pub use error::check_decompress_result;
pub use error::Error;
pub use error::OODLELZ_FAILED;
pub use options::DecompressOptions;
pub use symbols::compress_symbol_name;
pub use symbols::decompress_symbol_name;
pub use symbols::get_compressed_buffer_size_needed_symbol_name;
