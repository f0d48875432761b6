//! The binding's error taxonomy and the translation of the native
//! functions' sentinel return value into typed results.
//!
//! The native compress and decompress entry points return an unsigned
//! byte count where the value [`OODLELZ_FAILED`] means the operation
//! failed (destination too small, corrupt input, unsupported
//! compressor/level combination).  The binding must never hand that
//! sentinel to a caller as if it were a legitimate byte count, so every
//! raw return value passes through [`check_compress_result`] or
//! [`check_decompress_result`], whose contracts say exactly when a byte
//! count comes out and when a typed failure does.

use vstd::prelude::*;

verus! {

/// Everything that can go wrong in the binding layer.
///
/// The four variants keep the four failures distinguishable, so a caller
/// can decide whether to supply a different module, retry with a larger
/// destination buffer, or treat its input as corrupt.  The two load-time
/// variants carry the loader's description of what failed.
pub enum Error {
    /// The native module could not be opened at all.
    LibLoadError(String),
    /// The module opened but lacks one of the three required exports.
    FunctionLoadError(String),
    /// The native compress entry point reported failure.
    CompressFailed,
    /// The native decompress entry point reported failure.
    DecompressFailed,
}

/// The value the native compress and decompress entry points return to
/// signal failure, distinct from every valid success byte count.
pub const OODLELZ_FAILED: usize = 0;

/// Translate the raw return value of the native compress entry point:
/// the failure sentinel becomes a typed error, anything else is the
/// number of bytes written to the destination.
pub fn check_compress_result(raw: usize) -> (r: Result<usize, Error>)
    ensures
        raw == OODLELZ_FAILED ==> r == Result::<usize, Error>::Err(Error::CompressFailed),
        raw != OODLELZ_FAILED ==> r == Result::<usize, Error>::Ok(raw),
{
    if raw == OODLELZ_FAILED {
        Err(Error::CompressFailed)
    } else {
        Ok(raw)
    }
}

/// Translate the raw return value of the native decompress entry point:
/// the failure sentinel becomes a typed error, anything else is the
/// number of bytes written to the destination.
pub fn check_decompress_result(raw: usize) -> (r: Result<usize, Error>)
    ensures
        raw == OODLELZ_FAILED ==> r == Result::<usize, Error>::Err(Error::DecompressFailed),
        raw != OODLELZ_FAILED ==> r == Result::<usize, Error>::Ok(raw),
{
    if raw == OODLELZ_FAILED {
        Err(Error::DecompressFailed)
    } else {
        Ok(raw)
    }
}

} // verus!
