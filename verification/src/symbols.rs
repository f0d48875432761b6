//! The exported symbol names the binding resolves in the native module.
//!
//! The three names are fixed string constants of the Oodle public
//! interface, not configurable.  Each function here returns one of them
//! and its contract pins the returned characters to the literal, so a
//! loader that resolves through these functions is known to ask for
//! exactly the required entry points.

use vstd::prelude::*;

verus! {

/// The exported name of the native compress entry point.
pub fn compress_symbol_name() -> (r: &'static str)
    ensures
        r@ == "OodleLZ_Compress"@,
{
    "OodleLZ_Compress"
}

/// The exported name of the native decompress entry point.
pub fn decompress_symbol_name() -> (r: &'static str)
    ensures
        r@ == "OodleLZ_Decompress"@,
{
    "OodleLZ_Decompress"
}

/// The exported name of the native buffer-size-query entry point.
pub fn get_compressed_buffer_size_needed_symbol_name() -> (r: &'static str)
    ensures
        r@ == "OodleLZ_GetCompressedBufferSizeNeeded"@,
{
    "OodleLZ_GetCompressedBufferSizeNeeded"
}

} // verus!
