use oodle::check_compress_result;
use oodle::check_decompress_result;
use oodle::compress_symbol_name;
use oodle::decompress_symbol_name;
use oodle::get_compressed_buffer_size_needed_symbol_name;
use oodle::DecompressOptions;
use oodle::Error;
use oodle::OodleCheckCrc;
use oodle::OodleCompressionLevel;
use oodle::OodleCompressor;
use oodle::OodleDecodeThreadPhase;
use oodle::OodleFuzzSafe;
use oodle::OodleVerbosity;
use oodle::OODLELZ_FAILED;

#[test]
fn compressor_codes_match_the_native_abi() {
    assert_eq!(OodleCompressor::Kraken.code(), 8);
    assert_eq!(OodleCompressor::Leviathan.code(), 13);
    assert_eq!(OodleCompressor::Mermaid.code(), 9);
    assert_eq!(OodleCompressor::Selkie.code(), 11);
    assert_eq!(OodleCompressor::Hydra.code(), 12);
}

#[test]
fn level_codes_match_the_native_abi() {
    assert_eq!(OodleCompressionLevel::NoCompression.code(), 0);
    assert_eq!(OodleCompressionLevel::SuperFast.code(), 1);
    assert_eq!(OodleCompressionLevel::VeryFast.code(), 2);
    assert_eq!(OodleCompressionLevel::Fast.code(), 3);
    assert_eq!(OodleCompressionLevel::Normal.code(), 4);
    assert_eq!(OodleCompressionLevel::Optimal1.code(), 5);
    assert_eq!(OodleCompressionLevel::Optimal2.code(), 6);
    assert_eq!(OodleCompressionLevel::Optimal3.code(), 7);
    assert_eq!(OodleCompressionLevel::Optimal4.code(), 8);
    assert_eq!(OodleCompressionLevel::Optimal5.code(), 9);
    assert_eq!(OodleCompressionLevel::HyperFast1.code(), -1);
    assert_eq!(OodleCompressionLevel::HyperFast2.code(), -2);
    assert_eq!(OodleCompressionLevel::HyperFast3.code(), -3);
    assert_eq!(OodleCompressionLevel::HyperFast4.code(), -4);
}

#[test]
fn flag_codes_match_the_native_abi() {
    assert_eq!(OodleFuzzSafe::No.code(), 0);
    assert_eq!(OodleFuzzSafe::Yes.code(), 1);
    assert_eq!(OodleCheckCrc::No.code(), 0);
    assert_eq!(OodleCheckCrc::Yes.code(), 1);
    assert_eq!(OodleVerbosity::Silent.code(), 0);
    assert_eq!(OodleVerbosity::Minimal.code(), 1);
    assert_eq!(OodleVerbosity::Moderate.code(), 2);
    assert_eq!(OodleVerbosity::Lots.code(), 3);
    assert_eq!(OodleDecodeThreadPhase::Phase1.code(), 1);
    assert_eq!(OodleDecodeThreadPhase::Phase2.code(), 2);
    assert_eq!(OodleDecodeThreadPhase::All.code(), 3);
}

#[test]
fn the_three_required_export_names() {
    assert_eq!(compress_symbol_name(), "OodleLZ_Compress");
    assert_eq!(decompress_symbol_name(), "OodleLZ_Decompress");
    assert_eq!(
        get_compressed_buffer_size_needed_symbol_name(),
        "OodleLZ_GetCompressedBufferSizeNeeded"
    );
}

#[test]
fn decompress_defaults_are_the_safe_ones() {
    let opts = DecompressOptions::safe_defaults();
    assert_eq!(opts.fuzz_safe, OodleFuzzSafe::Yes);
    assert_eq!(opts.check_crc, OodleCheckCrc::No);
    assert_eq!(opts.verbosity, OodleVerbosity::Silent);
    assert_eq!(opts.thread_phase, OodleDecodeThreadPhase::All);
}

#[test]
fn compress_sentinel_becomes_a_typed_failure() {
    assert_eq!(OODLELZ_FAILED, 0);
    assert!(matches!(
        check_compress_result(OODLELZ_FAILED),
        Err(Error::CompressFailed)
    ));
}

#[test]
fn compress_byte_counts_pass_through_unchanged() {
    assert!(matches!(check_compress_result(1), Ok(1)));
    assert!(matches!(check_compress_result(4723), Ok(4723)));
    assert!(matches!(check_compress_result(usize::MAX), Ok(usize::MAX)));
}

#[test]
fn decompress_sentinel_becomes_a_typed_failure() {
    assert!(matches!(
        check_decompress_result(OODLELZ_FAILED),
        Err(Error::DecompressFailed)
    ));
}

#[test]
fn decompress_byte_counts_pass_through_unchanged() {
    assert!(matches!(check_decompress_result(1), Ok(1)));
    assert!(matches!(check_decompress_result(10000), Ok(10000)));
}

#[test]
fn the_two_call_failures_are_distinguishable() {
    let c = check_compress_result(OODLELZ_FAILED);
    let d = check_decompress_result(OODLELZ_FAILED);
    assert!(!matches!(c, Err(Error::DecompressFailed)));
    assert!(!matches!(d, Err(Error::CompressFailed)));
}

#[test]
fn load_failures_are_distinguishable() {
    let open_failed = Error::LibLoadError(String::from("no such file"));
    let symbol_missing = Error::FunctionLoadError(String::from("undefined symbol"));
    assert!(matches!(open_failed, Error::LibLoadError(_)));
    assert!(!matches!(open_failed, Error::FunctionLoadError(_)));
    assert!(matches!(symbol_missing, Error::FunctionLoadError(_)));
    assert!(!matches!(symbol_missing, Error::LibLoadError(_)));
}
