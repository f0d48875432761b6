//! The fixed parameters the binding passes to every decompress call.
//!
//! The native decompress entry point takes more knobs than the binding
//! exposes.  This module gathers the ones that are enumerations into one
//! options struct and fixes them to safe defaults: fuzz safety on, CRC
//! checking off, no diagnostic output, and the whole decode done in the
//! single call.  Callers of the binding cannot change them today; the
//! struct leaves room to expose them later without changing the call
//! shape.

use vstd::prelude::*;

use crate::abi::OodleCheckCrc;
use crate::abi::OodleDecodeThreadPhase;
use crate::abi::OodleFuzzSafe;
use crate::abi::OodleVerbosity;

verus! {

/// The enumeration-valued parameters of a native decompress call.
#[derive(Clone, Copy, Debug, PartialEq, Eq, Structural)]
pub struct DecompressOptions {
    /// Whether the decoder defends against malformed compressed input.
    pub fuzz_safe: OodleFuzzSafe,
    /// Whether the decoder verifies checksums of the compressed data.
    pub check_crc: OodleCheckCrc,
    /// How much diagnostic output the decoder emits.
    pub verbosity: OodleVerbosity,
    /// Which phase of the decode the call performs.
    pub thread_phase: OodleDecodeThreadPhase,
}

impl DecompressOptions {
    /// The safe defaults the binding fixes: defend against adversarial
    /// input, skip CRC checks, stay silent, decode everything in one
    /// call.
    pub open spec fn is_safe_defaults(self) -> bool {
        &&& self.fuzz_safe is Yes
        &&& self.check_crc is No
        &&& self.verbosity is Silent
        &&& self.thread_phase is All
    }

    /// Build the options every decompress call uses.
    pub fn safe_defaults() -> (r: DecompressOptions)
        ensures
            r.is_safe_defaults(),
    {
        DecompressOptions {
            fuzz_safe: OodleFuzzSafe::Yes,
            check_crc: OodleCheckCrc::No,
            verbosity: OodleVerbosity::Silent,
            thread_phase: OodleDecodeThreadPhase::All,
        }
    }
}

} // verus!
