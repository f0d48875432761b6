//! The closed enumerations that cross the native call boundary.
//!
//! The native module's calling convention identifies each choice by an
//! exact integer code.  Every enumeration here carries a spec-level code
//! and an executable `code` method proved to agree with it, so that the
//! value handed to the native call is pinned down by the contract.

use vstd::prelude::*;

verus! {

/// An algorithm family selector among the supported codecs.
#[derive(Clone, Copy, Debug, PartialEq, Eq, Structural)]
pub enum OodleCompressor {
    Kraken,
    Leviathan,
    Mermaid,
    Selkie,
    Hydra,
}

impl OodleCompressor {
    /// The exact integer code the native module uses for this compressor.
    pub open spec fn spec_code(self) -> int {
        match self {
            OodleCompressor::Kraken => 8,
            OodleCompressor::Leviathan => 13,
            OodleCompressor::Mermaid => 9,
            OodleCompressor::Selkie => 11,
            OodleCompressor::Hydra => 12,
        }
    }

    /// The ABI code to pass to the native call.
    pub fn code(self) -> (r: i32)
        ensures
            r == self.spec_code(),
    {
        match self {
            OodleCompressor::Kraken => 8,
            OodleCompressor::Leviathan => 13,
            OodleCompressor::Mermaid => 9,
            OodleCompressor::Selkie => 11,
            OodleCompressor::Hydra => 12,
        }
    }
}

/// A speed/ratio tradeoff setting for a given compressor.
///
/// The negative codes form the hyper-fast range, the non-negative codes
/// the normal-to-optimal range.
#[derive(Clone, Copy, Debug, PartialEq, Eq, Structural)]
pub enum OodleCompressionLevel {
    NoCompression,
    SuperFast,
    VeryFast,
    Fast,
    Normal,
    Optimal1,
    Optimal2,
    Optimal3,
    Optimal4,
    Optimal5,
    HyperFast1,
    HyperFast2,
    HyperFast3,
    HyperFast4,
}

impl OodleCompressionLevel {
    /// The exact integer code the native module uses for this level.
    pub open spec fn spec_code(self) -> int {
        match self {
            OodleCompressionLevel::NoCompression => 0,
            OodleCompressionLevel::SuperFast => 1,
            OodleCompressionLevel::VeryFast => 2,
            OodleCompressionLevel::Fast => 3,
            OodleCompressionLevel::Normal => 4,
            OodleCompressionLevel::Optimal1 => 5,
            OodleCompressionLevel::Optimal2 => 6,
            OodleCompressionLevel::Optimal3 => 7,
            OodleCompressionLevel::Optimal4 => 8,
            OodleCompressionLevel::Optimal5 => 9,
            OodleCompressionLevel::HyperFast1 => -1,
            OodleCompressionLevel::HyperFast2 => -2,
            OodleCompressionLevel::HyperFast3 => -3,
            OodleCompressionLevel::HyperFast4 => -4,
        }
    }

    /// The ABI code to pass to the native call.
    pub fn code(self) -> (r: i32)
        ensures
            r == self.spec_code(),
    {
        match self {
            OodleCompressionLevel::NoCompression => 0,
            OodleCompressionLevel::SuperFast => 1,
            OodleCompressionLevel::VeryFast => 2,
            OodleCompressionLevel::Fast => 3,
            OodleCompressionLevel::Normal => 4,
            OodleCompressionLevel::Optimal1 => 5,
            OodleCompressionLevel::Optimal2 => 6,
            OodleCompressionLevel::Optimal3 => 7,
            OodleCompressionLevel::Optimal4 => 8,
            OodleCompressionLevel::Optimal5 => 9,
            OodleCompressionLevel::HyperFast1 => -1,
            OodleCompressionLevel::HyperFast2 => -2,
            OodleCompressionLevel::HyperFast3 => -3,
            OodleCompressionLevel::HyperFast4 => -4,
        }
    }
}

/// Whether the native decoder defends against malformed compressed input.
#[derive(Clone, Copy, Debug, PartialEq, Eq, Structural)]
pub enum OodleFuzzSafe {
    No,
    Yes,
}

impl OodleFuzzSafe {
    /// The exact integer code the native module uses for this flag.
    pub open spec fn spec_code(self) -> int {
        match self {
            OodleFuzzSafe::No => 0,
            OodleFuzzSafe::Yes => 1,
        }
    }

    /// The ABI code to pass to the native call.
    pub fn code(self) -> (r: i32)
        ensures
            r == self.spec_code(),
    {
        match self {
            OodleFuzzSafe::No => 0,
            OodleFuzzSafe::Yes => 1,
        }
    }
}

/// Whether the native decoder verifies checksums of the compressed data.
#[derive(Clone, Copy, Debug, PartialEq, Eq, Structural)]
pub enum OodleCheckCrc {
    No,
    Yes,
}

impl OodleCheckCrc {
    /// The exact integer code the native module uses for this flag.
    pub open spec fn spec_code(self) -> int {
        match self {
            OodleCheckCrc::No => 0,
            OodleCheckCrc::Yes => 1,
        }
    }

    /// The ABI code to pass to the native call.
    pub fn code(self) -> (r: i32)
        ensures
            r == self.spec_code(),
    {
        match self {
            OodleCheckCrc::No => 0,
            OodleCheckCrc::Yes => 1,
        }
    }
}

/// How much diagnostic output the native decoder emits.
#[derive(Clone, Copy, Debug, PartialEq, Eq, Structural)]
pub enum OodleVerbosity {
    Silent,
    Minimal,
    Moderate,
    Lots,
}

impl OodleVerbosity {
    /// The exact integer code the native module uses for this level.
    pub open spec fn spec_code(self) -> int {
        match self {
            OodleVerbosity::Silent => 0,
            OodleVerbosity::Minimal => 1,
            OodleVerbosity::Moderate => 2,
            OodleVerbosity::Lots => 3,
        }
    }

    /// The ABI code to pass to the native call.
    pub fn code(self) -> (r: i32)
        ensures
            r == self.spec_code(),
    {
        match self {
            OodleVerbosity::Silent => 0,
            OodleVerbosity::Minimal => 1,
            OodleVerbosity::Moderate => 2,
            OodleVerbosity::Lots => 3,
        }
    }
}

/// Which phase of a pipelined decode the native call performs.
///
/// The codes are bitmaskable: the code for `All` is the union of the two
/// phase bits, meaning the whole decode happens in the one call.
#[derive(Clone, Copy, Debug, PartialEq, Eq, Structural)]
pub enum OodleDecodeThreadPhase {
    Phase1,
    Phase2,
    All,
}

impl OodleDecodeThreadPhase {
    /// The exact integer code the native module uses for this phase.
    pub open spec fn spec_code(self) -> int {
        match self {
            OodleDecodeThreadPhase::Phase1 => 1,
            OodleDecodeThreadPhase::Phase2 => 2,
            OodleDecodeThreadPhase::All => 3,
        }
    }

    /// The ABI code to pass to the native call.
    pub fn code(self) -> (r: i32)
        ensures
            r == self.spec_code(),
    {
        match self {
            OodleDecodeThreadPhase::Phase1 => 1,
            OodleDecodeThreadPhase::Phase2 => 2,
            OodleDecodeThreadPhase::All => 3,
        }
    }
}

} // verus!
