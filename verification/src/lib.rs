//! Isolation runtime support for foreign (native) functions embedded in a
//! kernel on a 32-bit RISC-V microcontroller with a PMP-style memory
//! protection unit.
//!
//! The crate covers the computational core of the runtime: locating and
//! validating the foreign binary's header, the allocation tracker that
//! decides pointer validity, the stack-managed allocator for foreign-visible
//! memory, capability scopes, callback descriptors, and the classification
//! and encoding of traps raised while foreign code runs.  The
//! architecture-specific trampoline and the hardware MPU itself are outside
//! what this crate can execute; their decisions are modelled as functions
//! from plain values (addresses, trap causes, register contents) to plain
//! values, so that an embedder drives the hardware with the results.

pub mod binary;
pub mod foreign_mem;
pub mod invoke;
pub mod rt;
pub mod scopes;
pub mod tbf;
pub mod tracker;

use vstd::prelude::*;

verus! {

/// Errors of the generic runtime layer (allocation, validation, faults).
#[derive(Copy, Clone, Debug, PartialEq, Eq, Structural)]
pub enum OGError {
    /// The stack-managed allocator would move the foreign stack pointer
    /// below the bottom of the foreign RAM region.
    AllocNoMem,
    /// An operation combined a foreign-memory reference and a capability
    /// scope carrying different runtime imprints.
    IDMismatch,
    /// A value read from foreign memory (or handed back by foreign code)
    /// does not form a legal bit pattern for its type.
    BitPatternInvalid,
    /// Foreign code terminated abnormally; the saved trap state is carried
    /// along for diagnosis.
    Fault { cause: u32, tval: u32, pc: u32 },
}

/// Errors surfaced when constructing a runtime around a foreign binary.
#[derive(Copy, Clone, Debug, PartialEq, Eq)]
pub enum TockOGError {
    /// The binary is too short for a structure that must fit inside it.
    BinaryLengthInvalid { min_expected: u32, actual: u32, desc: &'static str },
    /// The binary, or a structure inside it, is not sufficiently aligned.
    BinaryAlignError { expected: u32, actual: u32 },
    /// The magic word at the start of the binary header does not match.
    BinaryMagicInvalid,
    /// A size computation on header fields overflows the address space.
    BinarySizeOverflow,
    /// The memory protection unit refused a region or a configuration.
    MPUConfigError,
    /// The foreign RAM region overlaps the flash region of the binary.
    RAMRegionAliasesFlash,
    /// A runtime-layer error, forwarded.
    OGError(OGError),
}

impl From<OGError> for TockOGError {
    fn from(og_error: OGError) -> (r: TockOGError) {
        TockOGError::OGError(og_error)
    }
}

impl vstd::std_specs::convert::FromSpecImpl<OGError> for TockOGError {
    open spec fn obeys_from_spec() -> bool {
        true
    }

    open spec fn from_spec(og_error: OGError) -> TockOGError {
        TockOGError::OGError(og_error)
    }
}

} // verus!
