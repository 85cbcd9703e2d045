//! The error taxonomy: input errors, execution errors, and the adaptation
//! errors the core raises itself. Every failure carries enough context — an
//! address or a builtin — to diagnose without re-running.

use vstd::prelude::*;
use crate::builtins::BuiltinId;

verus! {

/// Failures while loading an executable.
#[derive(Clone, Copy, Debug, PartialEq, Eq, Structural)]
pub enum LoadError {
    /// The serialized executable could not be parsed.
    MalformedExecutable,
    /// No entry point of the requested kind exists.
    NoMatchingEntryPoint,
}

/// A failure while running the VM. The diagnostic is the VM's own — the
/// last recorded panic marker or its error report — never a generic message.
#[derive(Clone, Debug, PartialEq, Eq)]
pub enum ExecutionError {
    ExecutionTrapped { diagnostic: String },
}

/// A cross-component invariant the adapter found violated.
#[derive(Clone, Copy, Debug, PartialEq, Eq, Structural)]
pub enum Inconsistency {
    /// A public-memory address has no backing memory value.
    DanglingPublicAddress { address: u64 },
    /// Two segment records name the same builtin.
    DuplicateSegment { builtin: BuiltinId },
    /// A segment record's begin address exceeds its stop pointer.
    SegmentBoundsInverted { builtin: BuiltinId },
    /// A builtin the context marks active has no segment record.
    MissingSegment { builtin: BuiltinId },
    /// A Pedersen-using run while the variant omits the Pedersen setup.
    VariantMismatch,
}

/// Failures while adapting VM output into prover input.
#[derive(Clone, Copy, Debug, PartialEq, Eq, Structural)]
pub enum AdaptError {
    /// An address exceeds the backend's 32-bit address space.
    AddressOutOfRange { address: u64 },
    /// An address a trace entry references has no backing memory value.
    MemoryHoleReferenced { address: u64 },
    /// A cross-component invariant was violated.
    InconsistentAdaptation { violation: Inconsistency },
}

} // verus!
