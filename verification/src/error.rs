//! The error taxonomy shared by every subsystem.

use vstd::prelude::*;

verus! {

/// Why an operation of the hypervisor failed.
///
/// - `Capability`: hardware virtualization is unsupported or disabled by
///   firmware; fatal, reported before any state mutation.
/// - `Allocation`: page-table, control-region or shadow-page memory is
///   unavailable; the operation in progress is fully unwound.
/// - `Resolution`: a hook target could not be resolved, an address fell
///   outside the mapped range, or too few contiguous bytes remain before a
///   page boundary to place a patch; fails the one registration or lookup
///   only.
/// - `Activation`: the hardware rejected entering virtualized mode or the
///   launch failed; aborts whole-system activation and triggers rollback.
/// - `UnhandledExit`: a VM-exit reason with no defined handling policy, or
///   an EPT violation on a frame no hook owns; fatal to the processor.
#[derive(Clone, Copy, PartialEq, Eq, Structural, Debug)]
pub enum HypervisorError {
    Capability,
    Allocation,
    Resolution,
    Activation,
    UnhandledExit,
}

} // verus!
