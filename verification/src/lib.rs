//! A verified model of a thin hypervisor that virtualizes every logical
//! processor of a running host and hides inline hooks behind a pair of
//! extended-page-table (EPT) views.
//!
//! The crate is organised leaf-first:
//! - [`nt`] holds small host-kernel data structures (the bitmap header used
//!   for the MSR bitmap region).
//! - [`ept`] builds and mutates the two identity-mapped page-table views.
//! - [`hooks`] owns the hook descriptors, their trampolines and shadow
//!   pages, and the view-selection policy applied on an EPT violation.
//! - [`vcpu`] is the per-logical-processor activation engine: a state
//!   machine from `Uninitialized` through `Launched` to `Devirtualized`,
//!   with the VM-exit dispatcher.
//! - [`vmm`] is the orchestrator: it owns the EPT pair, the hook manager
//!   and one virtual CPU per logical processor, and broadcasts activation
//!   and deactivation with an all-or-nothing guarantee.
//!
//! Hardware and host-kernel services (capability checks, entering and
//! leaving root operation, context capture, symbol resolution, physical
//! memory allocation) are collaborators outside this crate: their outcomes
//! and the values they produce enter the library as plain arguments, and
//! every decision taken on them is verified for every possible value.

pub mod ept;
pub mod error;
pub mod hooks;
pub mod nt;
pub mod vcpu;
pub mod vmm;
