//! The per-logical-processor activation engine.
//!
//! Each [`Vcpu`] walks the lifecycle `Uninitialized →
//! VirtualizationEnabled → Launched → Devirtualized`. The hardware steps
//! themselves — the capability probe, the "enter root operation" and
//! "launch guest" instructions, the context capture — are collaborators:
//! what they reported enters each transition as an argument, and the
//! engine's bookkeeping is verified for every outcome they can report.
//! A successful launch resumes guest execution at the captured context,
//! so activation appears to its caller as an ordinary return; the one
//! place where call/return semantics bend is the hardware's contract,
//! not this state machine's.

use vstd::prelude::*;

use crate::ept::AccessType;
use crate::ept::EptViewKind;
use crate::error::HypervisorError;
use crate::hooks::HookManager;
use crate::nt::RTL_BITMAP;

verus! {

/// Bits in the MSR bitmap region: one 4 KiB page.
pub const MSR_BITMAP_BITS: u32 = 32768;

/// A captured CPU context: the register snapshot taken at activation so
/// guest resumption re-enters exactly where activation began, and
/// restored on devirtualization.
#[derive(Clone, Copy, PartialEq, Eq, Structural, Debug)]
pub struct Context {
    pub rip: u64,
    pub rsp: u64,
    pub rflags: u64,
    pub rax: u64,
    pub rbx: u64,
    pub rcx: u64,
    pub rdx: u64,
    pub rsi: u64,
    pub rdi: u64,
    pub rbp: u64,
    pub r8: u64,
    pub r9: u64,
    pub r10: u64,
    pub r11: u64,
    pub r12: u64,
    pub r13: u64,
    pub r14: u64,
    pub r15: u64,
}

impl Context {
    /// A context with every register zero.
    pub fn zeroed() -> (c: Context)
        ensures
            c == (Context {
                rip: 0u64,
                rsp: 0u64,
                rflags: 0u64,
                rax: 0u64,
                rbx: 0u64,
                rcx: 0u64,
                rdx: 0u64,
                rsi: 0u64,
                rdi: 0u64,
                rbp: 0u64,
                r8: 0u64,
                r9: 0u64,
                r10: 0u64,
                r11: 0u64,
                r12: 0u64,
                r13: 0u64,
                r14: 0u64,
                r15: 0u64,
            }),
    {
        Context {
            rip: 0,
            rsp: 0,
            rflags: 0,
            rax: 0,
            rbx: 0,
            rcx: 0,
            rdx: 0,
            rsi: 0,
            rdi: 0,
            rbp: 0,
            r8: 0,
            r9: 0,
            r10: 0,
            r11: 0,
            r12: 0,
            r13: 0,
            r14: 0,
            r15: 0,
        }
    }
}

/// What the hardware capability probe reported on this processor.
#[derive(Clone, Copy, PartialEq, Eq, Structural, Debug)]
pub struct HardwareInfo {
    /// The processor implements hardware virtualization.
    pub vmx_supported: bool,
    /// Firmware left the virtualization mode bit enabled.
    pub vmx_enabled_by_firmware: bool,
}

/// The freshly allocated, page-aligned region handed to the "enter root
/// operation" instruction, alive from that instruction until the
/// matching "exit root operation".
pub struct ControlRegion {
    pub revision_id: u32,
}

/// The per-processor control structure: host state re-entered on every
/// exit, guest state resumed on every entry, and the EPT view currently
/// bound to the guest's translation.
pub struct Vmcs {
    pub host_context: Context,
    pub guest_context: Context,
    pub active_view: EptViewKind,
    pub msr_bitmap: RTL_BITMAP,
}

/// `v` with the guest translation rebound to `view`; the dispatcher's
/// only mutation on a resolved EPT violation.
pub open spec fn vmcs_with_view(v: Vmcs, view: EptViewKind) -> Vmcs {
    Vmcs { active_view: view, ..v }
}

/// `v` with the guest's instruction pointer moved to `rip`; the
/// dispatcher's only mutation on an emulated instruction.
pub open spec fn vmcs_with_guest_rip(v: Vmcs, rip: u64) -> Vmcs {
    Vmcs { guest_context: Context { rip, ..v.guest_context }, ..v }
}

/// Where a processor stands in its activation lifecycle.
#[derive(Clone, Copy, PartialEq, Eq, Structural, Debug)]
pub enum VcpuState {
    Uninitialized,
    VirtualizationEnabled,
    Launched,
    Devirtualized,
}

/// Why the guest exited, as the dispatcher classifies it.
#[derive(Clone, Copy, PartialEq, Eq, Structural, Debug)]
pub enum ExitReason {
    /// The active view's policy disallowed an access: `pa` faulted with
    /// the attempted access kinds.
    EptViolation { pa: u64, attempted: AccessType },
    /// The processor-identification instruction, `instruction_len` bytes
    /// long, exited; it is handled minimally and skipped.
    Cpuid { instruction_len: u64 },
    /// An exit reason with no defined handling policy.
    Unknown { code: u32 },
}

/// One logical processor's virtualization state, exclusively owned by
/// the processor it belongs to.
pub struct Vcpu {
    pub index: u32,
    pub state: VcpuState,
    pub control_region: Option<ControlRegion>,
    pub vmcs: Option<Vmcs>,
}

impl Vcpu {
    /// No trace of virtualization remains: the end state of rollback and
    /// teardown, and the start state before activation.
    pub open spec fn not_virtualized(self) -> bool {
        &&& (self.state is Uninitialized || self.state is Devirtualized)
        &&& self.control_region is None
        &&& self.vmcs is None
    }

    /// Each lifecycle state owns exactly the resources it needs: a
    /// control region from enablement on, a control structure only while
    /// launched.
    pub open spec fn wf(self) -> bool {
        match self.state {
            VcpuState::Uninitialized => self.control_region is None && self.vmcs is None,
            VcpuState::VirtualizationEnabled => self.control_region is Some && self.vmcs is None,
            VcpuState::Launched => self.control_region is Some && self.vmcs is Some
                && self.vmcs.unwrap().msr_bitmap.wf(),
            VcpuState::Devirtualized => self.control_region is None && self.vmcs is None,
        }
    }

    /// A fresh, unvirtualized processor slot.
    pub fn new(index: u32) -> (v: Vcpu)
        ensures
            v.index == index,
            v.state is Uninitialized,
            v.not_virtualized(),
            v.wf(),
    {
        Vcpu { index, state: VcpuState::Uninitialized, control_region: None, vmcs: None }
    }

    /// `Uninitialized → VirtualizationEnabled`: verify the capability
    /// the probe reported, then account for the "enter root operation"
    /// instruction executed against a fresh control region carrying
    /// `revision_id`.
    ///
    /// An absent or firmware-disabled capability aborts with a
    /// capability error, a rejected enter instruction with an activation
    /// error; either way nothing is mutated, so activation never
    /// proceeds to launch past a failure here.
    pub fn enable_virtualization(
        &mut self,
        hw: HardwareInfo,
        revision_id: u32,
        vmxon_accepted: bool,
    ) -> (r: Result<(), HypervisorError>)
        requires
            old(self).state is Uninitialized,
            old(self).wf(),
        ensures
            final(self).index == old(self).index,
            final(self).wf(),
            (r is Ok <==> hw.vmx_supported && hw.vmx_enabled_by_firmware && vmxon_accepted),
            r is Ok ==> {
                &&& final(self).state is VirtualizationEnabled
                &&& final(self).vmcs is None
                &&& final(self).control_region matches Some(c) && c.revision_id == revision_id
            },
            !(hw.vmx_supported && hw.vmx_enabled_by_firmware) ==> r == Err::<(), HypervisorError>(
                HypervisorError::Capability,
            ) && *final(self) == *old(self),
            hw.vmx_supported && hw.vmx_enabled_by_firmware && !vmxon_accepted ==> r == Err::<
                (),
                HypervisorError,
            >(HypervisorError::Activation) && *final(self) == *old(self),
    {
        if !hw.vmx_supported || !hw.vmx_enabled_by_firmware {
            return Err(HypervisorError::Capability);
        }
        if !vmxon_accepted {
            return Err(HypervisorError::Activation);
        }
        self.control_region = Some(ControlRegion { revision_id });
        self.state = VcpuState::VirtualizationEnabled;
        Ok(())
    }

    /// `VirtualizationEnabled → Launched`: bind the captured context as
    /// both host and guest state, bind the secondary (hooked) view as
    /// the guest's translation, clear the MSR bitmap so no register
    /// access is intercepted, and account for the "launch guest"
    /// instruction.
    ///
    /// A rejected launch aborts with an activation error and mutates
    /// nothing, leaving the processor ready for rollback.
    pub fn launch(&mut self, captured: Context, launch_accepted: bool) -> (r: Result<
        (),
        HypervisorError,
    >)
        requires
            old(self).state is VirtualizationEnabled,
            old(self).wf(),
        ensures
            final(self).index == old(self).index,
            final(self).wf(),
            (r is Ok <==> launch_accepted),
            r is Ok ==> {
                &&& final(self).state is Launched
                &&& final(self).control_region == old(self).control_region
                &&& final(self).vmcs matches Some(v) && v.host_context == captured
                    && v.guest_context == captured && v.active_view is Secondary && (forall|i: int|
                    0 <= i < v.msr_bitmap.size_of_bit_map ==> !v.msr_bitmap.bit_is_set(i))
            },
            !launch_accepted ==> r == Err::<(), HypervisorError>(HypervisorError::Activation)
                && *final(self) == *old(self),
    {
        if !launch_accepted {
            return Err(HypervisorError::Activation);
        }
        let msr_bitmap = RTL_BITMAP::initialize(MSR_BITMAP_BITS);
        self.vmcs = Some(
            Vmcs {
                host_context: captured,
                guest_context: captured,
                active_view: EptViewKind::Secondary,
                msr_bitmap,
            },
        );
        self.state = VcpuState::Launched;
        Ok(())
    }

    /// The steady-state dispatcher: resolve one VM-exit and leave the
    /// guest ready to resume.
    ///
    /// An EPT violation is forwarded to the hook manager's
    /// view-selection policy and, when the policy names a view, resolved
    /// by rebinding the guest's translation to it — the faulting access
    /// then retries under the other truth. The
    /// processor-identification exit is skipped over. Every other
    /// outcome, including a violation the policy refuses, is fatal to
    /// the processor and mutates nothing.
    pub fn handle_exit(&mut self, reason: ExitReason, hook_manager: &HookManager) -> (r: Result<
        (),
        HypervisorError,
    >)
        requires
            old(self).state is Launched,
            old(self).wf(),
        ensures
            final(self).index == old(self).index,
            final(self).wf(),
            final(self).state is Launched,
            final(self).control_region == old(self).control_region,
            reason matches ExitReason::EptViolation { pa, attempted } ==> {
                let verdict = hook_manager.violation_verdict_of(
                    old(self).vmcs.unwrap().active_view,
                    pa,
                    attempted,
                );
                &&& verdict matches Ok(view) ==> r is Ok && final(self).vmcs == Some(
                    vmcs_with_view(old(self).vmcs.unwrap(), view),
                )
                &&& verdict matches Err(e) ==> r == Err::<(), HypervisorError>(e)
                    && final(self).vmcs == old(self).vmcs
            },
            reason matches ExitReason::Cpuid { instruction_len } ==> r is Ok && final(self).vmcs
                == Some(
                vmcs_with_guest_rip(
                    old(self).vmcs.unwrap(),
                    vstd::wrapping::u64_specs::wrapping_add(
                        old(self).vmcs.unwrap().guest_context.rip,
                        instruction_len,
                    ),
                ),
            ),
            reason matches ExitReason::Unknown { code } ==> r == Err::<(), HypervisorError>(
                HypervisorError::UnhandledExit,
            ) && final(self).vmcs == old(self).vmcs,
    {
        match reason {
            ExitReason::EptViolation { pa, attempted } => {
                let current = match &self.vmcs {
                    Some(v) => v.active_view,
                    None => EptViewKind::Secondary,
                };
                match hook_manager.handle_ept_violation(current, pa, attempted) {
                    Ok(view) => {
                        match &mut self.vmcs {
                            Some(v) => {
                                v.active_view = view;
                            },
                            None => {},
                        }
                        Ok(())
                    },
                    Err(e) => Err(e),
                }
            },
            ExitReason::Cpuid { instruction_len } => {
                match &mut self.vmcs {
                    Some(v) => {
                        v.guest_context.rip = v.guest_context.rip.wrapping_add(instruction_len);
                    },
                    None => {},
                }
                Ok(())
            },
            ExitReason::Unknown { code: _ } => Err(HypervisorError::UnhandledExit),
        }
    }

    /// `Launched → Devirtualized`: account for the "exit root operation"
    /// instruction, release the control structure and control region,
    /// and hand back the context normal execution resumes at — exactly
    /// the one captured at activation.
    pub fn devirtualize(&mut self) -> (ctx: Context)
        requires
            old(self).state is Launched,
            old(self).wf(),
        ensures
            final(self).index == old(self).index,
            final(self).wf(),
            final(self).state is Devirtualized,
            final(self).not_virtualized(),
            ctx == old(self).vmcs.unwrap().host_context,
    {
        let ctx = match &self.vmcs {
            Some(v) => v.host_context,
            None => Context::zeroed(),
        };
        self.vmcs = None;
        self.control_region = None;
        self.state = VcpuState::Devirtualized;
        ctx
    }

    /// `VirtualizationEnabled → Devirtualized`: the rollback step for a
    /// processor whose launch was rejected — leave root operation and
    /// release the control region without ever having run the guest.
    pub fn disable_virtualization(&mut self)
        requires
            old(self).state is VirtualizationEnabled,
            old(self).wf(),
        ensures
            final(self).index == old(self).index,
            final(self).wf(),
            final(self).state is Devirtualized,
            final(self).not_virtualized(),
    {
        self.vmcs = None;
        self.control_region = None;
        self.state = VcpuState::Devirtualized;
    }
}

} // verus!
