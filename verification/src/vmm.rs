//! The hypervisor orchestrator.
//!
//! A [`Hypervisor`] is assembled once, before any processor is
//! virtualized, from a primed EPT pair and the hook manager, and owns
//! one [`Vcpu`] per logical processor. Activation is broadcast to every
//! processor and is all-or-nothing: if any processor fails to reach
//! `Launched`, every sibling already launched is devirtualized before
//! the failure is reported, so partial virtualization is never a resting
//! state. Deactivation broadcasts the reverse transition and hands back
//! each processor's pre-activation context; only consuming the handle
//! afterwards releases the EPT hierarchies, the shadow pages and the
//! hook table, so no processor ever runs under freed structures.

use vstd::prelude::*;

use crate::ept::AccessType;
use crate::ept::Ept;
use crate::error::HypervisorError;
use crate::hooks::HookManager;
use crate::vcpu::Context;
use crate::vcpu::HardwareInfo;
use crate::vcpu::Vcpu;

verus! {

/// What the hardware on one processor reported during the activation
/// broadcast: the capability probe, whether "enter root operation" and
/// "launch guest" were accepted, and the context captured on that
/// processor at activation time.
#[derive(Clone, Copy, PartialEq, Eq, Structural, Debug)]
pub struct ProcessorRun {
    pub hw: HardwareInfo,
    pub revision_id: u32,
    pub vmxon_accepted: bool,
    pub context: Context,
    pub launch_accepted: bool,
}

/// Whether this processor's activation went through every step.
pub open spec fn run_succeeds(run: ProcessorRun) -> bool {
    &&& run.hw.vmx_supported
    &&& run.hw.vmx_enabled_by_firmware
    &&& run.vmxon_accepted
    &&& run.launch_accepted
}

/// The error a failing run surfaces: a missing or firmware-disabled
/// capability is a capability error; a rejected enter or launch
/// instruction is an activation error.
pub open spec fn run_error(run: ProcessorRun) -> HypervisorError {
    if !(run.hw.vmx_supported && run.hw.vmx_enabled_by_firmware) {
        HypervisorError::Capability
    } else {
        HypervisorError::Activation
    }
}

/// `k` is the first processor whose activation failed.
pub open spec fn is_first_failure(runs: Seq<ProcessorRun>, k: int) -> bool {
    &&& 0 <= k < runs.len()
    &&& !run_succeeds(runs[k])
    &&& forall|j: int| 0 <= j < k ==> run_succeeds(runs[j])
}

/// The top-level handle: the EPT pair, the hook manager, and one
/// processor slot per logical processor.
pub struct Hypervisor {
    pub primary_ept: Ept,
    pub secondary_ept: Ept,
    pub hook_manager: HookManager,
    pub vcpus: Vec<Vcpu>,
}

/// Builder for [`Hypervisor`]: both EPT views must be supplied before
/// `build` yields a handle.
pub struct HypervisorBuilder {
    pub primary_ept: Option<Ept>,
    pub secondary_ept: Option<Ept>,
}

impl HypervisorBuilder {
    /// Supplies the primary (clean) view.
    pub fn primary_ept(self, ept: Ept) -> (b: HypervisorBuilder)
        ensures
            b.primary_ept == Some(ept),
            b.secondary_ept == self.secondary_ept,
    {
        HypervisorBuilder { primary_ept: Some(ept), ..self }
    }

    /// Supplies the secondary (hooked) view.
    pub fn secondary_ept(self, ept: Ept) -> (b: HypervisorBuilder)
        ensures
            b.secondary_ept == Some(ept),
            b.primary_ept == self.primary_ept,
    {
        HypervisorBuilder { secondary_ept: Some(ept), ..self }
    }

    /// Assembles the handle around the hook manager, with one fresh,
    /// unvirtualized processor slot per logical processor.
    ///
    /// A builder missing either page-table hierarchy fails with an
    /// allocation error: the view it would need was never brought into
    /// existence.
    pub fn build(self, hook_manager: HookManager, processor_count: usize) -> (r: Result<
        Hypervisor,
        HypervisorError,
    >)
        requires
            hook_manager.wf(),
            processor_count <= u32::MAX,
        ensures
            (r is Ok <==> self.primary_ept is Some && self.secondary_ept is Some),
            r is Err ==> r == Err::<Hypervisor, HypervisorError>(HypervisorError::Allocation),
            r matches Ok(hv) ==> {
                &&& hv.wf()
                &&& Some(hv.primary_ept) == self.primary_ept
                &&& Some(hv.secondary_ept) == self.secondary_ept
                &&& hv.hook_manager == hook_manager
                &&& hv.vcpus@.len() == processor_count
                &&& forall|k: int|
                    0 <= k < processor_count ==> hv.vcpus@[k].state is Uninitialized
            },
    {
        let primary_ept = match self.primary_ept {
            Some(e) => e,
            None => { return Err(HypervisorError::Allocation) },
        };
        let secondary_ept = match self.secondary_ept {
            Some(e) => e,
            None => { return Err(HypervisorError::Allocation) },
        };
        let mut vcpus: Vec<Vcpu> = Vec::new();
        let mut k: usize = 0;
        while k < processor_count
            invariant
                k <= processor_count,
                processor_count <= u32::MAX,
                vcpus@.len() == k,
                forall|j: int|
                    0 <= j < k ==> vcpus@[j].wf() && vcpus@[j].index == j && vcpus@[j].state
                        is Uninitialized,
            decreases processor_count - k,
        {
            vcpus.push(Vcpu::new(k as u32));
            k = k + 1;
        }
        Ok(Hypervisor { primary_ept, secondary_ept, hook_manager, vcpus })
    }
}

impl Hypervisor {
    /// Every slot is well formed and numbered by its position.
    pub open spec fn wf(self) -> bool {
        forall|k: int|
            0 <= k < self.vcpus@.len() ==> self.vcpus@[k].wf() && self.vcpus@[k].index == k
    }

    /// Slot `k` is launched with the context `runs[k]` captured, under
    /// the secondary view: the state the activation broadcast owes on
    /// success.
    pub open spec fn launched_as(self, runs: Seq<ProcessorRun>, k: int) -> bool {
        &&& self.vcpus@[k].state is Launched
        &&& self.vcpus@[k].vmcs matches Some(v) && v.host_context == runs[k].context
            && v.guest_context == runs[k].context && v.active_view is Secondary
    }

    /// A fresh builder with neither view supplied.
    pub fn builder() -> (b: HypervisorBuilder)
        ensures
            b.primary_ept is None,
            b.secondary_ept is None,
    {
        HypervisorBuilder { primary_ept: None, secondary_ept: None }
    }

    /// How many logical processors the handle owns slots for.
    pub fn processor_count(&self) -> (n: usize)
        ensures
            n == self.vcpus@.len(),
    {
        self.vcpus.len()
    }

    /// Broadcasts activation to every logical processor, `runs[k]`
    /// reporting what the hardware on processor `k` did.
    ///
    /// All-or-nothing: the broadcast succeeds exactly when every
    /// processor reaches `Launched`; on the first failure the already
    /// launched siblings are devirtualized, the failing processor is
    /// rolled back, the processors after it are never touched, and the
    /// first failure's own error is reported — so on failure not one
    /// processor remains virtualized and the host stands as if
    /// activation had never been attempted.
    pub fn virtualize_system(&mut self, runs: &Vec<ProcessorRun>) -> (r: Result<
        (),
        HypervisorError,
    >)
        requires
            old(self).wf(),
            runs@.len() == old(self).vcpus@.len(),
            forall|k: int|
                0 <= k < old(self).vcpus@.len() ==> old(self).vcpus@[k].state is Uninitialized,
        ensures
            final(self).wf(),
            final(self).vcpus@.len() == old(self).vcpus@.len(),
            final(self).primary_ept == old(self).primary_ept,
            final(self).secondary_ept == old(self).secondary_ept,
            final(self).hook_manager == old(self).hook_manager,
            (r is Ok <==> forall|k: int| 0 <= k < runs@.len() ==> run_succeeds(runs@[k])),
            r is Ok ==> forall|k: int|
                0 <= k < runs@.len() ==> final(self).launched_as(runs@, k),
            r is Err ==> forall|k: int|
                0 <= k < final(self).vcpus@.len() ==> final(self).vcpus@[k].not_virtualized(),
            r matches Err(e) ==> exists|k: int|
                #[trigger] is_first_failure(runs@, k) && e == run_error(runs@[k]),
    {
        let n = self.vcpus.len();
        let mut k: usize = 0;
        while k < n
            invariant
                k <= n,
                n == self.vcpus@.len(),
                n == old(self).vcpus@.len(),
                runs@.len() == n,
                self.primary_ept == old(self).primary_ept,
                self.secondary_ept == old(self).secondary_ept,
                self.hook_manager == old(self).hook_manager,
                forall|j: int|
                    0 <= j < n ==> self.vcpus@[j].wf() && self.vcpus@[j].index == j,
                forall|j: int| 0 <= j < k ==> run_succeeds(runs@[j]),
                forall|j: int| 0 <= j < k ==> self.vcpus@[j].state is Launched,
                forall|j: int| 0 <= j < k ==> self.vcpus@[j].vmcs is Some,
                forall|j: int|
                    0 <= j < k ==> self.vcpus@[j].vmcs.unwrap().host_context == runs@[j].context,
                forall|j: int|
                    0 <= j < k ==> self.vcpus@[j].vmcs.unwrap().guest_context
                        == runs@[j].context,
                forall|j: int|
                    0 <= j < k ==> self.vcpus@[j].vmcs.unwrap().active_view is Secondary,
                forall|j: int| k <= j < n ==> self.vcpus@[j].state is Uninitialized,
            decreases n - k,
        {
            let run = runs[k];
            let enabled = self.vcpus[k].enable_virtualization(
                run.hw,
                run.revision_id,
                run.vmxon_accepted,
            );
            match enabled {
                Err(e) => {
                    proof {
                        assert(!run_succeeds(runs@[k as int]));
                    }
                    self.rollback_launched(k);
                    proof {
                        assert(is_first_failure(runs@, k as int));
                    }
                    return Err(e);
                },
                Ok(()) => {},
            }
            let launched = self.vcpus[k].launch(run.context, run.launch_accepted);
            match launched {
                Err(e) => {
                    proof {
                        assert(!run_succeeds(runs@[k as int]));
                    }
                    self.vcpus[k].disable_virtualization();
                    self.rollback_launched(k);
                    proof {
                        assert(is_first_failure(runs@, k as int));
                    }
                    return Err(e);
                },
                Ok(()) => {},
            }
            k = k + 1;
        }
        proof {
            assert forall|j: int| 0 <= j < runs@.len() implies self.launched_as(runs@, j) by {}
        }
        Ok(())
    }

    /// Devirtualizes the launched processors `0 .. upto` during a failed
    /// activation broadcast, leaving every slot before `upto` with no
    /// trace of virtualization and every slot after it untouched.
    fn rollback_launched(&mut self, upto: usize)
        requires
            upto <= old(self).vcpus@.len(),
            forall|j: int|
                0 <= j < old(self).vcpus@.len() ==> old(self).vcpus@[j].wf() && old(self).vcpus@[j].index == j,
            forall|j: int| 0 <= j < upto ==> old(self).vcpus@[j].state is Launched,
        ensures
            final(self).vcpus@.len() == old(self).vcpus@.len(),
            final(self).primary_ept == old(self).primary_ept,
            final(self).secondary_ept == old(self).secondary_ept,
            final(self).hook_manager == old(self).hook_manager,
            forall|j: int|
                0 <= j < final(self).vcpus@.len() ==> final(self).vcpus@[j].wf() && final(self).vcpus@[j].index == j,
            forall|j: int| 0 <= j < upto ==> final(self).vcpus@[j].not_virtualized(),
            forall|j: int|
                upto <= j < final(self).vcpus@.len() ==> final(self).vcpus@[j] == old(self).vcpus@[j],
    {
        let mut j: usize = 0;
        while j < upto
            invariant
                j <= upto,
                upto <= self.vcpus@.len(),
                self.vcpus@.len() == old(self).vcpus@.len(),
                self.primary_ept == old(self).primary_ept,
                self.secondary_ept == old(self).secondary_ept,
                self.hook_manager == old(self).hook_manager,
                forall|m: int|
                    0 <= m < self.vcpus@.len() ==> self.vcpus@[m].wf() && self.vcpus@[m].index
                        == m,
                forall|m: int| 0 <= m < j ==> self.vcpus@[m].not_virtualized(),
                forall|m: int| j <= m < upto ==> self.vcpus@[m].state is Launched,
                forall|m: int|
                    upto <= m < self.vcpus@.len() ==> self.vcpus@[m] == old(self).vcpus@[m],
            decreases upto - j,
        {
            let _ctx = self.vcpus[j].devirtualize();
            j = j + 1;
        }
    }

    /// Broadcasts deactivation to every launched processor and returns,
    /// slot by slot, the context each processor was activated at — the
    /// context normal execution resumes at. Afterwards no processor
    /// holds a control region or control structure.
    pub fn devirtualize_system(&mut self) -> (contexts: Vec<Context>)
        requires
            old(self).wf(),
            forall|k: int|
                0 <= k < old(self).vcpus@.len() ==> old(self).vcpus@[k].state is Launched,
        ensures
            final(self).wf(),
            final(self).vcpus@.len() == old(self).vcpus@.len(),
            final(self).primary_ept == old(self).primary_ept,
            final(self).secondary_ept == old(self).secondary_ept,
            final(self).hook_manager == old(self).hook_manager,
            forall|k: int|
                0 <= k < final(self).vcpus@.len() ==> final(self).vcpus@[k].state
                    is Devirtualized && final(self).vcpus@[k].not_virtualized(),
            contexts@.len() == old(self).vcpus@.len(),
            forall|k: int|
                0 <= k < contexts@.len() ==> contexts@[k] == old(self).vcpus@[k].vmcs.unwrap().host_context,
    {
        let n = self.vcpus.len();
        let mut contexts: Vec<Context> = Vec::new();
        let mut k: usize = 0;
        while k < n
            invariant
                k <= n,
                n == self.vcpus@.len(),
                self.vcpus@.len() == old(self).vcpus@.len(),
                self.primary_ept == old(self).primary_ept,
                self.secondary_ept == old(self).secondary_ept,
                self.hook_manager == old(self).hook_manager,
                contexts@.len() == k,
                forall|m: int|
                    0 <= m < self.vcpus@.len() ==> self.vcpus@[m].wf() && self.vcpus@[m].index
                        == m,
                forall|m: int|
                    0 <= m < k ==> self.vcpus@[m].state is Devirtualized
                        && self.vcpus@[m].not_virtualized(),
                forall|m: int| k <= m < n ==> self.vcpus@[m] == old(self).vcpus@[m],
                forall|m: int| k <= m < n ==> self.vcpus@[m].state is Launched,
                forall|m: int|
                    0 <= m < k ==> contexts@[m] == old(self).vcpus@[m].vmcs.unwrap().host_context,
            decreases n - k,
        {
            let ctx = self.vcpus[k].devirtualize();
            contexts.push(ctx);
            k = k + 1;
        }
        contexts
    }

    /// The single activation path a driver shell follows, as one
    /// verified step: build the two identity-mapped views over
    /// `page_count` pages with the fully permissive policy, hand the
    /// registered `hooks` to a fresh manager, program both views,
    /// assemble the handle for `processor_count` processors and
    /// broadcast activation with `runs` reporting each processor's
    /// hardware outcomes.
    ///
    /// Succeeds exactly when every hooked page is mapped and every
    /// processor's activation went through; a hook on an unmapped page
    /// surfaces as a resolution error before any processor is touched,
    /// and a failing processor surfaces the first failure's error after
    /// the all-or-nothing rollback, leaving nothing virtualized to
    /// return.
    pub fn activate(
        hooks: Vec<crate::hooks::Hook>,
        page_count: usize,
        processor_count: usize,
        runs: &Vec<ProcessorRun>,
    ) -> (r: Result<Hypervisor, HypervisorError>)
        requires
            forall|i: int| 0 <= i < hooks@.len() ==> hooks@[i].wf(),
            forall|i: int, j: int|
                0 <= i < j < hooks@.len() ==> hooks@[i].page() != hooks@[j].page(),
            runs@.len() == processor_count,
            processor_count <= u32::MAX,
        ensures
            (r is Ok <==> (forall|i: int| 0 <= i < hooks@.len() ==> hooks@[i].page() < page_count)
                && (forall|k: int| 0 <= k < runs@.len() ==> run_succeeds(runs@[k]))),
            !(forall|i: int| 0 <= i < hooks@.len() ==> hooks@[i].page() < page_count) ==> r
                == Err::<Hypervisor, HypervisorError>(HypervisorError::Resolution),
            (forall|i: int| 0 <= i < hooks@.len() ==> hooks@[i].page() < page_count) ==> (r
                matches Err(e) ==> exists|k: int|
                #[trigger] is_first_failure(runs@, k) && e == run_error(runs@[k])),
            r matches Ok(hv) ==> {
                &&& hv.wf()
                &&& hv.hook_manager@ == hooks@
                &&& hv.vcpus@.len() == processor_count
                &&& forall|k: int| 0 <= k < runs@.len() ==> hv.launched_as(runs@, k)
                &&& crate::hooks::hooks_enabled(
                    hv.hook_manager,
                    crate::ept::identity_view(
                        page_count as nat,
                        AccessType { read: true, write: true, execute: true },
                    ),
                    crate::ept::identity_view(
                        page_count as nat,
                        AccessType { read: true, write: true, execute: true },
                    ),
                    hv.primary_ept@,
                    hv.secondary_ept@,
                )
            },
    {
        let hook_manager = HookManager::new(hooks);
        let mut primary_ept = Ept::identity_4kb(page_count, AccessType::read_write_execute());
        let mut secondary_ept = Ept::identity_4kb(page_count, AccessType::read_write_execute());
        proof {
            assert(primary_ept@ =~= crate::ept::identity_view(
                page_count as nat,
                AccessType { read: true, write: true, execute: true },
            ));
            assert(secondary_ept@ =~= crate::ept::identity_view(
                page_count as nat,
                AccessType { read: true, write: true, execute: true },
            ));
        }
        match hook_manager.enable_hooks(&mut primary_ept, &mut secondary_ept) {
            Ok(()) => {},
            Err(e) => { return Err(e) },
        }
        let built = Hypervisor::builder().primary_ept(primary_ept).secondary_ept(
            secondary_ept,
        ).build(hook_manager, processor_count);
        let mut hv = match built {
            Ok(hv) => hv,
            Err(e) => { return Err(e) },
        };
        match hv.virtualize_system(runs) {
            Ok(()) => Ok(hv),
            Err(e) => Err(e),
        }
    }

    /// Law: deactivation restores each processor to exactly its
    /// pre-activation context. After a successful activation broadcast
    /// the context slot `k` devirtualizes to — its control structure's
    /// host context, which `devirtualize_system` hands back — is the
    /// very context `runs[k]` captured on that processor at activation.
    pub proof fn lemma_deactivation_restores_activation_context(
        self,
        runs: Seq<ProcessorRun>,
        k: int,
    )
        requires
            0 <= k < self.vcpus@.len(),
            0 <= k < runs.len(),
            self.launched_as(runs, k),
        ensures
            self.vcpus@[k].vmcs.unwrap().host_context == runs[k].context,
    {
    }

    /// Tears the whole system down: devirtualizes every processor, then
    /// consumes the handle, releasing the EPT hierarchies, the hook
    /// table and its shadow pages only after no processor runs under
    /// them. Returns each processor's pre-activation context, as
    /// `devirtualize_system` does.
    pub fn teardown(self) -> (contexts: Vec<Context>)
        requires
            self.wf(),
            forall|k: int| 0 <= k < self.vcpus@.len() ==> self.vcpus@[k].state is Launched,
        ensures
            contexts@.len() == self.vcpus@.len(),
            forall|k: int|
                0 <= k < contexts@.len() ==> contexts@[k]
                    == self.vcpus@[k].vmcs.unwrap().host_context,
    {
        let mut hv = self;
        hv.devirtualize_system()
    }
}

} // verus!
