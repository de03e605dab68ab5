use hypervisor::ept::AccessType;
use hypervisor::ept::Ept;
use hypervisor::error::HypervisorError;
use hypervisor::hooks::Hook;
use hypervisor::hooks::HookManager;
use hypervisor::vcpu::Context;
use hypervisor::vcpu::HardwareInfo;
use hypervisor::vcpu::VcpuState;
use hypervisor::vmm::Hypervisor;
use hypervisor::vmm::ProcessorRun;

fn good_run(rip: u64) -> ProcessorRun {
    let mut ctx = Context::zeroed();
    ctx.rip = rip;
    ProcessorRun {
        hw: HardwareInfo { vmx_supported: true, vmx_enabled_by_firmware: true },
        revision_id: 1,
        vmxon_accepted: true,
        context: ctx,
        launch_accepted: true,
    }
}

fn empty_manager() -> HookManager {
    HookManager::new(Vec::new())
}

fn built(processors: usize) -> Hypervisor {
    let primary = Ept::identity_4kb(8, AccessType::read_write_execute());
    let secondary = Ept::identity_4kb(8, AccessType::read_write_execute());
    Hypervisor::builder()
        .primary_ept(primary)
        .secondary_ept(secondary)
        .build(empty_manager(), processors)
        .unwrap()
}

#[test]
fn builder_requires_both_views() {
    let primary = Ept::identity_4kb(8, AccessType::read_write_execute());
    let result = Hypervisor::builder().primary_ept(primary).build(empty_manager(), 2);
    assert_eq!(result.err(), Some(HypervisorError::Allocation));
    let result = Hypervisor::builder().build(empty_manager(), 2);
    assert_eq!(result.err(), Some(HypervisorError::Allocation));
}

#[test]
fn activation_broadcast_launches_every_processor() {
    let mut hv = built(4);
    assert_eq!(hv.processor_count(), 4);
    let runs = vec![good_run(0x100), good_run(0x200), good_run(0x300), good_run(0x400)];
    assert_eq!(hv.virtualize_system(&runs), Ok(()));
    for (k, run) in runs.iter().enumerate() {
        let vcpu = &hv.vcpus[k];
        assert_eq!(vcpu.state, VcpuState::Launched);
        let vmcs = vcpu.vmcs.as_ref().unwrap();
        assert_eq!(vmcs.host_context, run.context);
        assert_eq!(vmcs.guest_context, run.context);
    }
}

/// A two-processor system where the second processor's launch fails:
/// activation reports the failure and the first processor is observed
/// back in `Devirtualized` — nothing stays virtualized.
#[test]
fn failed_sibling_rolls_back_launched_processors() {
    let mut hv = built(2);
    let mut failing = good_run(0x200);
    failing.launch_accepted = false;
    let runs = vec![good_run(0x100), failing];
    assert_eq!(hv.virtualize_system(&runs), Err(HypervisorError::Activation));
    assert_eq!(hv.vcpus[0].state, VcpuState::Devirtualized);
    for vcpu in hv.vcpus.iter() {
        assert_ne!(vcpu.state, VcpuState::Launched);
        assert!(vcpu.control_region.is_none());
        assert!(vcpu.vmcs.is_none());
    }
}

#[test]
fn first_failure_decides_the_reported_error() {
    let mut hv = built(3);
    let mut no_capability = good_run(0x200);
    no_capability.hw.vmx_supported = false;
    let mut rejected_launch = good_run(0x300);
    rejected_launch.launch_accepted = false;
    let runs = vec![good_run(0x100), no_capability, rejected_launch];
    assert_eq!(hv.virtualize_system(&runs), Err(HypervisorError::Capability));
    for vcpu in hv.vcpus.iter() {
        assert_ne!(vcpu.state, VcpuState::Launched);
    }
}

#[test]
fn deactivation_restores_every_pre_activation_context() {
    let mut hv = built(2);
    let runs = vec![good_run(0xaaa), good_run(0xbbb)];
    hv.virtualize_system(&runs).unwrap();
    let contexts = hv.devirtualize_system();
    assert_eq!(contexts.len(), 2);
    assert_eq!(contexts[0], runs[0].context);
    assert_eq!(contexts[1], runs[1].context);
    for vcpu in hv.vcpus.iter() {
        assert_eq!(vcpu.state, VcpuState::Devirtualized);
        assert!(vcpu.control_region.is_none());
        assert!(vcpu.vmcs.is_none());
    }
}

#[test]
fn teardown_consumes_the_handle_after_devirtualizing() {
    let mut hv = built(2);
    let runs = vec![good_run(0x1), good_run(0x2)];
    hv.virtualize_system(&runs).unwrap();
    let contexts = hv.teardown();
    assert_eq!(contexts.len(), 2);
    assert_eq!(contexts[0], runs[0].context);
    assert_eq!(contexts[1], runs[1].context);
}

#[test]
fn activate_programs_hooks_and_launches() {
    let page = vec![0u8; 4096];
    let hook = Hook::hook_function(2 * 4096, &page, &vec![14usize], 0x5000, 6).unwrap();
    let runs = vec![good_run(0x10), good_run(0x20)];
    let hv = Hypervisor::activate(vec![hook], 8, 2, &runs).unwrap();
    assert_eq!(hv.vcpus.len(), 2);
    assert_eq!(hv.vcpus[0].state, VcpuState::Launched);
    assert_eq!(hv.vcpus[1].state, VcpuState::Launched);
    let hooked = hv.secondary_ept.entry_for(2 * 4096).unwrap();
    assert_eq!(hooked.frame, 6);
    assert!(hooked.access.execute && !hooked.access.read);
    let clean = hv.primary_ept.entry_for(2 * 4096).unwrap();
    assert_eq!(clean.frame, 2);
    assert!(clean.access.read && !clean.access.execute);
}

#[test]
fn activate_rejects_a_hook_outside_the_mapped_range() {
    let page = vec![0u8; 4096];
    let hook = Hook::hook_function(20 * 4096, &page, &vec![14usize], 0x5000, 60).unwrap();
    let runs = vec![good_run(0x10)];
    let result = Hypervisor::activate(vec![hook], 8, 1, &runs);
    assert_eq!(result.err(), Some(HypervisorError::Resolution));
}

#[test]
fn activate_is_all_or_nothing() {
    let mut failing = good_run(0x20);
    failing.vmxon_accepted = false;
    let runs = vec![good_run(0x10), failing];
    let result = Hypervisor::activate(Vec::new(), 8, 2, &runs);
    assert_eq!(result.err(), Some(HypervisorError::Activation));
}
