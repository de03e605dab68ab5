use hypervisor::ept::AccessType;
use hypervisor::ept::EptViewKind;
use hypervisor::error::HypervisorError;
use hypervisor::hooks::Hook;
use hypervisor::hooks::HookManager;
use hypervisor::vcpu::Context;
use hypervisor::vcpu::ExitReason;
use hypervisor::vcpu::HardwareInfo;
use hypervisor::vcpu::Vcpu;
use hypervisor::vcpu::VcpuState;

fn capable() -> HardwareInfo {
    HardwareInfo { vmx_supported: true, vmx_enabled_by_firmware: true }
}

fn sample_context() -> Context {
    let mut ctx = Context::zeroed();
    ctx.rip = 0xffff_8000_0010_0000;
    ctx.rsp = 0xffff_8000_0020_0000;
    ctx.rax = 7;
    ctx
}

fn hooked_manager() -> HookManager {
    let page = vec![0u8; 4096];
    let hook = Hook::hook_function(2 * 4096, &page, &vec![14usize], 0x5000, 9).unwrap();
    HookManager::new(vec![hook])
}

#[test]
fn missing_capability_aborts_before_any_state_change() {
    let mut vcpu = Vcpu::new(0);
    let no_vmx = HardwareInfo { vmx_supported: false, vmx_enabled_by_firmware: true };
    assert_eq!(
        vcpu.enable_virtualization(no_vmx, 1, true),
        Err(HypervisorError::Capability)
    );
    let disabled = HardwareInfo { vmx_supported: true, vmx_enabled_by_firmware: false };
    assert_eq!(
        vcpu.enable_virtualization(disabled, 1, true),
        Err(HypervisorError::Capability)
    );
    assert_eq!(vcpu.state, VcpuState::Uninitialized);
    assert!(vcpu.control_region.is_none());
}

#[test]
fn rejected_root_entry_is_an_activation_error() {
    let mut vcpu = Vcpu::new(0);
    assert_eq!(
        vcpu.enable_virtualization(capable(), 1, false),
        Err(HypervisorError::Activation)
    );
    assert_eq!(vcpu.state, VcpuState::Uninitialized);
}

#[test]
fn launch_binds_captured_context_and_secondary_view() {
    let mut vcpu = Vcpu::new(3);
    assert_eq!(vcpu.enable_virtualization(capable(), 1, true), Ok(()));
    assert_eq!(vcpu.state, VcpuState::VirtualizationEnabled);
    assert_eq!(vcpu.control_region.as_ref().unwrap().revision_id, 1);

    let ctx = sample_context();
    assert_eq!(vcpu.launch(ctx, true), Ok(()));
    assert_eq!(vcpu.state, VcpuState::Launched);
    let vmcs = vcpu.vmcs.as_ref().unwrap();
    assert_eq!(vmcs.host_context, ctx);
    assert_eq!(vmcs.guest_context, ctx);
    assert_eq!(vmcs.active_view, EptViewKind::Secondary);
    // No register access is intercepted at launch.
    assert!(!vmcs.msr_bitmap.test_bit(0));
    assert!(!vmcs.msr_bitmap.test_bit(32767));
}

#[test]
fn rejected_launch_leaves_the_processor_unlaunched() {
    let mut vcpu = Vcpu::new(0);
    assert_eq!(vcpu.enable_virtualization(capable(), 1, true), Ok(()));
    assert_eq!(vcpu.launch(sample_context(), false), Err(HypervisorError::Activation));
    assert_eq!(vcpu.state, VcpuState::VirtualizationEnabled);
    assert!(vcpu.vmcs.is_none());
}

#[test]
fn ept_violation_exit_switches_the_bound_view() {
    let manager = hooked_manager();
    let mut vcpu = Vcpu::new(0);
    vcpu.enable_virtualization(capable(), 1, true).unwrap();
    vcpu.launch(sample_context(), true).unwrap();

    let read = AccessType { read: true, write: false, execute: false };
    let exit = ExitReason::EptViolation { pa: 2 * 4096 + 8, attempted: read };
    assert_eq!(vcpu.handle_exit(exit, &manager), Ok(()));
    assert_eq!(vcpu.vmcs.as_ref().unwrap().active_view, EptViewKind::Primary);

    let execute = AccessType { read: false, write: false, execute: true };
    let back = ExitReason::EptViolation { pa: 2 * 4096, attempted: execute };
    assert_eq!(vcpu.handle_exit(back, &manager), Ok(()));
    assert_eq!(vcpu.vmcs.as_ref().unwrap().active_view, EptViewKind::Secondary);
}

#[test]
fn violation_on_unhooked_page_is_fatal() {
    let manager = hooked_manager();
    let mut vcpu = Vcpu::new(0);
    vcpu.enable_virtualization(capable(), 1, true).unwrap();
    vcpu.launch(sample_context(), true).unwrap();
    let read = AccessType { read: true, write: false, execute: false };
    let exit = ExitReason::EptViolation { pa: 7 * 4096, attempted: read };
    assert_eq!(vcpu.handle_exit(exit, &manager), Err(HypervisorError::UnhandledExit));
    assert_eq!(vcpu.vmcs.as_ref().unwrap().active_view, EptViewKind::Secondary);
}

#[test]
fn cpuid_exit_skips_the_instruction() {
    let manager = hooked_manager();
    let mut vcpu = Vcpu::new(0);
    vcpu.enable_virtualization(capable(), 1, true).unwrap();
    let ctx = sample_context();
    vcpu.launch(ctx, true).unwrap();
    assert_eq!(vcpu.handle_exit(ExitReason::Cpuid { instruction_len: 2 }, &manager), Ok(()));
    let vmcs = vcpu.vmcs.as_ref().unwrap();
    assert_eq!(vmcs.guest_context.rip, ctx.rip + 2);
    // The host context and the bound view are untouched.
    assert_eq!(vmcs.host_context, ctx);
    assert_eq!(vmcs.active_view, EptViewKind::Secondary);
}

#[test]
fn unknown_exit_reason_is_fatal() {
    let manager = hooked_manager();
    let mut vcpu = Vcpu::new(0);
    vcpu.enable_virtualization(capable(), 1, true).unwrap();
    vcpu.launch(sample_context(), true).unwrap();
    assert_eq!(
        vcpu.handle_exit(ExitReason::Unknown { code: 54 }, &manager),
        Err(HypervisorError::UnhandledExit)
    );
}

#[test]
fn devirtualize_restores_the_activation_context() {
    let mut vcpu = Vcpu::new(0);
    vcpu.enable_virtualization(capable(), 1, true).unwrap();
    let ctx = sample_context();
    vcpu.launch(ctx, true).unwrap();
    let restored = vcpu.devirtualize();
    assert_eq!(restored, ctx);
    assert_eq!(vcpu.state, VcpuState::Devirtualized);
    assert!(vcpu.control_region.is_none());
    assert!(vcpu.vmcs.is_none());
}
