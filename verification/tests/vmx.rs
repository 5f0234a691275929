use rhyve::backend::VcpuBackend;
use rhyve::cpu::{backend_for, check_supported_cpu, select_extension, select_vmx, HypervisorExtension};
use rhyve::error::HypervisorError;
use rhyve::host::{set_host_memory, HostMemory, HostMemoryCell};
use rhyve::intel;
use rhyve::paging::PagePool;
use rhyve::vmx;
use rhyve::vmx::control::vmx_capture_status;
use rhyve::vmx::sequence::{RunState, VmcsSetup, VmcsState, VmxRequest, VmxonSetup, VmxonState};
use rhyve::vmx::vmxon::{VmcsRegion, Vmxon};
use rhyve::vmx::VmxCpu;

struct Host;

impl HostMemory for Host {
    fn translation(&self, vaddr: u64) -> Option<u64> {
        self.virtual_to_physical(vaddr)
    }

    fn virtual_to_physical(&self, vaddr: u64) -> Option<u64> {
        if vaddr == 0 {
            None
        } else {
            Some(vaddr + 0x9000_0000)
        }
    }
}

fn host() -> HostMemoryCell<Host> {
    let mut cell = HostMemoryCell::new();
    set_host_memory(&mut cell, Host);
    cell
}

fn cpu() -> VmxCpu {
    let mut pool = PagePool::new(vec![0x2000, 0x1000]);
    VmxCpu::new(&host(), &mut pool, 0xDA04_0000_0000_0004, 0x5e, 0x7000, 1, 0x8_0000, 0x7_0000)
        .ok()
        .unwrap()
}

/// A core, and what it has been asked to do.
struct Core {
    cr0: u64,
    cr4: u64,
    features: u64,
    cr0_fixed0: u64,
    cr0_fixed1: u64,
    cr4_fixed0: u64,
    cr4_fixed1: u64,
    flags: u64,
    error: Result<u64, HypervisorError>,
    entered: Vec<u64>,
}

fn idle_core() -> Core {
    Core {
        cr0: 0x8000_0011,
        cr4: 0x20,
        features: 0,
        cr0_fixed0: 0x8000_0021,
        cr0_fixed1: 0xffff_ffff,
        cr4_fixed0: 0x2000,
        cr4_fixed1: 0x3f_ffff,
        flags: 0x2,
        error: Ok(0),
        entered: Vec::new(),
    }
}

fn carry_out(mut setup: VmxonSetup, unit: &mut Core) -> VmxonState {
    for _ in 0..20 {
        let reply = match setup.request() {
            VmxRequest::UpdateCr0 { set, keep } => {
                unit.cr0 = (unit.cr0 | set) & keep;
                Ok(0)
            }
            VmxRequest::UpdateCr4 { set, keep } => {
                unit.cr4 = (unit.cr4 | set) & keep;
                Ok(0)
            }
            VmxRequest::ReadMsr(0x3a) => Ok(unit.features),
            VmxRequest::ReadMsr(0x486) => Ok(unit.cr0_fixed0),
            VmxRequest::ReadMsr(0x487) => Ok(unit.cr0_fixed1),
            VmxRequest::ReadMsr(0x488) => Ok(unit.cr4_fixed0),
            VmxRequest::ReadMsr(0x489) => Ok(unit.cr4_fixed1),
            VmxRequest::WriteMsr(0x3a, value) => {
                unit.features = value;
                Ok(0)
            }
            VmxRequest::Vmxon(region) => {
                unit.entered.push(region);
                Ok(unit.flags)
            }
            VmxRequest::InstructionError => unit.error,
            VmxRequest::Nothing => return setup.state(),
            other => panic!("unexpected request: {other:?}"),
        };
        setup.reply(reply);
    }
    panic!("no end")
}

const UNSUPPORTED: VmxonState = VmxonState::Failed(HypervisorError::VmUnsupported);

#[test]
fn enabling_vmx_meets_the_prerequisites() {
    let mut unit = idle_core();
    assert_eq!(carry_out(cpu().setup_vmxon(), &mut unit), VmxonState::Done);
    assert_eq!(unit.cr4, 0x2020);
    assert_eq!(unit.cr0, 0x8000_0031);
    assert_eq!(unit.features, 5);
    assert_eq!(unit.entered, vec![0x9000_1000]);
}

#[test]
fn locked_features_are_left_alone() {
    let mut allowed = idle_core();
    allowed.features = 0x25;
    assert_eq!(carry_out(cpu().setup_vmxon(), &mut allowed), VmxonState::Done);
    assert_eq!(allowed.features, 0x25);
    let mut locked_out = idle_core();
    locked_out.features = 1;
    assert_eq!(carry_out(cpu().setup_vmxon(), &mut locked_out), UNSUPPORTED);
    assert!(locked_out.entered.is_empty());
    assert_eq!(locked_out.features, 1);
    let vm = intel::Vm::zeroed();
    assert_eq!(carry_out(vm.setup_vmxon(0x1000), &mut locked_out), UNSUPPORTED);
    assert!(locked_out.entered.is_empty());
    assert_eq!(locked_out.features, 1);
}

#[test]
fn bits_that_must_be_clear_are_cleared() {
    let restricted = || {
        let mut unit = idle_core();
        unit.cr0 = 0xE000_0011;
        unit.cr0_fixed1 = 0x9fff_ffff;
        unit.cr4 = 0x40_0020;
        unit.cr4_fixed1 = 0x3f_ffff;
        unit
    };
    let mut unit = restricted();
    let vm = intel::Vm::zeroed();
    assert_eq!(carry_out(vm.setup_vmxon(0x1000), &mut unit), VmxonState::Done);
    assert_eq!((unit.cr0, unit.cr4), (0x8000_0031, 0x2020));
    assert_eq!(unit.entered, vec![0x1000]);
    // A core that vCPUs share keeps the bits it has.
    let mut unit = restricted();
    assert_eq!(carry_out(cpu().setup_vmxon(), &mut unit), VmxonState::Done);
    assert_eq!((unit.cr0, unit.cr4), (0xE000_0031, 0x40_2020));
    assert_eq!(unit.entered, vec![0x9000_1000]);
}

#[test]
fn undefined_control_register_bits_are_errors() {
    let mut bad_cr0 = idle_core();
    bad_cr0.cr0_fixed0 = 1 << 6;
    assert_eq!(carry_out(cpu().setup_vmxon(), &mut bad_cr0), UNSUPPORTED);
    assert!(bad_cr0.entered.is_empty());
    let mut bad_cr4 = idle_core();
    bad_cr4.cr4_fixed0 = 1 << 15;
    assert_eq!(carry_out(cpu().setup_vmxon(), &mut bad_cr4), UNSUPPORTED);
    assert!(bad_cr4.entered.is_empty());
    let mut all_defined = idle_core();
    all_defined.cr0_fixed0 = 0xE005_003F;
    all_defined.cr4_fixed0 = 0x01FF_7FFF;
    assert_eq!(carry_out(cpu().setup_vmxon(), &mut all_defined), VmxonState::Done);
}

#[test]
fn core_in_vmx_operation_counts_for_shared_cores_only() {
    let failing = |error| {
        let mut unit = idle_core();
        unit.flags = 0x42;
        unit.error = error;
        unit
    };
    assert_eq!(carry_out(cpu().setup_vmxon(), &mut failing(Ok(15))), VmxonState::Done);
    let failed = VmxonState::Failed(HypervisorError::VMCLEARFailed);
    assert_eq!(carry_out(cpu().setup_vmxon(), &mut failing(Ok(8))), failed);
    let unread = Err(HypervisorError::VMREADFailed);
    assert_eq!(carry_out(cpu().setup_vmxon(), &mut failing(unread)), failed);
    let vm = intel::Vm::zeroed();
    assert_eq!(carry_out(vm.setup_vmxon(0x1000), &mut failing(Ok(15))), failed);
    assert_eq!(carry_out(vm.setup_vmxon(0x1000), &mut idle_core()), VmxonState::Done);
}

#[test]
fn vmx_status_follows_the_flags() {
    assert_eq!(vmx_capture_status(0x2), Ok(()));
    assert_eq!(vmx_capture_status(0x3), Err(HypervisorError::VMCLEARFailed));
    assert_eq!(vmx_capture_status(0x42), Err(HypervisorError::VMCLEARFailed));
    assert_eq!(vmx_capture_status(0xffff_ffff_ffff_ffbe), Ok(()));
}

fn feed(mut setup: VmcsSetup, replies: &[Result<u64, HypervisorError>]) -> (Vec<VmxRequest>, VmcsState) {
    let mut requests = Vec::new();
    for reply in replies {
        requests.push(setup.request());
        setup.reply(*reply);
    }
    (requests, setup.state())
}

#[test]
fn vmcs_is_cleared_loaded_and_configured() {
    let ok = Ok(2);
    let (requests, state) = feed(cpu().setup_vmcs(), &[ok, ok, ok, ok, ok]);
    assert_eq!(
        requests,
        vec![
            VmxRequest::Vmclear(0x9000_2000),
            VmxRequest::Vmptrld(0x9000_2000),
            VmxRequest::SetupControls { eptp: 0x5e, apic_access_hpa: 0x7000 },
            VmxRequest::SetupHost,
            VmxRequest::SetupGuest { entry_point: 0x8_0000, guest_rsp: 0x7_0000 },
        ]
    );
    assert_eq!(state, VmcsState::Done);
}

#[test]
fn vmcs_setup_stops_at_the_first_failure() {
    let ok = Ok(2);
    let clear_failed = VmcsState::Failed(HypervisorError::VMCLEARFailed);
    assert_eq!(feed(cpu().setup_vmcs(), &[Ok(0x43), ok, ok, ok, ok]).1, clear_failed);
    assert_eq!(feed(cpu().setup_vmcs(), &[ok, Ok(0x3), ok, ok, ok]).1, clear_failed);
    let write_failed = Err(HypervisorError::VMWRITEFailed);
    for k in 2..5 {
        let mut replies = [ok, ok, ok, ok, ok];
        replies[k] = write_failed;
        let (requests, state) = feed(cpu().setup_vmcs(), &replies);
        assert_eq!(state, VmcsState::Failed(HypervisorError::VMWRITEFailed));
        assert!(requests[k + 1..].iter().all(|r| *r == VmxRequest::Nothing));
    }
}

#[test]
fn intel_vm_configures_its_vmcs() {
    let ok = Ok(2);
    let mut vm = intel::Vm::zeroed();
    let (requests, state) = feed(vm.setup_vmcs(0x3000), &[ok, ok, ok, ok, ok]);
    assert_eq!(
        requests,
        vec![
            VmxRequest::Vmclear(0x3000),
            VmxRequest::Vmptrld(0x3000),
            VmxRequest::SetupCapabilities,
            VmxRequest::SetupSystemGdt,
            VmxRequest::SetupSystem64Bit,
        ]
    );
    assert_eq!(state, VmcsState::Done);
}

fn run(cpu: &mut VmxCpu, replies: &[Result<u64, HypervisorError>]) -> (Vec<VmxRequest>, RunState) {
    let mut requests = Vec::new();
    let mut state = RunState::Activate;
    for reply in replies {
        requests.push(cpu.request(state));
        state = cpu.run(state, *reply);
    }
    (requests, state)
}

#[test]
fn run_ends_with_the_exit_reason() {
    let mut cpu = cpu();
    let (requests, state) = run(&mut cpu, &[Ok(2), Ok(0), Ok(2), Ok(0), Ok(30), Ok(0)]);
    assert_eq!(
        requests,
        vec![
            VmxRequest::Vmptrld(0x9000_2000),
            VmxRequest::LoadGuestRegisters,
            VmxRequest::EnterGuest,
            VmxRequest::SaveGuestRegisters,
            VmxRequest::ReadExitReason,
            VmxRequest::DecodeExitReason(30),
        ]
    );
    assert_eq!(state, RunState::Exited(30));
    assert!(cpu.launched());
    assert_eq!(cpu.request(state), VmxRequest::Nothing);
}

#[test]
fn intel_vm_runs_to_its_exit_reason() {
    let mut vm = intel::Vm::zeroed();
    let mut requests = Vec::new();
    let mut state = RunState::Activate;
    for reply in [Ok(2), Ok(0), Ok(2), Ok(0), Ok(10), Ok(0)] {
        requests.push(vm.request(state, 0x3000));
        state = vm.run(state, reply);
    }
    assert_eq!(
        requests,
        vec![
            VmxRequest::Vmptrld(0x3000),
            VmxRequest::LoadGuestRegisters,
            VmxRequest::EnterGuest,
            VmxRequest::SaveGuestRegisters,
            VmxRequest::ReadExitReason,
            VmxRequest::DecodeExitReason(10),
        ]
    );
    assert_eq!(state, RunState::Exited(10));
    assert_eq!(vm.request(state, 0x3000), VmxRequest::Nothing);
    let unknown = vm.run(RunState::Decode(999), Err(HypervisorError::UnknownVMExitReason));
    assert_eq!(unknown, RunState::Failed(HypervisorError::UnknownVMExitReason));
    let refused = vm.run(RunState::Enter, Ok(0x42));
    assert_eq!(refused, RunState::EntryError);
    let entry = RunState::Failed(HypervisorError::VMEntryFailed(7));
    assert_eq!(vm.run(refused, Ok(7)), entry);
}

#[test]
fn run_fails_at_any_of_its_steps() {
    let unknown = Err(HypervisorError::UnknownVMExitReason);
    let read_failed = Err(HypervisorError::VMREADFailed);
    let write_failed = Err(HypervisorError::VMWRITEFailed);
    let failed = RunState::Failed;
    let mut vcpu = cpu();
    assert_eq!(run(&mut vcpu, &[Ok(0x42)]).1, failed(HypervisorError::VMCLEARFailed));
    assert!(!vcpu.launched());
    let state = run(&mut vcpu, &[Ok(2), write_failed]).1;
    assert_eq!(state, failed(HypervisorError::VMWRITEFailed));
    let state = run(&mut vcpu, &[Ok(2), Ok(0), Ok(0x42), Ok(7)]).1;
    assert_eq!(state, failed(HypervisorError::VMEntryFailed(7)));
    assert!(vcpu.launched());
    let state = run(&mut vcpu, &[Ok(2), Ok(0), Ok(0x3), read_failed]).1;
    assert_eq!(state, failed(HypervisorError::VMEntryFailed(0)));
    let state = run(&mut vcpu, &[Ok(2), Ok(0), Ok(2), read_failed]).1;
    assert_eq!(state, failed(HypervisorError::VMREADFailed));
    let state = run(&mut vcpu, &[Ok(2), Ok(0), Ok(2), Ok(0), read_failed]).1;
    assert_eq!(state, failed(HypervisorError::VMREADFailed));
    let state = run(&mut vcpu, &[Ok(2), Ok(0), Ok(2), Ok(0), Ok(99), unknown]).1;
    assert_eq!(state, failed(HypervisorError::UnknownVMExitReason));
}

#[test]
fn new_vmx_vcpu() {
    let mut cpu = cpu();
    assert_eq!(cpu.revisions(), (4, 4));
    let (vmxon, vmcs) = cpu.areas();
    assert_eq!((vmxon.vaddr, vmxon.hpa), (0x1000, 0x9000_1000));
    assert_eq!((vmcs.vaddr, vmcs.hpa), (0x2000, 0x9000_2000));
    assert!(!cpu.launched());
    assert_eq!(cpu.guest_registers().rip, 0x8_0000);
    assert_eq!(cpu.guest_registers().rsi, 1);
    assert_eq!(cpu.guest_registers().rdi, 0x9000);
    cpu.guest_registers_mut().rbx = 3;
    assert_eq!(cpu.guest_registers().rbx, 3);
}

#[test]
fn new_vmx_vcpu_needs_two_mapped_pages() {
    for pages in [vec![], vec![0x1000], vec![0x1000, 0], vec![0, 0x1000]] {
        let count = pages.len();
        let mut pool = PagePool::new(pages);
        let made = VmxCpu::new(&host(), &mut pool, 4, 0, 0, 0, 0, 0);
        assert_eq!(made.err(), Some(HypervisorError::AllocationFailed));
        assert_eq!(pool.len(), count);
    }
}

#[test]
fn revision_identifier_has_its_top_bit_cleared() {
    let mut region = Vmxon::zeroed();
    assert_eq!(region.revision_id, 0);
    region.init(0x1234_5678_FFFF_FFFF);
    assert_eq!(region.revision_id, 0x7FFF_FFFF);
    assert!(region.data.iter().all(|byte| *byte == 0));
    region.init(0x8000_0001);
    assert_eq!(region.revision_id, 1);
    let mut region = VmcsRegion::zeroed();
    region.init(0x0000_0012);
    assert_eq!(region.revision_id, 0x12);
}

#[test]
fn intel_vm_initializes_both_regions() {
    let mut vm = intel::Vm::zeroed();
    assert_eq!(vm.init(0x8000_0007), Ok(()));
    assert_eq!(vm.vmxon_region.revision_id, 7);
    assert_eq!(vm.vmcs_region.revision_id, 7);
}

fn vendor(name: &str) -> Option<String> {
    Some(String::from(name))
}

#[test]
fn extension_follows_vendor_and_feature() {
    let unsupported = Err(HypervisorError::VmUnsupported);
    let select = |name, vmx, svm| select_extension(name, vmx, svm);
    assert_eq!(
        select(vendor("GenuineIntel"), Some(true), None),
        Ok(HypervisorExtension::Vmx)
    );
    assert_eq!(
        select(vendor("AuthenticAMD"), Some(false), Some(true)),
        Ok(HypervisorExtension::Svm)
    );
    assert_eq!(select(vendor("GenuineIntel"), Some(false), Some(true)), unsupported);
    assert_eq!(select(vendor("GenuineIntel"), None, None), unsupported);
    assert_eq!(select(vendor("AuthenticAMD"), Some(true), Some(false)), unsupported);
    assert_eq!(select(vendor("CentaurHauls"), Some(true), Some(true)), unsupported);
    assert_eq!(select(None, Some(true), Some(true)), unsupported);
}

#[test]
fn backend_is_svm_where_that_was_found() {
    assert_eq!(backend_for(Ok(HypervisorExtension::Svm)), HypervisorExtension::Svm);
    assert_eq!(backend_for(Ok(HypervisorExtension::Vmx)), HypervisorExtension::Vmx);
    assert_eq!(backend_for(Err(HypervisorError::VmUnsupported)), HypervisorExtension::Vmx);
}

#[test]
fn vmx_support_needs_vendor_vmx_and_mtrr() {
    assert_eq!(select_vmx(vendor("GenuineIntel"), Some(true), Some(true)), Ok(()));
    assert_eq!(
        select_vmx(vendor("AuthenticAMD"), Some(true), Some(true)),
        Err(HypervisorError::CPUUnsupported)
    );
    assert_eq!(
        select_vmx(None, Some(true), Some(true)),
        Err(HypervisorError::CPUUnsupported)
    );
    assert_eq!(
        select_vmx(vendor("GenuineIntel"), Some(false), Some(true)),
        Err(HypervisorError::VMXUnsupported)
    );
    assert_eq!(
        select_vmx(vendor("GenuineIntel"), None, Some(true)),
        Err(HypervisorError::VMXUnsupported)
    );
    assert_eq!(
        select_vmx(vendor("GenuineIntel"), Some(true), Some(false)),
        Err(HypervisorError::VmUnsupported)
    );
}

#[test]
fn supported_cpu_is_what_this_processor_reports() {
    let cpuid = raw_cpuid::CpuId::new();
    let name = cpuid.get_vendor_info().map(|info| String::from(info.as_str()));
    let vmx_bit = cpuid.get_feature_info().map(|info| info.has_vmx());
    let mtrr_bit = cpuid.get_feature_info().map(|info| info.has_mtrr());
    let svm_bit = cpuid
        .get_extended_processor_and_feature_identifiers()
        .map(|info| info.has_svm());
    assert_eq!(check_supported_cpu(), select_extension(name.clone(), vmx_bit, svm_bit));
    assert_eq!(vmx::check_supported_cpu(), select_vmx(name.clone(), vmx_bit, mtrr_bit));
    assert_eq!(intel::check_supported_cpu(), select_vmx(name, vmx_bit, mtrr_bit));
}
