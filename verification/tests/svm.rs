use rhyve::apic::{
    ApicTimer, IA32_TSC_DEADLINE, IA32_X2APIC_INIT_COUNT, IA32_X2APIC_LVT_TIMER, LVT_MASKED,
    LVT_TIMER_MODE_PERIODIC, LVT_TIMER_MODE_TSC_DEADLINE,
};
use rhyve::backend::{ExitReason, VcpuBackend};
use rhyve::error::HypervisorError;
use rhyve::fpu::FpuState;
use rhyve::host::{set_host_memory, HostMemory, HostMemoryCell};
use rhyve::paging::PagePool;
use rhyve::svm::vmcb::Vmcb;
use rhyve::svm::{exitcode, vmcb};
use rhyve::svm::{
    CpuidAnswer, SvmCpu, SvmExit, IA32_EFER, IA32_FS_BASE, IA32_GS_BASE,
};

struct Host;

impl HostMemory for Host {
    fn translation(&self, vaddr: u64) -> Option<u64> {
        self.virtual_to_physical(vaddr)
    }

    fn virtual_to_physical(&self, vaddr: u64) -> Option<u64> {
        if vaddr == 0xdead_0000 {
            None
        } else {
            Some(vaddr + 0x9000_0000)
        }
    }
}

fn host() -> HostMemoryCell<Host> {
    let mut cell = HostMemoryCell::new();
    set_host_memory(&mut cell, Host);
    cell
}

fn cpu() -> SvmCpu {
    let mut pool = PagePool::new(vec![0x5000, 0x4000, 0x3000, 0x2000, 0x1000]);
    SvmCpu::new(&host(), &mut pool, 0xabc_d000, 0, 2, 0x8_0000, 0x7_0000).ok().unwrap()
}

fn page(block: &Vmcb) -> [u8; 4096] {
    let mut page = [0u8; 4096];
    for (i, byte) in page.iter_mut().enumerate() {
        *byte = block.byte(i);
    }
    page
}

fn put(page: &mut [u8; 4096], offset: usize, value: u64) {
    page[offset..offset + 8].copy_from_slice(&value.to_le_bytes());
}

/// Lets the guest leave with the given exit code and fields.
fn exit(cpu: &mut SvmCpu, code: u64, fields: &[(usize, u64)]) {
    let mut page = page(cpu.vmcb());
    put(&mut page, vmcb::EXITCODE, code);
    for (offset, value) in fields {
        put(&mut page, *offset, *value);
    }
    cpu.load_vmcb(page);
}

const SUCCESS: Result<SvmExit, HypervisorError> = Ok(SvmExit::Reason(ExitReason::Success));

#[test]
fn vmcb_control_area() {
    let mut block = Vmcb::zeroed();
    block.setup_control(0x1234_5000, 0xaaaa_0000, 0xbbbb_0000);
    assert_eq!(block.read_u64(0x00C) & 0xffff_ffff, 0x9984_0001);
    assert_eq!(block.read_u64(0x010) & 0xffff_ffff, 0x2001);
    assert_eq!(block.read_u64(0x040), 0xaaaa_0000);
    assert_eq!(block.read_u64(0x048), 0xbbbb_0000);
    assert_eq!(block.read_u64(0x058), 0x1_0000_0001);
    assert_eq!(block.read_u64(0x090), 1);
    assert_eq!(block.read_u64(0x0B0), 0x1234_5000);
    let set: Vec<usize> = (0..4096).filter(|i| block.byte(*i) != 0).collect();
    assert!(set.iter().all(|i| *i < 0xB8));
}

#[test]
fn vmcb_guest_area() {
    let mut block = Vmcb::zeroed();
    block.setup_guest(0x8_1234, 0x7_0000);
    // CS: selector, attributes, limit, base.
    assert_eq!(block.read_u64(0x410), 0x000F_FFFF_0A9B_0008);
    assert_eq!(block.read_u64(0x418), 0);
    for slot in [0x400, 0x420, 0x430, 0x440, 0x450] {
        assert_eq!(block.read_u64(slot), 0x000F_FFFF_0C93_0010);
        assert_eq!(block.read_u64(slot + 8), 0);
    }
    // GDTR, LDTR, IDTR, TR.
    assert_eq!(block.read_u64(0x460), 23 << 32);
    assert_eq!(block.read_u64(0x468), 0x1000);
    assert_eq!(block.read_u64(0x470), 0xffff << 32);
    assert_eq!(block.read_u64(0x480), 0xffff << 32);
    assert_eq!(block.read_u64(0x490), (0xffff << 32) | (0x8B << 16));
    assert_eq!(block.byte(0x4CB), 0);
    assert_eq!(block.read_u64(0x4D0), 0x1500);
    assert_eq!(block.read_u64(0x548), 0x20);
    assert_eq!(block.read_u64(0x550), 0x1_0000);
    assert_eq!(block.read_u64(0x558), 0x8000_0031);
    assert_eq!(block.read_u64(0x560), 0x400);
    assert_eq!(block.read_u64(0x568), 0xFFFF_0FF0);
    assert_eq!(block.read_u64(0x570), 2);
    assert_eq!(block.read_u64(0x578), 0x8_1234);
    assert_eq!(block.read_u64(0x5D8), 0x7_0000);
    assert_eq!(block.read_u64(0x5F8), 0);
    assert_eq!(block.read_u64(0x640), 0);
    assert_eq!(block.read_u64(0x648), 0x0007_0406_0007_0406);
    assert!((0..0x400).all(|i| block.byte(i) == 0));
    assert!((0x650..4096).all(|i| block.byte(i) == 0));
}

#[test]
fn vmcb_fields_read_back_and_do_not_touch_each_other() {
    let mut block = Vmcb::zeroed();
    block.write_u64(vmcb::RIP, 0x1122_3344_5566_7788);
    block.write_u64(vmcb::RFLAGS, u64::MAX);
    assert_eq!(block.read_u64(vmcb::RIP), 0x1122_3344_5566_7788);
    assert_eq!(block.read_u64(vmcb::RFLAGS), u64::MAX);
    assert_eq!(block.byte(vmcb::RIP), 0x88);
    assert_eq!(block.byte(vmcb::RIP + 8), 0);
}

#[test]
fn new_svm_vcpu() {
    let cpu = cpu();
    let regs = cpu.guest_registers();
    assert_eq!(regs.rip, 0x8_0000);
    assert_eq!(regs.rsp, 0x7_0000);
    assert_eq!(regs.rdi, 0x9000);
    assert_eq!(regs.rsi, 2);
    assert_eq!(regs.rflags, 2);
    assert_eq!(regs.rax, 0);
    let areas = cpu.areas();
    assert_eq!((areas.vmcb.vaddr, areas.vmcb.hpa), (0x1000, 0x9000_1000));
    assert_eq!((areas.host_vmcb.vaddr, areas.host_vmcb.hpa), (0x2000, 0x9000_2000));
    assert_eq!((areas.host_save.vaddr, areas.host_save.hpa), (0x3000, 0x9000_3000));
    assert_eq!(cpu.vmcb().read_u64(vmcb::IOPM_BASE_PA), 0x9000_4000);
    assert_eq!(cpu.vmcb().read_u64(vmcb::MSRPM_BASE_PA), 0x9000_5000);
    assert_eq!(cpu.vmcb().read_u64(vmcb::N_CR3), 0xabc_d000);
    assert_eq!(cpu.iopm().page(), 0x4000);
    assert_eq!(cpu.msrpm().page(), 0x5000);
    assert!((0..4096).all(|i| cpu.iopm().byte(i) == 0xff && cpu.msrpm().byte(i) == 0xff));
}

#[test]
fn new_svm_vcpu_needs_five_mapped_pages() {
    let mut pool = PagePool::new(vec![0x4000, 0x3000, 0x2000, 0x1000]);
    let made = SvmCpu::new(&host(), &mut pool, 0, 0, 0, 0, 0);
    assert_eq!(made.err(), Some(HypervisorError::AllocationFailed));
    assert_eq!(pool.len(), 4);
    for k in 0..5 {
        let mut pages = vec![0x5000, 0x4000, 0x3000, 0x2000, 0x1000];
        pages[k] = 0xdead_0000;
        let mut pool = PagePool::new(pages);
        let made = SvmCpu::new(&host(), &mut pool, 0, 0, 0, 0, 0);
        assert_eq!(made.err(), Some(HypervisorError::AllocationFailed));
        assert_eq!(pool.len(), 5);
    }
}

#[test]
fn svm_is_enabled_only_where_it_is_not() {
    let cpu = cpu();
    let setup = cpu.setup_svm(0x500);
    assert_eq!(setup.efer, Some(0x1500));
    assert_eq!(setup.host_save_pa, 0x9000_3000);
    assert_eq!(cpu.setup_svm(0x1500).efer, None);
}

#[test]
fn msrs_read_back_what_was_written() {
    let mut cpu = cpu();
    cpu.write_msr(IA32_FS_BASE, 0x1111_2222_3333_4444, 0);
    cpu.write_msr(IA32_GS_BASE, 0x5555_6666_7777_8888, 0);
    assert_eq!(cpu.read_msr(IA32_FS_BASE), 0x1111_2222_3333_4444);
    assert_eq!(cpu.read_msr(IA32_GS_BASE), 0x5555_6666_7777_8888);
    assert_eq!(cpu.read_msr(IA32_EFER), 0x500);
    cpu.write_msr(IA32_EFER, 0xd01, 0);
    assert_eq!(cpu.read_msr(IA32_EFER), 0xd01);
    // SVME stays set, and out of the guest's sight.
    assert_eq!(cpu.vmcb().read_u64(vmcb::EFER), 0x1d01);
    assert_eq!(cpu.read_msr(IA32_FS_BASE), 0x1111_2222_3333_4444);
}

#[test]
fn unknown_msrs_are_inert() {
    let mut cpu = cpu();
    cpu.write_msr(0x10, 99, 0);
    assert_eq!(cpu.read_msr(0x10), 0);
    assert_eq!(cpu.read_msr(IA32_X2APIC_LVT_TIMER), 0);
}

#[test]
fn timer_out_of_reset_is_idle() {
    let timer = ApicTimer::default();
    assert_eq!(timer.vector, 0);
    assert!(!timer.masked && !timer.periodic && !timer.tsc_deadline_mode);
    assert_eq!(timer.deadline, None);
    assert_eq!(timer.period, None);
}

#[test]
fn tsc_deadline_is_kept_unless_masked() {
    let mut cpu = cpu();
    cpu.write_msr(IA32_X2APIC_LVT_TIMER, 0x20 | LVT_TIMER_MODE_TSC_DEADLINE, 0);
    cpu.write_msr(IA32_TSC_DEADLINE, 5000, 0);
    assert_eq!(cpu.read_msr(IA32_TSC_DEADLINE), 5000);
    cpu.write_msr(IA32_TSC_DEADLINE, 0, 0);
    assert_eq!(cpu.read_msr(IA32_TSC_DEADLINE), 0);
    cpu.write_msr(IA32_TSC_DEADLINE, 5000, 0);
    // Masking disarms.
    cpu.write_msr(IA32_X2APIC_LVT_TIMER, 0x20 | LVT_MASKED, 0);
    assert_eq!(cpu.read_msr(IA32_TSC_DEADLINE), 0);
    cpu.write_msr(IA32_TSC_DEADLINE, 5000, 0);
    assert_eq!(cpu.read_msr(IA32_TSC_DEADLINE), 0);
}

#[test]
fn initial_count_arms_relative_to_now() {
    let mut cpu = cpu();
    cpu.write_msr(IA32_X2APIC_LVT_TIMER, 0x20, 0);
    cpu.write_msr(IA32_X2APIC_INIT_COUNT, 100, 1000);
    assert_eq!(cpu.read_msr(IA32_TSC_DEADLINE), 1100);
    cpu.write_msr(IA32_X2APIC_INIT_COUNT, 0, 1000);
    assert_eq!(cpu.read_msr(IA32_TSC_DEADLINE), 0);
    // A count means nothing in TSC-deadline mode.
    cpu.write_msr(IA32_X2APIC_LVT_TIMER, 0x20 | LVT_TIMER_MODE_TSC_DEADLINE, 0);
    cpu.write_msr(IA32_X2APIC_INIT_COUNT, 100, 1000);
    assert_eq!(cpu.read_msr(IA32_TSC_DEADLINE), 0);
    // The counter wraps.
    cpu.write_msr(IA32_X2APIC_LVT_TIMER, 0x20, 0);
    cpu.write_msr(IA32_X2APIC_INIT_COUNT, 10, u64::MAX - 3);
    assert_eq!(cpu.read_msr(IA32_TSC_DEADLINE), 6);
}

#[test]
fn expired_timer_is_injected_once_the_guest_can_take_it() {
    let mut cpu = cpu();
    cpu.write_msr(IA32_X2APIC_LVT_TIMER, 0x31 | LVT_TIMER_MODE_TSC_DEADLINE, 0);
    cpu.write_msr(IA32_TSC_DEADLINE, 5000, 0);
    cpu.guest_registers_mut().rflags = 0x202;
    cpu.begin_run(4999);
    assert_eq!(cpu.vmcb().read_u64(vmcb::EVENTINJ), 0);
    // Interrupts are disabled: the vector waits.
    cpu.guest_registers_mut().rflags = 2;
    cpu.begin_run(5000);
    assert_eq!(cpu.vmcb().read_u64(vmcb::EVENTINJ), 0);
    assert_eq!(cpu.read_msr(IA32_TSC_DEADLINE), 0);
    // Enabled, but in an interrupt shadow.
    cpu.guest_registers_mut().rflags = 0x202;
    exit(&mut cpu, exitcode::INTR, &[(vmcb::INT_STATE, 1)]);
    cpu.begin_run(5001);
    assert_eq!(cpu.vmcb().read_u64(vmcb::EVENTINJ), 0);
    exit(&mut cpu, exitcode::INTR, &[(vmcb::INT_STATE, 0)]);
    cpu.begin_run(5002);
    assert_eq!(cpu.vmcb().read_u64(vmcb::EVENTINJ), 0x8000_0031);
    // It is not delivered again.
    cpu.begin_run(5003);
    assert_eq!(cpu.vmcb().read_u64(vmcb::EVENTINJ), 0);
}

#[test]
fn periodic_timer_keeps_its_beat() {
    let mut cpu = cpu();
    cpu.guest_registers_mut().rflags = 0x202;
    cpu.write_msr(IA32_X2APIC_LVT_TIMER, 0x40 | LVT_TIMER_MODE_PERIODIC, 0);
    cpu.write_msr(IA32_X2APIC_INIT_COUNT, 100, 1000);
    // Noticed late: the next deadline is one period after the last one all the same.
    cpu.service_timer(1150);
    assert_eq!(cpu.read_msr(IA32_TSC_DEADLINE), 1200);
    cpu.inject_pending();
    assert_eq!(cpu.vmcb().read_u64(vmcb::EVENTINJ), 0x8000_0040);
    cpu.service_timer(1199);
    assert_eq!(cpu.read_msr(IA32_TSC_DEADLINE), 1200);
    cpu.service_timer(1200);
    assert_eq!(cpu.read_msr(IA32_TSC_DEADLINE), 1300);
    // The deadline saturates.
    cpu.write_msr(IA32_X2APIC_INIT_COUNT, u64::MAX - 10, 5);
    cpu.service_timer(u64::MAX);
    assert_eq!(cpu.read_msr(IA32_TSC_DEADLINE), u64::MAX);
}

#[test]
fn registers_are_mirrored_for_an_entry() {
    let mut cpu = cpu();
    let regs = cpu.guest_registers_mut();
    regs.rax = 11;
    regs.rip = 22;
    regs.rsp = 33;
    regs.rflags = 44;
    cpu.begin_run(0);
    assert_eq!(cpu.vmcb().read_u64(vmcb::RAX), 11);
    assert_eq!(cpu.vmcb().read_u64(vmcb::RIP), 22);
    assert_eq!(cpu.vmcb().read_u64(vmcb::RSP), 33);
    assert_eq!(cpu.vmcb().read_u64(vmcb::RFLAGS), 44);
}

#[test]
fn interrupt_exit_resumes_where_it_was() {
    let mut cpu = cpu();
    exit(
        &mut cpu,
        exitcode::INTR,
        &[(vmcb::RAX, 1), (vmcb::RIP, 2), (vmcb::RSP, 3), (vmcb::RFLAGS, 4)],
    );
    assert_eq!(cpu.finish_run(0), SUCCESS);
    let regs = cpu.guest_registers();
    assert_eq!((regs.rax, regs.rip, regs.rsp, regs.rflags), (1, 2, 3, 4));
}

#[test]
fn pause_and_hlt_are_stepped_over() {
    let mut cpu = cpu();
    exit(&mut cpu, exitcode::PAUSE, &[(vmcb::RIP, 0x100)]);
    assert_eq!(cpu.finish_run(0), SUCCESS);
    assert_eq!(cpu.guest_registers().rip, 0x102);
    exit(&mut cpu, exitcode::HLT, &[(vmcb::RIP, u64::MAX)]);
    assert_eq!(cpu.finish_run(0), SUCCESS);
    assert_eq!(cpu.guest_registers().rip, 0);
}

/// What the host answers to CPUID.
fn host_answer(leaf: u32, sub_leaf: u32) -> CpuidAnswer {
    let result = core::arch::x86_64::__cpuid_count(leaf, sub_leaf);
    CpuidAnswer { eax: result.eax, ebx: result.ebx, ecx: result.ecx, edx: result.edx }
}

#[test]
fn cpuid_exit_asks_for_the_guests_leaf() {
    for (leaf, sub_leaf) in [(0, 0), (1, 0), (7, 0), (0xd, 1), (0x8000_0001, 0xffff_ffff)] {
        let mut cpu = cpu();
        cpu.guest_registers_mut().rcx = 0xabcd_ef01_0000_0000 | u64::from(sub_leaf);
        let rax = 0x1234_5678_0000_0000 | u64::from(leaf);
        exit(&mut cpu, exitcode::CPUID, &[(vmcb::RIP, 0x100), (vmcb::RAX, rax)]);
        assert_eq!(cpu.finish_run(0), Ok(SvmExit::Cpuid { leaf, sub_leaf }));
        assert_eq!(cpu.guest_registers().rax, rax);
        assert_eq!(cpu.guest_registers().rip, 0x100);
        let answer = host_answer(leaf, sub_leaf);
        cpu.complete_cpuid(answer);
        let regs = cpu.guest_registers();
        assert_eq!(regs.rax, u64::from(answer.eax));
        assert_eq!(regs.rbx, u64::from(answer.ebx));
        assert_eq!(regs.rcx, u64::from(answer.ecx));
        assert_eq!(regs.rdx, u64::from(answer.edx));
        assert_eq!(regs.rip, 0x102);
    }
}

#[test]
fn cpuid_answer_replaces_whole_registers() {
    let mut cpu = cpu();
    cpu.guest_registers_mut().rax = u64::MAX;
    cpu.guest_registers_mut().r8 = 8;
    cpu.complete_cpuid(CpuidAnswer { eax: 1, ebx: 2, ecx: 3, edx: 4 });
    let regs = cpu.guest_registers();
    assert_eq!((regs.rax, regs.rbx, regs.rcx, regs.rdx), (1, 2, 3, 4));
    assert_eq!(regs.rip, 0x8_0002);
    assert_eq!(regs.r8, 8);
}

#[test]
fn wrmsr_and_rdmsr_exits() {
    let mut cpu = cpu();
    let regs = cpu.guest_registers_mut();
    regs.rcx = 0xffff_ffff_0000_0000 | u64::from(IA32_GS_BASE);
    regs.rdx = 0x1234_5678;
    exit(
        &mut cpu,
        exitcode::MSR,
        &[(vmcb::EXITINFO1, 1), (vmcb::RAX, 0xffff_ffff_9abc_def0), (vmcb::RIP, 0x100)],
    );
    assert_eq!(cpu.finish_run(0), SUCCESS);
    assert_eq!(cpu.read_msr(IA32_GS_BASE), 0x1234_5678_9abc_def0);
    assert_eq!(cpu.guest_registers().rip, 0x102);
    cpu.guest_registers_mut().rdx = 0;
    exit(&mut cpu, exitcode::MSR, &[(vmcb::EXITINFO1, 0), (vmcb::RAX, 0), (vmcb::RIP, 0x200)]);
    assert_eq!(cpu.finish_run(0), SUCCESS);
    let regs = cpu.guest_registers();
    assert_eq!(regs.rax, 0x9abc_def0);
    assert_eq!(regs.rdx, 0x1234_5678);
    assert_eq!(regs.rip, 0x202);
}

#[test]
fn wrmsr_exit_arms_the_timer_at_the_given_time() {
    let mut cpu = cpu();
    cpu.guest_registers_mut().rcx = u64::from(IA32_X2APIC_INIT_COUNT);
    exit(&mut cpu, exitcode::MSR, &[(vmcb::EXITINFO1, 1), (vmcb::RAX, 50)]);
    assert_eq!(cpu.finish_run(1000), SUCCESS);
    assert_eq!(cpu.read_msr(IA32_TSC_DEADLINE), 1050);
}

#[test]
fn xsetbv_is_left_to_the_embedder() {
    let mut cpu = cpu();
    let regs = cpu.guest_registers_mut();
    regs.rcx = 0;
    regs.rdx = 0x1_0000_0002;
    exit(&mut cpu, exitcode::XSETBV, &[(vmcb::RAX, 7), (vmcb::RIP, 0x100)]);
    assert_eq!(cpu.finish_run(0), Ok(SvmExit::Xsetbv { index: 0, value: 0x2_0000_0007 }));
    assert_eq!(cpu.guest_registers().rip, 0x103);
}

#[test]
fn port_access_is_repackaged() {
    let mut cpu = cpu();
    exit(
        &mut cpu,
        exitcode::IOIO,
        &[(vmcb::EXITINFO1, 0x03f8_0210), (vmcb::EXITINFO2, 0x8_0010), (vmcb::RIP, 0x8_000f)],
    );
    assert_eq!(
        cpu.finish_run(0),
        Ok(SvmExit::Reason(ExitReason::IoInstruction(0x03f8_0000)))
    );
    assert_eq!(cpu.guest_registers().rip, 0x8_0010);
    exit(&mut cpu, exitcode::IOIO, &[(vmcb::EXITINFO1, 0x0805_0011)]);
    assert_eq!(
        cpu.finish_run(0),
        Ok(SvmExit::Reason(ExitReason::IoInstruction(0x0805_0008)))
    );
}

#[test]
fn shutdown_invalid_and_unknown_exits() {
    let mut cpu = cpu();
    exit(&mut cpu, exitcode::SHUTDOWN, &[]);
    assert_eq!(cpu.finish_run(0), Ok(SvmExit::Reason(ExitReason::Shutdown)));
    exit(&mut cpu, exitcode::INVALID, &[]);
    assert_eq!(cpu.finish_run(0), Err(HypervisorError::VMEntryFailed(0)));
    exit(&mut cpu, exitcode::NPF, &[]);
    assert_eq!(cpu.finish_run(0), Err(HypervisorError::UnknownVMExitReason));
    exit(&mut cpu, exitcode::VMRUN, &[]);
    assert_eq!(cpu.finish_run(0), Err(HypervisorError::UnknownVMExitReason));
}

#[test]
fn failed_exit_leaves_the_vcpu_as_it_was() {
    let mut cpu = cpu();
    cpu.write_msr(IA32_X2APIC_LVT_TIMER, 0x20, 0);
    cpu.write_msr(IA32_X2APIC_INIT_COUNT, 100, 1000);
    cpu.guest_registers_mut().rbx = 7;
    exit(&mut cpu, exitcode::NPF, &[(vmcb::RIP, 0x100), (vmcb::RFLAGS, 2)]);
    let before = page(cpu.vmcb());
    assert_eq!(cpu.finish_run(5000), Err(HypervisorError::UnknownVMExitReason));
    assert_eq!(page(cpu.vmcb()), before);
    assert_eq!(cpu.guest_registers().rip, 0x100);
    assert_eq!(cpu.guest_registers().rbx, 7);
    assert_eq!(cpu.read_msr(IA32_TSC_DEADLINE), 1100);
}

/// Runs the vCPU once, with a guest that leaves with the given FP state.
fn run_once(cpu: &mut SvmCpu, host_fpu: u8, guest_fpu: u8) -> ([u8; 4096], [u8; 4096]) {
    let entry = cpu.enter(0, 0, [host_fpu; 4096]);
    let mut block = page(cpu.vmcb());
    put(&mut block, vmcb::EXITCODE, exitcode::INTR);
    let left = cpu.leave(entry.regs, block, [guest_fpu; 4096], 0);
    assert_eq!(left.exit, SUCCESS);
    (entry.fpu, left.fpu)
}

#[test]
fn fp_states_survive_runs() {
    let mut cpu = cpu();
    let (entered, left) = run_once(&mut cpu, 1, 2);
    assert_eq!(entered, FpuState::init_guest().area());
    assert_eq!(left, [1; 4096]);
    assert_eq!(run_once(&mut cpu, 3, 4), ([2; 4096], [3; 4096]));
    cpu.guest_registers_mut().rax = 9;
    cpu.write_msr(IA32_GS_BASE, 5, 0);
    assert_eq!(run_once(&mut cpu, 5, 6), ([4; 4096], [5; 4096]));
}

#[test]
fn entry_has_what_the_processor_needs() {
    let mut cpu = cpu();
    let regs = cpu.guest_registers_mut();
    regs.rax = 11;
    regs.rbx = 12;
    regs.rip = 22;
    let entry = cpu.enter(0x500, 0, [0; 4096]);
    assert_eq!(entry.setup.efer, Some(0x1500));
    assert_eq!(entry.setup.host_save_pa, 0x9000_3000);
    assert_eq!((entry.vmcb_pa, entry.host_vmcb_pa), (0x9000_1000, 0x9000_2000));
    assert_eq!((entry.regs.rax, entry.regs.rbx, entry.regs.rip), (11, 12, 22));
    assert_eq!(cpu.vmcb().read_u64(vmcb::RAX), 11);
    assert_eq!(cpu.vmcb().read_u64(vmcb::RIP), 22);
    assert_eq!(cpu.enter(0x1500, 0, [0; 4096]).setup.efer, None);
}

#[test]
fn leaving_takes_over_registers_and_block() {
    let mut cpu = cpu();
    let entry = cpu.enter(0, 0, [0; 4096]);
    let mut regs = entry.regs;
    regs.rbx = 77;
    let mut block = page(cpu.vmcb());
    put(&mut block, vmcb::EXITCODE, exitcode::HLT);
    put(&mut block, vmcb::RIP, 0x300);
    put(&mut block, vmcb::RAX, 5);
    assert_eq!(cpu.leave(regs, block, [0; 4096], 0).exit, SUCCESS);
    let regs = cpu.guest_registers();
    assert_eq!((regs.rbx, regs.rip, regs.rax), (77, 0x301, 5));
    assert_eq!(cpu.vmcb().read_u64(vmcb::RIP), 0x300);
}
