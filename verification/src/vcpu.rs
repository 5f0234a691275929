//! Virtual CPUs.

use vstd::prelude::*;

use crate::backend::{ExitReason, VcpuBackend};
use crate::bytes;
use crate::cpu::HypervisorExtension;
use crate::error::HypervisorError;
use crate::host::{HostMemory, HostMemoryCell};
use crate::hypercall;
use crate::paging::PagePool;
use crate::svm;
use crate::svm::{SvmCpu, SvmState};
use crate::uart::{Uart, UartState};
use crate::vmx;
use crate::vmx::run;
use crate::vmx::run::GuestRegisters;
use crate::vmx::{VmxCpu, VmxState};

verus! {

/// Names a virtual machine.
pub type VmId = usize;

/// Names a virtual CPU within its virtual machine.
pub type VCpuId = usize;

/// I/O ports (besides the uhyve `Exit` hypercall) whose write ends the run: the
/// `isa-debug-exit` port.
pub const DEBUG_EXIT_PORT: u16 = 0xf4;

/// The uhyve v1 exit port, whose write ends the run.
pub const UHYVE_EXIT_PORT: u16 = 0x540;

/// I/O port base of the guest's emulated serial port.
pub const SERIAL_BASE: u16 = 0x800;

/// Number of consecutive ports of the guest's emulated serial port.
pub const SERIAL_PORTS: u16 = 8;

/// Initial configuration of a virtual CPU.
///
/// Describes the architectural state a [`Cpu`] starts executing with. The
/// guest-physical address space is described once at the VM level; a vCPU only needs
/// the nested-paging pointer that addresses it.
#[derive(Debug, Clone, Copy, PartialEq, Eq)]
pub struct CpuConfig {
    /// Nested-paging pointer of the owning VM, shared by all of its vCPUs (the EPT
    /// pointer on Intel VT-x, the nested CR3 on AMD-V).
    pub nested_paging_pointer: u64,
    /// Host-physical address of the VM's APIC-access page (for hardware APIC
    /// virtualization).
    pub apic_access_hpa: u64,
    /// Initial instruction pointer (the guest entry point).
    pub entry_point: u64,
    /// Initial stack pointer.
    pub stack_pointer: u64,
}

/// What matters of the processor that vCPUs are created on.
#[derive(Debug, Clone, Copy, PartialEq, Eq)]
pub struct Processor {
    /// The virtualization extension it offers.
    pub extension: HypervisorExtension,
    /// The value of its `IA32_VMX_BASIC` register, if it has that.
    pub vmx_basic: u64,
}

/// The virtualization backend driving a vCPU.
pub enum Backend {
    Vmx(VmxCpu),
    Svm(SvmCpu),
}

impl Backend {
    /// Whether `self` and `other` are alike in all but the guest's registers.
    pub open spec fn alike(self, other: Backend) -> bool {
        match (self, other) {
            (Backend::Vmx(a), Backend::Vmx(b)) => a@ == (VmxState { regs: a@.regs, ..b@ }),
            (Backend::Svm(a), Backend::Svm(b)) => a@ == (SvmState { regs: a@.regs, ..b@ })
                && a.frame() == b.frame(),
            _ => false,
        }
    }
}

impl VcpuBackend<GuestRegisters> for Backend {
    open spec fn captured(&self) -> GuestRegisters {
        match self {
            Backend::Vmx(cpu) => cpu.captured(),
            Backend::Svm(cpu) => cpu.captured(),
        }
    }

    fn guest_registers(&self) -> (registers: &GuestRegisters) {
        match self {
            Backend::Vmx(cpu) => cpu.guest_registers(),
            Backend::Svm(cpu) => cpu.guest_registers(),
        }
    }

    fn guest_registers_mut(&mut self) -> (registers: &mut GuestRegisters)
        ensures
            final(self).alike(*old(self)),
    {
        match self {
            Backend::Vmx(cpu) => cpu.guest_registers_mut(),
            Backend::Svm(cpu) => cpu.guest_registers_mut(),
        }
    }
}

/// Whether the pool and the host's translation have what the backend of a vCPU needs.
pub open spec fn can_create<H: HostMemory>(
    host: HostMemoryCell<H>,
    pool: Seq<u64>,
    extension: HypervisorExtension,
) -> bool {
    match extension {
        HypervisorExtension::Vmx => vmx::can_create(host, pool),
        HypervisorExtension::Svm => svm::can_create(host, pool),
    }
}

/// The number of pages the backend of a vCPU takes from the pool.
pub open spec fn pages_of(extension: HypervisorExtension) -> int {
    match extension {
        HypervisorExtension::Vmx => 2,
        HypervisorExtension::Svm => 5,
    }
}

/// What the run loop does after a VM-exit has been handled.
#[derive(Debug, Clone, Copy, PartialEq, Eq, Structural)]
pub enum RunStatus {
    /// The guest is done; the run ends.
    Finished,
    /// The guest is resumed at once.
    Resume,
    /// The guest is resumed after other threads had a chance to run.
    Yield,
}

/// Whether the exit qualification of a port access says that the port is read.
pub open spec fn is_read(qualification: u64) -> bool {
    (qualification >> 3) & 1 != 0
}

/// The port in the exit qualification of a port access.
pub open spec fn port_of(qualification: u64) -> u16 {
    (qualification >> 16) as u16
}

/// Whether a write to a port ends the run.
pub open spec fn is_exit_port(port: u16) -> bool {
    port == DEBUG_EXIT_PORT || port == UHYVE_EXIT_PORT
}

/// Whether a port is one of the emulated serial port.
pub open spec fn is_serial_port(port: u16) -> bool {
    SERIAL_BASE <= port < SERIAL_BASE + SERIAL_PORTS
}

/// What handling a VM-exit leads to.
pub struct Handled {
    pub status: RunStatus,
    pub regs: GuestRegisters,
    pub uart: UartState,
    pub memory: Seq<u8>,
}

/// What handling a port access leads to. A write to an exit port ends the run; a write
/// to a hypercall's port is that hypercall, with the argument in RDI; an access to the
/// serial port is one to the register of the UART, with the value in AL; and other
/// ports swallow what is written and read as zero.
pub open spec fn handled_io(
    qualification: u64,
    regs: GuestRegisters,
    uart: UartState,
    memory: Seq<u8>,
) -> Handled {
    let port = port_of(qualification);
    let register = (port - SERIAL_BASE) as u16;
    if is_read(qualification) {
        let value = if is_serial_port(port) {
            uart.register(register)
        } else {
            0
        };
        Handled {
            status: RunStatus::Yield,
            regs: GuestRegisters { rax: (regs.rax & !0xff) | value as u64, ..regs },
            uart,
            memory,
        }
    } else if is_exit_port(port) || port == hypercall::EXIT {
        Handled { status: RunStatus::Finished, regs, uart, memory }
    } else if hypercall::is_hypercall(port) {
        let (uart, memory) = hypercall::served(port, regs.rdi, uart, memory);
        Handled { status: RunStatus::Resume, regs, uart, memory }
    } else if is_serial_port(port) {
        Handled {
            status: RunStatus::Yield,
            regs,
            uart: uart.after_write(register, regs.rax as u8),
            memory,
        }
    } else {
        Handled { status: RunStatus::Yield, regs, uart, memory }
    }
}

/// Whether all that handling a VM-exit accesses on behalf of the guest is in the guest's
/// memory, as it is for any exit that is not a hypercall.
pub open spec fn handleable(reason: ExitReason, regs: GuestRegisters, memory: Seq<u8>) -> bool {
    reason matches ExitReason::IoInstruction(qualification) ==> {
        let port = port_of(qualification);
        is_read(qualification) || hypercall::reaches(port, regs.rdi, memory)
    }
}

/// What handling a VM-exit leads to: a port access is handled, a shutdown ends the
/// run, and what the backend has already handled needs nothing more.
pub open spec fn handled(
    reason: ExitReason,
    regs: GuestRegisters,
    uart: UartState,
    memory: Seq<u8>,
) -> Handled {
    match reason {
        ExitReason::IoInstruction(qualification) => handled_io(qualification, regs, uart, memory),
        ExitReason::Shutdown => Handled { status: RunStatus::Finished, regs, uart, memory },
        ExitReason::Success => Handled { status: RunStatus::Yield, regs, uart, memory },
    }
}

/// A virtual CPU belonging to a virtual machine.
///
/// `Cpu` is the architecture-independent handle that implements [`VCpu`]. The actual
/// virtualization work is delegated to a [`Backend`], so that neither `Cpu` nor
/// [`Vm`](crate::vm::Vm) depends on the extension. The nested page tables are owned by
/// the VM and shared with every `Cpu` via [`CpuConfig::nested_paging_pointer`].
pub struct Cpu {
    /// Id of the virtual machine this vCPU belongs to.
    vm_id: VmId,
    /// Id of this vCPU within its virtual machine.
    id: VCpuId,
    /// The virtualization backend driving this vCPU.
    backend: Backend,
}

/// What a vCPU is made of.
pub struct CpuState {
    pub vm_id: VmId,
    pub id: VCpuId,
    pub backend: Backend,
}

impl View for Cpu {
    type V = CpuState;

    closed spec fn view(&self) -> CpuState {
        CpuState { vm_id: self.vm_id, id: self.id, backend: self.backend }
    }
}

/// A virtual CPU. The run loop itself enters the guest and so is the embedder's; a
/// vCPU is created and has its exits handled here.
pub trait VCpu: Sized {
    /// What a vCPU is configured with.
    type VCpuConfig;

    /// Creates a virtual CPU and its virtualization backend.
    fn new<H: HostMemory>(
        host: &HostMemoryCell<H>,
        pool: &mut PagePool,
        processor: Processor,
        vm_id: VmId,
        vcpu_id: VCpuId,
        config: Self::VCpuConfig,
    ) -> (cpu: Result<Self, HypervisorError>)
        requires
            host.registered() is Some,
    ;

    /// Whether all that handling a VM-exit accesses is in the guest's memory.
    spec fn handles(&self, reason: ExitReason, memory: Seq<u8>) -> bool;

    /// Handles the VM-exit that ended a run of the guest, whose memory is `memory`.
    fn handle_exit(&mut self, reason: ExitReason, uart: &mut Uart, memory: &mut [u8]) -> (status:
        RunStatus)
        requires
            old(self).handles(reason, old(memory)@),
    ;
}

impl VCpu for Cpu {
    type VCpuConfig = CpuConfig;

    /// Creates a virtual CPU and its virtualization backend: the AMD-V backend where
    /// the processor offers that, else the VT-x backend. The guest registers are seeded
    /// from `config` (RIP at the entry point, RSP at the initial stack).
    fn new<H: HostMemory>(
        host: &HostMemoryCell<H>,
        pool: &mut PagePool,
        processor: Processor,
        vm_id: VmId,
        vcpu_id: VCpuId,
        config: CpuConfig,
    ) -> (cpu: Result<Self, HypervisorError>)
        ensures
            can_create(*host, old(pool)@, processor.extension) ==> {
                &&& cpu matches Ok(c) && c@.vm_id == vm_id && c@.id == vcpu_id && c@.backend
                    .captured() == run::boot_registers(
                    vcpu_id as u64,
                    config.entry_point,
                    config.stack_pointer,
                ) && created(*host, old(pool)@, processor, vcpu_id, config, c@.backend)
                &&& final(pool)@ == old(pool)@.take(
                    old(pool)@.len() - pages_of(processor.extension),
                )
            },
            !can_create(*host, old(pool)@, processor.extension) ==> {
                &&& cpu matches Err(e) && e == HypervisorError::AllocationFailed
                &&& final(pool)@ == old(pool)@
            },
    {
        let backend = match processor.extension {
            HypervisorExtension::Svm => match SvmCpu::new(
                host,
                pool,
                config.nested_paging_pointer,
                config.apic_access_hpa,
                vcpu_id as u64,
                config.entry_point,
                config.stack_pointer,
            ) {
                Ok(cpu) => Backend::Svm(cpu),
                Err(error) => return Err(error),
            },
            HypervisorExtension::Vmx => match VmxCpu::new(
                host,
                pool,
                processor.vmx_basic,
                config.nested_paging_pointer,
                config.apic_access_hpa,
                vcpu_id as u64,
                config.entry_point,
                config.stack_pointer,
            ) {
                Ok(cpu) => Backend::Vmx(cpu),
                Err(error) => return Err(error),
            },
        };
        Ok(Cpu { vm_id, id: vcpu_id, backend })
    }

    open spec fn handles(&self, reason: ExitReason, memory: Seq<u8>) -> bool {
        handleable(reason, self@.backend.captured(), memory)
    }

    /// Handles a VM-exit: a port access, which may be a request to exit, a hypercall or
    /// an access to the serial port, or a shutdown.
    fn handle_exit(&mut self, reason: ExitReason, uart: &mut Uart, memory: &mut [u8]) -> (status:
        RunStatus)
        ensures
            ({
                let after = handled(
                    reason,
                    old(self)@.backend.captured(),
                    old(uart)@,
                    old(memory)@,
                );
                &&& status == after.status
                &&& final(self)@.backend.captured() == after.regs
                &&& final(uart)@ == after.uart
                &&& final(memory)@ == after.memory
                &&& final(self)@.vm_id == old(self)@.vm_id
                &&& final(self)@.id == old(self)@.id
                &&& final(self)@.backend.alike(old(self)@.backend)
            }),
    {
        match reason {
            ExitReason::IoInstruction(qualification) => {
                self.handle_io(qualification, uart, memory)
            },
            ExitReason::Shutdown => RunStatus::Finished,
            ExitReason::Success => RunStatus::Yield,
        }
    }
}

/// Whether a backend is that of a vCPU as it is created from a configuration.
pub open spec fn created<H: HostMemory>(
    host: HostMemoryCell<H>,
    pool: Seq<u64>,
    processor: Processor,
    vcpu_id: VCpuId,
    config: CpuConfig,
    backend: Backend,
) -> bool {
    match (processor.extension, backend) {
        (HypervisorExtension::Vmx, Backend::Vmx(cpu)) => {
            &&& cpu@.eptp == config.nested_paging_pointer
            &&& cpu@.apic_access_hpa == config.apic_access_hpa
            &&& cpu@.entry_point == config.entry_point
            &&& cpu@.guest_rsp == config.stack_pointer
            &&& !cpu@.launched
            &&& cpu@.vmxon_revision == vmx::vmxon::revision_of(processor.vmx_basic)
            &&& cpu@.vmcs_revision == vmx::vmxon::revision_of(processor.vmx_basic)
            &&& cpu@.vmxon_data == Seq::new(vmx::vmxon::REGION_DATA as nat, |i: int| 0u8)
            &&& cpu@.vmcs_data == Seq::new(vmx::vmxon::REGION_DATA as nat, |i: int| 0u8)
            &&& cpu@.vmxon_area == crate::paging::area(host, pool, 0)
            &&& cpu@.vmcs_area == crate::paging::area(host, pool, 1)
        },
        (HypervisorExtension::Svm, Backend::Svm(cpu)) => {
            &&& svm::vmcb::boot_block(
                cpu@.vmcb,
                config.nested_paging_pointer,
                crate::paging::area(host, pool, 3).hpa,
                crate::paging::area(host, pool, 4).hpa,
                config.entry_point,
                config.stack_pointer,
            )
            &&& cpu@.timer == crate::apic::idle_timer()
            &&& cpu@.pending is None
            &&& cpu.frame().areas.vmcb == crate::paging::area(host, pool, 0)
            &&& cpu.frame().areas.host_vmcb == crate::paging::area(host, pool, 1)
            &&& cpu.frame().areas.host_save == crate::paging::area(host, pool, 2)
            &&& cpu.frame().iopm.address() == crate::paging::area(host, pool, 3).vaddr
            &&& cpu.frame().iopm.bits() == Seq::new(4096, |i: int| 0xFFu8)
            &&& cpu.frame().msrpm.address() == crate::paging::area(host, pool, 4).vaddr
            &&& cpu.frame().msrpm.bits() == Seq::new(4096, |i: int| 0xFFu8)
            &&& cpu.frame().guest_fpu@ == crate::fpu::initial_state()
            &&& cpu.frame().host_fpu@ == Seq::new(4096, |i: int| 0u8)
        },
        _ => false,
    }
}

impl Cpu {
    /// Returns the id of the virtual machine this vCPU belongs to.
    pub fn vm_id(&self) -> (vm_id: VmId)
        ensures
            vm_id == self@.vm_id,
    {
        self.vm_id
    }

    /// Returns the id of this vCPU within its virtual machine.
    pub fn id(&self) -> (id: VCpuId)
        ensures
            id == self@.id,
    {
        self.id
    }

    /// Returns the guest register state captured at the last VM-exit.
    pub fn registers(&self) -> (registers: &GuestRegisters)
        ensures
            *registers == self@.backend.captured(),
    {
        self.backend.guest_registers()
    }

    /// Returns the guest register state captured at the last VM-exit for modification.
    pub fn registers_mut(&mut self) -> (registers: &mut GuestRegisters)
        ensures
            *registers == old(self)@.backend.captured(),
            final(self)@.backend.captured() == *final(registers),
            final(self)@.backend.alike(old(self)@.backend),
            final(self)@.vm_id == old(self)@.vm_id,
            final(self)@.id == old(self)@.id,
    {
        self.backend.guest_registers_mut()
    }

    /// The backend, for the embedder to drive.
    pub fn backend_mut(&mut self) -> (backend: &mut Backend)
        ensures
            *backend == old(self)@.backend,
            final(self)@ == (CpuState { backend: *final(backend), ..old(self)@ }),
    {
        &mut self.backend
    }

    /// Handles the VM-exit that ended a run of the guest, as [`VCpu::handle_exit`] does,
    /// unless the guest asks for an access outside of its memory. The exit is then not
    /// handled: nothing is changed, and there is no status.
    pub fn try_handle_exit(
        &mut self,
        reason: ExitReason,
        uart: &mut Uart,
        memory: &mut [u8],
    ) -> (status: Option<RunStatus>)
        ensures
            final(self)@.vm_id == old(self)@.vm_id,
            final(self)@.id == old(self)@.id,
            final(self)@.backend.alike(old(self)@.backend),
            ({
                let before = old(self)@.backend.captured();
                let after = handled(reason, before, old(uart)@, old(memory)@);
                if handleable(reason, before, old(memory)@) {
                    &&& status == Some(after.status)
                    &&& final(self)@.backend.captured() == after.regs
                    &&& final(uart)@ == after.uart
                    &&& final(memory)@ == after.memory
                } else {
                    &&& status is None
                    &&& final(self)@ == old(self)@
                    &&& final(uart)@ == old(uart)@
                    &&& final(memory)@ == old(memory)@
                }
            }),
    {
        let can = match reason {
            ExitReason::IoInstruction(qualification) => {
                let port = (qualification >> 16) as u16;
                (qualification >> 3) & 1 != 0 || hypercall::can_serve(
                    port,
                    self.registers().rdi,
                    memory,
                )
            },
            _ => true,
        };
        if can {
            Some(self.handle_exit(reason, uart, memory))
        } else {
            None
        }
    }

    /// Handles a port access.
    fn handle_io(&mut self, qualification: u64, uart: &mut Uart, memory: &mut [u8]) -> (status:
        RunStatus)
        requires
            handleable(
                ExitReason::IoInstruction(qualification),
                old(self)@.backend.captured(),
                old(memory)@,
            ),
        ensures
            ({
                let after = handled_io(
                    qualification,
                    old(self)@.backend.captured(),
                    old(uart)@,
                    old(memory)@,
                );
                &&& status == after.status
                &&& final(self)@.backend.captured() == after.regs
                &&& final(uart)@ == after.uart
                &&& final(memory)@ == after.memory
                &&& final(self)@.vm_id == old(self)@.vm_id
                &&& final(self)@.id == old(self)@.id
                &&& final(self)@.backend.alike(old(self)@.backend)
            }),
    {
        let is_in = (qualification >> 3) & 1 != 0;
        let port = (qualification >> 16) as u16;
        // A write to an exit port is the guest requesting shutdown; end the run cleanly
        // so the caller's output stream closes.
        if !is_in && (port == DEBUG_EXIT_PORT || port == UHYVE_EXIT_PORT) {
            return RunStatus::Finished;
        }
        // uhyve passes the hypercall argument in RDI; the `out dx, eax` only carries a
        // fixed magic in EAX.
        if !is_in && hypercall::is_hypercall_port(port) {
            if port == hypercall::EXIT {
                return RunStatus::Finished;
            }
            let data = self.registers().rdi;
            hypercall::serve(port, data, uart, memory);
            return RunStatus::Resume;
        }
        // Only the guest's serial port is emulated; other I/O is swallowed.
        let serial = SERIAL_BASE <= port && port < SERIAL_BASE + SERIAL_PORTS;
        let rax = self.registers().rax;
        if is_in {
            let value = if serial {
                uart.read(port - SERIAL_BASE)
            } else {
                0
            };
            let registers = self.registers_mut();
            registers.rax = (rax & !0xff) | value as u64;
        } else if serial {
            let _sent = uart.write(port - SERIAL_BASE, rax as u8);
        }
        RunStatus::Yield
    }
}

/// An exit qualification holds the port in bits 31:16, and bit 3 is set for a read.
pub proof fn law_qualification_fields(qualification: u64)
    ensures
        port_of(qualification) == qualification / 0x1_0000 % 0x1_0000,
        is_read(qualification) <==> qualification / 8 % 2 == 1,
{
    bytes::lemma_bits(qualification);
}

/// A read from a port puts the value in AL and leaves the rest of RAX alone. The ports
/// 0x800 to 0x807 are the registers of the UART; any other port reads as zero.
pub proof fn law_port_read_sets_al_only(
    qualification: u64,
    regs: GuestRegisters,
    uart: UartState,
    memory: Seq<u8>,
)
    requires
        qualification / 8 % 2 == 1,
    ensures
        ({
            let after = handled(ExitReason::IoInstruction(qualification), regs, uart, memory);
            let port = qualification / 0x1_0000 % 0x1_0000;
            let value = if 0x800 <= port < 0x808 {
                uart.register((port - 0x800) as u16)
            } else {
                0
            };
            &&& after.regs.rax == regs.rax - regs.rax % 0x100 + value
            &&& after.regs == (GuestRegisters { rax: after.regs.rax, ..regs })
            &&& after.uart == uart
            &&& after.memory == memory
            &&& after.status == RunStatus::Yield
            &&& handleable(ExitReason::IoInstruction(qualification), regs, memory)
        }),
{
    law_qualification_fields(qualification);
    let rax = regs.rax;
    let port = port_of(qualification);
    let value: u8 = if is_serial_port(port) {
        uart.register((port - SERIAL_BASE) as u16)
    } else {
        0
    };
    assert((rax & !0xff) | value as u64 == rax - rax % 0x100 + value) by (bit_vector);
}

/// A write to one of the ports 0x800 to 0x807 writes AL to a register of the UART and
/// changes nothing else.
pub proof fn law_serial_port_write(
    qualification: u64,
    regs: GuestRegisters,
    uart: UartState,
    memory: Seq<u8>,
)
    requires
        qualification / 8 % 2 == 0,
        0x800 <= qualification / 0x1_0000 % 0x1_0000 < 0x808,
    ensures
        ({
            let after = handled(ExitReason::IoInstruction(qualification), regs, uart, memory);
            let port = qualification / 0x1_0000 % 0x1_0000;
            &&& after.uart == uart.after_write((port - 0x800) as u16, (regs.rax % 0x100) as u8)
            &&& after.regs == regs && after.memory == memory
            &&& after.status == RunStatus::Yield
            &&& handleable(ExitReason::IoInstruction(qualification), regs, memory)
        }),
{
    law_qualification_fields(qualification);
    bytes::lemma_bits(regs.rax);
}

/// A write to the port of a hypercall other than the exit is that hypercall, with RDI as
/// its argument: it can be handled exactly if the hypercall can be served. The guest is
/// resumed at once with its registers as they are.
pub proof fn law_hypercall_is_served(
    qualification: u64,
    regs: GuestRegisters,
    uart: UartState,
    memory: Seq<u8>,
)
    requires
        qualification / 8 % 2 == 0,
        hypercall::is_hypercall((qualification / 0x1_0000 % 0x1_0000) as u16),
        qualification / 0x1_0000 % 0x1_0000 != 0x1010,
    ensures
        ({
            let after = handled(ExitReason::IoInstruction(qualification), regs, uart, memory);
            let port = (qualification / 0x1_0000 % 0x1_0000) as u16;
            &&& (after.uart, after.memory) == hypercall::served(port, regs.rdi, uart, memory)
            &&& after.regs == regs
            &&& after.status == RunStatus::Resume
            &&& handleable(ExitReason::IoInstruction(qualification), regs, memory)
                <==> hypercall::reaches(port, regs.rdi, memory)
        }),
{
    law_qualification_fields(qualification);
}

/// A write to a port that is none of the serial port, of a hypercall or of an exit is
/// swallowed, as is an exit that the backend has handled.
pub proof fn law_other_exits_are_swallowed(
    reason: ExitReason,
    regs: GuestRegisters,
    uart: UartState,
    memory: Seq<u8>,
)
    requires
        reason matches ExitReason::IoInstruction(qualification) ==> {
            let port = (qualification / 0x1_0000 % 0x1_0000) as u16;
            &&& qualification / 8 % 2 == 0
            &&& !hypercall::is_hypercall(port) && port != 0xf4 && port != 0x540
            &&& port < 0x800 || port >= 0x808
        },
        reason !is Shutdown,
    ensures
        handled(reason, regs, uart, memory) == (Handled {
            status: RunStatus::Yield,
            regs,
            uart,
            memory,
        }),
        handleable(reason, regs, memory),
{
    if let ExitReason::IoInstruction(qualification) = reason {
        law_qualification_fields(qualification);
    }
}

/// The run ends when the guest writes one of the exit ports 0xf4 and 0x540 or makes the
/// exit hypercall (0x1010), on either backend: nothing is written to the console or to the
/// guest's memory any more. A read from such a port does not end it.
pub proof fn law_exit_port_ends_the_run(
    qualification: u64,
    regs: GuestRegisters,
    uart: UartState,
    memory: Seq<u8>,
)
    requires
        ({
            let port = qualification / 0x1_0000 % 0x1_0000;
            port == 0xf4 || port == 0x540 || port == 0x1010
        }),
    ensures
        ({
            let after = handled(ExitReason::IoInstruction(qualification), regs, uart, memory);
            if qualification / 8 % 2 == 1 {
                after.status == RunStatus::Yield
            } else {
                after == (Handled { status: RunStatus::Finished, regs, uart, memory })
            }
        }),
        handleable(ExitReason::IoInstruction(qualification), regs, memory),
{
    law_qualification_fields(qualification);
}

/// Nothing but a shutdown, a write to an exit port or the exit hypercall ends the run, and
/// a shutdown changes nothing.
pub proof fn law_run_ends_on_request_only(
    reason: ExitReason,
    regs: GuestRegisters,
    uart: UartState,
    memory: Seq<u8>,
)
    ensures
        handled(reason, regs, uart, memory).status == RunStatus::Finished <==> match reason {
            ExitReason::Shutdown => true,
            ExitReason::IoInstruction(qualification) => {
                let port = qualification / 0x1_0000 % 0x1_0000;
                qualification / 8 % 2 == 0 && (port == 0xf4 || port == 0x540 || port == 0x1010)
            },
            ExitReason::Success => false,
        },
        reason is Shutdown ==> handled(reason, regs, uart, memory) == (Handled {
            status: RunStatus::Finished,
            regs,
            uart,
            memory,
        }),
{
    if let ExitReason::IoInstruction(qualification) = reason {
        law_qualification_fields(qualification);
    }
}

/// What the AMD-V backend reports of a port access is handled as the access it was: a
/// write (bit 0 of the exit information clear) to an exit port ends the run.
pub proof fn law_exit_port_ends_the_run_on_svm(
    info1: u64,
    regs: GuestRegisters,
    uart: UartState,
    memory: Seq<u8>,
)
    requires
        info1 % 2 == 0,
        info1 / 0x1_0000 % 0x1_0000 == 0xf4 || info1 / 0x1_0000 % 0x1_0000 == 0x540,
    ensures
        handled(
            ExitReason::IoInstruction(svm::io_qualification(info1)),
            regs,
            uart,
            memory,
        ).status == RunStatus::Finished,
{
    svm::laws::law_io_qualification(info1);
    law_exit_port_ends_the_run(svm::io_qualification(info1), regs, uart, memory);
}

/// The VT-x backend of a vCPU takes two pages and the AMD-V backend five, the last ones of
/// the pool, and can be created exactly if they are there and have host-physical
/// addresses.
pub proof fn law_backend_pages<H: HostMemory>(
    host: HostMemoryCell<H>,
    pool: Seq<u64>,
    extension: HypervisorExtension,
)
    ensures
        ({
            let count: int = match extension {
                HypervisorExtension::Vmx => 2,
                HypervisorExtension::Svm => 5,
            };
            &&& pages_of(extension) == count
            &&& can_create(host, pool, extension) <==> pool.len() >= count && (forall|i: int|
                pool.len() - count <= i < pool.len() ==> host.translates(#[trigger] pool[i]) is Some)
        }),
{
    let n = pool.len();
    if can_create(host, pool, extension) {
        assert forall|i: int| n - pages_of(extension) <= i < n implies host.translates(
            #[trigger] pool[i],
        ) is Some by {
            assert(crate::paging::pool_page(pool, n - 1 - i) == pool[i]);
            assert(host.translates(crate::paging::pool_page(pool, n - 1 - i)) is Some);
        }
    }
}

/// A new vCPU is what its configuration asks for, in pages of its own. The VT-x backend
/// has the VMXON region in the last page of the pool and the VMCS in the one before, both
/// cleared but for the revision identifier. The AMD-V backend has, from the last page
/// down, its control block, that of the host, the host-save area and the permission maps
/// for ports and registers, in which every bit is set.
pub proof fn law_new_backend<H: HostMemory>(
    host: HostMemoryCell<H>,
    pool: Seq<u64>,
    processor: Processor,
    vcpu_id: VCpuId,
    config: CpuConfig,
    backend: Backend,
)
    requires
        created(host, pool, processor, vcpu_id, config, backend),
        pool.len() >= 5,
    ensures
        ({
            let n = pool.len() as int;
            let at = |area: crate::paging::Area, k: int|
                area.vaddr == pool[k] && area.hpa == host.translates(pool[k])->0;
            match backend {
                Backend::Vmx(cpu) => {
                    &&& processor.extension == HypervisorExtension::Vmx
                    &&& at(cpu@.vmxon_area, n - 1) && at(cpu@.vmcs_area, n - 2)
                    &&& cpu@.vmxon_revision == processor.vmx_basic % 0x8000_0000
                    &&& cpu@.vmcs_revision == processor.vmx_basic % 0x8000_0000
                    &&& cpu@.vmxon_data.len() == 4092 && cpu@.vmcs_data.len() == 4092
                    &&& forall|i: int|
                        0 <= i < 4092 ==> #[trigger] cpu@.vmxon_data[i] == 0 && cpu@.vmcs_data[i]
                            == 0
                    &&& cpu@.eptp == config.nested_paging_pointer
                    &&& cpu@.apic_access_hpa == config.apic_access_hpa
                    &&& cpu@.entry_point == config.entry_point
                    &&& cpu@.guest_rsp == config.stack_pointer
                    &&& !cpu@.launched
                },
                Backend::Svm(cpu) => {
                    &&& processor.extension == HypervisorExtension::Svm
                    &&& at(cpu.frame().areas.vmcb, n - 1) && at(cpu.frame().areas.host_vmcb, n - 2)
                    &&& at(cpu.frame().areas.host_save, n - 3)
                    &&& cpu.frame().iopm.address() == pool[n - 4]
                    &&& cpu.frame().msrpm.address() == pool[n - 5]
                    &&& cpu.frame().iopm.bits().len() == 4096
                    &&& cpu.frame().msrpm.bits().len() == 4096
                    &&& forall|i: int|
                        0 <= i < 4096 ==> #[trigger] cpu.frame().iopm.bits()[i] == 0xFF
                    &&& forall|i: int|
                        0 <= i < 4096 ==> #[trigger] cpu.frame().msrpm.bits()[i] == 0xFF
                    &&& bytes::field(cpu@.vmcb, 0x40, 8) == host.translates(pool[n - 4])->0
                    &&& bytes::field(cpu@.vmcb, 0x48, 8) == host.translates(pool[n - 5])->0
                    &&& bytes::field(cpu@.vmcb, 0xB0, 8) == config.nested_paging_pointer
                    &&& bytes::field(cpu@.vmcb, 0x578, 8) == config.entry_point
                    &&& bytes::field(cpu@.vmcb, 0x5D8, 8) == config.stack_pointer
                    &&& cpu@.timer == crate::apic::idle_timer() && cpu@.pending is None
                },
            }
        }),
{
    vmx::vmxon::law_revision_identifier(processor.vmx_basic);
}

} // verus!
