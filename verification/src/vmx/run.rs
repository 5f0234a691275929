//! Guest register state.

use vstd::prelude::*;

verus! {

/// Guest general-purpose registers, saved and restored across a VM-entry.
///
/// `rip`, `rsp` and `rflags` live in dedicated fields of the VM control structure
/// and are kept here for the caller.
#[derive(Debug, Clone, Copy, PartialEq, Eq)]
pub struct GuestRegisters {
    pub rax: u64,
    pub rbx: u64,
    pub rcx: u64,
    pub rdx: u64,
    pub rdi: u64,
    pub rsi: u64,
    pub rbp: u64,
    pub r8: u64,
    pub r9: u64,
    pub r10: u64,
    pub r11: u64,
    pub r12: u64,
    pub r13: u64,
    pub r14: u64,
    pub r15: u64,
    pub rip: u64,
    pub rsp: u64,
    pub rflags: u64,
}

/// Registers that are all zero.
pub open spec fn zero_registers() -> GuestRegisters {
    GuestRegisters {
        rax: 0,
        rbx: 0,
        rcx: 0,
        rdx: 0,
        rdi: 0,
        rsi: 0,
        rbp: 0,
        r8: 0,
        r9: 0,
        r10: 0,
        r11: 0,
        r12: 0,
        r13: 0,
        r14: 0,
        r15: 0,
        rip: 0,
        rsp: 0,
        rflags: 0,
    }
}

impl Default for GuestRegisters {
    fn default() -> (registers: Self)
        ensures
            registers == zero_registers(),
    {
        GuestRegisters {
            rax: 0,
            rbx: 0,
            rcx: 0,
            rdx: 0,
            rdi: 0,
            rsi: 0,
            rbp: 0,
            r8: 0,
            r9: 0,
            r10: 0,
            r11: 0,
            r12: 0,
            r13: 0,
            r14: 0,
            r15: 0,
            rip: 0,
            rsp: 0,
            rflags: 0,
        }
    }
}

/// The registers a vCPU starts with: the entry point and the stack, the boot-info
/// pointer and the CPU id as the kernel's two arguments, and only the reserved bit
/// of the flags.
pub open spec fn boot_registers(cpu_id: u64, entry_point: u64, guest_rsp: u64) -> GuestRegisters {
    GuestRegisters {
        rdi: crate::boot::BOOT_INFO_OFFSET,
        rsi: cpu_id,
        rip: entry_point,
        rsp: guest_rsp,
        rflags: 0x2,
        ..zero_registers()
    }
}

impl GuestRegisters {
    /// The registers a vCPU starts with.
    pub fn boot(cpu_id: u64, entry_point: u64, guest_rsp: u64) -> (registers: Self)
        ensures
            registers == boot_registers(cpu_id, entry_point, guest_rsp),
    {
        GuestRegisters {
            rdi: crate::boot::BOOT_INFO_OFFSET,
            rsi: cpu_id,
            rip: entry_point,
            rsp: guest_rsp,
            rflags: 0x2,
            ..GuestRegisters::default()
        }
    }

    /// The registers with the instruction pointer (which wraps) moved on by `length`
    /// bytes.
    pub open spec fn advanced(self, length: int) -> GuestRegisters {
        GuestRegisters {
            rip: ((self.rip + length) % 0x1_0000_0000_0000_0000) as u64,
            ..self
        }
    }

    /// Moves the instruction pointer past an instruction of `length` bytes.
    pub fn advance(&mut self, length: u64)
        ensures
            *final(self) == old(self).advanced(length as int),
    {
        self.rip = self.rip.wrapping_add(length);
    }
}

/// A vCPU starts at the entry point on the stack given, with the address of the boot
/// information (0x9000) and its own number as the two arguments of the kernel, in RDI and
/// RSI; of its flags only bit 1 is set, and every other register is zero.
pub proof fn law_boot_registers(cpu_id: u64, entry_point: u64, guest_rsp: u64)
    ensures
        ({
            let regs = boot_registers(cpu_id, entry_point, guest_rsp);
            &&& regs.rdi == 0x9000 && regs.rsi == cpu_id
            &&& regs.rip == entry_point && regs.rsp == guest_rsp && regs.rflags == 2
            &&& regs.rax == 0 && regs.rbx == 0 && regs.rcx == 0 && regs.rdx == 0 && regs.rbp == 0
            &&& regs.r8 == 0 && regs.r9 == 0 && regs.r10 == 0 && regs.r11 == 0
            &&& regs.r12 == 0 && regs.r13 == 0 && regs.r14 == 0 && regs.r15 == 0
        }),
{
}

/// Stepping over an instruction moves the instruction pointer by the length of it, round
/// the end of the address space, and no other register.
pub proof fn law_stepping(regs: GuestRegisters, length: int)
    requires
        0 <= length < 16,
    ensures
        regs.rip + length < 0x1_0000_0000_0000_0000 ==> regs.advanced(length).rip - regs.rip
            == length,
        regs.rip + length >= 0x1_0000_0000_0000_0000 ==> regs.rip - regs.advanced(length).rip
            == 0x1_0000_0000_0000_0000 - length,
        regs.advanced(length) == (GuestRegisters { rip: regs.advanced(length).rip, ..regs }),
{
}

} // verus!
