//! What holds of the AMD-V backend's steps together.

use vstd::prelude::*;

use crate::apic::{IA32_TSC_DEADLINE, IA32_X2APIC_INIT_COUNT, IA32_X2APIC_LVT_TIMER};
use crate::backend::ExitReason;
use crate::bytes;
use crate::error::HypervisorError;
use crate::svm;
use crate::svm::vmcb;
use crate::svm::{FpAreas, SvmExit, SvmSetup, SvmState, EVENT_VALID, IA32_EFER, IA32_FS_BASE, IA32_GS_BASE};
use crate::vmx::run::GuestRegisters;

verus! {

/// A field that has been set reads back, and the fields beside it are untouched.
proof fn lemma_with_value(memory: Seq<u8>, offset: usize, value: u64)
    requires
        offset + 8 <= memory.len(),
    ensures
        vmcb::with_value(memory, offset, value).len() == memory.len(),
        svm::vmcb_value(vmcb::with_value(memory, offset, value), offset) == value,
        forall|other: usize|
            #![trigger svm::vmcb_value(vmcb::with_value(memory, offset, value), other)]
            other + 8 <= memory.len() && (other + 8 <= offset || offset + 8 <= other)
                ==> svm::vmcb_value(vmcb::with_value(memory, offset, value), other)
                == svm::vmcb_value(memory, other),
{
    bytes::lemma_spans();
    bytes::lemma_le_round_trip(value as nat, 8);
    bytes::lemma_field_of_overlay(memory, offset as int, value as nat, 8);
    assert forall|other: usize|
        #![trigger svm::vmcb_value(vmcb::with_value(memory, offset, value), other)]
        other + 8 <= memory.len() && (other + 8 <= offset || offset + 8
            <= other) implies svm::vmcb_value(vmcb::with_value(memory, offset, value), other)
        == svm::vmcb_value(memory, other) by {
        bytes::lemma_field_beside_overlay(
            memory,
            offset as int,
            bytes::le_bytes(value as nat, 8),
            other as int,
            8,
        );
    }
}

/// What the guest writes to a register that is kept, it reads back: the segment
/// bases as they are, EFER without `SVME`, and the timer deadline unless the timer is
/// masked.
pub proof fn law_msr_read_back(state: SvmState, value: u64, tsc: u64)
    requires
        state.vmcb.len() == vmcb::VMCB_SIZE,
    ensures
        state.after_msr_write(IA32_FS_BASE, value, tsc).msr(IA32_FS_BASE) == value,
        state.after_msr_write(IA32_GS_BASE, value, tsc).msr(IA32_GS_BASE) == value,
        state.after_msr_write(IA32_EFER, value, tsc).msr(IA32_EFER) == value & !vmcb::EFER_SVME,
        state.after_msr_write(IA32_TSC_DEADLINE, value, tsc).msr(IA32_TSC_DEADLINE) == (
        if state.timer.masked {
            0
        } else {
            value
        }),
{
    lemma_with_value(state.vmcb, vmcb::FS_BASE, value);
    lemma_with_value(state.vmcb, vmcb::GS_BASE, value);
    lemma_with_value(state.vmcb, vmcb::EFER, value | vmcb::EFER_SVME);
    assert((value | 0x1000) & !0x1000u64 == value & !0x1000u64) by (bit_vector);
}

/// A write to one register leaves what any other reads as alone; only the two other
/// timer registers have a say in the timer's deadline.
pub proof fn law_msrs_are_independent(
    state: SvmState,
    index: u32,
    other: u32,
    value: u64,
    tsc: u64,
)
    requires
        state.vmcb.len() == vmcb::VMCB_SIZE,
        index != other,
        other == IA32_TSC_DEADLINE ==> index != IA32_X2APIC_LVT_TIMER && index
            != IA32_X2APIC_INIT_COUNT,
    ensures
        state.after_msr_write(index, value, tsc).msr(other) == state.msr(other),
{
    if index == IA32_FS_BASE {
        lemma_with_value(state.vmcb, vmcb::FS_BASE, value);
    } else if index == IA32_GS_BASE {
        lemma_with_value(state.vmcb, vmcb::GS_BASE, value);
    } else if index == IA32_EFER {
        lemma_with_value(state.vmcb, vmcb::EFER, value | vmcb::EFER_SVME);
    }
}

/// A register that is not emulated ignores writes and reads as zero.
pub proof fn law_unknown_msr_is_inert(state: SvmState, index: u32, value: u64, tsc: u64)
    requires
        index != IA32_FS_BASE,
        index != IA32_GS_BASE,
        index != IA32_EFER,
        index != IA32_TSC_DEADLINE,
        index != IA32_X2APIC_LVT_TIMER,
        index != IA32_X2APIC_INIT_COUNT,
    ensures
        state.after_msr_write(index, value, tsc) == state,
        state.msr(index) == 0,
{
}

/// Whether the control block passes the processor's check on `EFER.SVME`.
pub open spec fn svme_set(state: SvmState) -> bool {
    &&& state.vmcb.len() == vmcb::VMCB_SIZE
    &&& svm::vmcb_value(state.vmcb, vmcb::EFER) & vmcb::EFER_SVME != 0
}

/// `EFER.SVME` is set from the start, and nothing the guest or the backend does
/// clears it: the next `VMRUN` passes the consistency check.
pub proof fn law_svme_stays_set(state: SvmState, tsc: u64)
    requires
        svme_set(state),
    ensures
        svme_set(state.mirrored().serviced(tsc).injected()),
        svme_set(state.refreshed()),
        svme_set(state.decoded(tsc).1),
        forall|answer: svm::CpuidAnswer| svme_set(#[trigger] state.answered(answer)),
        forall|index: u32, value: u64, at: u64|
            svme_set(#[trigger] state.after_msr_write(index, value, at)),
{
    assert forall|index: u32, value: u64, at: u64| svme_set(
        #[trigger] state.after_msr_write(index, value, at),
    ) by {
        lemma_with_value(state.vmcb, vmcb::FS_BASE, value);
        lemma_with_value(state.vmcb, vmcb::GS_BASE, value);
        lemma_with_value(state.vmcb, vmcb::EFER, value | vmcb::EFER_SVME);
        assert((value | 0x1000) & 0x1000u64 != 0) by (bit_vector);
    }
    lemma_mirrored(state);
    lemma_injected(state.mirrored().serviced(tsc));
}

/// A block configured for boot has `EFER.SVME` set.
pub proof fn law_boot_block_has_svme(
    state: SvmState,
    ncr3: u64,
    iopm_pa: u64,
    msrpm_pa: u64,
    entry_point: u64,
    rsp: u64,
)
    requires
        vmcb::boot_block(state.vmcb, ncr3, iopm_pa, msrpm_pa, entry_point, rsp),
    ensures
        svme_set(state),
{
    assert((0x100u64 | 0x400u64 | 0x1000u64) & 0x1000u64 != 0) by (bit_vector);
}

proof fn lemma_mirrored(state: SvmState)
    requires
        state.vmcb.len() == vmcb::VMCB_SIZE,
    ensures
        ({
            let now = state.mirrored();
            &&& now.vmcb.len() == vmcb::VMCB_SIZE
            &&& svm::vmcb_value(now.vmcb, vmcb::RAX) == state.regs.rax
            &&& svm::vmcb_value(now.vmcb, vmcb::RIP) == state.regs.rip
            &&& svm::vmcb_value(now.vmcb, vmcb::RSP) == state.regs.rsp
            &&& svm::vmcb_value(now.vmcb, vmcb::RFLAGS) == state.regs.rflags
            &&& svm::vmcb_value(now.vmcb, vmcb::EFER) == svm::vmcb_value(state.vmcb, vmcb::EFER)
            &&& svm::vmcb_value(now.vmcb, vmcb::INT_STATE) == svm::vmcb_value(
                state.vmcb,
                vmcb::INT_STATE,
            )
        }),
{
    let rax = vmcb::with_value(state.vmcb, vmcb::RAX, state.regs.rax);
    let rip = vmcb::with_value(rax, vmcb::RIP, state.regs.rip);
    let rsp = vmcb::with_value(rip, vmcb::RSP, state.regs.rsp);
    lemma_with_value(state.vmcb, vmcb::RAX, state.regs.rax);
    lemma_with_value(rax, vmcb::RIP, state.regs.rip);
    lemma_with_value(rip, vmcb::RSP, state.regs.rsp);
    lemma_with_value(rsp, vmcb::RFLAGS, state.regs.rflags);
}

proof fn lemma_injected(state: SvmState)
    requires
        state.vmcb.len() == vmcb::VMCB_SIZE,
    ensures
        ({
            let now = state.injected();
            &&& now.vmcb.len() == vmcb::VMCB_SIZE
            &&& svm::vmcb_value(now.vmcb, vmcb::EVENTINJ) == (if state.pending is Some
                && state.interruptible() {
                EVENT_VALID | (state.pending->0 as u64)
            } else {
                0
            })
            &&& forall|other: usize|
                #![trigger svm::vmcb_value(now.vmcb, other)]
                other + 8 <= vmcb::VMCB_SIZE && (other + 8 <= vmcb::EVENTINJ || vmcb::EVENTINJ + 8
                    <= other) ==> svm::vmcb_value(now.vmcb, other) == svm::vmcb_value(
                    state.vmcb,
                    other,
                )
        }),
{
    if state.pending is Some && state.interruptible() {
        lemma_with_value(state.vmcb, vmcb::EVENTINJ, EVENT_VALID | (state.pending->0 as u64));
    } else {
        lemma_with_value(state.vmcb, vmcb::EVENTINJ, 0);
    }
}

/// The guest continues where it left off: what the control block holds after the
/// preparation for an entry is what the cached registers held.
pub proof fn law_guest_resumes_where_it_left_off(state: SvmState, tsc: u64)
    requires
        state.vmcb.len() == vmcb::VMCB_SIZE,
    ensures
        state.mirrored().serviced(tsc).injected().refreshed().regs == state.regs,
{
    lemma_mirrored(state);
    lemma_injected(state.mirrored().serviced(tsc));
}

/// No interrupt is lost, and none is delivered to a guest that cannot take it. A
/// vector that is pending at an entry, or becomes so because the timer is due, is
/// handed to the processor, and not pending any more, exactly if bit 9 of the guest's
/// flags is set and bit 0 of its interrupt state is clear, whatever the other bits are;
/// otherwise it stays pending. Without a vector, the processor is handed nothing.
pub proof fn law_interrupts_are_neither_lost_nor_forced(state: SvmState, tsc: u64)
    requires
        state.vmcb.len() == 4096,
    ensures
        ({
            let expired = state.timer.deadline is Some && state.timer.deadline->0 <= tsc
                && !state.timer.masked;
            let vector = if expired {
                Some(state.timer.vector)
            } else {
                state.pending
            };
            let accepts = state.regs.rflags / 0x200 % 2 == 1 && bytes::field(state.vmcb, 0x68, 8)
                % 2 == 0;
            let entered = state.mirrored().serviced(tsc).injected();
            let event = bytes::field(entered.vmcb, 0xA8, 8);
            &&& vector is Some && accepts ==> event == 0x8000_0000 + vector->0 && entered.pending
                is None
            &&& vector is Some && !accepts ==> event == 0 && entered.pending == vector
            &&& vector is None ==> event == 0 && entered.pending is None
        }),
{
    lemma_mirrored(state);
    let ready = state.mirrored().serviced(tsc);
    lemma_injected(ready);
    lemma_field_bound(state.vmcb, 0x68);
    lemma_field_bound(state.mirrored().vmcb, 0x68);
    lemma_field_bound(ready.injected().vmcb, 0xA8);
    bytes::lemma_bits(state.regs.rflags);
    bytes::lemma_bits(bytes::field(state.vmcb, 0x68, 8) as u64);
    if let Some(vector) = ready.pending {
        assert(0x8000_0000u64 | (vector as u64) == 0x8000_0000 + vector) by (bit_vector);
    }
}

/// A port access keeps its port and its direction when it is repackaged as an exit
/// qualification: the port, which is in bits 31:16 of the exit information, stays there,
/// the direction moves from bit 0 to bit 3, and no other bit is set.
pub proof fn law_io_qualification(info1: u64)
    ensures
        (svm::io_qualification(info1) >> 16) as u16 == (info1 >> 16) as u16,
        (svm::io_qualification(info1) >> 3) & 1 == info1 & 1,
        svm::io_qualification(info1) == info1 / 0x1_0000 % 0x1_0000 * 0x1_0000 + info1 % 2 * 8,
{
    assert((((((info1 >> 16) & 0xFFFF) << 16) | ((info1 & 1) << 3)) >> 16) as u16 == (info1
        >> 16) as u16 && (((((info1 >> 16) & 0xFFFF) << 16) | ((info1 & 1) << 3)) >> 3) & 1 == info1
        & 1 && (((info1 >> 16) & 0xFFFF) << 16) | ((info1 & 1) << 3) == info1 / 0x1_0000 % 0x1_0000
        * 0x1_0000 + info1 % 2 * 8) by (bit_vector);
}

/// A failed or unknown exit leaves the vCPU as the processor left it, and these are the
/// only errors; an XSETBV left to the embedder has been stepped over.
pub proof fn law_failed_exit_changes_nothing(state: SvmState, tsc: u64)
    ensures
        state.decoded(tsc).0 is Err ==> state.decoded(tsc).1 == state,
        state.decoded(tsc).0 matches Err(e) ==> e == HypervisorError::VMEntryFailed(0) || e
            == HypervisorError::UnknownVMExitReason,
        state.decoded(tsc).0 matches Ok(SvmExit::Xsetbv { .. }) ==> state.decoded(tsc).1
            == state.advanced(3),
{
}

/// Enabling SVM sets bit 12 of `IA32_EFER` where it is clear, leaves the other bits
/// alone, and needs no second write.
pub proof fn law_enabling_svm_is_idempotent(efer: u64)
    ensures
        efer / 0x1000 % 2 == 1 ==> svm::efer_write(efer) is None,
        efer / 0x1000 % 2 == 0 ==> svm::efer_write(efer) is Some && svm::efer_write(efer)->0 == efer
            + 0x1000,
        svm::efer_write(efer) matches Some(value) ==> {
            &&& value & vmcb::EFER_SVME != 0
            &&& value & !vmcb::EFER_SVME == efer & !vmcb::EFER_SVME
            &&& svm::efer_write(value) is None
        },
        svm::efer_write(efer) is None ==> efer & vmcb::EFER_SVME != 0,
{
    bytes::lemma_bits(efer);
    assert((efer | 0x1000) & 0x1000 != 0 && (efer | 0x1000) & !0x1000u64 == efer & !0x1000u64 && (
    efer & 0x1000 == 0 ==> efer | 0x1000 == efer + 0x1000)) by (bit_vector);
}

/// RDMSR hands the guest the value of the register in EDX:EAX and changes nothing else
/// but the instruction pointer.
pub proof fn law_rdmsr_returns_the_value(state: SvmState, tsc: u64)
    requires
        svm::vmcb_value(state.vmcb, vmcb::EXITINFO1) & 1 == 0,
    ensures
        ({
            let after = state.after_msr_exit(tsc);
            &&& svm::edx_eax(after.regs) == state.msr(state.regs.rcx as u32)
            &&& after == (SvmState {
                regs: crate::vmx::run::GuestRegisters {
                    rax: after.regs.rax,
                    rdx: after.regs.rdx,
                    rip: after.regs.rip,
                    ..state.regs
                },
                ..state
            })
        }),
{
    let value = state.msr(state.regs.rcx as u32);
    assert(((value >> 32) << 32) | ((value & 0xffff_ffff) & 0xffff_ffff) == value) by (bit_vector);
}

/// WRMSR writes EDX:EAX to the register and changes no register of the guest but the
/// instruction pointer.
pub proof fn law_wrmsr_writes_the_value(state: SvmState, tsc: u64)
    requires
        svm::vmcb_value(state.vmcb, vmcb::EXITINFO1) & 1 != 0,
    ensures
        ({
            let after = state.after_msr_exit(tsc);
            let written = state.after_msr_write(
                state.regs.rcx as u32,
                svm::edx_eax(state.regs),
                tsc,
            );
            &&& after == written.advanced(2)
            &&& after.regs == state.regs.advanced(2)
        }),
{
}

/// Every step of the backend keeps the timer well-formed; in particular, none arms a
/// masked one.
pub proof fn law_timer_stays_well_formed(state: SvmState, tsc: u64)
    requires
        state.timer.wf(),
    ensures
        state.mirrored().serviced(tsc).injected().timer.wf(),
        state.refreshed().timer.wf(),
        state.decoded(tsc).1.timer.wf(),
        forall|answer: svm::CpuidAnswer| (#[trigger] state.answered(answer)).timer.wf(),
{
}

/// The guest's registers at an exit: RAX, RIP, RSP and RFLAGS are in the control block,
/// the others are the guest's own.
pub open spec fn registers_at_exit(state: SvmState) -> GuestRegisters {
    GuestRegisters {
        rax: bytes::field(state.vmcb, 0x5F8, 8) as u64,
        rip: bytes::field(state.vmcb, 0x578, 8) as u64,
        rsp: bytes::field(state.vmcb, 0x5D8, 8) as u64,
        rflags: bytes::field(state.vmcb, 0x570, 8) as u64,
        ..state.regs
    }
}

/// The address `length` bytes beyond `rip`; addresses wrap.
pub open spec fn beyond(rip: u64, length: int) -> u64 {
    if rip + length < 0x1_0000_0000_0000_0000 {
        (rip + length) as u64
    } else {
        (rip + length - 0x1_0000_0000_0000_0000) as u64
    }
}

proof fn lemma_field_bound(memory: Seq<u8>, offset: int)
    requires
        0 <= offset,
        offset + 8 <= memory.len(),
    ensures
        bytes::field(memory, offset, 8) <= u64::MAX,
{
    bytes::lemma_spans();
    bytes::lemma_le_value_bound(memory.subrange(offset, offset + 8));
}

/// After an exit the cached registers are what the guest left.
pub proof fn law_registers_are_refreshed(state: SvmState)
    ensures
        state.refreshed() == (SvmState { regs: registers_at_exit(state), ..state }),
{
}

/// A port access (exit code 0x7B) resumes the guest at the address in the second
/// exit-information field (offset 0x80), whatever the instruction pointer was, and changes
/// nothing else. It is reported with the port in bits 31:16 and bit 3 set for a read.
pub proof fn law_port_exit(state: SvmState, tsc: u64)
    requires
        state.vmcb.len() == 4096,
        bytes::field(state.vmcb, 0x70, 8) == 0x7B,
    ensures
        ({
            let (exit, after) = state.refreshed().decoded(tsc);
            let info1 = bytes::field(state.vmcb, 0x78, 8);
            &&& after.regs == (GuestRegisters {
                rip: bytes::field(state.vmcb, 0x80, 8) as u64,
                ..registers_at_exit(state)
            })
            &&& after.regs.rip == bytes::field(state.vmcb, 0x80, 8)
            &&& after.vmcb == state.vmcb && after.timer == state.timer && after.pending
                == state.pending
            &&& exit is Ok && exit->Ok_0 is Reason && exit->Ok_0->Reason_0 is IoInstruction
            &&& exit->Ok_0->Reason_0->IoInstruction_0 == info1 / 0x1_0000 % 0x1_0000 * 0x1_0000
                + info1 % 2 * 8
        }),
{
    lemma_field_bound(state.vmcb, 0x78);
    lemma_field_bound(state.vmcb, 0x80);
    law_io_qualification(bytes::field(state.vmcb, 0x78, 8) as u64);
}

/// A physical interrupt (exit code 0x60) resumes the guest where it was; PAUSE (0x77) is
/// stepped over by two bytes and HLT (0x78) by one. Nothing else changes.
pub proof fn law_stepping_exits(state: SvmState, tsc: u64)
    ensures
        ({
            let code = bytes::field(state.vmcb, 0x70, 8) as u64;
            let (exit, after) = state.refreshed().decoded(tsc);
            let regs = registers_at_exit(state);
            let length = if code == 0x60 {
                0int
            } else if code == 0x77 {
                2
            } else {
                1
            };
            code == 0x60 || code == 0x77 || code == 0x78 ==> {
                &&& exit == Ok::<SvmExit, HypervisorError>(SvmExit::Reason(ExitReason::Success))
                &&& after.regs == (GuestRegisters { rip: beyond(regs.rip, length), ..regs })
                &&& after.vmcb == state.vmcb && after.timer == state.timer && after.pending
                    == state.pending
            }
        }),
{
}

/// RDMSR and WRMSR (exit code 0x7C) are told apart by bit 0 of the first exit-information
/// field (offset 0x78). ECX names the register. A write stores EDX:EAX and changes no
/// register of the guest; a read returns the value in EDX:EAX with the upper halves of RAX
/// and RDX clear. Both are stepped over by two bytes.
pub proof fn law_msr_exit(state: SvmState, tsc: u64)
    requires
        state.vmcb.len() == 4096,
        bytes::field(state.vmcb, 0x70, 8) == 0x7C,
    ensures
        ({
            let (exit, after) = state.refreshed().decoded(tsc);
            let regs = registers_at_exit(state);
            let index = (regs.rcx % 0x1_0000_0000) as u32;
            let written = (regs.rdx % 0x1_0000_0000 * 0x1_0000_0000 + regs.rax % 0x1_0000_0000) as u64;
            let next = beyond(regs.rip, 2);
            &&& exit == Ok::<SvmExit, HypervisorError>(SvmExit::Reason(ExitReason::Success))
            &&& bytes::field(state.vmcb, 0x78, 8) % 2 == 1 ==> {
                let stored = state.after_msr_write(index, written, tsc);
                &&& after.regs == (GuestRegisters { rip: next, ..regs })
                &&& after.vmcb == stored.vmcb && after.timer == stored.timer && after.pending
                    == stored.pending
            }
            &&& bytes::field(state.vmcb, 0x78, 8) % 2 == 0 ==> {
                let value = state.msr(index);
                &&& after.regs == (GuestRegisters {
                    rax: value % 0x1_0000_0000,
                    rdx: value / 0x1_0000_0000,
                    rip: next,
                    ..regs
                })
                &&& after.vmcb == state.vmcb && after.timer == state.timer && after.pending
                    == state.pending
            }
        }),
{
    let regs = registers_at_exit(state);
    let index = regs.rcx as u32;
    lemma_field_bound(state.vmcb, 0x78);
    bytes::lemma_bits(bytes::field(state.vmcb, 0x78, 8) as u64);
    bytes::lemma_bits(regs.rcx);
    bytes::lemma_bits(state.msr(index));
    let (rdx, rax) = (regs.rdx, regs.rax);
    assert((rdx << 32) | (rax & 0xffff_ffff) == rdx % 0x1_0000_0000 * 0x1_0000_0000 + rax
        % 0x1_0000_0000) by (bit_vector);
}

/// CPUID (exit code 0x72) is asked for with the leaf in EAX and the sub-leaf in ECX, and
/// nothing changes yet. The answer reaches the guest as it is, in EAX, EBX, ECX and EDX
/// with the upper halves clear; the instruction is stepped over by two bytes, and nothing
/// else changes.
pub proof fn law_cpuid_is_forwarded(state: SvmState, answer: svm::CpuidAnswer, tsc: u64)
    requires
        state.vmcb.len() == 4096,
        bytes::field(state.vmcb, 0x70, 8) == 0x72,
    ensures
        ({
            let regs = registers_at_exit(state);
            let (exit, asked) = state.refreshed().decoded(tsc);
            let after = asked.answered(answer);
            &&& exit == Ok::<SvmExit, HypervisorError>(
                SvmExit::Cpuid {
                    leaf: (regs.rax % 0x1_0000_0000) as u32,
                    sub_leaf: (regs.rcx % 0x1_0000_0000) as u32,
                },
            )
            &&& asked == (SvmState { regs, ..state })
            &&& after.vmcb == state.vmcb && after.timer == state.timer && after.pending
                == state.pending
            &&& after.regs == (GuestRegisters {
                rax: answer.eax as u64,
                rbx: answer.ebx as u64,
                rcx: answer.ecx as u64,
                rdx: answer.edx as u64,
                rip: beyond(regs.rip, 2),
                ..regs
            })
        }),
{
    bytes::lemma_bits(registers_at_exit(state).rax);
    bytes::lemma_bits(registers_at_exit(state).rcx);
}

/// XSETBV (exit code 0x8D) is left to the embedder, with the register in ECX and the value
/// in EDX:EAX, and stepped over by three bytes; a shutdown (0x7F) ends the run; a block
/// that the processor rejects (all bits set) is a failed entry; and an exit code that none
/// of the exits has is unknown. In the last three cases nothing changes.
pub proof fn law_other_exits(state: SvmState, tsc: u64)
    requires
        state.vmcb.len() == 4096,
    ensures
        ({
            let code = bytes::field(state.vmcb, 0x70, 8);
            let (exit, after) = state.refreshed().decoded(tsc);
            let regs = registers_at_exit(state);
            &&& code == 0x8D ==> {
                &&& exit == Ok::<SvmExit, HypervisorError>(
                    SvmExit::Xsetbv {
                        index: (regs.rcx % 0x1_0000_0000) as u32,
                        value: (regs.rdx % 0x1_0000_0000 * 0x1_0000_0000 + regs.rax
                            % 0x1_0000_0000) as u64,
                    },
                )
                &&& after == (SvmState {
                    regs: GuestRegisters { rip: beyond(regs.rip, 3), ..regs },
                    ..state
                })
            }
            &&& code == 0x7F ==> exit == Ok::<SvmExit, HypervisorError>(
                SvmExit::Reason(ExitReason::Shutdown),
            )
            &&& code == 0xFFFF_FFFF_FFFF_FFFF ==> exit == Err::<SvmExit, HypervisorError>(
                HypervisorError::VMEntryFailed(0),
            )
            &&& code != 0x60 && code != 0x72 && code != 0x77 && code != 0x78 && code != 0x7B && code
                != 0x7C && code != 0x7F && code != 0x8D && code != 0xFFFF_FFFF_FFFF_FFFF ==> exit
                == Err::<SvmExit, HypervisorError>(HypervisorError::UnknownVMExitReason)
            &&& exit is Err || code == 0x7F ==> after == (SvmState { regs, ..state })
        }),
{
    let regs = registers_at_exit(state);
    lemma_field_bound(state.vmcb, 0x70);
    bytes::lemma_bits(regs.rcx);
    let (rdx, rax) = (regs.rdx, regs.rax);
    assert((rdx << 32) | (rax & 0xffff_ffff) == rdx % 0x1_0000_0000 * 0x1_0000_0000 + rax
        % 0x1_0000_0000) by (bit_vector);
}

/// What the guest reads: the bases of FS (register 0xC000_0100) and GS (0xC000_0101) and
/// EFER (0xC000_0080) from offsets 0x448, 0x458 and 0x4D0 of the control block, EFER with
/// bit 12 clear; the deadline of the timer (0x6E0), or zero if it is not armed; and zero
/// for any other register.
pub proof fn law_msr_values(state: SvmState, index: u32)
    requires
        state.vmcb.len() == 4096,
    ensures
        ({
            let efer = bytes::field(state.vmcb, 0x4D0, 8);
            &&& index == 0xC000_0100 ==> state.msr(index) == bytes::field(state.vmcb, 0x448, 8)
            &&& index == 0xC000_0101 ==> state.msr(index) == bytes::field(state.vmcb, 0x458, 8)
            &&& index == 0xC000_0080 && efer / 0x1000 % 2 == 0 ==> state.msr(index) == efer
            &&& index == 0xC000_0080 && efer / 0x1000 % 2 == 1 ==> state.msr(index) == efer - 0x1000
            &&& index == 0x6E0 && state.timer.deadline is Some ==> state.msr(index)
                == state.timer.deadline->0
            &&& index == 0x6E0 && state.timer.deadline is None ==> state.msr(index) == 0
            &&& index != 0xC000_0100 && index != 0xC000_0101 && index != 0xC000_0080 && index
                != 0x6E0 ==> state.msr(index) == 0
        }),
{
    lemma_field_bound(state.vmcb, 0x448);
    lemma_field_bound(state.vmcb, 0x458);
    lemma_field_bound(state.vmcb, 0x4D0);
    let efer = bytes::field(state.vmcb, 0x4D0, 8) as u64;
    bytes::lemma_bits(efer);
    lemma_efer(efer);
}

proof fn lemma_efer(efer: u64)
    ensures
        efer & 0x1000 == 0 ==> efer & !0x1000u64 == efer && efer | 0x1000 == efer + 0x1000,
        efer & 0x1000 != 0 ==> efer & !0x1000u64 == efer - 0x1000 && efer | 0x1000 == efer,
{
    assert((efer & 0x1000 == 0 ==> efer & !0x1000u64 == efer && efer | 0x1000 == efer + 0x1000) && (
    efer & 0x1000 != 0 ==> efer & !0x1000u64 == efer - 0x1000 && efer | 0x1000 == efer))
        by (bit_vector);
}

/// Where what the guest writes goes: the bases of FS and GS and EFER, with bit 12 set, to
/// offsets 0x448, 0x458 and 0x4D0 of the control block, of which no other byte changes; the
/// three registers of the timer to the timer. Nothing else changes.
pub proof fn law_msr_storage(state: SvmState, index: u32, value: u64, tsc: u64)
    requires
        state.vmcb.len() == 4096,
    ensures
        ({
            let after = state.after_msr_write(index, value, tsc);
            let place: int = if index == 0xC000_0100 {
                0x448
            } else if index == 0xC000_0101 {
                0x458
            } else if index == 0xC000_0080 {
                0x4D0
            } else {
                4096
            };
            &&& after.vmcb.len() == 4096
            &&& index == 0xC000_0100 || index == 0xC000_0101 ==> bytes::field(after.vmcb, place, 8)
                == value
            &&& index == 0xC000_0080 && value / 0x1000 % 2 == 1 ==> bytes::field(
                after.vmcb,
                place,
                8,
            ) == value
            &&& index == 0xC000_0080 && value / 0x1000 % 2 == 0 ==> bytes::field(
                after.vmcb,
                place,
                8,
            ) == value + 0x1000
            &&& forall|i: int|
                0 <= i < 4096 && !(place <= i < place + 8) ==> #[trigger] after.vmcb[i]
                    == state.vmcb[i]
            &&& index == 0x832 || index == 0x6E0 || index == 0x838 ==> after.timer
                == state.timer.after_write(index, value, tsc)
            &&& index != 0x832 && index != 0x6E0 && index != 0x838 ==> after.timer == state.timer
            &&& after.regs == state.regs && after.pending == state.pending
        }),
{
    bytes::lemma_bits(value);
    lemma_efer(value);
    lemma_stored(state.vmcb, 0x448, value);
    lemma_stored(state.vmcb, 0x458, value);
    lemma_stored(state.vmcb, 0x4D0, value | 0x1000);
}

/// A 64-bit field that has been set, and the bytes beside it.
proof fn lemma_stored(memory: Seq<u8>, offset: usize, value: u64)
    requires
        offset + 8 <= memory.len(),
    ensures
        vmcb::with_value(memory, offset, value).len() == memory.len(),
        bytes::field(vmcb::with_value(memory, offset, value), offset as int, 8) == value,
        forall|i: int|
            0 <= i < memory.len() && !(offset <= i < offset + 8) ==> #[trigger] vmcb::with_value(
                memory,
                offset,
                value,
            )[i] == memory[i],
        forall|other: int|
            #![trigger bytes::field(vmcb::with_value(memory, offset, value), other, 8)]
            0 <= other && other + 8 <= memory.len() && (other + 8 <= offset || offset + 8 <= other)
                ==> bytes::field(vmcb::with_value(memory, offset, value), other, 8) == bytes::field(
                memory,
                other,
                8,
            ),
{
    bytes::lemma_spans();
    bytes::lemma_le_round_trip(value as nat, 8);
    bytes::lemma_field_of_overlay(memory, offset as int, value as nat, 8);
    bytes::lemma_overlay_is_local(memory, offset as int, bytes::le_bytes(value as nat, 8));
}

/// What the processor finds at an entry: RAX, RIP, RSP and RFLAGS at offsets 0x5F8, 0x578,
/// 0x5D8 and 0x570 of the control block. But for those and the injected event (0xA8), no
/// byte of it changes, nor does a cached register.
pub proof fn law_entry_block(state: SvmState, tsc: u64)
    requires
        state.vmcb.len() == 4096,
    ensures
        ({
            let entered = state.mirrored().serviced(tsc).injected();
            &&& entered.vmcb.len() == 4096
            &&& bytes::field(entered.vmcb, 0x5F8, 8) == state.regs.rax
            &&& bytes::field(entered.vmcb, 0x578, 8) == state.regs.rip
            &&& bytes::field(entered.vmcb, 0x5D8, 8) == state.regs.rsp
            &&& bytes::field(entered.vmcb, 0x570, 8) == state.regs.rflags
            &&& forall|i: int|
                0 <= i < 4096 && !(0x5F8 <= i < 0x600) && !(0x570 <= i < 0x580) && !(0x5D8 <= i
                    < 0x5E0) && !(0xA8 <= i < 0xB0) ==> #[trigger] entered.vmcb[i] == state.vmcb[i]
            &&& entered.regs == state.regs
        }),
{
    let rax = vmcb::with_value(state.vmcb, vmcb::RAX, state.regs.rax);
    let rip = vmcb::with_value(rax, vmcb::RIP, state.regs.rip);
    let rsp = vmcb::with_value(rip, vmcb::RSP, state.regs.rsp);
    let all = vmcb::with_value(rsp, vmcb::RFLAGS, state.regs.rflags);
    let ready = state.mirrored().serviced(tsc);
    lemma_stored(state.vmcb, vmcb::RAX, state.regs.rax);
    lemma_stored(rax, vmcb::RIP, state.regs.rip);
    lemma_stored(rip, vmcb::RSP, state.regs.rsp);
    lemma_stored(rsp, vmcb::RFLAGS, state.regs.rflags);
    lemma_stored(all, vmcb::EVENTINJ, 0);
    lemma_stored(all, vmcb::EVENTINJ, EVENT_VALID | (ready.pending->0 as u64));
    assert(ready.vmcb == all);
}

/// A timer that has reached its deadline makes its vector pending, unless it is masked,
/// and fires; a timer that has not, or is not armed, changes nothing.
pub proof fn law_timer_service(state: SvmState, tsc: u64)
    ensures
        ({
            let after = state.serviced(tsc);
            let reached = state.timer.deadline is Some && state.timer.deadline->0 <= tsc;
            &&& !reached ==> after == state
            &&& reached ==> after.timer == state.timer.fired()
            &&& reached && !state.timer.masked ==> after.pending == Some(state.timer.vector)
            &&& reached && state.timer.masked ==> after.pending == state.pending
            &&& after.vmcb == state.vmcb && after.regs == state.regs
        }),
{
}

/// The model-specific registers of a core that matter to a run.
pub struct HostMsrs {
    pub efer: u64,
    pub host_save_pa: u64,
}

impl HostMsrs {
    /// The registers after a setup has been carried out.
    pub open spec fn after(self, setup: SvmSetup) -> HostMsrs {
        HostMsrs {
            efer: match setup.efer {
                Some(value) => value,
                None => self.efer,
            },
            host_save_pa: setup.host_save_pa,
        }
    }
}

/// The guest is entered where the last exit, as adjusted by the caller, left off, and on
/// a core that is ready for it. After what [`SvmCpu::enter`](crate::svm::SvmCpu::enter)
/// does and asks for, the control block has the cached RAX, RIP, RSP and RFLAGS and
/// passes the check on `EFER.SVME`, and the core has `EFER.SVME` set and `VM_HSAVE_PA` at
/// the vCPU's host-save area.
pub proof fn law_guest_is_entered_as_cached(
    state: SvmState,
    host: HostMsrs,
    setup: SvmSetup,
    host_save_pa: u64,
    tsc: u64,
)
    requires
        svme_set(state),
        setup.efer == svm::efer_write(host.efer),
        setup.host_save_pa == host_save_pa,
    ensures
        ({
            let entered = state.mirrored().serviced(tsc).injected();
            let ready = host.after(setup);
            &&& svm::vmcb_value(entered.vmcb, vmcb::RAX) == state.regs.rax
            &&& svm::vmcb_value(entered.vmcb, vmcb::RIP) == state.regs.rip
            &&& svm::vmcb_value(entered.vmcb, vmcb::RSP) == state.regs.rsp
            &&& svm::vmcb_value(entered.vmcb, vmcb::RFLAGS) == state.regs.rflags
            &&& entered.regs == state.regs
            &&& svme_set(entered)
            &&& ready.efer & vmcb::EFER_SVME != 0
            &&& ready.efer & !vmcb::EFER_SVME == host.efer & !vmcb::EFER_SVME
            &&& ready.host_save_pa == host_save_pa
        }),
{
    law_svme_stays_set(state, tsc);
    law_enabling_svm_is_idempotent(host.efer);
    lemma_mirrored(state);
    lemma_injected(state.mirrored().serviced(tsc));
}

/// A run, as far as the extended FP state is concerned.
pub struct FpRun {
    /// The host's state at the call.
    pub host: Seq<u8>,
    /// The guest's state at the exit.
    pub guest: Seq<u8>,
}

/// The FP areas of a vCPU after the given runs.
pub open spec fn fp_after(areas: FpAreas, runs: Seq<FpRun>) -> FpAreas
    decreases runs.len(),
{
    if runs.len() == 0 {
        areas
    } else {
        let last = runs.last();
        fp_after(areas, runs.drop_last()).entered(last.host).left(last.guest)
    }
}

/// Neither side corrupts the other's extended FP state. A guest enters its first run with
/// the initial state and every other with exactly the state it had at the exit of the run
/// before, whatever the host did with its own in the meantime; and what is restored after
/// a run is the host's state from before it.
pub proof fn law_fp_state_survives(areas: FpAreas, runs: Seq<FpRun>, next: FpRun)
    requires
        areas.guest == crate::fpu::initial_state(),
    ensures
        ({
            let before = fp_after(areas, runs);
            &&& before.guest == (if runs.len() == 0 {
                crate::fpu::initial_state()
            } else {
                runs.last().guest
            })
            &&& before.entered(next.host).guest == before.guest
            &&& before.entered(next.host).host == next.host
            &&& fp_after(areas, runs.push(next)) == before.entered(next.host).left(next.guest)
        }),
{
    assert(runs.push(next).drop_last() =~= runs);
}

} // verus!
