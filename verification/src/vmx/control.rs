//! Control-register and flag values.

use vstd::prelude::*;

use crate::error::HypervisorError;

verus! {

/// The bits of CR0 that are defined: PE, MP, EM, TS, ET, NE, WP, AM, NW, CD and PG.
pub const CR0_KNOWN: u64 = 0xE005_003F;

/// The bits of CR4 that are defined: all up to PKS, except the reserved bit 15.
pub const CR4_KNOWN: u64 = 0x01FF_7FFF;

/// The bits of RFLAGS that are defined.
pub const RFLAGS_KNOWN: u64 = 0x003F_7FD5;

/// `CR4.VMXE`: enables VMX operation.
pub const CR4_VMXE: u64 = 0x2000;

/// `RFLAGS.CF`, set by a VMX instruction that failed without a current VMCS.
pub const RFLAGS_CF: u64 = 0x1;

/// `RFLAGS.ZF`, set by a VMX instruction that failed with a current VMCS.
pub const RFLAGS_ZF: u64 = 0x40;

/// `Cr0Flags::from_bits` of `x86_64`: the value, if all of its bits are defined ones.
#[verifier::external_body]
pub(crate) fn cr0_flags(bits: u64) -> (flags: Option<u64>)
    ensures
        flags == (if bits & !CR0_KNOWN == 0 {
            Some(bits)
        } else {
            None
        }),
{
    match x86_64::registers::control::Cr0Flags::from_bits(bits) {
        Some(flags) => Some(flags.bits()),
        None => None,
    }
}

/// `Cr4Flags::from_bits` of `x86_64`: the value, if all of its bits are defined ones.
#[verifier::external_body]
pub(crate) fn cr4_flags(bits: u64) -> (flags: Option<u64>)
    ensures
        flags == (if bits & !CR4_KNOWN == 0 {
            Some(bits)
        } else {
            None
        }),
{
    match x86_64::registers::control::Cr4Flags::from_bits(bits) {
        Some(flags) => Some(flags.bits()),
        None => None,
    }
}

/// `RFlags::from_bits_truncate` of `x86_64`: the defined bits of the value.
#[verifier::external_body]
fn known_rflags(bits: u64) -> (flags: u64)
    ensures
        flags == bits & RFLAGS_KNOWN,
{
    x86_64::registers::rflags::RFlags::from_bits_truncate(bits).bits()
}

/// Whether the flags a VMX instruction left say that it failed: a set ZF
/// (VMfailValid) or CF (VMfailInvalid).
pub open spec fn vmx_failed(flags: u64) -> bool {
    flags & RFLAGS_ZF != 0 || flags & RFLAGS_CF != 0
}

/// Tells from the flags that a VMX instruction left whether it failed.
pub fn failed(flags: u64) -> (failed: bool)
    ensures
        failed == vmx_failed(flags),
{
    let known = known_rflags(flags);
    assert((flags & 0x003F_7FD5) & 0x40 == flags & 0x40 && (flags & 0x003F_7FD5) & 0x1 == flags
        & 0x1) by (bit_vector);
    known & RFLAGS_ZF != 0 || known & RFLAGS_CF != 0
}

/// The status of a VMX instruction, by the flags it left.
pub fn vmx_capture_status(flags: u64) -> (status: Result<(), HypervisorError>)
    ensures
        status == (if vmx_failed(flags) {
            Err::<(), HypervisorError>(HypervisorError::VMCLEARFailed)
        } else {
            Ok(())
        }),
{
    if failed(flags) {
        Err(HypervisorError::VMCLEARFailed)
    } else {
        Ok(())
    }
}

/// A VMX instruction failed exactly if it left the carry flag (bit 0) or the zero flag
/// (bit 6) set; no other flag has a say.
pub proof fn law_failure_flags(flags: u64)
    ensures
        vmx_failed(flags) <==> flags % 2 == 1 || flags / 0x40 % 2 == 1,
{
    crate::bytes::lemma_bits(flags);
}

} // verus!
