//! The regions that VMX operation and a VMCS live in.

use vstd::prelude::*;

verus! {

/// Reporting Register of Basic VMX Capabilities (R/O): bits 30:0 are the revision
/// identifier.
pub const IA32_VMX_BASIC: u32 = 0x480;

/// Size of a region in bytes, without its revision identifier.
pub const REGION_DATA: usize = 4092;

/// `BitMut::set_bit` of `bitfield` on a `u32`: the word with one bit set or cleared.
#[verifier::external_body]
fn set_bit(word: u32, bit: usize, on: bool) -> (changed: u32)
    requires
        bit < 32,
    ensures
        changed == (if on {
            word | (1u32 << bit)
        } else {
            word & !(1u32 << bit)
        }),
{
    let mut changed = word;
    bitfield::BitMut::set_bit(&mut changed, bit, on);
    changed
}

/// The revision identifier in the value of `IA32_VMX_BASIC`.
pub open spec fn revision_of(vmx_basic: u64) -> u32 {
    (vmx_basic as u32) & 0x7FFF_FFFF
}

/// Extracts the revision identifier from the value of `IA32_VMX_BASIC`.
fn revision(vmx_basic: u64) -> (revision_id: u32)
    ensures
        revision_id == revision_of(vmx_basic),
{
    let low = vmx_basic as u32;
    assert(low & !(1u32 << 31) == low & 0x7FFF_FFFF) by (bit_vector);
    set_bit(low, 31, false)
}

/// A representation of the VMXON region in memory.
///
/// The VMXON region is essential for enabling VMX operations on the CPU.
///
/// Reference: Intel® 64 and IA-32 Architectures Software Developer's Manual: 25.11.5
/// VMXON Region
pub struct Vmxon {
    /// Revision ID required for VMXON.
    pub revision_id: u32,
    /// Data array constituting the rest of the VMXON region.
    pub data: [u8; 4092],
}

impl Vmxon {
    /// A zeroed region.
    pub fn zeroed() -> (region: Self)
        ensures
            region.revision_id == 0,
            region.data@ == Seq::new(REGION_DATA as nat, |i: int| 0u8),
    {
        let region = Vmxon { revision_id: 0, data: [0u8; 4092] };
        assert(region.data@ =~= Seq::new(REGION_DATA as nat, |i: int| 0u8));
        region
    }

    /// Initializes the VMXON region from the value of `IA32_VMX_BASIC`.
    pub fn init(&mut self, vmx_basic: u64)
        ensures
            final(self).revision_id == revision_of(vmx_basic),
            final(self).data == old(self).data,
    {
        self.revision_id = revision(vmx_basic);
    }
}

/// The region of a VMCS, which starts with the same revision identifier. What else it
/// holds is the processor's to know.
pub struct VmcsRegion {
    /// Revision ID required for VMCLEAR and VMPTRLD.
    pub revision_id: u32,
    /// Data array constituting the rest of the VMCS region.
    pub data: [u8; 4092],
}

impl VmcsRegion {
    /// A zeroed region.
    pub fn zeroed() -> (region: Self)
        ensures
            region.revision_id == 0,
            region.data@ == Seq::new(REGION_DATA as nat, |i: int| 0u8),
    {
        let region = VmcsRegion { revision_id: 0, data: [0u8; 4092] };
        assert(region.data@ =~= Seq::new(REGION_DATA as nat, |i: int| 0u8));
        region
    }

    /// Initializes the VMCS region from the value of `IA32_VMX_BASIC`.
    pub fn init(&mut self, vmx_basic: u64)
        ensures
            final(self).revision_id == revision_of(vmx_basic),
            final(self).data == old(self).data,
    {
        self.revision_id = revision(vmx_basic);
    }
}

/// The revision identifier is the low 31 bits of `IA32_VMX_BASIC`.
pub proof fn law_revision_identifier(vmx_basic: u64)
    ensures
        revision_of(vmx_basic) == vmx_basic % 0x8000_0000,
{
    assert((vmx_basic as u32) & 0x7FFF_FFFF == vmx_basic % 0x8000_0000) by (bit_vector);
}

} // verus!
