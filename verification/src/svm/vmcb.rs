//! AMD-V Virtual Machine Control Block (VMCB).
//!
//! The VMCB is the AMD-V counterpart of the Intel VMCS: a single 4 KiB,
//! page-aligned structure holding both the *control area* (intercepts, nested
//! paging, exit information) at offsets `0x000..0x400` and the *state-save area*
//! (the guest's architectural register state) from `0x400` onwards. Unlike the
//! VMCS, it is plain memory accessed by ordinary loads and stores rather than
//! through `VMREAD`/`VMWRITE`, so this module reads and writes its fields by
//! offset.
//!
//! Reference: AMD64 Architecture Programmer's Manual, Volume 2, Appendix B
//! "Layout of VMCB".

use vstd::prelude::*;

use crate::boot::{
    BOOT_GDT_MAX, BOOT_PML4, EFER_LMA, EFER_LME, GDT_KERNEL_CODE, GDT_KERNEL_DATA, GDT_OFFSET,
};
use crate::bytes;

verus! {

// --- Control-area field offsets ----------------------------------------------

/// Intercept word for assorted instructions (CPUID, IOIO, MSR, SHUTDOWN, ...).
pub const INTERCEPT_INSTR1: usize = 0x00C;

/// Intercept word for the SVM instructions plus a few others (VMRUN, XSETBV, ...).
pub const INTERCEPT_INSTR2: usize = 0x010;

/// Physical base address of the I/O-permission map.
pub const IOPM_BASE_PA: usize = 0x040;

/// Physical base address of the MSR-permission map.
pub const MSRPM_BASE_PA: usize = 0x048;

/// Guest ASID (bits 31:0) and TLB-control byte (bits 39:32).
pub const GUEST_ASID: usize = 0x058;

/// Guest interrupt-state field; bit 0 is the interrupt shadow (set after `STI` /
/// `MOV SS`, when an interrupt may not yet be delivered).
pub const INT_STATE: usize = 0x068;

/// `#VMEXIT` reason.
pub const EXITCODE: usize = 0x070;

/// `#VMEXIT` information field 1.
pub const EXITINFO1: usize = 0x078;

/// `#VMEXIT` information field 2.
pub const EXITINFO2: usize = 0x080;

/// Nested-paging control; bit 0 enables nested paging.
pub const NP_ENABLE: usize = 0x090;

/// Event-injection field: an event the processor delivers to the guest on the
/// next `VMRUN` (valid bit 31, type bits 10:8, vector bits 7:0). Unlike the
/// guest's own pending interrupts, an injected event ignores `RFLAGS.IF`, so the
/// backend gates injection on guest interruptibility itself.
pub const EVENTINJ: usize = 0x0A8;

/// Nested CR3 (`nCR3`).
pub const N_CR3: usize = 0x0B0;

/// Next sequential instruction pointer (valid for many intercepts when the CPU
/// supports the NRIPS feature).
pub const NRIP: usize = 0x0C8;

// Intercept bits within `INTERCEPT_INSTR1`.

/// Physical (external) interrupt: any host interrupt arriving while the guest
/// runs causes a clean `#VMEXIT (VMEXIT_INTR)` instead of being injected into
/// the guest, so the host keeps ownership of its own device interrupts.
pub const INTERCEPT_INTR: u32 = 0x0000_0001;

pub const INTERCEPT_CPUID: u32 = 0x0004_0000;

pub const INTERCEPT_PAUSE: u32 = 0x0080_0000;

pub const INTERCEPT_HLT: u32 = 0x0100_0000;

pub const INTERCEPT_IOIO: u32 = 0x0800_0000;

pub const INTERCEPT_MSR: u32 = 0x1000_0000;

pub const INTERCEPT_SHUTDOWN: u32 = 0x8000_0000;

// Intercept bits within `INTERCEPT_INSTR2`.
pub const INTERCEPT_VMRUN: u32 = 0x0000_0001;

pub const INTERCEPT_XSETBV: u32 = 0x0000_2000;

// --- State-save-area field offsets (absolute, from the VMCB base) ------------

/// State-save area: ES segment (the first segment slot).
pub const SAVE_ES: usize = 0x400;

pub const SAVE_CS: usize = 0x410;

pub const SAVE_SS: usize = 0x420;

pub const SAVE_DS: usize = 0x430;

pub const SAVE_FS: usize = 0x440;

pub const SAVE_GS: usize = 0x450;

pub const SAVE_GDTR: usize = 0x460;

pub const SAVE_LDTR: usize = 0x470;

pub const SAVE_IDTR: usize = 0x480;

pub const SAVE_TR: usize = 0x490;

/// Current privilege level (one byte).
pub const SAVE_CPL: usize = 0x4CB;

/// Guest IA32_EFER.
pub const EFER: usize = 0x4D0;

pub const SAVE_CR4: usize = 0x548;

pub const SAVE_CR3: usize = 0x550;

pub const SAVE_CR0: usize = 0x558;

pub const SAVE_DR7: usize = 0x560;

pub const SAVE_DR6: usize = 0x568;

/// Guest RFLAGS (mirrored by the run loop, as are RIP, RSP and RAX).
pub const RFLAGS: usize = 0x570;

/// Guest RIP.
pub const RIP: usize = 0x578;

/// Guest RSP.
pub const RSP: usize = 0x5D8;

/// Guest RAX (the other general-purpose registers live in the trampoline's
/// register block, but RAX is part of the VMCB-managed state).
pub const RAX: usize = 0x5F8;

pub const SAVE_CR2: usize = 0x640;

/// Guest PAT, consulted while nested paging is active.
pub const SAVE_G_PAT: usize = 0x648;

/// Guest FS base: the base address of a segment lives 8 bytes into its 16-byte
/// slot (`selector:u16, attrib:u16, limit:u32, base:u64`).
pub const FS_BASE: usize = 0x448;

/// Guest GS base.
pub const GS_BASE: usize = 0x458;

/// `EFER.SVME`: the guest must keep secure-virtual-machine mode enabled, or
/// `VMRUN` aborts the consistency check with `VMEXIT_INVALID`.
pub const EFER_SVME: u64 = 0x1000;

// --- Initial guest state ------------------------------------------------------

/// Packed attributes (descriptor bits \[55:52\]\[47:40\]) of the present 64-bit code
/// segment.
pub const CS_ATTRIB: u16 = 0xA9B;

/// Packed attributes of the present 4 GiB data segments.
pub const DATA_ATTRIB: u16 = 0xC93;

/// Packed attributes of the busy 64-bit TSS.
pub const TR_ATTRIB: u16 = 0x08B;

/// Code and data use page granularity, so a 20-bit limit covers 4 GiB.
pub const SEG_LIMIT: u32 = 0xF_FFFF;

/// Limit of the byte-granular descriptor tables and system segments.
pub const TABLE_LIMIT: u32 = 0xFFFF;

/// CR0 at boot: PE, ET, NE and PG.
pub const BOOT_CR0: u64 = 0x8000_0031;

/// CR4 at boot: PAE only. The guest kernel enables FSGSBASE itself during early
/// boot.
pub const BOOT_CR4: u64 = 0x20;

/// DR7 after reset.
pub const BOOT_DR7: u64 = 0x400;

/// DR6 after reset.
pub const BOOT_DR6: u64 = 0xFFFF_0FF0;

/// RFLAGS at boot: only the reserved bit 1 is set.
pub const BOOT_RFLAGS: u64 = 0x2;

/// The default PAT (the processor needs a sane one under nested paging).
pub const BOOT_PAT: u64 = 0x0007_0406_0007_0406;

/// Size of the control block in bytes.
pub const VMCB_SIZE: usize = 4096;

/// A segment register as it is kept in the state-save area.
pub struct Segment {
    pub selector: nat,
    pub attrib: nat,
    pub limit: nat,
    pub base: nat,
}

/// The segment in the 16-byte slot at `slot`.
pub open spec fn segment(memory: Seq<u8>, slot: int) -> Segment {
    Segment {
        selector: bytes::field(memory, slot, 2),
        attrib: bytes::field(memory, slot + 2, 2),
        limit: bytes::field(memory, slot + 4, 4),
        base: bytes::field(memory, slot + 8, 8),
    }
}

/// A data segment of the flat address space the guest boots with.
pub open spec fn flat_data() -> Segment {
    Segment {
        selector: (GDT_KERNEL_DATA * 8) as nat,
        attrib: DATA_ATTRIB as nat,
        limit: SEG_LIMIT as nat,
        base: 0,
    }
}

/// A control block after its 64-bit field at `offset` has been set.
pub open spec fn with_value(memory: Seq<u8>, offset: usize, value: u64) -> Seq<u8> {
    bytes::overlay(memory, offset as int, bytes::le_bytes(value as nat, 8))
}

/// The Virtual Machine Control Block.
///
/// A 4 KiB region that the processor reads and writes at a stable, page-aligned
/// host-physical address. Fields are accessed by offset rather than as named struct
/// members because the control and state-save areas are sparse and partly reserved.
pub struct Vmcb {
    data: [u8; 4096],
}

impl View for Vmcb {
    type V = Seq<u8>;

    closed spec fn view(&self) -> Seq<u8> {
        self.data@
    }
}

impl Vmcb {
    /// The 64-bit field at `offset`.
    pub open spec fn value(&self, offset: usize) -> nat {
        bytes::field(self@, offset as int, 8)
    }

    /// A control block is a page of 4 KiB.
    pub proof fn lemma_len(&self)
        ensures
            self@.len() == VMCB_SIZE,
    {
    }

    /// An all-zero control block.
    pub fn zeroed() -> (vmcb: Self)
        ensures
            vmcb@ == Seq::new(VMCB_SIZE as nat, |i: int| 0u8),
    {
        let vmcb = Vmcb { data: [0u8; 4096] };
        assert(vmcb@ =~= Seq::new(VMCB_SIZE as nat, |i: int| 0u8));
        vmcb
    }

    /// Reads a 64-bit field at `offset`.
    pub fn read_u64(&self, offset: usize) -> (value: u64)
        requires
            offset + 8 <= VMCB_SIZE,
        ensures
            value == self.value(offset),
    {
        bytes::read_le(&self.data, offset, 8)
    }

    /// The byte at `offset`, for copying the block to and from its page.
    pub fn byte(&self, offset: usize) -> (value: u8)
        requires
            offset < VMCB_SIZE,
        ensures
            value == self@[offset as int],
    {
        self.data[offset]
    }

    /// Replaces the whole block by what the processor has left in its page.
    pub fn load(&mut self, page: [u8; 4096])
        ensures
            final(self)@ == page@,
    {
        self.data = page;
    }

    /// Writes the `width` bytes from `offset` on.
    fn write_field(&mut self, offset: usize, width: usize, value: u64)
        requires
            offset + width <= VMCB_SIZE,
            value < bytes::span(width as nat),
        ensures
            final(self)@ == bytes::overlay(
                old(self)@,
                offset as int,
                bytes::le_bytes(value as nat, width as nat),
            ),
            bytes::field(final(self)@, offset as int, width as nat) == value,
            bytes::changed_within(old(self)@, final(self)@, offset as int, offset + width),
    {
        bytes::write_le(&mut self.data, offset, width, value);
    }

    /// Writes a 64-bit field at `offset`.
    pub fn write_u64(&mut self, offset: usize, value: u64)
        requires
            offset + 8 <= VMCB_SIZE,
        ensures
            final(self)@ == with_value(old(self)@, offset, value),
            final(self).value(offset) == value,
            bytes::changed_within(old(self)@, final(self)@, offset as int, offset + 8),
    {
        proof {
            bytes::lemma_spans();
        }
        self.write_field(offset, 8, value);
    }

    fn write_u32(&mut self, offset: usize, value: u32)
        requires
            offset + 4 <= VMCB_SIZE,
        ensures
            bytes::field(final(self)@, offset as int, 4) == value,
            bytes::changed_within(old(self)@, final(self)@, offset as int, offset + 4),
    {
        proof {
            bytes::lemma_spans();
        }
        self.write_field(offset, 4, value as u64);
    }

    fn write_u16(&mut self, offset: usize, value: u16)
        requires
            offset + 2 <= VMCB_SIZE,
        ensures
            bytes::field(final(self)@, offset as int, 2) == value,
            bytes::changed_within(old(self)@, final(self)@, offset as int, offset + 2),
    {
        proof {
            bytes::lemma_spans();
        }
        self.write_field(offset, 2, value as u64);
    }

    fn write_u8(&mut self, offset: usize, value: u8)
        requires
            offset < VMCB_SIZE,
        ensures
            bytes::field(final(self)@, offset as int, 1) == value,
            bytes::changed_within(old(self)@, final(self)@, offset as int, offset + 1),
    {
        proof {
            bytes::lemma_spans();
        }
        self.write_field(offset, 1, value as u64);
    }

    /// Writes a segment slot: `selector`, packed `attrib`, `limit` and `base`.
    fn write_segment(&mut self, slot: usize, selector: u16, attrib: u16, limit: u32, base: u64)
        requires
            slot + 16 <= VMCB_SIZE,
        ensures
            segment(final(self)@, slot as int) == (Segment {
                selector: selector as nat,
                attrib: attrib as nat,
                limit: limit as nat,
                base: base as nat,
            }),
            bytes::changed_within(old(self)@, final(self)@, slot as int, slot + 16),
    {
        self.write_u16(slot, selector);
        self.write_u16(slot + 2, attrib);
        self.write_u32(slot + 4, limit);
        self.write_u64(slot + 8, base);
    }

    /// Configures the control area: the intercepts the backend handles, the
    /// permission maps, the guest ASID and nested paging.
    ///
    /// `ncr3` is the nested CR3 from [`Npt::ncr3`](crate::svm::npt::Npt::ncr3),
    /// `iopm_pa`/`msrpm_pa` the host-physical addresses of the I/O- and
    /// MSR-permission maps.
    pub fn setup_control(&mut self, ncr3: u64, iopm_pa: u64, msrpm_pa: u64)
        ensures
            control_configured(final(self)@, ncr3, iopm_pa, msrpm_pa),
            bytes::changed_within(old(self)@, final(self)@, INTERCEPT_INSTR1 as int, N_CR3 + 8),
            forall|i: int|
                0 <= i < VMCB_SIZE && !is_control_byte(i) ==> #[trigger] final(self)@[i] == old(
                    self,
                )@[i],
    {
        // Intercept the instructions the backend emulates on the guest's behalf,
        // plus physical interrupts so the host stays responsive while the guest
        // runs. HLT is intercepted so an idle guest hands control back to the
        // backend, which polls the emulated APIC-timer deadline there: AMD-V has no
        // VMX-preemption-timer equivalent to raise a timed exit on its own.
        self.write_u32(
            INTERCEPT_INSTR1,
            INTERCEPT_INTR | INTERCEPT_CPUID | INTERCEPT_HLT | INTERCEPT_PAUSE | INTERCEPT_IOIO
                | INTERCEPT_MSR | INTERCEPT_SHUTDOWN,
        );
        // VMRUN *must* be intercepted, otherwise VMRUN itself faults.
        self.write_u32(INTERCEPT_INSTR2, INTERCEPT_VMRUN | INTERCEPT_XSETBV);
        self.write_u64(IOPM_BASE_PA, iopm_pa);
        self.write_u64(MSRPM_BASE_PA, msrpm_pa);
        // ASID 0 is reserved for the host; tag the guest TLB entries with ASID 1
        // and request a full TLB flush on entry (TLB-control byte = 1).
        self.write_u64(GUEST_ASID, 0x1_0000_0001);
        // Enable nested paging and point the processor at the guest's tables.
        self.write_u64(NP_ENABLE, 1);
        self.write_u64(N_CR3, ncr3);
    }

    /// Configures the state-save area for a freshly booted 64-bit kernel. Segment
    /// bases are flat, the boot GDT lives in guest memory and `entry_point`/`rsp`
    /// become the initial RIP/RSP.
    #[verifier::rlimit(50)]
    pub fn setup_guest(&mut self, entry_point: u64, rsp: u64)
        ensures
            guest_configured(final(self)@, entry_point, rsp),
            bytes::changed_within(old(self)@, final(self)@, SAVE_ES as int, SAVE_G_PAT + 8),
            forall|i: int|
                0 <= i < VMCB_SIZE && !is_guest_byte(i) ==> #[trigger] final(self)@[i] == old(
                    self,
                )@[i],
    {
        let code: u16 = GDT_KERNEL_CODE * 8;
        let data: u16 = GDT_KERNEL_DATA * 8;
        self.write_segment(SAVE_CS, code, CS_ATTRIB, SEG_LIMIT, 0);
        self.write_segment(SAVE_SS, data, DATA_ATTRIB, SEG_LIMIT, 0);
        self.write_segment(SAVE_DS, data, DATA_ATTRIB, SEG_LIMIT, 0);
        self.write_segment(SAVE_ES, data, DATA_ATTRIB, SEG_LIMIT, 0);
        self.write_segment(SAVE_FS, data, DATA_ATTRIB, SEG_LIMIT, 0);
        self.write_segment(SAVE_GS, data, DATA_ATTRIB, SEG_LIMIT, 0);
        self.write_segment(SAVE_TR, 0, TR_ATTRIB, TABLE_LIMIT, 0);
        self.write_segment(SAVE_LDTR, 0, 0, TABLE_LIMIT, 0);
        // The boot GDT lives in guest memory, the guest starts without an IDT.
        self.write_segment(SAVE_GDTR, 0, 0, (8 * BOOT_GDT_MAX - 1) as u32, GDT_OFFSET);
        self.write_segment(SAVE_IDTR, 0, 0, TABLE_LIMIT, 0);
        self.write_u8(SAVE_CPL, 0);
        self.write_u64(SAVE_CR0, BOOT_CR0);
        self.write_u64(SAVE_CR3, BOOT_PML4);
        self.write_u64(SAVE_CR4, BOOT_CR4);
        self.write_u64(SAVE_CR2, 0);
        // Long mode enabled and active; SVME kept on for the consistency check.
        self.write_u64(EFER, EFER_LME | EFER_LMA | EFER_SVME);
        self.write_u64(SAVE_DR7, BOOT_DR7);
        self.write_u64(SAVE_DR6, BOOT_DR6);
        self.write_u64(RFLAGS, BOOT_RFLAGS);
        self.write_u64(RIP, entry_point);
        self.write_u64(RSP, rsp);
        self.write_u64(RAX, 0);
        self.write_u64(SAVE_G_PAT, BOOT_PAT);
    }
}

/// Whether the control area is configured for a guest with the given nested CR3 and
/// permission maps.
pub open spec fn control_configured(
    memory: Seq<u8>,
    ncr3: u64,
    iopm_pa: u64,
    msrpm_pa: u64,
) -> bool {
    &&& bytes::field(memory, INTERCEPT_INSTR1 as int, 4) == INTERCEPT_INTR | INTERCEPT_CPUID
        | INTERCEPT_HLT | INTERCEPT_PAUSE | INTERCEPT_IOIO | INTERCEPT_MSR | INTERCEPT_SHUTDOWN
    &&& bytes::field(memory, INTERCEPT_INSTR2 as int, 4) == INTERCEPT_VMRUN | INTERCEPT_XSETBV
    &&& bytes::field(memory, IOPM_BASE_PA as int, 8) == iopm_pa
    &&& bytes::field(memory, MSRPM_BASE_PA as int, 8) == msrpm_pa
    &&& bytes::field(memory, GUEST_ASID as int, 8) == 0x1_0000_0001
    &&& bytes::field(memory, NP_ENABLE as int, 8) == 1
    &&& bytes::field(memory, N_CR3 as int, 8) == ncr3
}

/// Whether [`Vmcb::setup_control`] writes the byte at offset `i`.
pub open spec fn is_control_byte(i: int) -> bool {
    ||| INTERCEPT_INSTR1 <= i < INTERCEPT_INSTR2 + 4
    ||| IOPM_BASE_PA <= i < MSRPM_BASE_PA + 8
    ||| GUEST_ASID <= i < GUEST_ASID + 8
    ||| NP_ENABLE <= i < NP_ENABLE + 8
    ||| N_CR3 <= i < N_CR3 + 8
}

/// Whether the state-save area holds the boot state of a 64-bit kernel that starts
/// at `entry_point` with the stack `rsp`.
pub open spec fn guest_configured(memory: Seq<u8>, entry_point: u64, rsp: u64) -> bool {
    &&& segment(memory, SAVE_CS as int) == (Segment {
        selector: (GDT_KERNEL_CODE * 8) as nat,
        attrib: CS_ATTRIB as nat,
        limit: SEG_LIMIT as nat,
        base: 0,
    })
    &&& segment(memory, SAVE_SS as int) == flat_data()
    &&& segment(memory, SAVE_DS as int) == flat_data()
    &&& segment(memory, SAVE_ES as int) == flat_data()
    &&& segment(memory, SAVE_FS as int) == flat_data()
    &&& segment(memory, SAVE_GS as int) == flat_data()
    &&& segment(memory, SAVE_TR as int) == (Segment {
        selector: 0,
        attrib: TR_ATTRIB as nat,
        limit: TABLE_LIMIT as nat,
        base: 0,
    })
    &&& segment(memory, SAVE_LDTR as int) == (Segment {
        selector: 0,
        attrib: 0,
        limit: TABLE_LIMIT as nat,
        base: 0,
    })
    &&& segment(memory, SAVE_GDTR as int) == (Segment {
        selector: 0,
        attrib: 0,
        limit: (8 * BOOT_GDT_MAX - 1) as nat,
        base: GDT_OFFSET as nat,
    })
    &&& segment(memory, SAVE_IDTR as int) == (Segment {
        selector: 0,
        attrib: 0,
        limit: TABLE_LIMIT as nat,
        base: 0,
    })
    &&& bytes::field(memory, SAVE_CPL as int, 1) == 0
    &&& bytes::field(memory, SAVE_CR0 as int, 8) == BOOT_CR0
    &&& bytes::field(memory, SAVE_CR3 as int, 8) == BOOT_PML4
    &&& bytes::field(memory, SAVE_CR4 as int, 8) == BOOT_CR4
    &&& bytes::field(memory, SAVE_CR2 as int, 8) == 0
    &&& bytes::field(memory, EFER as int, 8) == EFER_LME | EFER_LMA | EFER_SVME
    &&& bytes::field(memory, SAVE_DR7 as int, 8) == BOOT_DR7
    &&& bytes::field(memory, SAVE_DR6 as int, 8) == BOOT_DR6
    &&& bytes::field(memory, RFLAGS as int, 8) == BOOT_RFLAGS
    &&& bytes::field(memory, RIP as int, 8) == entry_point
    &&& bytes::field(memory, RSP as int, 8) == rsp
    &&& bytes::field(memory, RAX as int, 8) == 0
    &&& bytes::field(memory, SAVE_G_PAT as int, 8) == BOOT_PAT
}

/// Whether [`Vmcb::setup_guest`] writes the byte at offset `i`.
pub open spec fn is_guest_byte(i: int) -> bool {
    ||| SAVE_ES <= i < SAVE_TR + 16
    ||| i == SAVE_CPL
    ||| EFER <= i < EFER + 8
    ||| SAVE_CR4 <= i < RIP + 8
    ||| RSP <= i < RSP + 8
    ||| RAX <= i < RAX + 8
    ||| SAVE_CR2 <= i < SAVE_G_PAT + 8
}

/// Whether a control block is that of a guest about to boot: both areas configured
/// and everything else zero.
pub open spec fn boot_block(
    memory: Seq<u8>,
    ncr3: u64,
    iopm_pa: u64,
    msrpm_pa: u64,
    entry_point: u64,
    rsp: u64,
) -> bool {
    &&& memory.len() == VMCB_SIZE
    &&& control_configured(memory, ncr3, iopm_pa, msrpm_pa)
    &&& guest_configured(memory, entry_point, rsp)
    &&& forall|i: int|
        0 <= i < VMCB_SIZE && !is_control_byte(i) && !is_guest_byte(i) ==> #[trigger] memory[i] == 0
}

/// What the processor finds at the boot of a guest, by the layout of the control block. It
/// leaves the guest for physical interrupts, CPUID, PAUSE, HLT, port and register accesses
/// and shutdown (bits 0, 18, 23, 24, 27, 28 and 31 of the first intercept word) and for
/// VMRUN and XSETBV (bits 0 and 13 of the second), with the permission maps given; the
/// address space is tagged 1 and flushed, and nested paging is on with the tables given.
/// The guest is in long mode with paging, no descriptor tables but the boot GDT, flat
/// segments, and the entry point and stack given.
pub proof fn law_boot_state(
    memory: Seq<u8>,
    ncr3: u64,
    iopm_pa: u64,
    msrpm_pa: u64,
    entry_point: u64,
    rsp: u64,
)
    requires
        boot_block(memory, ncr3, iopm_pa, msrpm_pa, entry_point, rsp),
    ensures
        memory.len() == 4096,
        bytes::field(memory, 0x0C, 4) == 1 + 0x4_0000 + 0x80_0000 + 0x100_0000 + 0x800_0000
            + 0x1000_0000 + 0x8000_0000,
        bytes::field(memory, 0x10, 4) == 1 + 0x2000,
        bytes::field(memory, 0x40, 8) == iopm_pa,
        bytes::field(memory, 0x48, 8) == msrpm_pa,
        bytes::field(memory, 0x58, 8) == 1 + 0x1_0000_0000,
        bytes::field(memory, 0x90, 8) == 1,
        bytes::field(memory, 0xB0, 8) == ncr3,
        segment(memory, 0x410) == (Segment { selector: 8, attrib: 0xA9B, limit: 0xF_FFFF, base: 0 }),
        segment(memory, 0x400) == (Segment { selector: 16, attrib: 0xC93, limit: 0xF_FFFF, base: 0 }),
        segment(memory, 0x420) == segment(memory, 0x400),
        segment(memory, 0x430) == segment(memory, 0x400),
        segment(memory, 0x440) == segment(memory, 0x400),
        segment(memory, 0x450) == segment(memory, 0x400),
        segment(memory, 0x460) == (Segment { selector: 0, attrib: 0, limit: 23, base: 0x1000 }),
        segment(memory, 0x470) == (Segment { selector: 0, attrib: 0, limit: 0xFFFF, base: 0 }),
        segment(memory, 0x480) == (Segment { selector: 0, attrib: 0, limit: 0xFFFF, base: 0 }),
        segment(memory, 0x490) == (Segment { selector: 0, attrib: 0x8B, limit: 0xFFFF, base: 0 }),
        bytes::field(memory, 0x4CB, 1) == 0,
        bytes::field(memory, 0x4D0, 8) == 0x100 + 0x400 + 0x1000,
        bytes::field(memory, 0x548, 8) == 0x20,
        bytes::field(memory, 0x550, 8) == 0x1_0000,
        bytes::field(memory, 0x558, 8) == 0x8000_0000 + 0x20 + 0x10 + 1,
        bytes::field(memory, 0x560, 8) == 0x400,
        bytes::field(memory, 0x568, 8) == 0xFFFF_0FF0,
        bytes::field(memory, 0x570, 8) == 2,
        bytes::field(memory, 0x578, 8) == entry_point,
        bytes::field(memory, 0x5D8, 8) == rsp,
        bytes::field(memory, 0x5F8, 8) == 0,
        bytes::field(memory, 0x640, 8) == 0,
        bytes::field(memory, 0x648, 8) == 0x0007_0406_0007_0406,
        forall|i: int|
            #![trigger memory[i]]
            0 <= i < 0x0C || 0x14 <= i < 0x40 || 0x50 <= i < 0x58 || 0x60 <= i < 0x90 || 0x98 <= i
                < 0xB0 || 0xB8 <= i < 0x400 || 0x4A0 <= i < 0x4CB || 0x4CC <= i < 0x4D0 || 0x4D8 <= i
                < 0x548 || 0x580 <= i < 0x5D8 || 0x5E0 <= i < 0x5F8 || 0x600 <= i < 0x640 || 0x650
                <= i < 4096 ==> memory[i] == 0,
{
    assert(0x0000_0001u32 | 0x0004_0000u32 | 0x0100_0000u32 | 0x0080_0000u32 | 0x0800_0000u32
        | 0x1000_0000u32 | 0x8000_0000u32 == 1 + 0x4_0000 + 0x80_0000 + 0x100_0000 + 0x800_0000
        + 0x1000_0000 + 0x8000_0000 && 0x0000_0001u32 | 0x0000_2000u32 == 1 + 0x2000 && 0x100u64
        | 0x400u64 | 0x1000u64 == 0x100 + 0x400 + 0x1000) by (bit_vector);
}

/// A segment slot is the selector, the attributes, the limit and the base, in this order,
/// of two, two, four and eight bytes.
pub proof fn law_segment_slots(memory: Seq<u8>, slot: int)
    ensures
        segment(memory, slot).selector == bytes::field(memory, slot, 2),
        segment(memory, slot).attrib == bytes::field(memory, slot + 2, 2),
        segment(memory, slot).limit == bytes::field(memory, slot + 4, 4),
        segment(memory, slot).base == bytes::field(memory, slot + 8, 8),
{
}

} // verus!
