//! The guest's initial memory: where things are, and the structures it boots with.

use vstd::prelude::*;

use crate::bytes;
use crate::paging;
use crate::paging::ADDR_MASK;

verus! {

/// `EFER.LME`: long mode is enabled.
pub const EFER_LME: u64 = 0x100;

/// `EFER.LMA`: long mode is active (read-only to software).
pub const EFER_LMA: u64 = 0x400;

/// Index of the kernel's code segment in the boot GDT.
pub const GDT_KERNEL_CODE: u16 = 1;

/// Index of the kernel's data segment in the boot GDT.
pub const GDT_KERNEL_DATA: u16 = 2;

/// Number of descriptors in the boot GDT.
pub const BOOT_GDT_MAX: usize = 3;

/// Guest-physical address of the boot GDT.
pub const GDT_OFFSET: u64 = 0x1000;

/// Guest-physical address of the boot PML4.
pub const BOOT_PML4: u64 = 0x1_0000;

/// Guest-physical address of the boot page-directory-pointer table.
pub const BOOT_PDPTE: u64 = 0x1_1000;

/// Guest-physical address of the boot page directory.
pub const BOOT_PDE: u64 = 0x1_2000;

/// Guest-physical address of the boot information.
pub const BOOT_INFO_OFFSET: u64 = 0x9000;

/// Initial guest stack pointer (grows down, below the loaded kernel).
pub const BOOT_STACK_TOP: u64 = 0x7_0000;

/// Guest-physical address of the flattened device tree.
pub const FDT_OFFSET: u64 = 0x5000;

/// Guest-physical address the kernel is loaded at.
pub const KERNEL_OFFSET: u64 = 0x8_0000;

/// Size of the guest's memory (256 MiB).
pub const GUEST_SIZE: usize = 0x1000_0000;

/// End of the boot structures in the guest's memory.
pub const BOOT_END: usize = 0x1_3000;

/// Page-table entry: present.
pub const PG_PRESENT: u64 = 0x1;

/// Page-table entry: writable.
pub const PG_RW: u64 = 0x2;

/// Page-table entry: maps a huge page.
pub const PG_HUGE: u64 = 0x80;

/// Descriptor of a 64-bit ring-0 code segment.
pub const GDT_CODE: u64 = 0x00AF_9B00_0000_FFFF;

/// Descriptor of a ring-0 data segment.
pub const GDT_DATA: u64 = 0x00CF_9300_0000_FFFF;

/// The `i`-th entry of the table at `table` in the guest's memory.
pub open spec fn entry(memory: Seq<u8>, table: u64, i: int) -> u64 {
    bytes::field(memory, table + 8 * i, 8) as u64
}

/// The `i`-th entry of the boot page directory: the `i`-th huge page.
pub open spec fn huge_page(i: int) -> u64 {
    ((i as u64) << 21) | PG_PRESENT | PG_RW | PG_HUGE
}

/// Whether the guest's memory holds the boot GDT: a null descriptor, the code and the
/// data segment.
pub open spec fn has_boot_gdt(memory: Seq<u8>) -> bool {
    &&& entry(memory, GDT_OFFSET, 0) == 0
    &&& entry(memory, GDT_OFFSET, 1) == GDT_CODE
    &&& entry(memory, GDT_OFFSET, 2) == GDT_DATA
}

/// Whether the guest's memory holds the boot page tables: a single entry each in the
/// upper two, and 512 huge pages in the page directory.
pub open spec fn has_boot_tables(memory: Seq<u8>) -> bool {
    &&& forall|i: int|
        0 <= i < 512 ==> #[trigger] entry(memory, BOOT_PML4, i) == (if i == 0 {
            BOOT_PDPTE | PG_PRESENT | PG_RW
        } else {
            0
        })
    &&& forall|i: int|
        0 <= i < 512 ==> #[trigger] entry(memory, BOOT_PDPTE, i) == (if i == 0 {
            BOOT_PDE | PG_PRESENT | PG_RW
        } else {
            0
        })
    &&& forall|i: int| 0 <= i < 512 ==> #[trigger] entry(memory, BOOT_PDE, i) == huge_page(i)
}

/// Whether the byte at `i` belongs to the boot structures.
pub open spec fn is_boot_byte(i: int) -> bool {
    ||| GDT_OFFSET <= i < GDT_OFFSET + 24
    ||| BOOT_PML4 <= i < BOOT_END
}

/// Writes an entry of the table at `table`.
fn write_entry(memory: &mut [u8], table: u64, i: usize, value: u64)
    requires
        i < 512,
        table + 4096 <= old(memory)@.len(),
    ensures
        entry(final(memory)@, table, i as int) == value,
        forall|other: u64, k: int|
            #![trigger entry(final(memory)@, other, k)]
            0 <= k < 512 && other + 4096 <= old(memory)@.len() && (other + 8 * k + 8 <= table + 8
                * i || table + 8 * i + 8 <= other + 8 * k) ==> entry(final(memory)@, other, k)
                == entry(old(memory)@, other, k),
        bytes::changed_within(
            old(memory)@,
            final(memory)@,
            table + 8 * i,
            table + 8 * i + 8,
        ),
{
    let length: usize = memory.len();
    proof {
        bytes::lemma_spans();
    }
    bytes::write_le(memory, table as usize + 8 * i, 8, value);
}

/// Initializes the guest's boot memory: a flat GDT and 4-level page tables that
/// identity-map the first 1 GiB of guest-physical memory with 2 MiB pages.
///
/// The guest enters in long mode with `CR3 = BOOT_PML4`, so these structures must
/// already be present before the first instruction executes.
pub fn init_guest_memory(memory: &mut [u8])
    requires
        old(memory)@.len() >= BOOT_END,
    ensures
        final(memory)@.len() == old(memory)@.len(),
        has_boot_gdt(final(memory)@),
        has_boot_tables(final(memory)@),
        forall|i: int|
            0 <= i < old(memory)@.len() && !is_boot_byte(i) ==> #[trigger] final(memory)@[i] == old(
                memory,
            )@[i],
{
    let ghost before = memory@;
    // Boot GDT: null, 64-bit ring-0 code, ring-0 data.
    write_entry(memory, GDT_OFFSET, 0, 0);
    write_entry(memory, GDT_OFFSET, 1, GDT_CODE);
    write_entry(memory, GDT_OFFSET, 2, GDT_DATA);
    // PML4 and PDPT: a single entry each, pointing at the next level.
    let mut i: usize = 0;
    while i < 512
        invariant
            i <= 512,
            memory@.len() == before.len() >= BOOT_END,
            has_boot_gdt(memory@),
            forall|k: int| 0 <= k < i ==> #[trigger] entry(memory@, BOOT_PML4, k) == 0,
            forall|k: int| 0 <= k < i ==> #[trigger] entry(memory@, BOOT_PDPTE, k) == 0,
            forall|k: int|
                0 <= k < before.len() && !is_boot_byte(k) ==> #[trigger] memory@[k] == before[k],
        decreases 512 - i,
    {
        write_entry(memory, BOOT_PML4, i, 0);
        write_entry(memory, BOOT_PDPTE, i, 0);
        i = i + 1;
    }
    write_entry(memory, BOOT_PML4, 0, BOOT_PDPTE | PG_PRESENT | PG_RW);
    write_entry(memory, BOOT_PDPTE, 0, BOOT_PDE | PG_PRESENT | PG_RW);
    // Page directory: 512 huge pages identity-mapping the first 1 GiB.
    let mut j: usize = 0;
    while j < 512
        invariant
            j <= 512,
            memory@.len() == before.len() >= BOOT_END,
            has_boot_gdt(memory@),
            forall|k: int|
                0 <= k < 512 ==> #[trigger] entry(memory@, BOOT_PML4, k) == (if k == 0 {
                    BOOT_PDPTE | PG_PRESENT | PG_RW
                } else {
                    0
                }),
            forall|k: int|
                0 <= k < 512 ==> #[trigger] entry(memory@, BOOT_PDPTE, k) == (if k == 0 {
                    BOOT_PDE | PG_PRESENT | PG_RW
                } else {
                    0
                }),
            forall|k: int| 0 <= k < j ==> #[trigger] entry(memory@, BOOT_PDE, k) == huge_page(k),
            forall|k: int|
                0 <= k < before.len() && !is_boot_byte(k) ==> #[trigger] memory@[k] == before[k],
        decreases 512 - j,
    {
        write_entry(memory, BOOT_PDE, j, ((j as u64) << 21) | PG_PRESENT | PG_RW | PG_HUGE);
        j = j + 1;
    }
}

/// One step of the guest's own page walk: the address in an entry, or `None` where the
/// entry is not present.
pub open spec fn boot_step(entry: u64) -> Option<u64> {
    if entry & PG_PRESENT != 0 {
        Some(entry & ADDR_MASK)
    } else {
        None
    }
}

/// The guest-physical address that the guest's own page walk from the boot PML4 gives
/// to a virtual address, with huge pages in the page directory; `None` where it faults.
pub open spec fn boot_walk(memory: Seq<u8>, vaddr: u64) -> Option<u64> {
    match boot_step(entry(memory, BOOT_PML4, paging::table_index(vaddr, 39))) {
        None => None,
        Some(pdpt) => match boot_step(entry(memory, pdpt, paging::table_index(vaddr, 30))) {
            None => None,
            Some(pd) => {
                let leaf = entry(memory, pd, paging::table_index(vaddr, 21));
                if leaf & PG_PRESENT != 0 && leaf & PG_HUGE != 0 {
                    Some(((leaf & ADDR_MASK) + vaddr % 0x20_0000) as u64)
                } else {
                    None
                }
            },
        },
    }
}

/// The boot page tables identity-map the first GiB and nothing else.
pub proof fn law_boot_tables_are_the_identity(memory: Seq<u8>, vaddr: u64)
    requires
        has_boot_tables(memory),
        vaddr < 0x1_0000_0000_0000,
    ensures
        boot_walk(memory, vaddr) == (if vaddr < 0x4000_0000 {
            Some(vaddr)
        } else {
            None
        }),
{
    paging::lemma_index_bound(vaddr);
    let i = (vaddr >> 21) & 0x1ff;
    assert((0x1_1000u64 | 0x1 | 0x2) & 0x000F_FFFF_FFFF_F000 == 0x1_1000 && (0x1_1000u64 | 0x1
        | 0x2) & 0x1 != 0 && (0x1_2000u64 | 0x1 | 0x2) & 0x000F_FFFF_FFFF_F000 == 0x1_2000 && (
    0x1_2000u64 | 0x1 | 0x2) & 0x1 != 0 && 0u64 & 0x1 == 0) by (bit_vector);
    assert((vaddr >> 39) & 0x1ff == 0 && (vaddr >> 30) & 0x1ff == 0 <==> vaddr < 0x4000_0000)
        by (bit_vector)
        requires
            vaddr < 0x1_0000_0000_0000,
    ;
    assert(vaddr < 0x4000_0000 ==> ((i << 21) | 0x1 | 0x2 | 0x80) & 0x000F_FFFF_FFFF_F000 == vaddr
        - vaddr % 0x20_0000 && ((i << 21) | 0x1 | 0x2 | 0x80) & 0x1 != 0 && ((i << 21) | 0x1 | 0x2
        | 0x80) & 0x80 != 0) by (bit_vector)
        requires
            i == (vaddr >> 21) & 0x1ff,
    ;
}

/// What the guest finds in the boot structures. The GDT, at 0x1000, has a null descriptor,
/// a 64-bit code segment and a data segment. The PML4, at 0x1_0000, and the table below
/// it, at 0x1_1000, have one entry each, present and writable, which leads to the next
/// table; the page directory, at 0x1_2000, maps the `i`-th huge page at 2 MiB times `i`.
pub proof fn law_boot_structures(memory: Seq<u8>, i: int)
    requires
        memory.len() >= 0x1_3000,
        has_boot_gdt(memory),
        has_boot_tables(memory),
        0 <= i < 512,
    ensures
        bytes::field(memory, 0x1000, 8) == 0,
        bytes::field(memory, 0x1008, 8) == 0x00AF_9B00_0000_FFFF,
        bytes::field(memory, 0x1010, 8) == 0x00CF_9300_0000_FFFF,
        bytes::field(memory, 0x1_0000 + 8 * i, 8) == (if i == 0 {
            0x1_1000 + 2 + 1int
        } else {
            0
        }),
        bytes::field(memory, 0x1_1000 + 8 * i, 8) == (if i == 0 {
            0x1_2000 + 2 + 1int
        } else {
            0
        }),
        bytes::field(memory, 0x1_2000 + 8 * i, 8) == 0x20_0000 * i + 0x80 + 2 + 1,
{
    lemma_entry_bound(memory, 0x1000, 0);
    lemma_entry_bound(memory, 0x1000, 1);
    lemma_entry_bound(memory, 0x1000, 2);
    lemma_entry_bound(memory, 0x1_0000, i);
    lemma_entry_bound(memory, 0x1_1000, i);
    lemma_entry_bound(memory, 0x1_2000, i);
    let n = i as u64;
    assert((n << 21) | 0x1 | 0x2 | 0x80 == 0x20_0000 * n + 0x83 && 0x1_1000u64 | 0x1 | 0x2
        == 0x1_1003 && 0x1_2000u64 | 0x1 | 0x2 == 0x1_2003) by (bit_vector)
        requires
            n < 512,
    ;
}

proof fn lemma_entry_bound(memory: Seq<u8>, table: u64, i: int)
    requires
        0 <= i < 512,
        table + 8 * i + 8 <= memory.len(),
    ensures
        entry(memory, table, i) == bytes::field(memory, table + 8 * i, 8),
{
    bytes::lemma_spans();
    bytes::lemma_le_value_bound(memory.subrange(table + 8 * i, table + 8 * i + 8));
}

/// The boot structures are the 24 bytes of the GDT and the three pages of tables.
pub proof fn law_boot_bytes(i: int)
    ensures
        is_boot_byte(i) <==> 0x1000 <= i < 0x1018 || 0x1_0000 <= i < 0x1_3000,
{
}

} // verus!
