//! Extended Page Tables (EPT) for the guest.
//!
//! Unlike an in-place hypervisor that virtualizes the running host with an
//! identity-mapped EPT (guest-physical == host-physical), this hypervisor boots a
//! *separate* guest image that lives in a buffer of the host. The guest therefore
//! sees a physical address space starting at 0, and EPT translates each
//! guest-physical page to the host-physical page that backs the corresponding
//! offset of the guest buffer.
//!
//! The guest buffer is not guaranteed to be physically contiguous, so the whole
//! range is mapped with 4 KiB leaf entries whose frame numbers are resolved page by
//! page.
//!
//! Reference: Intel® 64 and IA-32 Architectures Software Developer's Manual,
//! Section 29.3 "The Extended Page Table Mechanism (EPT)".

use vstd::prelude::*;

use crate::error::HypervisorError;
use crate::host;
use crate::host::{HostMemory, HostMemoryCell};
use crate::paging;
use crate::paging::{EntryFlags, PagePool, PageTables, PagingState, Table, MAX_GUEST_SIZE};
use crate::translation;

verus! {

/// EPT entry pointing at a next-level table: read (bit 0), write (bit 1) and execute
/// (bit 2) access.
pub const EPT_TABLE: u64 = 0x7;

/// EPT leaf entry: all access, write-back (WB) memory type in bits 5:3.
pub const EPT_LEAF: u64 = 0x37;

/// EPTP: 4-level page-walk length, encoded in bits 5:3 (value 3).
pub const EPT_WALK_LENGTH_4: u64 = 0x18;

/// EPTP: write-back paging-structure memory type.
pub const EPT_POINTER_MEMORY_TYPE_WB: u64 = 6;

/// The bits of EPT entries.
pub open spec fn ept_flags() -> EntryFlags {
    EntryFlags { table: EPT_TABLE, leaf: EPT_LEAF }
}

/// The bits of EPT entries mark them as in use and keep clear of the address.
pub proof fn lemma_ept_flags()
    ensures
        translation::valid_flags(ept_flags()),
{
    assert(0x7u64 & 1 != 0 && 0x37u64 & 1 != 0) by (bit_vector);
}

/// The pointer to tables whose top level is at `root`, with the bits that the
/// extension wants set in it.
pub open spec fn pointer_to(root: Option<u64>, bits: u64) -> Result<u64, HypervisorError> {
    match root {
        Some(address) => Ok(address | bits),
        None => Err(HypervisorError::AllocationFailed),
    }
}

/// Nested paging that maps a guest-physical address space onto host-physical
/// memory, independent of the virtualization extension.
///
/// Implemented by the concrete structures of each backend ([`Ept`] for Intel VT-x,
/// [`Npt`](crate::svm::npt::Npt) for AMD-V).
pub trait NestedPaging {
    /// What the tables hold.
    spec fn contents(&self) -> PagingState;

    /// The bits of the tables' entries.
    spec fn entry_flags(&self) -> EntryFlags;

    /// The bits of the pointer to the tables, besides the address.
    spec fn pointer_bits(&self) -> u64;

    /// The value the backend's VM control structure refers to the tables by.
    fn pointer<H: HostMemory>(&self, host: &HostMemoryCell<H>) -> (pointer: Result<
        u64,
        HypervisorError,
    >)
        requires
            host.registered() is Some,
        ensures
            pointer == pointer_to(
                host.translates(self.contents().pml4.vaddr),
                self.pointer_bits(),
            ),
    ;

    /// Maps a single 4 KiB guest-physical page that lies outside the guest's memory,
    /// in an MMIO region, onto the host-physical page `hpa`.
    fn map_mmio<H: HostMemory>(
        &mut self,
        host: &HostMemoryCell<H>,
        pool: &mut PagePool,
        gpa: u64,
        hpa: u64,
    ) -> (done: Result<(), HypervisorError>)
        requires
            host.registered() is Some,
            0x4000_0000 <= gpa < 0x80_0000_0000,
        ensures
            ({
                let made = paging::mapping(
                    *host,
                    old(self).entry_flags(),
                    old(self).contents(),
                    old(pool)@,
                    gpa,
                    hpa,
                );
                &&& final(self).contents() == made.state
                &&& final(self).entry_flags() == old(self).entry_flags()
                &&& final(self).pointer_bits() == old(self).pointer_bits()
                &&& final(pool)@ == made.pool
                &&& done == (if made.ok {
                    Ok::<(), HypervisorError>(())
                } else {
                    Err(HypervisorError::AllocationFailed)
                })
            }),
    ;
}

/// A 4 KiB-aligned page, e.g. a backing page for an MMIO region (the APIC pages).
pub struct Page {
    vaddr: u64,
}

impl Page {
    /// The host-virtual address of the page.
    pub closed spec fn address(&self) -> u64 {
        self.vaddr
    }

    /// Takes a zeroed page from the pool.
    pub fn zeroed(pool: &mut PagePool) -> (page: Result<Self, HypervisorError>)
        ensures
            old(pool)@.len() > 0 ==> (page matches Ok(p) && p.address() == old(pool)@.last())
                && final(pool)@ == old(pool)@.drop_last(),
            old(pool)@.len() == 0 ==> (page matches Err(e) && e
                == HypervisorError::AllocationFailed) && final(pool)@ == old(pool)@,
    {
        match pool.take() {
            Ok(vaddr) => Ok(Page { vaddr }),
            Err(error) => Err(error),
        }
    }

    /// Returns the host-physical address backing this page.
    pub fn host_physical<H: HostMemory>(&self, cell: &HostMemoryCell<H>) -> (hpa: Result<
        u64,
        HypervisorError,
    >)
        requires
            cell.registered() is Some,
        ensures
            hpa == (match cell.translates(self.address()) {
                Some(address) => Ok::<u64, HypervisorError>(address),
                None => Err(HypervisorError::AllocationFailed),
            }),
    {
        host::host_physical(cell, self.vaddr)
    }
}

/// Extended Page Tables describing a guest's physical address space.
pub struct Ept {
    tables: PageTables,
}

impl View for Ept {
    type V = PagingState;

    closed spec fn view(&self) -> PagingState {
        self.tables@
    }
}

impl Ept {
    /// Builds EPT mapping guest-physical `[0, size)` onto the host-physical pages
    /// that back `guest_base .. guest_base + size`.
    ///
    /// `guest_base` must be page-aligned and `size` a multiple of the page size. The
    /// whole range has to fit into a single page directory (1 GiB).
    pub fn new<H: HostMemory>(
        host: &HostMemoryCell<H>,
        pool: &mut PagePool,
        guest_base: u64,
        size: usize,
    ) -> (ept: Result<Self, HypervisorError>)
        requires
            host.registered() is Some,
            guest_base % 4096 == 0,
            size % 4096 == 0,
            size <= MAX_GUEST_SIZE,
            guest_base + size <= u64::MAX,
        ensures
            paging::can_build(*host, old(pool)@, guest_base, size as int) ==> {
                &&& ept matches Ok(e) && e@ == paging::built(
                    *host,
                    ept_flags(),
                    old(pool)@,
                    guest_base,
                    size as int,
                )
                &&& final(pool)@ == old(pool)@.take(
                    old(pool)@.len() - 3 - paging::pt_count(size as int),
                )
            },
            !paging::can_build(*host, old(pool)@, guest_base, size as int) ==> {
                &&& ept matches Err(e) && e == HypervisorError::AllocationFailed
                &&& final(pool)@ == old(pool)@
            },
    {
        let flags = EntryFlags { table: EPT_TABLE, leaf: EPT_LEAF };
        match PageTables::new(flags, host, pool, guest_base, size) {
            Ok(tables) => Ok(Ept { tables }),
            Err(error) => Err(error),
        }
    }

    /// Maps a single 4 KiB guest-physical page `gpa` to the host-physical page
    /// `hpa`, allocating the intermediate tables as needed.
    ///
    /// Intended for MMIO regions (e.g. the APIC pages) that lie *outside* the
    /// contiguous guest memory mapped by [`Ept::new`]: `gpa` must be below 512 GiB
    /// and not within the first 1 GiB (whose page directory is owned separately).
    pub fn map_page<H: HostMemory>(
        &mut self,
        host: &HostMemoryCell<H>,
        pool: &mut PagePool,
        gpa: u64,
        hpa: u64,
    ) -> (done: Result<(), HypervisorError>)
        requires
            host.registered() is Some,
            0x4000_0000 <= gpa < 0x80_0000_0000,
        ensures
            ({
                let made = paging::mapping(*host, ept_flags(), old(self)@, old(pool)@, gpa, hpa);
                &&& final(self)@ == made.state
                &&& final(pool)@ == made.pool
                &&& done == (if made.ok {
                    Ok::<(), HypervisorError>(())
                } else {
                    Err(HypervisorError::AllocationFailed)
                })
            }),
    {
        let flags = EntryFlags { table: EPT_TABLE, leaf: EPT_LEAF };
        self.tables.map_page(flags, host, pool, gpa, hpa)
    }

    /// Returns the EPT pointer (EPTP) value to be stored in the VMCS: the
    /// host-physical address of the top-level table, the walk length and the memory
    /// type of the tables.
    pub fn eptp<H: HostMemory>(&self, host: &HostMemoryCell<H>) -> (eptp: Result<
        u64,
        HypervisorError,
    >)
        requires
            host.registered() is Some,
        ensures
            eptp == pointer_to(
                host.translates(self@.pml4.vaddr),
                EPT_WALK_LENGTH_4 | EPT_POINTER_MEMORY_TYPE_WB,
            ),
    {
        match self.tables.root(host) {
            Ok(root) => {
                assert(root | (EPT_WALK_LENGTH_4 | EPT_POINTER_MEMORY_TYPE_WB) == root
                    | EPT_WALK_LENGTH_4 | EPT_POINTER_MEMORY_TYPE_WB) by (bit_vector);
                Ok(root | EPT_WALK_LENGTH_4 | EPT_POINTER_MEMORY_TYPE_WB)
            },
            Err(error) => Err(error),
        }
    }

    /// The `k`-th table in use, for the embedder to copy to its page.
    pub fn table(&self, k: usize) -> (table: Option<&Table>)
        ensures
            k < self@.tables().len() ==> (table matches Some(t) && t@
                == self@.tables()[k as int]),
            k >= self@.tables().len() ==> table is None,
    {
        self.tables.table(k)
    }
}

impl NestedPaging for Ept {
    open spec fn contents(&self) -> PagingState {
        self@
    }

    open spec fn entry_flags(&self) -> EntryFlags {
        ept_flags()
    }

    open spec fn pointer_bits(&self) -> u64 {
        EPT_WALK_LENGTH_4 | EPT_POINTER_MEMORY_TYPE_WB
    }

    fn pointer<H: HostMemory>(&self, host: &HostMemoryCell<H>) -> (pointer: Result<
        u64,
        HypervisorError,
    >) {
        self.eptp(host)
    }

    fn map_mmio<H: HostMemory>(
        &mut self,
        host: &HostMemoryCell<H>,
        pool: &mut PagePool,
        gpa: u64,
        hpa: u64,
    ) -> (done: Result<(), HypervisorError>) {
        self.map_page(host, pool, gpa, hpa)
    }
}

} // verus!
