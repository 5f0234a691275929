//! Nested Page Tables (NPT) for the guest.
//!
//! The AMD-V counterpart of the [`Ept`](crate::vmx::ept::Ept) used by the VT-x
//! backend. Like EPT, NPT maps the guest-physical address space onto the
//! host-physical pages that back the guest buffer; unlike EPT, its entries use the
//! *ordinary* x86-64 paging-structure format. The nested CR3 (`nCR3`) the processor
//! walks is simply the host-physical address of the top-level table.
//!
//! The guest buffer is not guaranteed to be physically contiguous, so the whole
//! range is mapped with 4 KiB leaf entries whose frame numbers are resolved page by
//! page.
//!
//! Reference: AMD64 Architecture Programmer's Manual, Volume 2, Section 15.25
//! "Nested Paging".

use vstd::prelude::*;

use crate::error::HypervisorError;
use crate::host::{HostMemory, HostMemoryCell};
use crate::paging;
use crate::paging::{EntryFlags, PagePool, PageTables, PagingState, Table, MAX_GUEST_SIZE};
use crate::translation;
use crate::vmx::ept::NestedPaging;

verus! {

/// Entry pointing at a next-level table: present (bit 0), writable (bit 1) and
/// user-accessible (bit 2). Nested page tables are walked as if from user mode, so
/// every entry must allow user access for the guest to use it.
pub const NPT_TABLE: u64 = 0x7;

/// Leaf entry: as above, and accessed (bit 5) and dirty (bit 6). Those two are set
/// up front so the processor never has to update them.
pub const NPT_LEAF: u64 = 0x67;

/// The bits of NPT entries.
pub open spec fn npt_flags() -> EntryFlags {
    EntryFlags { table: NPT_TABLE, leaf: NPT_LEAF }
}

/// The bits of NPT entries mark them as in use and keep clear of the address.
pub proof fn lemma_npt_flags()
    ensures
        translation::valid_flags(npt_flags()),
{
    assert(0x7u64 & 1 != 0 && 0x67u64 & 1 != 0) by (bit_vector);
}

/// Nested Page Tables describing a guest's physical address space.
pub struct Npt {
    tables: PageTables,
}

impl View for Npt {
    type V = PagingState;

    closed spec fn view(&self) -> PagingState {
        self.tables@
    }
}

impl Npt {
    /// Builds NPT mapping guest-physical `[0, size)` onto the host-physical pages
    /// that back `guest_base .. guest_base + size`.
    ///
    /// `guest_base` must be page-aligned and `size` a multiple of the page size. The
    /// whole range has to fit into a single page directory (1 GiB).
    pub fn new<H: HostMemory>(
        host: &HostMemoryCell<H>,
        pool: &mut PagePool,
        guest_base: u64,
        size: usize,
    ) -> (npt: Result<Self, HypervisorError>)
        requires
            host.registered() is Some,
            guest_base % 4096 == 0,
            size % 4096 == 0,
            size <= MAX_GUEST_SIZE,
            guest_base + size <= u64::MAX,
        ensures
            paging::can_build(*host, old(pool)@, guest_base, size as int) ==> {
                &&& npt matches Ok(n) && n@ == paging::built(
                    *host,
                    npt_flags(),
                    old(pool)@,
                    guest_base,
                    size as int,
                )
                &&& final(pool)@ == old(pool)@.take(
                    old(pool)@.len() - 3 - paging::pt_count(size as int),
                )
            },
            !paging::can_build(*host, old(pool)@, guest_base, size as int) ==> {
                &&& npt matches Err(e) && e == HypervisorError::AllocationFailed
                &&& final(pool)@ == old(pool)@
            },
    {
        let flags = EntryFlags { table: NPT_TABLE, leaf: NPT_LEAF };
        match PageTables::new(flags, host, pool, guest_base, size) {
            Ok(tables) => Ok(Npt { tables }),
            Err(error) => Err(error),
        }
    }

    /// Maps a single 4 KiB guest-physical page `gpa` to the host-physical page
    /// `hpa`, allocating the intermediate tables as needed.
    ///
    /// Intended for MMIO regions (e.g. the APIC pages) that lie *outside* the
    /// contiguous guest memory mapped by [`Npt::new`]: `gpa` must be below 512 GiB
    /// and not within the first 1 GiB (whose page directory is owned separately).
    pub fn map_page<H: HostMemory>(
        &mut self,
        host: &HostMemoryCell<H>,
        pool: &mut PagePool,
        gpa: u64,
        hpa: u64,
    ) -> (done: Result<(), HypervisorError>)
        requires
            host.registered() is Some,
            0x4000_0000 <= gpa < 0x80_0000_0000,
        ensures
            ({
                let made = paging::mapping(*host, npt_flags(), old(self)@, old(pool)@, gpa, hpa);
                &&& final(self)@ == made.state
                &&& final(pool)@ == made.pool
                &&& done == (if made.ok {
                    Ok::<(), HypervisorError>(())
                } else {
                    Err(HypervisorError::AllocationFailed)
                })
            }),
    {
        let flags = EntryFlags { table: NPT_TABLE, leaf: NPT_LEAF };
        self.tables.map_page(flags, host, pool, gpa, hpa)
    }

    /// Returns the nested CR3 (`nCR3`) value to store in the VMCB: the host-physical
    /// address of the top-level table. Unlike the EPT pointer, no walk-length or
    /// memory-type bits are encoded.
    pub fn ncr3<H: HostMemory>(&self, host: &HostMemoryCell<H>) -> (ncr3: Result<
        u64,
        HypervisorError,
    >)
        requires
            host.registered() is Some,
        ensures
            ncr3 == (match host.translates(self@.pml4.vaddr) {
                Some(address) => Ok::<u64, HypervisorError>(address),
                None => Err(HypervisorError::AllocationFailed),
            }),
    {
        self.tables.root(host)
    }

    /// The `k`-th table in use, for the embedder to copy to its page.
    pub fn table(&self, k: usize) -> (table: Option<&Table>)
        ensures
            k < self@.tables().len() ==> (table matches Some(t) && t@
                == self@.tables()[k as int]),
            k >= self@.tables().len() ==> table is None,
    {
        self.tables.table(k)
    }
}

impl NestedPaging for Npt {
    open spec fn contents(&self) -> PagingState {
        self@
    }

    open spec fn entry_flags(&self) -> EntryFlags {
        npt_flags()
    }

    open spec fn pointer_bits(&self) -> u64 {
        0
    }

    fn pointer<H: HostMemory>(&self, host: &HostMemoryCell<H>) -> (pointer: Result<
        u64,
        HypervisorError,
    >) {
        let pointer = self.ncr3(host);
        proof {
            if let Ok(root) = pointer {
                assert(root | 0 == root) by (bit_vector);
            }
        }
        pointer
    }

    fn map_mmio<H: HostMemory>(
        &mut self,
        host: &HostMemoryCell<H>,
        pool: &mut PagePool,
        gpa: u64,
        hpa: u64,
    ) -> (done: Result<(), HypervisorError>) {
        self.map_page(host, pool, gpa, hpa)
    }
}

} // verus!
