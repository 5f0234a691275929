//! Four-level page tables that map a guest's physical address space.
//!
//! The guest lives in a buffer of the host and sees a physical address space that
//! starts at zero. Nested paging translates each guest-physical page to the
//! host-physical page behind the corresponding offset of the buffer. Intel's
//! Extended Page Tables and AMD's Nested Page Tables have the same four-level
//! shape and differ in the bits of their entries only, so both are built here
//! ([`PageTables`]) from their [`EntryFlags`].
//!
//! The processor walks the tables through host-physical addresses. The library
//! computes what every table holds; the embedder provides the zeroed, page-aligned
//! pages the tables live in ([`PagePool`]) and copies the contents there.

use vstd::prelude::*;

use crate::error::HypervisorError;
use crate::host::{host_physical, HostMemory, HostMemoryCell};

verus! {

/// Number of entries in a paging-structure table.
pub const ENTRY_COUNT: usize = 512;

/// Size of a page and of a table in bytes.
pub const PAGE_SIZE: usize = 4096;

/// The largest guest memory one page directory covers (1 GiB).
pub const MAX_GUEST_SIZE: usize = 0x4000_0000;

/// Mask selecting the host-physical frame address out of a paging entry.
pub const ADDR_MASK: u64 = 0x000F_FFFF_FFFF_F000;

/// The bit that is set in every entry in use: "present" for AMD-V, "read access"
/// for VT-x.
pub const ENTRY_PRESENT: u64 = 1;

/// Pages the embedder has set aside for tables, control structures and MMIO
/// backing, each named by its host-virtual address.
///
/// Every page is zeroed, 4 KiB in size and aligned to that, and stays where it is
/// for as long as anything made from the pool is in use.
pub struct PagePool {
    free: Vec<u64>,
}

impl View for PagePool {
    type V = Seq<u64>;

    closed spec fn view(&self) -> Seq<u64> {
        self.free@
    }
}

/// The page that the pool hands out after `k` others.
pub open spec fn pool_page(pool: Seq<u64>, k: int) -> u64 {
    pool[pool.len() - 1 - k]
}

impl PagePool {
    /// A pool of the given pages; the last one is handed out first.
    pub fn new(pages: Vec<u64>) -> (pool: Self)
        ensures
            pool@ == pages@,
    {
        PagePool { free: pages }
    }

    /// A pool of the same pages, to try something out on.
    pub(crate) fn duplicate(&self) -> (pool: Self)
        ensures
            pool@ == self@,
    {
        PagePool { free: self.free.clone() }
    }

    /// The number of pages left.
    pub fn len(&self) -> (count: usize)
        ensures
            count == self@.len(),
    {
        self.free.len()
    }

    /// Hands out a page, or reports that none is left.
    pub fn take(&mut self) -> (page: Result<u64, HypervisorError>)
        ensures
            old(self)@.len() > 0 ==> page == Ok::<u64, HypervisorError>(old(self)@.last())
                && final(self)@ == old(self)@.drop_last(),
            old(self)@.len() == 0 ==> page == Err::<u64, HypervisorError>(
                HypervisorError::AllocationFailed,
            ) && final(self)@ == old(self)@,
    {
        match self.free.pop() {
            Some(page) => Ok(page),
            None => Err(HypervisorError::AllocationFailed),
        }
    }

    /// The page that would be handed out after `k` others.
    pub(crate) fn peek(&self, k: usize) -> (page: u64)
        requires
            k < self@.len(),
        ensures
            page == pool_page(self@, k as int),
    {
        self.free[self.free.len() - 1 - k]
    }

    /// Marks the next `count` pages as handed out.
    pub(crate) fn advance(&mut self, count: usize)
        requires
            count <= old(self)@.len(),
        ensures
            final(self)@ == old(self)@.take(old(self)@.len() - count),
    {
        let keep: usize = self.free.len() - count;
        self.free.truncate(keep);
        assert(self.free@ =~= old(self)@.take(old(self)@.len() - count));
    }
}

/// A page-aligned area in the host's memory: where the host finds it and where the
/// processor does.
#[derive(Debug, Clone, Copy, PartialEq, Eq)]
pub struct Area {
    pub vaddr: u64,
    pub hpa: u64,
}

/// The area in the page that the pool hands out after `k` others.
pub open spec fn area<H: HostMemory>(host: HostMemoryCell<H>, pool: Seq<u64>, k: int) -> Area {
    Area {
        vaddr: pool_page(pool, k),
        hpa: host.translates(pool_page(pool, k))->0,
    }
}

/// What a table holds and where it lives.
pub struct TableState {
    /// Host-virtual address of the table.
    pub vaddr: u64,
    /// Its 512 entries.
    pub entries: Seq<u64>,
}

/// A table whose entries are all zero.
pub open spec fn zero_table(vaddr: u64) -> TableState {
    TableState { vaddr, entries: Seq::new(512, |i: int| 0u64) }
}

/// A paging-structure table of 512 64-bit entries.
pub struct Table {
    vaddr: u64,
    entries: [u64; 512],
}

impl View for Table {
    type V = TableState;

    closed spec fn view(&self) -> TableState {
        TableState { vaddr: self.vaddr, entries: self.entries@ }
    }
}

impl Table {
    /// A zeroed table in the page at `vaddr`.
    fn zeroed(vaddr: u64) -> (table: Self)
        ensures
            table@ == zero_table(vaddr),
    {
        let entries = [0u64; 512];
        proof {
            vstd::array::axiom_spec_array_fill_for_copy_type::<u64, 512>(0);
        }
        assert(entries@ =~= Seq::new(512, |i: int| 0u64));
        Table { vaddr, entries }
    }

    /// Host-virtual address of the page the table lives in.
    pub fn address(&self) -> (vaddr: u64)
        ensures
            vaddr == self@.vaddr,
    {
        self.vaddr
    }

    /// The entry at `index`.
    pub fn entry(&self, index: usize) -> (entry: u64)
        requires
            index < ENTRY_COUNT,
        ensures
            entry == self@.entries[index as int],
    {
        self.entries[index]
    }

    fn set(&mut self, index: usize, entry: u64)
        requires
            index < ENTRY_COUNT,
        ensures
            final(self)@ == (TableState {
                entries: old(self)@.entries.update(index as int, entry),
                ..old(self)@
            }),
    {
        self.entries[index] = entry;
    }
}

/// The bits that an extension wants set in its paging entries.
#[derive(Clone, Copy)]
pub struct EntryFlags {
    /// In an entry that points at the next-level table.
    pub table: u64,
    /// In an entry that maps a 4 KiB page.
    pub leaf: u64,
}

/// A table that was added for an MMIO mapping, with its host-physical address.
pub struct ExtraTable {
    pub hpa: u64,
    pub table: TableState,
}

/// What a set of page tables holds.
pub struct PagingState {
    /// The top-level table.
    pub pml4: TableState,
    /// The second-level table, reached through the first top-level entry.
    pub pdpt: TableState,
    /// The page directory of the first GiB, which holds the guest's memory.
    pub pd: TableState,
    /// The page tables below it, one per 2 MiB of guest memory.
    pub pts: Seq<TableState>,
    /// The tables added for MMIO mappings.
    pub extra: Seq<ExtraTable>,
}

/// The number of page tables it takes to map `size` bytes.
pub open spec fn pt_count(size: int) -> int {
    (size / 4096 + 511) / 512
}

/// The host-virtual address of the `i`-th page of the guest's memory.
pub open spec fn guest_page(base: u64, i: int) -> u64 {
    (base + i * 4096) as u64
}

/// Whether the pool and the host's translation have what it takes to map `size`
/// bytes of guest memory at `base`.
pub open spec fn can_build<H: HostMemory>(
    host: HostMemoryCell<H>,
    pool: Seq<u64>,
    base: u64,
    size: int,
) -> bool {
    &&& pool.len() >= 3 + pt_count(size)
    &&& host.translates(pool_page(pool, 1)) is Some
    &&& host.translates(pool_page(pool, 2)) is Some
    &&& forall|i: int|
        0 <= i < pt_count(size) ==> (#[trigger] host.translates(pool_page(pool, 3 + i))) is Some
    &&& forall|i: int| 0 <= i < size / 4096 ==> (#[trigger] host.translates(guest_page(base, i))) is Some
}

/// The `i`-th page table: 512 consecutive pages of the guest's memory, as far as
/// it reaches.
pub open spec fn built_pt<H: HostMemory>(
    host: HostMemoryCell<H>,
    flags: EntryFlags,
    pool: Seq<u64>,
    base: u64,
    size: int,
    i: int,
) -> TableState {
    TableState {
        vaddr: pool_page(pool, 3 + i),
        entries: Seq::new(
            512,
            |j: int|
                if i * 512 + j < size / 4096 {
                    host.translates(guest_page(base, i * 512 + j))->0 | flags.leaf
                } else {
                    0
                },
        ),
    }
}

/// The page tables that map `size` bytes of guest memory at `base`, made from the
/// next pages of the pool.
pub open spec fn built<H: HostMemory>(
    host: HostMemoryCell<H>,
    flags: EntryFlags,
    pool: Seq<u64>,
    base: u64,
    size: int,
) -> PagingState {
    PagingState {
        pml4: TableState {
            vaddr: pool_page(pool, 0),
            entries: zero_table(0).entries.update(
                0,
                host.translates(pool_page(pool, 1))->0 | flags.table,
            ),
        },
        pdpt: TableState {
            vaddr: pool_page(pool, 1),
            entries: zero_table(0).entries.update(
                0,
                host.translates(pool_page(pool, 2))->0 | flags.table,
            ),
        },
        pd: TableState {
            vaddr: pool_page(pool, 2),
            entries: Seq::new(
                512,
                |i: int|
                    if i < pt_count(size) {
                        host.translates(pool_page(pool, 3 + i))->0 | flags.table
                    } else {
                        0
                    },
            ),
        },
        pts: Seq::new(
            pt_count(size) as nat,
            |i: int| built_pt(host, flags, pool, base, size, i),
        ),
        extra: Seq::empty(),
    }
}

/// The index of the first added table at host-physical address `hpa`.
pub open spec fn find_extra(extra: Seq<ExtraTable>, hpa: u64) -> Option<int>
    decreases extra.len(),
{
    if extra.len() == 0 {
        None
    } else {
        match find_extra(extra.drop_last(), hpa) {
            Some(k) => Some(k),
            None => if extra.last().hpa == hpa {
                Some(extra.len() - 1)
            } else {
                None
            },
        }
    }
}

impl PagingState {
    /// The entries of a table that MMIO mappings hang below: the second-level table
    /// (`None`) or the added table of the given index.
    pub open spec fn entries_of(self, parent: Option<int>) -> Seq<u64> {
        match parent {
            None => self.pdpt.entries,
            Some(k) => self.extra[k].table.entries,
        }
    }

    /// The state after an entry of a parent table has been set.
    pub open spec fn with_entry(self, parent: Option<int>, index: int, entry: u64) -> PagingState {
        match parent {
            None => PagingState {
                pdpt: TableState {
                    entries: self.pdpt.entries.update(index, entry),
                    ..self.pdpt
                },
                ..self
            },
            Some(k) => PagingState {
                extra: self.extra.update(
                    k,
                    ExtraTable {
                        table: TableState {
                            entries: self.extra[k].table.entries.update(index, entry),
                            ..self.extra[k].table
                        },
                        ..self.extra[k]
                    },
                ),
                ..self
            },
        }
    }
}

/// What a step down the tables leads to: the index of the child among the added
/// tables (`None` where there is none to be had), the tables and the pool.
pub struct Descent {
    pub child: Option<int>,
    pub state: PagingState,
    pub pool: Seq<u64>,
}

/// The step from a parent's entry down to the table it refers to. An entry in use
/// leads to the added table at its address; one that is not gets a fresh table.
pub open spec fn descend<H: HostMemory>(
    host: HostMemoryCell<H>,
    flags: EntryFlags,
    state: PagingState,
    pool: Seq<u64>,
    parent: Option<int>,
    index: int,
) -> Descent {
    let entry = state.entries_of(parent)[index];
    if entry & ENTRY_PRESENT != 0 {
        Descent { child: find_extra(state.extra, entry & ADDR_MASK), state, pool }
    } else if pool.len() == 0 || host.translates(pool.last()) is None {
        Descent { child: None, state, pool }
    } else {
        let hpa = host.translates(pool.last())->0;
        let linked = state.with_entry(parent, index, hpa | flags.table);
        Descent {
            child: Some(state.extra.len() as int),
            state: PagingState {
                extra: linked.extra.push(ExtraTable { hpa, table: zero_table(pool.last()) }),
                ..linked
            },
            pool: pool.drop_last(),
        }
    }
}

/// The nine bits of a guest-physical address that select an entry of the table
/// whose entries span `1 << shift` bytes each.
pub open spec fn table_index(gpa: u64, shift: u64) -> int {
    ((gpa >> shift) & 0x1ff) as int
}

/// What [`PageTables::map_page`] leads to.
pub struct Mapping {
    pub ok: bool,
    pub state: PagingState,
    pub pool: Seq<u64>,
}

/// The mapping of one guest-physical page: two steps down from the second-level
/// table, then the leaf entry. Where a step fails, what was linked before stays.
pub open spec fn mapping<H: HostMemory>(
    host: HostMemoryCell<H>,
    flags: EntryFlags,
    state: PagingState,
    pool: Seq<u64>,
    gpa: u64,
    hpa: u64,
) -> Mapping {
    let first = descend(host, flags, state, pool, None, table_index(gpa, 30));
    match first.child {
        None => Mapping { ok: false, state: first.state, pool: first.pool },
        Some(pd) => {
            let second = descend(
                host,
                flags,
                first.state,
                first.pool,
                Some(pd),
                table_index(gpa, 21),
            );
            match second.child {
                None => Mapping { ok: false, state: second.state, pool: second.pool },
                Some(pt) => Mapping {
                    ok: true,
                    state: second.state.with_entry(
                        Some(pt),
                        table_index(gpa, 12),
                        hpa | flags.leaf,
                    ),
                    pool: second.pool,
                },
            }
        },
    }
}

/// A parent table's index as a mathematical integer.
pub open spec fn parent_of(parent: Option<usize>) -> Option<int> {
    match parent {
        Some(k) => Some(k as int),
        None => None,
    }
}

/// The page tables of one guest-physical address space.
pub struct PageTables {
    pml4: Table,
    pdpt: Table,
    pd: Table,
    pts: Vec<Table>,
    extra: Vec<(u64, Table)>,
}

impl View for PageTables {
    type V = PagingState;

    closed spec fn view(&self) -> PagingState {
        PagingState {
            pml4: self.pml4@,
            pdpt: self.pdpt@,
            pd: self.pd@,
            pts: Seq::new(self.pts@.len(), |i: int| self.pts@[i]@),
            extra: Seq::new(
                self.extra@.len(),
                |i: int| ExtraTable { hpa: self.extra@[i].0, table: self.extra@[i].1@ },
            ),
        }
    }
}

impl PageTables {
    /// Builds the tables that map guest-physical `[0, size)` onto the host-physical
    /// pages behind `guest_base .. guest_base + size`.
    ///
    /// `guest_base` must be page-aligned and `size` a multiple of the page size.
    /// The whole range has to fit into a single page directory (1 GiB). Where a
    /// table cannot be allocated, or an address has no translation, the error is
    /// `AllocationFailed` and the pool keeps its pages.
    pub fn new<H: HostMemory>(
        flags: EntryFlags,
        host: &HostMemoryCell<H>,
        pool: &mut PagePool,
        guest_base: u64,
        size: usize,
    ) -> (tables: Result<Self, HypervisorError>)
        requires
            host.registered() is Some,
            guest_base % 4096 == 0,
            size % 4096 == 0,
            size <= MAX_GUEST_SIZE,
            guest_base + size <= u64::MAX,
        ensures
            can_build(*host, old(pool)@, guest_base, size as int) ==> {
                &&& tables matches Ok(t) && t@ == built(
                    *host,
                    flags,
                    old(pool)@,
                    guest_base,
                    size as int,
                )
                &&& final(pool)@ == old(pool)@.take(old(pool)@.len() - 3 - pt_count(size as int))
            },
            !can_build(*host, old(pool)@, guest_base, size as int) ==> {
                &&& tables matches Err(e) && e == HypervisorError::AllocationFailed
                &&& final(pool)@ == old(pool)@
            },
    {
        let num_pages: usize = size / PAGE_SIZE;
        let num_pts: usize = (num_pages + (ENTRY_COUNT - 1)) / ENTRY_COUNT;
        assert(num_pts == pt_count(size as int) && num_pts <= 512);
        if pool.len() < 3 + num_pts {
            return Err(HypervisorError::AllocationFailed);
        }
        let ghost pages = pool@;
        let mut pml4 = Table::zeroed(pool.peek(0));
        let mut pdpt = Table::zeroed(pool.peek(1));
        let mut pd = Table::zeroed(pool.peek(2));
        let mut pts: Vec<Table> = Vec::new();

        // PML4[0] -> PDPT, PDPT[0] -> PD: the whole guest fits in the first GiB.
        let pdpt_hpa = match host_physical(host, pdpt.address()) {
            Ok(hpa) => hpa,
            Err(error) => return Err(error),
        };
        pml4.set(0, pdpt_hpa | flags.table);
        let pd_hpa = match host_physical(host, pd.address()) {
            Ok(hpa) => hpa,
            Err(error) => return Err(error),
        };
        pdpt.set(0, pd_hpa | flags.table);

        let mut i: usize = 0;
        while i < num_pts
            invariant
                host.registered() is Some,
                i <= num_pts <= 512,
                num_pts == pt_count(size as int),
                num_pages == size as int / 4096,
                num_pages <= 512 * 512,
                guest_base + size <= u64::MAX,
                pool@ == pages,
                pages.len() >= 3 + num_pts,
                pd@.vaddr == pool_page(pages, 2),
                pd@.entries.len() == 512,
                forall|k: int|
                    0 <= k < 512 ==> #[trigger] pd@.entries[k] == (if k < i {
                        host.translates(pool_page(pages, 3 + k))->0 | flags.table
                    } else {
                        0
                    }),
                pts@.len() == i,
                forall|k: int|
                    0 <= k < i ==> (#[trigger] pts@[k])@ == built_pt(
                        *host,
                        flags,
                        pages,
                        guest_base,
                        size as int,
                        k,
                    ),
                forall|k: int|
                    0 <= k < i ==> (#[trigger] host.translates(pool_page(pages, 3 + k))) is Some,
                forall|k: int|
                    0 <= k < i * 512 && k < num_pages ==> (#[trigger] host.translates(
                        guest_page(guest_base, k),
                    )) is Some,
            decreases num_pts - i,
        {
            let mut pt = Table::zeroed(pool.peek(3 + i));
            let mut j: usize = 0;
            while j < ENTRY_COUNT && i * ENTRY_COUNT + j < num_pages
                invariant
                    host.registered() is Some,
                    j <= 512,
                    i < num_pts <= 512,
                    j == 0 || i * 512 + j <= num_pages,
                    num_pages == size as int / 4096,
                    num_pages <= 512 * 512,
                    guest_base + size <= u64::MAX,
                    pt@.vaddr == pool_page(pages, 3 + i),
                    pt@.entries.len() == 512,
                    forall|k: int|
                        0 <= k < 512 ==> #[trigger] pt@.entries[k] == (if k < j {
                            host.translates(guest_page(guest_base, i * 512 + k))->0 | flags.leaf
                        } else {
                            0
                        }),
                    forall|k: int|
                        0 <= k < i * 512 + j && k < num_pages ==> (#[trigger] host.translates(
                            guest_page(guest_base, k),
                        )) is Some,
                decreases 512 - j,
            {
                let page_idx: usize = i * ENTRY_COUNT + j;
                let gpa: usize = page_idx * PAGE_SIZE;
                assert(guest_page(guest_base, page_idx as int) == guest_base + gpa);
                let hpa = match host_physical(host, guest_base + gpa as u64) {
                    Ok(hpa) => hpa,
                    Err(error) => {
                        assert(host.translates(guest_page(guest_base, page_idx as int)) is None);
                        return Err(error);
                    },
                };
                pt.set(j, hpa | flags.leaf);
                j = j + 1;
            }
            let pt_hpa = match host_physical(host, pt.address()) {
                Ok(hpa) => hpa,
                Err(error) => {
                    assert(host.translates(pool_page(pages, 3 + i)) is None);
                    return Err(error);
                },
            };
            assert(pt@.entries =~= built_pt(
                *host,
                flags,
                pages,
                guest_base,
                size as int,
                i as int,
            ).entries);
            pd.set(i, pt_hpa | flags.table);
            pts.push(pt);
            i = i + 1;
        }
        pool.advance(3 + num_pts);
        let tables = PageTables { pml4, pdpt, pd, pts, extra: Vec::new() };
        proof {
            let made = built(*host, flags, pages, guest_base, size as int);
            assert(tables@.pml4.entries =~= made.pml4.entries);
            assert(tables@.pdpt.entries =~= made.pdpt.entries);
            assert(tables@.pd.entries =~= made.pd.entries);
            assert(tables@.pts =~= made.pts);
            assert(tables@.extra =~= made.extra);
        }
        Ok(tables)
    }

    /// Returns the index of the added table that `parent`'s entry `index` refers
    /// to, allocating one if the entry is not in use yet.
    fn child_or_alloc<H: HostMemory>(
        &mut self,
        flags: EntryFlags,
        host: &HostMemoryCell<H>,
        pool: &mut PagePool,
        parent: Option<usize>,
        index: usize,
    ) -> (child: Result<usize, HypervisorError>)
        requires
            host.registered() is Some,
            parent matches Some(k) ==> k < old(self)@.extra.len(),
            index < ENTRY_COUNT,
        ensures
            ({
                let step = descend(
                    *host,
                    flags,
                    old(self)@,
                    old(pool)@,
                    parent_of(parent),
                    index as int,
                );
                &&& final(self)@ == step.state
                &&& final(pool)@ == step.pool
                &&& match step.child {
                    Some(k) => child matches Ok(c) && c == k && 0 <= k < step.state.extra.len(),
                    None => child matches Err(e) && e == HypervisorError::AllocationFailed,
                }
            }),
    {
        let entry = match parent {
            None => self.pdpt.entry(index),
            Some(k) => self.extra[k].1.entry(index),
        };
        assert(entry == self@.entries_of(parent_of(parent))[index as int]);
        if entry & ENTRY_PRESENT != 0 {
            let child_hpa = entry & ADDR_MASK;
            let mut k: usize = 0;
            assert(self@.extra.take(0) =~= Seq::empty());
            while k < self.extra.len()
                invariant
                    *self == *old(self),
                    pool@ == old(pool)@,
                    entry == self@.entries_of(parent_of(parent))[index as int],
                    entry & ENTRY_PRESENT != 0,
                    child_hpa == entry & ADDR_MASK,
                    k <= self.extra@.len(),
                    self@.extra.len() == self.extra@.len(),
                    find_extra(self@.extra.take(k as int), child_hpa) is None,
                decreases self.extra@.len() - k,
            {
                assert(self@.extra.take(k + 1).drop_last() =~= self@.extra.take(k as int));
                if self.extra[k].0 == child_hpa {
                    proof {
                        assert(self@.extra.take(k + 1).last() == self@.extra[k as int]);
                        assert(find_extra(self@.extra.take(k + 1), child_hpa) == Some(k as int));
                        lemma_find_extends(self@.extra, k + 1, child_hpa);
                    }
                    return Ok(k);
                }
                k = k + 1;
            }
            assert(self@.extra.take(k as int) =~= self@.extra);
            return Err(HypervisorError::AllocationFailed);
        }
        if pool.len() == 0 {
            return Err(HypervisorError::AllocationFailed);
        }
        let vaddr = pool.peek(0);
        let hpa = match host_physical(host, vaddr) {
            Ok(hpa) => hpa,
            Err(error) => return Err(error),
        };
        pool.advance(1);
        assert(pool@ =~= old(pool)@.drop_last());
        let table = Table::zeroed(vaddr);
        let ghost linked = self@.with_entry(
            parent_of(parent),
            index as int,
            hpa | flags.table,
        );
        let entry = hpa | flags.table;
        match parent {
            None => self.pdpt.set(index, entry),
            Some(k) => self.extra[k].1.set(index, entry),
        }
        assert(self@.extra =~= linked.extra);
        assert(self@.pts =~= linked.pts);
        let child: usize = self.extra.len();
        self.extra.push((hpa, table));
        proof {
            let step = descend(
                *host,
                flags,
                old(self)@,
                old(pool)@,
                parent_of(parent),
                index as int,
            );
            assert(self@.extra =~= step.state.extra);
            assert(self@.pts =~= step.state.pts);
        }
        Ok(child)
    }

    /// Maps a single 4 KiB guest-physical page `gpa` to the host-physical page
    /// `hpa`, allocating the intermediate tables as needed.
    ///
    /// Intended for MMIO regions (e.g. the APIC pages) that lie *outside* the
    /// contiguous guest memory: `gpa` must be below 512 GiB and not within the
    /// first 1 GiB (whose page directory is owned separately).
    pub fn map_page<H: HostMemory>(
        &mut self,
        flags: EntryFlags,
        host: &HostMemoryCell<H>,
        pool: &mut PagePool,
        gpa: u64,
        hpa: u64,
    ) -> (done: Result<(), HypervisorError>)
        requires
            host.registered() is Some,
            0x4000_0000 <= gpa < 0x80_0000_0000,
        ensures
            ({
                let made = mapping(*host, flags, old(self)@, old(pool)@, gpa, hpa);
                &&& final(self)@ == made.state
                &&& final(pool)@ == made.pool
                &&& done == (if made.ok {
                    Ok::<(), HypervisorError>(())
                } else {
                    Err(HypervisorError::AllocationFailed)
                })
            }),
    {
        proof {
            lemma_index_bound(gpa);
        }
        let i3: usize = ((gpa >> 30) & 0x1ff) as usize;
        let pd = match self.child_or_alloc(flags, host, pool, None, i3) {
            Ok(child) => child,
            Err(error) => return Err(error),
        };
        let i2: usize = ((gpa >> 21) & 0x1ff) as usize;
        let pt = match self.child_or_alloc(flags, host, pool, Some(pd), i2) {
            Ok(child) => child,
            Err(error) => return Err(error),
        };
        let i1: usize = ((gpa >> 12) & 0x1ff) as usize;
        let ghost before = self@;
        let leaf = hpa | flags.leaf;
        self.extra[pt].1.set(i1, leaf);
        proof {
            let after = before.with_entry(Some(pt as int), i1 as int, leaf);
            assert(self@.extra =~= after.extra);
            assert(self@.pts =~= after.pts);
        }
        Ok(())
    }

    /// The host-physical address of the top-level table.
    pub fn root<H: HostMemory>(&self, host: &HostMemoryCell<H>) -> (hpa: Result<
        u64,
        HypervisorError,
    >)
        requires
            host.registered() is Some,
        ensures
            hpa == (match host.translates(self@.pml4.vaddr) {
                Some(address) => Ok::<u64, HypervisorError>(address),
                None => Err(HypervisorError::AllocationFailed),
            }),
    {
        host_physical(host, self.pml4.address())
    }

    /// The `k`-th table in use, for the embedder to copy to its page.
    pub fn table(&self, k: usize) -> (table: Option<&Table>)
        ensures
            k < self@.tables().len() ==> (table matches Some(t) && t@
                == self@.tables()[k as int]),
            k >= self@.tables().len() ==> table is None,
    {
        if k == 0 {
            Some(&self.pml4)
        } else if k == 1 {
            Some(&self.pdpt)
        } else if k == 2 {
            Some(&self.pd)
        } else if k - 3 < self.pts.len() {
            Some(&self.pts[k - 3])
        } else if k - 3 - self.pts.len() < self.extra.len() {
            Some(&self.extra[k - 3 - self.pts.len()].1)
        } else {
            None
        }
    }
}

impl PagingState {
    /// All tables of the state.
    pub open spec fn tables(self) -> Seq<TableState> {
        seq![self.pml4, self.pdpt, self.pd] + self.pts + Seq::new(
            self.extra.len(),
            |i: int| self.extra[i].table,
        )
    }
}

/// A table found among the first few added tables is the one found among all.
proof fn lemma_find_extends(extra: Seq<ExtraTable>, n: int, hpa: u64)
    requires
        0 <= n <= extra.len(),
        find_extra(extra.take(n), hpa) is Some,
    ensures
        find_extra(extra, hpa) == find_extra(extra.take(n), hpa),
    decreases extra.len() - n,
{
    if n < extra.len() {
        assert(extra.take(n + 1).drop_last() =~= extra.take(n));
        lemma_find_extends(extra, n + 1, hpa);
    } else {
        assert(extra.take(n) =~= extra);
    }
}

/// The index bits of an address stay below the number of entries.
pub proof fn lemma_index_bound(gpa: u64)
    ensures
        0 <= table_index(gpa, 39) < 512,
        0 <= table_index(gpa, 30) < 512,
        0 <= table_index(gpa, 21) < 512,
        0 <= table_index(gpa, 12) < 512,
{
    assert((gpa >> 39) & 0x1ff < 512 && (gpa >> 30) & 0x1ff < 512 && (gpa >> 21) & 0x1ff < 512 && (
    gpa >> 12) & 0x1ff < 512) by (bit_vector);
}

/// The indices of an address in the tables of the four levels are its nine-bit digits
/// above the offset in the page: bits 47:39, 38:30, 29:21 and 20:12.
pub proof fn law_table_indices(gpa: u64)
    ensures
        table_index(gpa, 39) == gpa / 0x80_0000_0000 % 512,
        table_index(gpa, 30) == gpa / 0x4000_0000 % 512,
        table_index(gpa, 21) == gpa / 0x20_0000 % 512,
        table_index(gpa, 12) == gpa / 0x1000 % 512,
{
    assert((gpa >> 39) & 0x1ff == gpa / 0x80_0000_0000 % 512 && (gpa >> 30) & 0x1ff == gpa
        / 0x4000_0000 % 512 && (gpa >> 21) & 0x1ff == gpa / 0x20_0000 % 512 && (gpa >> 12) & 0x1ff
        == gpa / 0x1000 % 512) by (bit_vector);
}

/// The pages of the guest's memory follow one another: the page that is `i` pages in is
/// `4096 * i` bytes beyond the start, and two different ones are that far apart.
pub proof fn law_guest_pages_are_consecutive(base: u64, size: int, i: int, j: int)
    requires
        base + size <= u64::MAX,
        0 <= i,
        4096 * i <= size,
        0 <= j,
        4096 * j <= size,
    ensures
        guest_page(base, 0) == base,
        guest_page(base, i) == base + 4096 * i,
        guest_page(base, j) - guest_page(base, i) == 4096 * (j - i),
{
}

/// There are as many page tables as it takes: each maps 2 MiB, and one less would not do.
pub proof fn law_page_table_count(size: int)
    requires
        0 <= size,
        size % 4096 == 0,
    ensures
        pt_count(size) >= 0,
        pt_count(size) * 0x20_0000 >= size,
        size > 0 ==> (pt_count(size) - 1) * 0x20_0000 < size,
        size == 0 ==> pt_count(size) == 0,
{
}

/// The pool hands its pages out from the last one down, each once.
pub proof fn law_pages_are_handed_out_once(pool: Seq<u64>, k: int, l: int)
    requires
        0 <= k < pool.len(),
        0 <= l < pool.len(),
        pool.no_duplicates(),
    ensures
        pool_page(pool, 0) == pool.last(),
        k + 1 < pool.len() ==> pool_page(pool.drop_last(), k) == pool_page(pool, k + 1),
        k != l ==> pool_page(pool, k) != pool_page(pool, l),
{
}

/// The tables of a guest's memory can be built exactly if the pool has three pages and one
/// for each page table, these but for the first have host-physical addresses, and so does
/// every page of the memory.
pub proof fn law_tables_can_be_built<H: HostMemory>(
    host: HostMemoryCell<H>,
    pool: Seq<u64>,
    base: u64,
    size: int,
)
    requires
        0 <= size,
        size % 4096 == 0,
        base + size <= u64::MAX,
    ensures
        can_build(host, pool, base, size) <==> {
            let count = (size + 0x1F_FFFF) / 0x20_0000;
            &&& pool.len() >= 3 + count
            &&& forall|k: int|
                pool.len() - 3 - count <= k < pool.len() - 1 ==> host.translates(
                    #[trigger] pool[k],
                ) is Some
            &&& forall|page: u64|
                #![trigger host.translates(page)]
                base <= page < base + size && (page - base) % 4096 == 0 ==> host.translates(page)
                    is Some
        },
{
    let count = (size + 0x1F_FFFF) / 0x20_0000;
    let n = pool.len();
    assert(pt_count(size) == count);
    if can_build(host, pool, base, size) {
        assert forall|k: int| n - 3 - count <= k < n - 1 implies host.translates(
            #[trigger] pool[k],
        ) is Some by {
            assert(pool_page(pool, n - 1 - k) == pool[k]);
            if k < n - 3 {
                assert(host.translates(pool_page(pool, 3 + (n - 4 - k))) is Some);
            }
        }
        assert forall|page: u64|
            #![trigger host.translates(page)]
            base <= page < base + size && (page - base) % 4096 == 0 implies host.translates(page)
            is Some by {
            assert(guest_page(base, (page - base) / 4096) == page);
        }
    } else if n >= 3 + count {
        assert(pool_page(pool, 1) == pool[n - 2]);
        assert(pool_page(pool, 2) == pool[n - 3]);
        assert forall|i: int| 0 <= i < count implies pool_page(pool, 3 + i) == #[trigger] pool[n - 4
            - i] by {}
        assert forall|i: int| 0 <= i < size / 4096 implies guest_page(base, i) == base + i
            * 4096 by {}
    }
}

/// The tables in use are the three at the top, the page tables of the guest's memory and
/// the added ones, in this order.
pub proof fn law_tables_in_use(state: PagingState, k: int)
    ensures
        state.tables().len() == 3 + state.pts.len() + state.extra.len(),
        state.tables()[0] == state.pml4,
        state.tables()[1] == state.pdpt,
        state.tables()[2] == state.pd,
        0 <= k < state.pts.len() ==> state.tables()[3 + k] == state.pts[k],
        0 <= k < state.extra.len() ==> state.tables()[3 + state.pts.len() + k]
            == state.extra[k].table,
{
}

} // verus!
