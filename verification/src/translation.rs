//! What the processor reads out of the page tables.
//!
//! The processor sees the tables as words of host-physical memory. [`walk`] is its
//! four-level walk; the laws in this module state where it leads once the contents
//! computed by [`PageTables`](crate::paging::PageTables) are in that memory.

use vstd::prelude::*;

use crate::host::{HostMemory, HostMemoryCell};
use crate::paging;
use crate::paging::{
    EntryFlags, PagingState, TableState, ADDR_MASK, ENTRY_PRESENT, MAX_GUEST_SIZE,
};

verus! {

/// Host-physical memory, as far as tables live there: the 512 words of each page,
/// by the page's address.
pub type TableMemory = Map<u64, Seq<u64>>;

/// One step of the walk: the address in an entry, or `None` where the entry is not
/// in use.
pub open spec fn walk_step(memory: TableMemory, table: u64, index: int) -> Option<u64> {
    let entry = memory[table][index];
    if entry & ENTRY_PRESENT != 0 {
        Some(entry & ADDR_MASK)
    } else {
        None
    }
}

/// The host-physical address that the processor's walk from the top-level table
/// `root` gives to the guest-physical address `gpa`, or `None` where it faults.
pub open spec fn walk(memory: TableMemory, root: u64, gpa: u64) -> Option<u64> {
    match walk_step(memory, root, paging::table_index(gpa, 39)) {
        None => None,
        Some(pdpt) => match walk_step(memory, pdpt, paging::table_index(gpa, 30)) {
            None => None,
            Some(pd) => match walk_step(memory, pd, paging::table_index(gpa, 21)) {
                None => None,
                Some(pt) => match walk_step(memory, pt, paging::table_index(gpa, 12)) {
                    None => None,
                    Some(page) => Some((page + gpa % 4096) as u64),
                },
            },
        },
    }
}

/// Whether a table is in memory at its own host-physical address.
pub open spec fn in_memory<H: HostMemory>(
    host: HostMemoryCell<H>,
    memory: TableMemory,
    table: TableState,
) -> bool {
    host.translates(table.vaddr) matches Some(hpa) && memory[hpa] == table.entries
}

/// Whether all tables of a state are in memory.
pub open spec fn resident<H: HostMemory>(
    host: HostMemoryCell<H>,
    memory: TableMemory,
    state: PagingState,
) -> bool {
    &&& in_memory(host, memory, state.pml4)
    &&& in_memory(host, memory, state.pdpt)
    &&& in_memory(host, memory, state.pd)
    &&& forall|i: int| 0 <= i < state.pts.len() ==> in_memory(host, memory, #[trigger] state.pts[i])
    &&& forall|i: int|
        0 <= i < state.extra.len() ==> in_memory(host, memory, (#[trigger] state.extra[i]).table)
}

/// Whether an address is that of a page frame an entry can hold.
pub open spec fn is_frame(hpa: u64) -> bool {
    hpa & ADDR_MASK == hpa
}

/// Whether flags mark an entry as in use and keep clear of its address bits.
pub open spec fn valid_flags(flags: EntryFlags) -> bool {
    &&& flags.table < 4096
    &&& flags.table & ENTRY_PRESENT != 0
    &&& flags.leaf < 4096
    &&& flags.leaf & ENTRY_PRESENT != 0
}

/// An entry gives back the frame it was made from.
proof fn lemma_entry(hpa: u64, flags: u64)
    requires
        is_frame(hpa),
        flags < 4096,
        flags & ENTRY_PRESENT != 0,
    ensures
        (hpa | flags) & ENTRY_PRESENT != 0,
        (hpa | flags) & ADDR_MASK == hpa,
{
    assert((hpa | flags) & 1 != 0 && (hpa | flags) & 0x000F_FFFF_FFFF_F000 == hpa) by (bit_vector)
        requires
            hpa & 0x000F_FFFF_FFFF_F000 == hpa,
            flags < 4096,
            flags & 1 != 0,
    ;
}

proof fn lemma_zero_entry()
    ensures
        0u64 & ENTRY_PRESENT == 0,
{
    assert(0u64 & 1 == 0) by (bit_vector);
}

/// The indices of an address below 1 GiB, and those of one that is not.
proof fn lemma_low_indices(gpa: u64)
    requires
        gpa < 0x1_0000_0000_0000,
    ensures
        paging::table_index(gpa, 39) == 0 && paging::table_index(gpa, 30) == 0 <==> gpa < 0x4000_0000,
        gpa < 0x4000_0000 ==> paging::table_index(gpa, 21) * 512 + paging::table_index(gpa, 12) == gpa / 4096,
{
    assert((gpa >> 39) & 0x1ff == 0 && (gpa >> 30) & 0x1ff == 0 <==> gpa < 0x4000_0000)
        by (bit_vector)
        requires
            gpa < 0x1_0000_0000_0000,
    ;
    assert(gpa < 0x4000_0000 ==> ((gpa >> 21) & 0x1ff) * 512 + ((gpa >> 12) & 0x1ff) == gpa / 4096)
        by (bit_vector);
}

/// Two addresses are in the same page exactly if all their indices agree.
proof fn lemma_same_page(a: u64, b: u64)
    requires
        a < 0x1_0000_0000_0000,
        b < 0x1_0000_0000_0000,
    ensures
        a / 4096 == b / 4096 <==> (paging::table_index(a, 39) == paging::table_index(b, 39) && paging::table_index(a, 30)
            == paging::table_index(b, 30) && paging::table_index(a, 21) == paging::table_index(b, 21) && paging::table_index(a, 12)
            == paging::table_index(b, 12)),
{
    assert(a / 4096 == b / 4096 <==> ((a >> 39) & 0x1ff == (b >> 39) & 0x1ff && (a >> 30) & 0x1ff
        == (b >> 30) & 0x1ff && (a >> 21) & 0x1ff == (b >> 21) & 0x1ff && (a >> 12) & 0x1ff == (b
        >> 12) & 0x1ff)) by (bit_vector)
        requires
            a < 0x1_0000_0000_0000,
            b < 0x1_0000_0000_0000,
    ;
}

/// Freshly built tables map the guest's memory and nothing else: an address below
/// `size` leads to the host-physical page behind the same offset of the guest's
/// buffer, and any other address faults.
pub proof fn law_guest_memory_is_mapped<H: HostMemory>(
    host: HostMemoryCell<H>,
    flags: EntryFlags,
    pool: Seq<u64>,
    base: u64,
    size: int,
    memory: TableMemory,
    gpa: u64,
)
    requires
        valid_flags(flags),
        0 <= size <= MAX_GUEST_SIZE,
        size % 4096 == 0,
        paging::can_build(host, pool, base, size),
        resident(host, memory, paging::built(host, flags, pool, base, size)),
        forall|k: int|
            0 <= k < 3 + paging::pt_count(size) ==> is_frame(
                (#[trigger] host.translates(paging::pool_page(pool, k)))->0,
            ),
        forall|i: int|
            0 <= i < size / 4096 ==> is_frame((#[trigger] host.translates(paging::guest_page(base, i)))->0),
        gpa < 0x1_0000_0000_0000,
    ensures
        walk(memory, host.translates(paging::pool_page(pool, 0))->0, gpa) == (if gpa < size {
            Some((host.translates((base + (gpa - gpa % 4096)) as u64)->0 + gpa % 4096) as u64)
        } else {
            None
        }),
{
    let state = paging::built(host, flags, pool, base, size);
    let (i4, i3, i2, i1) = (
        paging::table_index(gpa, 39),
        paging::table_index(gpa, 30),
        paging::table_index(gpa, 21),
        paging::table_index(gpa, 12),
    );
    paging::lemma_index_bound(gpa);
    lemma_low_indices(gpa);
    lemma_zero_entry();
    if i4 == 0 {
        lemma_entry(host.translates(paging::pool_page(pool, 1))->0, flags.table);
        if i3 == 0 {
            lemma_entry(host.translates(paging::pool_page(pool, 2))->0, flags.table);
            if i2 < paging::pt_count(size) {
                lemma_entry(host.translates(paging::pool_page(pool, 3 + i2))->0, flags.table);
                let pt = state.pts[i2];
                assert(in_memory(host, memory, pt));
                if gpa < size {
                    let page = host.translates(paging::guest_page(base, i2 * 512 + i1))->0;
                    lemma_entry(page, flags.leaf);
                }
            }
        }
    }
}

/// Which added table serves which part of the address space: the page directory of
/// each GiB and the page table of each 2 MiB, by their indices in the walk.
pub struct Links {
    pub pd: Map<int, int>,
    pub pt: Map<(int, int), int>,
}

/// Whether the top of the tables and the tables of the first GiB refer to each other
/// as they should: one second-level table, one page directory for the first GiB, and
/// below it the page tables of the guest's memory.
pub open spec fn rooted<H: HostMemory>(host: HostMemoryCell<H>, state: PagingState) -> bool {
    &&& state.pml4.entries[0] & ENTRY_PRESENT != 0
    &&& Some(state.pml4.entries[0] & ADDR_MASK) == host.translates(state.pdpt.vaddr)
    &&& forall|i: int|
        1 <= i < 512 ==> (#[trigger] state.pml4.entries[i]) & ENTRY_PRESENT == 0
    &&& state.pdpt.entries.len() == 512
    &&& state.pdpt.entries[0] & ENTRY_PRESENT != 0
    &&& Some(state.pdpt.entries[0] & ADDR_MASK) == host.translates(state.pd.vaddr)
    &&& forall|i: int|
        0 <= i < 512 && (#[trigger] state.pd.entries[i]) & ENTRY_PRESENT != 0 ==> i
            < state.pts.len() && Some(state.pd.entries[i] & ADDR_MASK) == host.translates(
            state.pts[i].vaddr,
        )
}

/// Whether a state's entries refer to its added tables as `links` says: every entry
/// in use leads to the table that serves it, no table serves twice, and no two
/// share a host-physical address.
pub open spec fn linked_by<H: HostMemory>(
    host: HostMemoryCell<H>,
    state: PagingState,
    links: Links,
) -> bool {
    let extra = state.extra;
    &&& rooted(host, state)
    // Every added table is known by its host-physical address, and no two share one.
    &&& forall|k: int|
        #![trigger extra[k]]
        0 <= k < extra.len() ==> {
            &&& is_frame(extra[k].hpa)
            &&& host.translates(extra[k].table.vaddr) == Some(extra[k].hpa)
            &&& extra[k].table.entries.len() == 512
        }
    &&& forall|k: int, l: int|
        #![trigger extra[k], extra[l]]
        0 <= k < extra.len() && 0 <= l < extra.len() && extra[k].hpa == extra[l].hpa ==> k == l
    // Page directories hang below the second-level table.
    &&& forall|g: int|
        #![trigger state.pdpt.entries[g]]
        1 <= g < 512 ==> (links.pd.contains_key(g) <==> state.pdpt.entries[g] & ENTRY_PRESENT != 0)
    &&& forall|g: int| #[trigger]
        links.pd.contains_key(g) ==> {
            &&& 1 <= g < 512
            &&& 0 <= links.pd[g] < extra.len()
            &&& state.pdpt.entries[g] & ADDR_MASK == extra[links.pd[g]].hpa
        }
    // Page tables hang below the page directories.
    &&& forall|g: int, m: int|
        #![trigger extra[links.pd[g]].table.entries[m]]
        links.pd.contains_key(g) && 0 <= m < 512 ==> (links.pt.contains_key((g, m))
            <==> extra[links.pd[g]].table.entries[m] & ENTRY_PRESENT != 0)
    &&& forall|g: int, m: int| #[trigger]
        links.pt.contains_key((g, m)) ==> {
            &&& links.pd.contains_key(g)
            &&& 0 <= m < 512
            &&& 0 <= links.pt[(g, m)] < extra.len()
            &&& extra[links.pd[g]].table.entries[m] & ADDR_MASK == extra[links.pt[(g, m)]].hpa
        }
    // No table serves twice.
    &&& forall|g: int, h: int|
        #![trigger links.pd[g], links.pd[h]]
        links.pd.contains_key(g) && links.pd.contains_key(h) && links.pd[g] == links.pd[h] ==> g
            == h
    &&& forall|p: (int, int), q: (int, int)|
        #![trigger links.pt[p], links.pt[q]]
        links.pt.contains_key(p) && links.pt.contains_key(q) && links.pt[p] == links.pt[q] ==> p
            == q
    &&& forall|g: int, p: (int, int)|
        #![trigger links.pd[g], links.pt[p]]
        links.pd.contains_key(g) && links.pt.contains_key(p) ==> links.pd[g] != links.pt[p]
}

/// Whether a state's entries refer to its added tables in an orderly way.
pub open spec fn linked<H: HostMemory>(host: HostMemoryCell<H>, state: PagingState) -> bool {
    exists|links: Links| linked_by(host, state, links)
}

/// Whether every page of the pool has a frame of its own, which no added table
/// uses.
pub open spec fn fresh<H: HostMemory>(
    host: HostMemoryCell<H>,
    state: PagingState,
    pool: Seq<u64>,
) -> bool {
    &&& forall|k: int|
        #![trigger pool[k]]
        0 <= k < pool.len() ==> host.translates(pool[k]) is Some && is_frame(
            host.translates(pool[k])->0,
        )
    &&& forall|k: int, l: int|
        #![trigger pool[k], pool[l]]
        0 <= k < l < pool.len() ==> host.translates(pool[k]) != host.translates(pool[l])
    &&& forall|k: int, l: int|
        #![trigger pool[k], state.extra[l]]
        0 <= k < pool.len() && 0 <= l < state.extra.len() ==> host.translates(pool[k]) != Some(
            state.extra[l].hpa,
        )
}

/// The page that the added tables map at the given indices.
spec fn lookup(state: PagingState, links: Links, g: int, m: int, n: int) -> Option<u64> {
    if links.pt.contains_key((g, m)) {
        let entry = state.extra[links.pt[(g, m)]].table.entries[n];
        if entry & ENTRY_PRESENT != 0 {
            Some(entry & ADDR_MASK)
        } else {
            None
        }
    } else {
        None
    }
}

/// The page that the tables of the guest's memory map at the given indices.
spec fn low_lookup(state: PagingState, m: int, n: int) -> Option<u64> {
    if state.pd.entries[m] & ENTRY_PRESENT != 0 {
        let entry = state.pts[m].entries[n];
        if entry & ENTRY_PRESENT != 0 {
            Some(entry & ADDR_MASK)
        } else {
            None
        }
    } else {
        None
    }
}

/// The page that the tables map at an address: none from 512 GiB on, that of the
/// guest's memory in the first GiB, and that of the added tables elsewhere.
spec fn page_at(state: PagingState, links: Links, gpa: u64) -> Option<u64> {
    let (i4, g, m, n) = (
        paging::table_index(gpa, 39),
        paging::table_index(gpa, 30),
        paging::table_index(gpa, 21),
        paging::table_index(gpa, 12),
    );
    if i4 != 0 {
        None
    } else if g == 0 {
        low_lookup(state, m, n)
    } else {
        lookup(state, links, g, m, n)
    }
}

/// The walk finds what the tables map.
proof fn lemma_walk<H: HostMemory>(
    host: HostMemoryCell<H>,
    state: PagingState,
    links: Links,
    memory: TableMemory,
    gpa: u64,
)
    requires
        linked_by(host, state, links),
        resident(host, memory, state),
    ensures
        walk(memory, host.translates(state.pml4.vaddr)->0, gpa) == (match page_at(
            state,
            links,
            gpa,
        ) {
            Some(page) => Some((page + gpa % 4096) as u64),
            None => None,
        }),
{
    paging::lemma_index_bound(gpa);
    if paging::table_index(gpa, 39) == 0 {
        if paging::table_index(gpa, 30) == 0 {
            let m = paging::table_index(gpa, 21);
            if state.pd.entries[m] & ENTRY_PRESENT != 0 {
                assert(in_memory(host, memory, state.pts[m]));
            }
        } else {
            lemma_walk_is_lookup(host, state, links, memory, gpa);
        }
    }
}

/// Beyond the first GiB (and below 512 GiB) the walk finds what the added tables
/// map.
proof fn lemma_walk_is_lookup<H: HostMemory>(
    host: HostMemoryCell<H>,
    state: PagingState,
    links: Links,
    memory: TableMemory,
    gpa: u64,
)
    requires
        linked_by(host, state, links),
        resident(host, memory, state),
        paging::table_index(gpa, 39) == 0,
        paging::table_index(gpa, 30) != 0,
    ensures
        walk(memory, host.translates(state.pml4.vaddr)->0, gpa) == (match lookup(
            state,
            links,
            paging::table_index(gpa, 30),
            paging::table_index(gpa, 21),
            paging::table_index(gpa, 12),
        ) {
            Some(page) => Some((page + gpa % 4096) as u64),
            None => None,
        }),
{
    paging::lemma_index_bound(gpa);
    let (g, m, n) = (
        paging::table_index(gpa, 30),
        paging::table_index(gpa, 21),
        paging::table_index(gpa, 12),
    );
    assert(state.pdpt.entries[g] & ENTRY_PRESENT != 0 <==> links.pd.contains_key(g));
    if links.pd.contains_key(g) {
        let pd = state.extra[links.pd[g]];
        assert(in_memory(host, memory, pd.table));
        assert(pd.table.entries[m] & ENTRY_PRESENT != 0 <==> links.pt.contains_key((g, m)));
        if links.pt.contains_key((g, m)) {
            let pt = state.extra[links.pt[(g, m)]];
            assert(in_memory(host, memory, pt.table));
        }
    }
}

/// Among tables with addresses of their own, the one with a given address is found.
proof fn lemma_find_unique(extra: Seq<paging::ExtraTable>, k: int)
    requires
        0 <= k < extra.len(),
        forall|i: int, j: int|
            #![trigger extra[i], extra[j]]
            0 <= i < extra.len() && 0 <= j < extra.len() && extra[i].hpa == extra[j].hpa ==> i == j,
    ensures
        paging::find_extra(extra, extra[k].hpa) == Some(k),
    decreases extra.len(),
{
    let rest = extra.drop_last();
    if k == extra.len() - 1 {
        lemma_find_absent(rest, extra[k].hpa);
    } else {
        assert(rest[k] == extra[k]);
        lemma_find_unique(rest, k);
    }
}

proof fn lemma_find_absent(extra: Seq<paging::ExtraTable>, hpa: u64)
    requires
        forall|i: int| 0 <= i < extra.len() ==> (#[trigger] extra[i]).hpa != hpa,
    ensures
        paging::find_extra(extra, hpa) is None,
    decreases extra.len(),
{
    if extra.len() > 0 {
        let rest = extra.drop_last();
        assert forall|i: int| 0 <= i < rest.len() implies (#[trigger] rest[i]).hpa != hpa by {
            assert(rest[i] == extra[i]);
        }
        lemma_find_absent(rest, hpa);
    }
}

/// The step from the second-level table keeps the links in order and maps nothing
/// new. It leads to the page directory that serves the GiB.
proof fn lemma_first_step<H: HostMemory>(
    host: HostMemoryCell<H>,
    flags: EntryFlags,
    state: PagingState,
    links: Links,
    pool: Seq<u64>,
    g: int,
) -> (after: Links)
    requires
        valid_flags(flags),
        linked_by(host, state, links),
        fresh(host, state, pool),
        1 <= g < 512,
    ensures
        ({
            let step = paging::descend(host, flags, state, pool, None, g);
            &&& linked_by(host, step.state, after)
            &&& fresh(host, step.state, step.pool)
            &&& step.state.pml4 == state.pml4
            &&& step.state.pdpt.vaddr == state.pdpt.vaddr
            &&& step.state.pdpt.entries[0] == state.pdpt.entries[0]
            &&& step.state.pd == state.pd
            &&& step.state.pts == state.pts
            &&& step.child matches Some(k) ==> after.pd.contains_key(g) && after.pd[g] == k
            &&& step.child is None ==> pool.len() == 0
            &&& step.pool.len() + 1 >= pool.len()
            &&& forall|a: int, b: int, c: int|
                0 <= b < 512 && 0 <= c < 512 ==> lookup(step.state, after, a, b, c) == lookup(
                    state,
                    links,
                    a,
                    b,
                    c,
                )
        }),
{
    let entry = state.pdpt.entries[g];
    let step = paging::descend(host, flags, state, pool, None, g);
    if entry & ENTRY_PRESENT != 0 {
        assert(links.pd.contains_key(g));
        lemma_find_unique(state.extra, links.pd[g]);
        links
    } else if pool.len() == 0 {
        links
    } else {
        assert(pool.last() == pool[pool.len() - 1]);
        let hpa = host.translates(pool.last())->0;
        lemma_entry(hpa, flags.table);
        lemma_zero_entry();
        let n = state.extra.len() as int;
        let after = Links { pd: links.pd.insert(g, n), pt: links.pt };
        assert forall|k: int, l: int|
            #![trigger step.pool[k], step.state.extra[l]]
            0 <= k < step.pool.len() && 0 <= l < step.state.extra.len() implies host.translates(
            step.pool[k],
        ) != Some(step.state.extra[l].hpa) by {
            assert(step.pool[k] == pool[k]);
            if l < n {
                assert(step.state.extra[l] == state.extra[l]);
            }
        }
        assert forall|k: int|
            0 <= k < step.pool.len() implies #[trigger] step.pool[k] == pool[k] by {}
        assert forall|k: int| 0 <= k < n implies #[trigger] step.state.extra[k] == state.extra[k] by {}
        assert(step.state.extra[n].hpa == hpa);
        assert(!links.pd.contains_key(g));
        assert forall|m: int| !links.pt.contains_key((g, m)) by {}
        assert forall|h: int, p: (int, int)|
            #![trigger after.pd[h], after.pt[p]]
            after.pd.contains_key(h) && after.pt.contains_key(p) implies after.pd[h]
            != after.pt[p] by {
            assert(links.pt.contains_key((p.0, p.1)));
        }
        after
    }
}

/// The step from a page directory keeps the links in order and maps nothing new. It
/// leads to the page table that serves the 2 MiB.
proof fn lemma_second_step<H: HostMemory>(
    host: HostMemoryCell<H>,
    flags: EntryFlags,
    state: PagingState,
    links: Links,
    pool: Seq<u64>,
    g: int,
    m: int,
) -> (after: Links)
    requires
        valid_flags(flags),
        linked_by(host, state, links),
        fresh(host, state, pool),
        links.pd.contains_key(g),
        0 <= m < 512,
    ensures
        ({
            let step = paging::descend(host, flags, state, pool, Some(links.pd[g]), m);
            &&& linked_by(host, step.state, after)
            &&& fresh(host, step.state, step.pool)
            &&& step.state.pml4 == state.pml4
            &&& step.state.pdpt == state.pdpt
            &&& step.state.pd == state.pd
            &&& step.state.pts == state.pts
            &&& step.child matches Some(k) ==> after.pt.contains_key((g, m)) && after.pt[(g, m)] == k
            &&& step.child is None ==> pool.len() == 0
            &&& step.pool.len() + 1 >= pool.len()
            &&& forall|a: int, b: int, c: int|
                0 <= b < 512 && 0 <= c < 512 ==> lookup(step.state, after, a, b, c) == lookup(
                    state,
                    links,
                    a,
                    b,
                    c,
                )
        }),
{
    let pd = links.pd[g];
    let entry = state.extra[pd].table.entries[m];
    let step = paging::descend(host, flags, state, pool, Some(pd), m);
    if entry & ENTRY_PRESENT != 0 {
        assert(links.pt.contains_key((g, m)));
        lemma_find_unique(state.extra, links.pt[(g, m)]);
        links
    } else if pool.len() == 0 {
        links
    } else {
        assert(pool.last() == pool[pool.len() - 1]);
        let hpa = host.translates(pool.last())->0;
        lemma_entry(hpa, flags.table);
        lemma_zero_entry();
        let n = state.extra.len() as int;
        let after = Links { pd: links.pd, pt: links.pt.insert((g, m), n) };
        assert forall|k: int|
            0 <= k < step.pool.len() implies #[trigger] step.pool[k] == pool[k] by {}
        assert forall|k: int| 0 <= k < n implies {
            let now = #[trigger] step.state.extra[k];
            &&& now.hpa == state.extra[k].hpa
            &&& now.table.vaddr == state.extra[k].table.vaddr
            &&& k != pd ==> now == state.extra[k]
            &&& k == pd ==> now.table.entries == state.extra[k].table.entries.update(
                m,
                hpa | flags.table,
            )
        } by {}
        assert(step.state.extra[n].hpa == hpa);
        assert forall|k: int, l: int|
            #![trigger step.pool[k], step.state.extra[l]]
            0 <= k < step.pool.len() && 0 <= l < step.state.extra.len() implies host.translates(
            step.pool[k],
        ) != Some(step.state.extra[l].hpa) by {
            assert(step.pool[k] == pool[k]);
            if l < n {
                assert(step.state.extra[l].hpa == state.extra[l].hpa);
            }
        }
        assert(!links.pt.contains_key((g, m)));
        assert forall|h: int, p: (int, int)|
            #![trigger after.pd[h], after.pt[p]]
            after.pd.contains_key(h) && after.pt.contains_key(p) implies after.pd[h]
            != after.pt[p] by {
            if p != (g, m) {
                assert(links.pt.contains_key((p.0, p.1)));
            }
        }
        assert forall|p: (int, int), q: (int, int)|
            #![trigger after.pt[p], after.pt[q]]
            after.pt.contains_key(p) && after.pt.contains_key(q) && after.pt[p]
                == after.pt[q] implies p == q by {
            if p != (g, m) {
                assert(links.pt.contains_key((p.0, p.1)));
            }
            if q != (g, m) {
                assert(links.pt.contains_key((q.0, q.1)));
            }
        }
        after
    }
}

/// Freshly built tables are in order, and what is left of a pool of distinct frames
/// is as fresh as before.
pub proof fn law_new_tables_are_linked<H: HostMemory>(
    host: HostMemoryCell<H>,
    flags: EntryFlags,
    pool: Seq<u64>,
    base: u64,
    size: int,
)
    requires
        valid_flags(flags),
        0 <= size <= MAX_GUEST_SIZE,
        paging::can_build(host, pool, base, size),
        fresh(host, paging::built(host, flags, pool, base, size), pool),
    ensures
        linked(host, paging::built(host, flags, pool, base, size)),
        fresh(
            host,
            paging::built(host, flags, pool, base, size),
            pool.take(pool.len() - 3 - paging::pt_count(size)),
        ),
{
    let rest = pool.take(pool.len() - 3 - paging::pt_count(size));
    assert forall|k: int| 0 <= k < rest.len() implies #[trigger] rest[k] == pool[k] by {}
    lemma_built_links(host, flags, pool, base, size);
}

/// Freshly built tables have no added tables.
proof fn lemma_built_links<H: HostMemory>(
    host: HostMemoryCell<H>,
    flags: EntryFlags,
    pool: Seq<u64>,
    base: u64,
    size: int,
)
    requires
        valid_flags(flags),
        0 <= size <= MAX_GUEST_SIZE,
        paging::can_build(host, pool, base, size),
        fresh(host, paging::built(host, flags, pool, base, size), pool),
    ensures
        linked_by(
            host,
            paging::built(host, flags, pool, base, size),
            Links { pd: Map::empty(), pt: Map::empty() },
        ),
{
    let state = paging::built(host, flags, pool, base, size);
    lemma_zero_entry();
    assert(paging::pool_page(pool, 1) == pool[pool.len() - 2]);
    assert(paging::pool_page(pool, 2) == pool[pool.len() - 3]);
    lemma_entry(host.translates(paging::pool_page(pool, 1))->0, flags.table);
    lemma_entry(host.translates(paging::pool_page(pool, 2))->0, flags.table);
    assert forall|i: int|
        0 <= i < 512 && (#[trigger] state.pd.entries[i]) & ENTRY_PRESENT != 0 implies i
        < state.pts.len() && Some(state.pd.entries[i] & ADDR_MASK) == host.translates(
        state.pts[i].vaddr,
    ) by {
        if i < paging::pt_count(size) {
            assert(paging::pool_page(pool, 3 + i) == pool[pool.len() - 4 - i]);
            lemma_entry(host.translates(paging::pool_page(pool, 3 + i))->0, flags.table);
        }
    }
}

/// Mapping a page beyond the first GiB (below 512 GiB) does what it says and nothing
/// else. With two fresh pages to spare it succeeds. After it the walk leads from every
/// address of the page to the same offset of the frame; every other address leads
/// where it led before, and so do all of them where the mapping failed. The tables
/// stay in order, so the next mapping finds what this one found.
pub proof fn law_map_page<H: HostMemory>(
    host: HostMemoryCell<H>,
    flags: EntryFlags,
    state: PagingState,
    pool: Seq<u64>,
    gpa: u64,
    hpa: u64,
    before: TableMemory,
    after: TableMemory,
    address: u64,
)
    requires
        valid_flags(flags),
        linked(host, state),
        fresh(host, state, pool),
        is_frame(hpa),
        0x4000_0000 <= gpa < 0x80_0000_0000,
        address < 0x1_0000_0000_0000,
        resident(host, before, state),
        resident(host, after, paging::mapping(host, flags, state, pool, gpa, hpa).state),
    ensures
        ({
            let made = paging::mapping(host, flags, state, pool, gpa, hpa);
            let root = host.translates(state.pml4.vaddr)->0;
            &&& made.state.pml4 == state.pml4
            &&& linked(host, made.state)
            &&& fresh(host, made.state, made.pool)
            &&& pool.len() >= 2 ==> made.ok
            &&& made.pool.len() + 2 >= pool.len()
            &&& walk(after, root, address) == (if made.ok && address / 4096 == gpa / 4096 {
                Some((hpa + address % 4096) as u64)
            } else {
                walk(before, root, address)
            })
        }),
{
    let links = choose|links: Links| linked_by(host, state, links);
    let made = paging::mapping(host, flags, state, pool, gpa, hpa);
    let after_links = lemma_mapping(host, flags, state, links, pool, gpa, hpa);
    lemma_walk(host, state, links, before, address);
    lemma_walk(host, made.state, after_links, after, address);
}

/// Mapping a page keeps the links in order and changes what is mapped at that page
/// only.
proof fn lemma_mapping<H: HostMemory>(
    host: HostMemoryCell<H>,
    flags: EntryFlags,
    state: PagingState,
    links: Links,
    pool: Seq<u64>,
    gpa: u64,
    hpa: u64,
) -> (after: Links)
    requires
        valid_flags(flags),
        linked_by(host, state, links),
        fresh(host, state, pool),
        is_frame(hpa),
        0x4000_0000 <= gpa < 0x80_0000_0000,
    ensures
        ({
            let made = paging::mapping(host, flags, state, pool, gpa, hpa);
            &&& made.state.pml4 == state.pml4
            &&& linked_by(host, made.state, after)
            &&& fresh(host, made.state, made.pool)
            &&& pool.len() >= 2 ==> made.ok
            &&& made.pool.len() + 2 >= pool.len()
            &&& forall|address: u64|
                address < 0x1_0000_0000_0000 ==> #[trigger] page_at(made.state, after, address) == (
                if made.ok && address / 4096 == gpa / 4096 {
                    Some(hpa)
                } else {
                    page_at(state, links, address)
                })
        }),
{
    let made = paging::mapping(host, flags, state, pool, gpa, hpa);
    let (g, m, n) = (
        paging::table_index(gpa, 30),
        paging::table_index(gpa, 21),
        paging::table_index(gpa, 12),
    );
    paging::lemma_index_bound(gpa);
    lemma_low_indices(gpa);
    lemma_mmio_indices(gpa);
    let first = paging::descend(host, flags, state, pool, None, g);
    let one = lemma_first_step(host, flags, state, links, pool, g);
    let after = match first.child {
        None => one,
        Some(pd) => {
            let second = paging::descend(host, flags, first.state, first.pool, Some(pd), m);
            let two = lemma_second_step(host, flags, first.state, one, first.pool, g, m);
            match second.child {
                None => two,
                Some(pt) => {
                    lemma_entry(hpa, flags.leaf);
                    lemma_leaf(host, second.state, two, g, m, n, hpa | flags.leaf);
                    two
                },
            }
        },
    };
    assert(linked_by(host, made.state, after));
    assert forall|address: u64|
        address < 0x1_0000_0000_0000 implies #[trigger] page_at(made.state, after, address) == (
    if made.ok && address / 4096 == gpa / 4096 {
        Some(hpa)
    } else {
        page_at(state, links, address)
    }) by {
        paging::lemma_index_bound(address);
        lemma_same_page(gpa, address);
    }
    after
}

/// An address below 512 GiB is served by the first top-level entry.
proof fn lemma_mmio_indices(gpa: u64)
    requires
        gpa < 0x80_0000_0000,
    ensures
        paging::table_index(gpa, 39) == 0,
{
    assert((gpa >> 39) & 0x1ff == 0) by (bit_vector)
        requires
            gpa < 0x80_0000_0000,
    ;
}

/// Setting an entry of a page table maps one page and keeps the links in order.
proof fn lemma_leaf<H: HostMemory>(
    host: HostMemoryCell<H>,
    state: PagingState,
    links: Links,
    g: int,
    m: int,
    n: int,
    entry: u64,
)
    requires
        linked_by(host, state, links),
        links.pt.contains_key((g, m)),
        0 <= n < 512,
        entry & ENTRY_PRESENT != 0,
    ensures
        ({
            let made = state.with_entry(Some(links.pt[(g, m)]), n, entry);
            &&& linked_by(host, made, links)
            &&& forall|pool: Seq<u64>|
                fresh(host, state, pool) ==> #[trigger] fresh(host, made, pool)
            &&& forall|a: int, b: int, c: int|
                0 <= b < 512 && 0 <= c < 512 ==> lookup(made, links, a, b, c) == (if a == g && b
                    == m && c == n {
                    Some(entry & ADDR_MASK)
                } else {
                    lookup(state, links, a, b, c)
                })
        }),
{
    let k = links.pt[(g, m)];
    let made = state.with_entry(Some(k), n, entry);
    assert forall|l: int| 0 <= l < state.extra.len() implies {
        let now = #[trigger] made.extra[l];
        &&& now.hpa == state.extra[l].hpa
        &&& now.table.vaddr == state.extra[l].table.vaddr
        &&& l != k ==> now == state.extra[l]
        &&& l == k ==> now.table.entries == state.extra[l].table.entries.update(n, entry)
    } by {}
    assert(links.pd.contains_key(g));
    assert(made.extra.len() == state.extra.len());
    assert forall|h: int, b: int|
        #![trigger made.extra[links.pd[h]].table.entries[b]]
        links.pd.contains_key(h) && 0 <= b < 512 implies (links.pt.contains_key((h, b))
        <==> made.extra[links.pd[h]].table.entries[b] & ENTRY_PRESENT != 0) by {
        assert(links.pd[h] != links.pt[(g, m)]);
        assert(made.extra[links.pd[h]] == state.extra[links.pd[h]]);
    }
    assert forall|h: int, b: int| #[trigger] links.pt.contains_key((h, b)) implies {
        &&& links.pd.contains_key(h)
        &&& 0 <= b < 512
        &&& 0 <= links.pt[(h, b)] < made.extra.len()
        &&& made.extra[links.pd[h]].table.entries[b] & ADDR_MASK == made.extra[links.pt[(h, b)]].hpa
    } by {
        assert(links.pd[h] != links.pt[(g, m)]);
        assert(made.extra[links.pd[h]] == state.extra[links.pd[h]]);
    }
    assert(linked_by(host, made, links));
    assert forall|pool: Seq<u64>|
        fresh(host, state, pool) implies #[trigger] fresh(host, made, pool) by {
        assert forall|i: int, l: int|
            #![trigger pool[i], made.extra[l]]
            0 <= i < pool.len() && 0 <= l < made.extra.len() implies host.translates(pool[i])
            != Some(made.extra[l].hpa) by {
            assert(made.extra[l].hpa == state.extra[l].hpa);
        }
    }
    assert forall|a: int, b: int, c: int|
        0 <= b < 512 && 0 <= c < 512 implies lookup(made, links, a, b, c) == (if a == g && b == m
        && c == n {
        Some(entry & ADDR_MASK)
    } else {
        lookup(state, links, a, b, c)
    }) by {
        if links.pt.contains_key((a, b)) && (a, b) != (g, m) {
            assert(links.pt[(a, b)] != links.pt[(g, m)]);
        }
    }
}

/// What freshly built tables map: the guest's memory.
proof fn lemma_page_of_built<H: HostMemory>(
    host: HostMemoryCell<H>,
    flags: EntryFlags,
    pool: Seq<u64>,
    base: u64,
    size: int,
    links: Links,
    gpa: u64,
)
    requires
        valid_flags(flags),
        0 <= size <= MAX_GUEST_SIZE,
        size % 4096 == 0,
        paging::can_build(host, pool, base, size),
        forall|k: int|
            0 <= k < 3 + paging::pt_count(size) ==> is_frame(
                (#[trigger] host.translates(paging::pool_page(pool, k)))->0,
            ),
        forall|i: int|
            0 <= i < size / 4096 ==> is_frame(
                (#[trigger] host.translates(paging::guest_page(base, i)))->0,
            ),
        gpa < 0x1_0000_0000_0000,
        links.pt == Map::<(int, int), int>::empty(),
    ensures
        page_at(paging::built(host, flags, pool, base, size), links, gpa) == (if gpa < size {
            host.translates(paging::guest_page(base, gpa as int / 4096))
        } else {
            None
        }),
{
    let state = paging::built(host, flags, pool, base, size);
    let (i2, i1) = (paging::table_index(gpa, 21), paging::table_index(gpa, 12));
    paging::lemma_index_bound(gpa);
    lemma_low_indices(gpa);
    lemma_zero_entry();
    if gpa < 0x4000_0000 && i2 < paging::pt_count(size) {
        lemma_entry(host.translates(paging::pool_page(pool, 3 + i2))->0, flags.table);
        if gpa < size {
            lemma_entry(
                host.translates(paging::guest_page(base, i2 * 512 + i1))->0,
                flags.leaf,
            );
        }
    }
}

/// Tables built for a guest's memory, with two MMIO pages mapped into them, map that
/// memory, those two pages and nothing else. Both mappings succeed with four fresh
/// pages to spare.
pub proof fn law_guest_memory_and_two_pages<H: HostMemory>(
    host: HostMemoryCell<H>,
    flags: EntryFlags,
    pool: Seq<u64>,
    base: u64,
    size: int,
    rest: Seq<u64>,
    first: (u64, u64),
    second: (u64, u64),
)
    requires
        valid_flags(flags),
        0 <= size <= MAX_GUEST_SIZE,
        size % 4096 == 0,
        paging::can_build(host, pool, base, size),
        forall|i: int|
            0 <= i < size / 4096 ==> is_frame(
                (#[trigger] host.translates(paging::guest_page(base, i)))->0,
            ),
        fresh(host, paging::built(host, flags, pool, base, size), pool),
        fresh(host, paging::built(host, flags, pool, base, size), rest),
        0x4000_0000 <= first.0 < 0x80_0000_0000,
        0x4000_0000 <= second.0 < 0x80_0000_0000,
        first.0 / 4096 != second.0 / 4096,
        is_frame(first.1),
        is_frame(second.1),
    ensures
        ({
            let state = paging::built(host, flags, pool, base, size);
            let one = paging::mapping(host, flags, state, rest, first.0, first.1);
            let two = paging::mapping(host, flags, one.state, one.pool, second.0, second.1);
            &&& rest.len() >= 4 ==> one.ok && two.ok
            &&& two.state.pml4 == state.pml4
            &&& one.ok && two.ok ==> {
                &&& linked(host, two.state)
                &&& fresh(host, two.state, two.pool)
                &&& forall|memory: TableMemory, address: u64|
                    #![trigger walk(memory, host.translates(state.pml4.vaddr)->0, address)]
                    resident(host, memory, two.state) && address < 0x1_0000_0000_0000 ==> walk(
                        memory,
                        host.translates(state.pml4.vaddr)->0,
                        address,
                    ) == (if address < size {
                        Some(
                            (host.translates((base + (address - address % 4096)) as u64)->0
                                + address % 4096) as u64,
                        )
                    } else if address / 4096 == first.0 / 4096 {
                        Some((first.1 + address % 4096) as u64)
                    } else if address / 4096 == second.0 / 4096 {
                        Some((second.1 + address % 4096) as u64)
                    } else {
                        None
                    })
            }
        }),
{
    let state = paging::built(host, flags, pool, base, size);
    law_new_tables_are_linked(host, flags, pool, base, size);
    let links = Links { pd: Map::empty(), pt: Map::empty() };
    lemma_built_links(host, flags, pool, base, size);
    let one = paging::mapping(host, flags, state, rest, first.0, first.1);
    let two = paging::mapping(host, flags, one.state, one.pool, second.0, second.1);
    let links_one = lemma_mapping(host, flags, state, links, rest, first.0, first.1);
    let links_two = lemma_mapping(
        host,
        flags,
        one.state,
        links_one,
        one.pool,
        second.0,
        second.1,
    );
    assert(linked_by(host, two.state, links_two));
    if one.ok && two.ok {
        assert forall|k: int| 0 <= k < 3 + paging::pt_count(size) implies is_frame(
            (#[trigger] host.translates(paging::pool_page(pool, k)))->0,
        ) by {
            assert(paging::pool_page(pool, k) == pool[pool.len() - 1 - k]);
        }
        assert forall|memory: TableMemory, address: u64|
            #![trigger walk(memory, host.translates(state.pml4.vaddr)->0, address)]
            resident(host, memory, two.state) && address < 0x1_0000_0000_0000 implies walk(
            memory,
            host.translates(state.pml4.vaddr)->0,
            address,
        ) == (if address < size {
            Some(
                (host.translates(paging::guest_page(base, address as int / 4096))->0 + address
                    % 4096) as u64,
            )
        } else if address / 4096 == first.0 / 4096 {
            Some((first.1 + address % 4096) as u64)
        } else if address / 4096 == second.0 / 4096 {
            Some((second.1 + address % 4096) as u64)
        } else {
            None
        }) by {
            lemma_walk(host, two.state, links_two, memory, address);
            lemma_page_of_built(host, flags, pool, base, size, links, address);
            assert(page_at(two.state, links_two, address) == (if address / 4096 == second.0 / 4096 {
                Some(second.1)
            } else {
                page_at(one.state, links_one, address)
            }));
            assert(page_at(one.state, links_one, address) == (if address / 4096 == first.0 / 4096 {
                Some(first.1)
            } else {
                page_at(state, links, address)
            }));
        }
    }
}

/// The walk reads the bits that the processor does. An entry is in use exactly if its
/// lowest bit is set, and then leads to the page whose number is in bits 51:12; the
/// entries are selected by the nine-bit digits of the address, from the top down.
pub proof fn law_walk_reads_the_entries(memory: TableMemory, root: u64, gpa: u64)
    ensures
        ({
            let first = memory[root][(gpa / 0x80_0000_0000 % 512) as int];
            let pdpt = (first / 4096 % 0x100_0000_0000 * 4096) as u64;
            let second = memory[pdpt][(gpa / 0x4000_0000 % 512) as int];
            let pd = (second / 4096 % 0x100_0000_0000 * 4096) as u64;
            let third = memory[pd][(gpa / 0x20_0000 % 512) as int];
            let pt = (third / 4096 % 0x100_0000_0000 * 4096) as u64;
            let fourth = memory[pt][(gpa / 0x1000 % 512) as int];
            let page = fourth / 4096 % 0x100_0000_0000 * 4096;
            walk(memory, root, gpa) == (if first % 2 == 1 && second % 2 == 1 && third % 2 == 1
                && fourth % 2 == 1 {
                Some((page + gpa % 4096) as u64)
            } else {
                None
            })
        }),
{
    paging::law_table_indices(gpa);
    let first = memory[root][(gpa / 0x80_0000_0000 % 512) as int];
    let pdpt = (first / 4096 % 0x100_0000_0000 * 4096) as u64;
    let second = memory[pdpt][(gpa / 0x4000_0000 % 512) as int];
    let pd = (second / 4096 % 0x100_0000_0000 * 4096) as u64;
    let third = memory[pd][(gpa / 0x20_0000 % 512) as int];
    let pt = (third / 4096 % 0x100_0000_0000 * 4096) as u64;
    let fourth = memory[pt][(gpa / 0x1000 % 512) as int];
    lemma_entry_bits(first);
    lemma_entry_bits(second);
    lemma_entry_bits(third);
    lemma_entry_bits(fourth);
}

/// A frame's address is a multiple of the page size below 2^52, and any such multiple is
/// one.
pub proof fn law_frames(hpa: u64)
    ensures
        is_frame(hpa) <==> hpa % 4096 == 0 && hpa < 0x10_0000_0000_0000,
{
    lemma_entry_bits(hpa);
}

proof fn lemma_entry_bits(entry: u64)
    ensures
        entry & ENTRY_PRESENT == entry % 2,
        entry & ADDR_MASK == entry / 4096 % 0x100_0000_0000 * 4096,
{
    assert(entry & 1 == entry % 2 && entry & 0x000F_FFFF_FFFF_F000 == entry / 4096
        % 0x100_0000_0000 * 4096) by (bit_vector);
}

} // verus!
