//! Virtual machines.

use vstd::prelude::*;

use crate::backend::VcpuBackend;
use crate::cpu::HypervisorExtension;
use crate::error::HypervisorError;
use crate::host::{HostMemory, HostMemoryCell};
use crate::paging;
use crate::paging::{Area, EntryFlags, PagePool, PagingState, Table, MAX_GUEST_SIZE};
use crate::svm::npt;
use crate::svm::npt::Npt;
use crate::translation;
use crate::translation::TableMemory;
use crate::vcpu;
use crate::vcpu::{Cpu, CpuConfig, Processor, VCpu, VmId};
use crate::vmx::ept;
use crate::vmx::ept::{Ept, NestedPaging, Page};

verus! {

/// Guest-physical base of the local APIC MMIO (default `IA32_APIC_BASE`).
pub const LAPIC_BASE: u64 = 0xFEE0_0000;

/// Guest-physical base of the I/O APIC MMIO.
pub const IOAPIC_BASE: u64 = 0xFEC0_0000;

/// Configuration describing a virtual machine's guest memory.
#[derive(Debug, Clone, Copy, PartialEq, Eq)]
pub struct VmConfig {
    /// Host-virtual base address of the guest memory buffer; its offsets are the
    /// guest-physical addresses.
    pub guest_base: u64,
    /// Size of the guest memory buffer in bytes.
    pub guest_size: usize,
}

impl VmConfig {
    /// Whether nested paging can describe the guest memory: page-aligned, a multiple
    /// of the page size and at most 1 GiB.
    pub open spec fn valid(self) -> bool {
        &&& self.guest_base % 4096 == 0
        &&& self.guest_size % 4096 == 0
        &&& self.guest_size <= MAX_GUEST_SIZE
        &&& self.guest_base + self.guest_size <= u64::MAX
    }

    /// Tells whether nested paging can describe the guest memory.
    pub fn is_valid(&self) -> (valid: bool)
        ensures
            valid == self.valid(),
    {
        self.guest_base % 4096 == 0 && self.guest_size % 4096 == 0 && self.guest_size
            <= MAX_GUEST_SIZE && self.guest_base <= u64::MAX - self.guest_size as u64
    }
}

/// The nested page tables of a virtual machine, in the format of the processor's
/// extension.
pub enum Paging {
    Ept(Ept),
    Npt(Npt),
}

/// The bits of the entries of an extension's nested page tables.
pub open spec fn flags_of(extension: HypervisorExtension) -> EntryFlags {
    match extension {
        HypervisorExtension::Vmx => ept::ept_flags(),
        HypervisorExtension::Svm => npt::npt_flags(),
    }
}

/// The bits of the pointer to an extension's nested page tables.
pub open spec fn pointer_bits_of(extension: HypervisorExtension) -> u64 {
    match extension {
        HypervisorExtension::Vmx => ept::EPT_WALK_LENGTH_4 | ept::EPT_POINTER_MEMORY_TYPE_WB,
        HypervisorExtension::Svm => 0,
    }
}

impl Paging {
    /// Builds the tables that map the guest memory.
    fn new<H: HostMemory>(
        host: &HostMemoryCell<H>,
        pool: &mut PagePool,
        extension: HypervisorExtension,
        config: VmConfig,
    ) -> (paging: Result<Self, HypervisorError>)
        requires
            host.registered() is Some,
            config.valid(),
        ensures
            ({
                let (base, size) = (config.guest_base, config.guest_size as int);
                &&& paging::can_build(*host, old(pool)@, base, size) ==> {
                    &&& paging matches Ok(p) && p.contents() == paging::built(
                        *host,
                        flags_of(extension),
                        old(pool)@,
                        base,
                        size,
                    ) && p.entry_flags() == flags_of(extension) && p.pointer_bits()
                        == pointer_bits_of(extension)
                    &&& final(pool)@ == old(pool)@.take(
                        old(pool)@.len() - 3 - paging::pt_count(size),
                    )
                }
                &&& !paging::can_build(*host, old(pool)@, base, size) ==> {
                    &&& paging matches Err(e) && e == HypervisorError::AllocationFailed
                    &&& final(pool)@ == old(pool)@
                }
            }),
    {
        match extension {
            HypervisorExtension::Vmx => match Ept::new(
                host,
                pool,
                config.guest_base,
                config.guest_size,
            ) {
                Ok(ept) => Ok(Paging::Ept(ept)),
                Err(error) => Err(error),
            },
            HypervisorExtension::Svm => match Npt::new(
                host,
                pool,
                config.guest_base,
                config.guest_size,
            ) {
                Ok(npt) => Ok(Paging::Npt(npt)),
                Err(error) => Err(error),
            },
        }
    }

    /// The `k`-th table in use, for the embedder to copy to its page.
    fn table(&self, k: usize) -> (table: Option<&Table>)
        ensures
            k < self.contents().tables().len() ==> (table matches Some(t) && t@
                == self.contents().tables()[k as int]),
            k >= self.contents().tables().len() ==> table is None,
    {
        match self {
            Paging::Ept(ept) => ept.table(k),
            Paging::Npt(npt) => npt.table(k),
        }
    }
}

impl NestedPaging for Paging {
    open spec fn contents(&self) -> PagingState {
        match self {
            Paging::Ept(ept) => ept.contents(),
            Paging::Npt(npt) => npt.contents(),
        }
    }

    open spec fn entry_flags(&self) -> EntryFlags {
        match self {
            Paging::Ept(ept) => ept.entry_flags(),
            Paging::Npt(npt) => npt.entry_flags(),
        }
    }

    open spec fn pointer_bits(&self) -> u64 {
        match self {
            Paging::Ept(ept) => ept.pointer_bits(),
            Paging::Npt(npt) => npt.pointer_bits(),
        }
    }

    fn pointer<H: HostMemory>(&self, host: &HostMemoryCell<H>) -> (pointer: Result<
        u64,
        HypervisorError,
    >) {
        match self {
            Paging::Ept(ept) => ept.pointer(host),
            Paging::Npt(npt) => npt.pointer(host),
        }
    }

    fn map_mmio<H: HostMemory>(
        &mut self,
        host: &HostMemoryCell<H>,
        pool: &mut PagePool,
        gpa: u64,
        hpa: u64,
    ) -> (done: Result<(), HypervisorError>) {
        match self {
            Paging::Ept(ept) => ept.map_mmio(host, pool, gpa, hpa),
            Paging::Npt(npt) => npt.map_mmio(host, pool, gpa, hpa),
        }
    }
}

/// The guest-physical address space of a new virtual machine.
pub struct Layout {
    /// The nested page tables.
    pub tables: PagingState,
    /// The page behind the local APIC.
    pub apic: Area,
    /// The page behind the I/O APIC.
    pub ioapic: Area,
    /// What is left of the pool.
    pub pool: Seq<u64>,
}

/// The address space made from the pages of a pool: tables that map the guest memory,
/// then two pages for the APICs, which are mapped with the pages that come after
/// them. `None` where the pool or the host's translation does not have what it takes.
pub open spec fn layout<H: HostMemory>(
    host: HostMemoryCell<H>,
    flags: EntryFlags,
    pool: Seq<u64>,
    config: VmConfig,
) -> Option<Layout> {
    let size = config.guest_size as int;
    let built = paging::built(host, flags, pool, config.guest_base, size);
    let left = pool.take(pool.len() - 3 - paging::pt_count(size));
    let (apic, ioapic) = (paging::area(host, left, 0), paging::area(host, left, 1));
    let rest = left.take(left.len() - 2);
    let one = paging::mapping(host, flags, built, rest, LAPIC_BASE, apic.hpa);
    let two = paging::mapping(host, flags, one.state, one.pool, IOAPIC_BASE, ioapic.hpa);
    if paging::can_build(host, pool, config.guest_base, size) && left.len() >= 2
        && host.translates(apic.vaddr) is Some && host.translates(ioapic.vaddr) is Some && one.ok
        && two.ok {
        Some(Layout { tables: two.state, apic, ioapic, pool: two.pool })
    } else {
        None
    }
}

/// A virtual machine: the guest's physical address space plus the set of virtual CPUs
/// that execute within it.
///
/// The nested page tables are built once and owned here; every [`Cpu`] of this VM
/// shares them through the nested-paging pointer ([`NestedPaging::pointer`]). This is
/// what lets a single VM manage several vCPUs over one guest-physical address space,
/// regardless of the active backend.
pub struct Vm {
    /// Id of the virtual machine instance.
    id: VmId,
    /// The processor the virtual machine runs on.
    processor: Processor,
    /// Nested page tables mapping the guest-physical address space, shared by all
    /// vCPUs of this VM.
    paging: Paging,
    /// APIC-access page for hardware APIC virtualization, mapped at [`LAPIC_BASE`] in
    /// the guest.
    apic_access_page: Page,
    /// Dummy page backing the (not yet emulated) I/O APIC MMIO, so guest accesses do
    /// not fault.
    ioapic_page: Page,
    /// Host-physical address of the APIC-access page, handed to each vCPU.
    apic_access_hpa: u64,
    /// The virtual CPUs managed by this VM.
    cpus: Vec<Cpu>,
}

/// What a virtual machine is made of.
#[verifier::ext_equal]
pub struct VmState {
    pub id: VmId,
    pub processor: Processor,
    pub tables: PagingState,
    /// The bits of the entries of the tables, besides the address.
    pub flags: EntryFlags,
    /// The bits of the pointer to the tables, besides the address.
    pub pointer_bits: u64,
    pub apic_page: u64,
    pub ioapic_page: u64,
    pub apic_access_hpa: u64,
    pub cpus: Seq<Cpu>,
}

impl View for Vm {
    type V = VmState;

    closed spec fn view(&self) -> VmState {
        VmState {
            id: self.id,
            processor: self.processor,
            tables: self.paging.contents(),
            flags: self.paging.entry_flags(),
            pointer_bits: self.paging.pointer_bits(),
            apic_page: self.apic_access_page.address(),
            ioapic_page: self.ioapic_page.address(),
            apic_access_hpa: self.apic_access_hpa,
            cpus: self.cpus@,
        }
    }
}

/// A virtual machine that can be created from a configuration.
pub trait VirtualMachine: Sized {
    /// What a virtual machine is configured with.
    type Config;

    /// Whether a configuration is one a virtual machine can be created from.
    spec fn accepts(config: Self::Config) -> bool;

    /// Creates a virtual machine on the given processor, with pages from the pool.
    fn new<H: HostMemory>(
        host: &HostMemoryCell<H>,
        pool: &mut PagePool,
        processor: Processor,
        vm_id: VmId,
        config: Self::Config,
    ) -> (vm: Result<Self, HypervisorError>)
        requires
            host.registered() is Some,
            Self::accepts(config),
    ;
}

impl VirtualMachine for Vm {
    type Config = VmConfig;

    open spec fn accepts(config: VmConfig) -> bool {
        config.valid()
    }

    /// Creates a virtual machine and builds the nested page tables that map its
    /// guest-physical address space, in the format of the processor's extension. No
    /// vCPU exists yet; add them with [`Vm::create_cpu`]. Where the pool or the host's
    /// translation does not have what it takes, the pool keeps its pages.
    fn new<H: HostMemory>(
        host: &HostMemoryCell<H>,
        pool: &mut PagePool,
        processor: Processor,
        vm_id: VmId,
        config: VmConfig,
    ) -> (vm: Result<Self, HypervisorError>)
        ensures
            match layout(*host, flags_of(processor.extension), old(pool)@, config) {
                Some(made) => {
                    &&& vm matches Ok(v) && v@ == (VmState {
                        id: vm_id,
                        processor,
                        tables: made.tables,
                        flags: flags_of(processor.extension),
                        pointer_bits: pointer_bits_of(processor.extension),
                        apic_page: made.apic.vaddr,
                        ioapic_page: made.ioapic.vaddr,
                        apic_access_hpa: made.apic.hpa,
                        cpus: Seq::empty(),
                    })
                    &&& final(pool)@ == made.pool
                },
                None => {
                    &&& vm matches Err(e) && e == HypervisorError::AllocationFailed
                    &&& final(pool)@ == old(pool)@
                },
            },
    {
        let mut work = pool.duplicate();
        let mut tables = match Paging::new(host, &mut work, processor.extension, config) {
            Ok(tables) => tables,
            Err(error) => return Err(error),
        };
        let ghost left = work@;
        // Back the APIC MMIO regions: the local APIC via a dedicated APIC-access page
        // (used by hardware APIC virtualization), the I/O APIC via a plain page so its
        // accesses do not fault until it is emulated.
        let apic_access_page = match Page::zeroed(&mut work) {
            Ok(page) => page,
            Err(error) => return Err(error),
        };
        let ioapic_page = match Page::zeroed(&mut work) {
            Ok(page) => page,
            Err(error) => return Err(error),
        };
        assert(work@ =~= left.take(left.len() - 2));
        assert(apic_access_page.address() == paging::pool_page(left, 0));
        assert(ioapic_page.address() == paging::pool_page(left, 1));
        let apic_access_hpa = match apic_access_page.host_physical(host) {
            Ok(hpa) => hpa,
            Err(error) => return Err(error),
        };
        match tables.map_mmio(host, &mut work, LAPIC_BASE, apic_access_hpa) {
            Ok(()) => {},
            Err(error) => return Err(error),
        }
        let ioapic_hpa = match ioapic_page.host_physical(host) {
            Ok(hpa) => hpa,
            Err(error) => return Err(error),
        };
        match tables.map_mmio(host, &mut work, IOAPIC_BASE, ioapic_hpa) {
            Ok(()) => {},
            Err(error) => return Err(error),
        }
        *pool = work;
        let vm = Vm {
            id: vm_id,
            processor,
            paging: tables,
            apic_access_page,
            ioapic_page,
            apic_access_hpa,
            cpus: Vec::new(),
        };
        assert(vm@.cpus =~= Seq::empty());
        Ok(vm)
    }
}

/// The configuration of a virtual machine's next vCPU, or `None` where its tables have
/// no host-physical address.
pub open spec fn next_config<H: HostMemory>(
    host: HostMemoryCell<H>,
    vm: VmState,
    entry_point: u64,
    stack_pointer: u64,
) -> Option<CpuConfig> {
    match host.translates(vm.tables.pml4.vaddr) {
        Some(root) => Some(
            CpuConfig {
                nested_paging_pointer: root | vm.pointer_bits,
                apic_access_hpa: vm.apic_access_hpa,
                entry_point,
                stack_pointer,
            },
        ),
        None => None,
    }
}

impl Vm {
    /// Returns the id of this virtual machine.
    pub fn id(&self) -> (id: VmId)
        ensures
            id == self@.id,
    {
        self.id
    }

    /// Adds a virtual CPU to this VM and returns a mutable reference to it.
    ///
    /// The new vCPU shares this VM's nested page tables and starts executing at
    /// `entry_point` with `stack_pointer` as its initial stack. Its id is assigned in
    /// creation order, starting at 0 for the boot CPU.
    pub fn create_cpu<H: HostMemory>(
        &mut self,
        host: &HostMemoryCell<H>,
        pool: &mut PagePool,
        entry_point: u64,
        stack_pointer: u64,
    ) -> (cpu: Result<&mut Cpu, HypervisorError>)
        requires
            host.registered() is Some,
        ensures
            ({
                let vm = old(self)@;
                let extension = vm.processor.extension;
                match next_config(*host, vm, entry_point, stack_pointer) {
                    Some(config) if vcpu::can_create(*host, old(pool)@, extension) => {
                        &&& cpu matches Ok(c) && c@.vm_id == vm.id && c@.id == vm.cpus.len()
                            && c@.backend.captured() == crate::vmx::run::boot_registers(
                            vm.cpus.len() as u64,
                            entry_point,
                            stack_pointer,
                        ) && vcpu::created(
                            *host,
                            old(pool)@,
                            vm.processor,
                            vm.cpus.len() as usize,
                            config,
                            c@.backend,
                        ) && final(self)@ =~= (VmState { cpus: vm.cpus.push(*final(c)), ..vm })
                        &&& final(pool)@ == old(pool)@.take(
                            old(pool)@.len() - vcpu::pages_of(extension),
                        )
                    },
                    _ => {
                        &&& cpu matches Err(e) && e == HypervisorError::AllocationFailed
                        &&& final(self)@ == vm
                        &&& final(pool)@ == old(pool)@
                    },
                }
            }),
    {
        let pointer = match self.paging.pointer(host) {
            Ok(pointer) => pointer,
            Err(error) => return Err(error),
        };
        let config = CpuConfig {
            nested_paging_pointer: pointer,
            apic_access_hpa: self.apic_access_hpa,
            entry_point,
            stack_pointer,
        };
        let vcpu_id: usize = self.cpus.len();
        let cpu = match Cpu::new(host, pool, self.processor, self.id, vcpu_id, config) {
            Ok(cpu) => cpu,
            Err(error) => return Err(error),
        };
        self.cpus.push(cpu);
        Ok(&mut self.cpus[vcpu_id])
    }

    /// Returns the virtual CPUs managed by this VM.
    pub fn cpus(&self) -> (cpus: &[Cpu])
        ensures
            cpus@ == self@.cpus,
    {
        self.cpus.as_slice()
    }

    /// Returns the virtual CPUs managed by this VM mutably.
    pub fn cpus_mut(&mut self) -> (cpus: &mut [Cpu])
        ensures
            cpus@ == old(self)@.cpus,
            final(self)@ == (VmState { cpus: final(cpus)@, ..old(self)@ }),
    {
        self.cpus.as_mut_slice()
    }

    /// The `k`-th table of the nested page tables, for the embedder to copy to its
    /// page.
    pub fn table(&self, k: usize) -> (table: Option<&Table>)
        ensures
            k < self@.tables.tables().len() ==> (table matches Some(t) && t@
                == self@.tables.tables()[k as int]),
            k >= self@.tables.tables().len() ==> table is None,
    {
        self.paging.table(k)
    }
}

/// Whether every page of a pool has a frame of its own.
pub open spec fn distinct_frames<H: HostMemory>(host: HostMemoryCell<H>, pool: Seq<u64>) -> bool {
    &&& forall|k: int|
        #![trigger pool[k]]
        0 <= k < pool.len() ==> host.translates(pool[k]) is Some && translation::is_frame(
            host.translates(pool[k])->0,
        )
    &&& forall|k: int, l: int|
        #![trigger pool[k], pool[l]]
        0 <= k < l < pool.len() ==> host.translates(pool[k]) != host.translates(pool[l])
}

/// Whether every page of the guest memory has a frame.
pub open spec fn guest_frames<H: HostMemory>(host: HostMemoryCell<H>, config: VmConfig) -> bool {
    forall|page: u64|
        #![trigger host.translates(page)]
        config.guest_base <= page < config.guest_base + config.guest_size && (page
            - config.guest_base) % 4096 == 0 ==> host.translates(page) is Some
            && translation::is_frame(host.translates(page)->0)
}

/// The guest sees its memory from address zero on, a page for each of the APICs, and
/// nothing else. With the tables of a new virtual machine in memory, the processor's
/// walk leads from an address below the size of the guest memory to the same offset of
/// the buffer behind it, from the page of the local and of the I/O APIC to the pages
/// backing them, and from any other address to a fault.
pub proof fn law_guest_address_space<H: HostMemory>(
    host: HostMemoryCell<H>,
    extension: HypervisorExtension,
    pool: Seq<u64>,
    config: VmConfig,
    memory: TableMemory,
    address: u64,
)
    requires
        config.valid(),
        distinct_frames(host, pool),
        guest_frames(host, config),
        layout(host, flags_of(extension), pool, config) is Some,
        translation::resident(
            host,
            memory,
            layout(host, flags_of(extension), pool, config)->0.tables,
        ),
        address < 0x1_0000_0000_0000,
    ensures
        ({
            let made = layout(host, flags_of(extension), pool, config)->0;
            let root = host.translates(made.tables.pml4.vaddr)->0;
            translation::walk(memory, root, address) == (if address < config.guest_size {
                Some(
                    (host.translates(
                        (config.guest_base + (address - address % 4096)) as u64,
                    )->0 + address % 4096) as u64,
                )
            } else if address / 4096 == 0xFEE0_0000u64 / 4096 {
                Some((made.apic.hpa + address % 4096) as u64)
            } else if address / 4096 == 0xFEC0_0000u64 / 4096 {
                Some((made.ioapic.hpa + address % 4096) as u64)
            } else {
                None
            })
        }),
{
    lemma_layout(host, extension, pool, config);
    let made = layout(host, flags_of(extension), pool, config)->0;
    assert(translation::walk(memory, host.translates(made.tables.pml4.vaddr)->0, address)
        == translation::walk(memory, host.translates(made.tables.pml4.vaddr)->0, address));
}

/// A virtual machine can be created from a pool of distinct frames that has a page for
/// each table of the guest memory, three above those, one for each APIC and four for
/// mapping them.
pub proof fn law_enough_pages<H: HostMemory>(
    host: HostMemoryCell<H>,
    extension: HypervisorExtension,
    pool: Seq<u64>,
    config: VmConfig,
)
    requires
        config.valid(),
        distinct_frames(host, pool),
        guest_frames(host, config),
        pool.len() >= paging::pt_count(config.guest_size as int) + 9,
    ensures
        layout(host, flags_of(extension), pool, config) is Some,
{
    lemma_layout(host, extension, pool, config);
}

/// The parts of a layout are as the laws on mappings want them.
proof fn lemma_layout<H: HostMemory>(
    host: HostMemoryCell<H>,
    extension: HypervisorExtension,
    pool: Seq<u64>,
    config: VmConfig,
)
    requires
        config.valid(),
        distinct_frames(host, pool),
        guest_frames(host, config),
        pool.len() >= paging::pt_count(config.guest_size as int) + 5,
    ensures
        pool.len() >= paging::pt_count(config.guest_size as int) + 9 ==> layout(
            host,
            flags_of(extension),
            pool,
            config,
        ) is Some,
        layout(host, flags_of(extension), pool, config) matches Some(made) ==> forall|
            memory: TableMemory,
            address: u64,
        |
            #![trigger translation::walk(memory, host.translates(made.tables.pml4.vaddr)->0, address)]
            translation::resident(host, memory, made.tables) && address < 0x1_0000_0000_0000
                ==> translation::walk(memory, host.translates(made.tables.pml4.vaddr)->0, address)
                == (if address < config.guest_size {
                Some(
                    (host.translates(
                        (config.guest_base + (address - address % 4096)) as u64,
                    )->0 + address % 4096) as u64,
                )
            } else if address / 4096 == LAPIC_BASE / 4096 {
                Some((made.apic.hpa + address % 4096) as u64)
            } else if address / 4096 == IOAPIC_BASE / 4096 {
                Some((made.ioapic.hpa + address % 4096) as u64)
            } else {
                None
            }),
{
    let flags = flags_of(extension);
    let size = config.guest_size as int;
    let count = paging::pt_count(size);
    ept::lemma_ept_flags();
    npt::lemma_npt_flags();
    assert(count >= 0);
    let built = paging::built(host, flags, pool, config.guest_base, size);
    let left = pool.take(pool.len() - 3 - count);
    let rest = left.take(left.len() - 2);
    assert forall|i: int| 0 <= i < size / 4096 implies (#[trigger] host.translates(
        paging::guest_page(config.guest_base, i),
    )) is Some && translation::is_frame(
        host.translates(paging::guest_page(config.guest_base, i))->0,
    ) by {
        assert(paging::guest_page(config.guest_base, i) == config.guest_base + i * 4096);
    }
    assert forall|k: int| 0 <= k < rest.len() implies #[trigger] rest[k] == pool[k] by {}
    assert forall|k: int| 0 <= k < 3 + count implies (#[trigger] host.translates(
        paging::pool_page(pool, k),
    )) is Some by {
        assert(paging::pool_page(pool, k) == pool[pool.len() - 1 - k]);
    }
    assert(host.translates(paging::pool_page(pool, 1)) is Some);
    assert(host.translates(paging::pool_page(pool, 2)) is Some);
    assert(paging::can_build(host, pool, config.guest_base, size));
    assert(paging::pool_page(left, 0) == pool[pool.len() - 4 - count]);
    assert(paging::pool_page(left, 1) == pool[pool.len() - 5 - count]);
    assert(translation::fresh(host, built, pool));
    assert(translation::fresh(host, built, rest));
    translation::law_guest_memory_and_two_pages(
        host,
        flags,
        pool,
        config.guest_base,
        size,
        rest,
        (LAPIC_BASE, paging::area(host, left, 0).hpa),
        (IOAPIC_BASE, paging::area(host, left, 1).hpa),
    );
}

/// Whether the vCPUs of a virtual machine are numbered in creation order, starting at
/// zero, and belong to it.
pub open spec fn numbered(vm: VmState) -> bool {
    forall|i: int|
        #![trigger vm.cpus[i]]
        0 <= i < vm.cpus.len() ==> vm.cpus[i]@.id == i && vm.cpus[i]@.vm_id == vm.id
}

/// Adding a vCPU as [`Vm::create_cpu`] does keeps the numbering.
pub proof fn law_cpus_are_numbered(vm: VmState, cpu: Cpu)
    requires
        numbered(vm),
        cpu@.id == vm.cpus.len(),
        cpu@.vm_id == vm.id,
    ensures
        numbered(VmState { cpus: vm.cpus.push(cpu), ..vm }),
{
}

/// Guest memory can be described exactly if it is made of whole, aligned pages, at most
/// 1 GiB of them, and does not reach beyond the end of the address space.
pub proof fn law_valid_configurations(config: VmConfig)
    ensures
        config.valid() <==> config.guest_base % 4096 == 0 && config.guest_size % 4096 == 0
            && config.guest_size <= 1024 * 1024 * 1024 && config.guest_base + config.guest_size
            < 0x1_0000_0000_0000_0000,
{
}

/// The processor is told where the top-level table is and how to walk from there. For
/// VT-x the pointer adds to the table's address a walk of four levels (three in bits 5:3)
/// and write-back memory (six in bits 2:0); for AMD-V it is the address. The vCPU gets the
/// page of the local APIC, the entry point and the stack that were asked for.
pub proof fn law_vcpu_configuration<H: HostMemory>(
    host: HostMemoryCell<H>,
    vm: VmState,
    entry_point: u64,
    stack_pointer: u64,
)
    requires
        vm.pointer_bits == pointer_bits_of(vm.processor.extension),
    ensures
        host.translates(vm.tables.pml4.vaddr) is Some && host.translates(vm.tables.pml4.vaddr)->0
            % 4096 == 0 ==> {
            let root = host.translates(vm.tables.pml4.vaddr)->0;
            let config = next_config(host, vm, entry_point, stack_pointer)->0;
            &&& next_config(host, vm, entry_point, stack_pointer) is Some
            &&& config.nested_paging_pointer == (match vm.processor.extension {
                HypervisorExtension::Vmx => root + 3 * 8 + 6,
                HypervisorExtension::Svm => root as int,
            })
            &&& config.apic_access_hpa == vm.apic_access_hpa
            &&& config.entry_point == entry_point
            &&& config.stack_pointer == stack_pointer
        },
        host.translates(vm.tables.pml4.vaddr) is None ==> next_config(
            host,
            vm,
            entry_point,
            stack_pointer,
        ) is None,
{
    if let Some(root) = host.translates(vm.tables.pml4.vaddr) {
        assert(root % 4096 == 0 ==> root | (0x18u64 | 6u64) == root + 30 && root | 0 == root)
            by (bit_vector);
    }
}

/// The entries that map memory and those that lead to tables allow all access. For VT-x
/// bits 2:0 allow execution, writing and reading, and bits 5:3 of a mapping are the
/// write-back type (six); for AMD-V bits 2:0 are user, writable and present, and bits 6:5
/// of a mapping are dirty and accessed.
pub proof fn law_entry_flags()
    ensures
        flags_of(HypervisorExtension::Vmx).table == 1 + 2 + 4,
        flags_of(HypervisorExtension::Vmx).leaf == 1 + 2 + 4 + 6 * 8,
        flags_of(HypervisorExtension::Svm).table == 1 + 2 + 4,
        flags_of(HypervisorExtension::Svm).leaf == 1 + 2 + 4 + 0x20 + 0x40,
{
}

/// Where the pages of a new virtual machine come from. The tables of the guest memory take
/// the last pages of the pool, the one at the very end being the top-level table; below
/// them come the page of the local APIC and that of the I/O APIC. What is left of the pool
/// is its beginning.
pub proof fn law_layout_pages<H: HostMemory>(
    host: HostMemoryCell<H>,
    extension: HypervisorExtension,
    pool: Seq<u64>,
    config: VmConfig,
)
    requires
        config.valid(),
        layout(host, flags_of(extension), pool, config) is Some,
    ensures
        ({
            let made = layout(host, flags_of(extension), pool, config)->0;
            let left = pool.len() - 3 - (config.guest_size as int + 0x1F_FFFF) / 0x20_0000;
            &&& left >= 2
            &&& made.tables.pml4.vaddr == pool[pool.len() - 1]
            &&& made.apic.vaddr == pool[left - 1]
            &&& host.translates(made.apic.vaddr) == Some(made.apic.hpa)
            &&& made.ioapic.vaddr == pool[left - 2]
            &&& host.translates(made.ioapic.vaddr) == Some(made.ioapic.hpa)
            &&& left - 6 <= made.pool.len() <= left - 2
            &&& made.pool == pool.take(made.pool.len() as int)
        }),
{
    let flags = flags_of(extension);
    let size = config.guest_size as int;
    assert(paging::pt_count(size) == (size + 0x1F_FFFF) / 0x20_0000);
    let built = paging::built(host, flags, pool, config.guest_base, size);
    let left = pool.take(pool.len() - 3 - paging::pt_count(size));
    let (apic, ioapic) = (paging::area(host, left, 0), paging::area(host, left, 1));
    let rest = left.take(left.len() - 2);
    let one = paging::mapping(host, flags, built, rest, LAPIC_BASE, apic.hpa);
    lemma_mapping_pool(host, flags, built, rest, LAPIC_BASE, apic.hpa);
    lemma_mapping_pool(host, flags, one.state, one.pool, IOAPIC_BASE, ioapic.hpa);
    let made = layout(host, flags, pool, config)->0;
    assert(made.pool =~= pool.take(made.pool.len() as int));
}

/// A mapping takes two pages at most, from the end of the pool, and leaves the top-level
/// table alone.
proof fn lemma_mapping_pool<H: HostMemory>(
    host: HostMemoryCell<H>,
    flags: EntryFlags,
    state: PagingState,
    pool: Seq<u64>,
    gpa: u64,
    hpa: u64,
)
    ensures
        ({
            let made = paging::mapping(host, flags, state, pool, gpa, hpa);
            &&& made.pool.len() <= pool.len() <= made.pool.len() + 2
            &&& made.pool =~= pool.take(made.pool.len() as int)
            &&& made.state.pml4 == state.pml4
        }),
{
}

} // verus!
