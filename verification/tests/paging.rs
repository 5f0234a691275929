use std::collections::HashMap;

use rhyve::backend::VcpuBackend;
use rhyve::cpu::HypervisorExtension;
use rhyve::error::HypervisorError;
use rhyve::host::{set_host_memory, HostMemory, HostMemoryCell};
use rhyve::paging::{PagePool, Table};
use rhyve::svm::npt::Npt;
use rhyve::vcpu::{Backend, Processor};
use rhyve::vm::{VirtualMachine, Vm, VmConfig, IOAPIC_BASE, LAPIC_BASE};
use rhyve::vmx::ept::{Ept, NestedPaging, Page};

const SHIFT: u64 = 0x7000_0000;

struct Host {
    unmapped: Vec<u64>,
}

impl HostMemory for Host {
    fn translation(&self, vaddr: u64) -> Option<u64> {
        self.virtual_to_physical(vaddr)
    }

    fn virtual_to_physical(&self, vaddr: u64) -> Option<u64> {
        if self.unmapped.contains(&vaddr) {
            None
        } else {
            Some(vaddr + SHIFT)
        }
    }
}

fn host_without(unmapped: Vec<u64>) -> HostMemoryCell<Host> {
    let mut cell = HostMemoryCell::new();
    set_host_memory(&mut cell, Host { unmapped });
    cell
}

/// A pool that hands out 0x10_0000, 0x10_1000, ... in this order.
fn pool(count: u64) -> PagePool {
    PagePool::new((0..count).rev().map(|i| 0x10_0000 + i * 0x1000).collect())
}

/// The tables as the processor finds them, by host-physical address.
fn resident<'a>(tables: impl Fn(usize) -> Option<&'a Table>) -> HashMap<u64, Vec<u64>> {
    let mut memory = HashMap::new();
    let mut k = 0;
    while let Some(table) = tables(k) {
        let entries = (0..512).map(|i| table.entry(i)).collect();
        memory.insert(table.address() + SHIFT, entries);
        k += 1;
    }
    memory
}

fn walk(memory: &HashMap<u64, Vec<u64>>, root: u64, gpa: u64) -> Option<u64> {
    let mut table = root;
    for shift in [39, 30, 21, 12] {
        let entry = memory[&table][((gpa >> shift) & 0x1ff) as usize];
        if entry & 1 == 0 {
            return None;
        }
        table = entry & 0x000F_FFFF_FFFF_F000;
    }
    Some(table + gpa % 4096)
}

const BASE: u64 = 0x4000_0000;

#[test]
fn pool_hands_out_its_pages_and_runs_dry() {
    let mut pool = pool(2);
    assert_eq!(pool.len(), 2);
    assert_eq!(pool.take(), Ok(0x10_0000));
    assert_eq!(pool.take(), Ok(0x10_1000));
    assert_eq!(pool.take(), Err(HypervisorError::AllocationFailed));
    assert_eq!(pool.len(), 0);
}

#[test]
fn ept_maps_the_guest_memory_and_nothing_else() {
    let host = host_without(vec![]);
    let mut pool = pool(10);
    // Three pages beyond 2 MiB, so that the second page table is not full.
    let size = 0x20_3000;
    let ept = Ept::new(&host, &mut pool, BASE, size).ok().unwrap();
    assert_eq!(pool.len(), 5);
    let memory = resident(|k| ept.table(k));
    assert_eq!(memory.len(), 5);
    let root = 0x10_0000 + SHIFT;
    assert_eq!(ept.eptp(&host), Ok(root | 0x1e));
    for gpa in [0, 1, 0xfff, 0x1000, 0x1f_ffff, 0x20_0000, 0x20_2fff] {
        assert_eq!(walk(&memory, root, gpa), Some(BASE + gpa + SHIFT));
    }
    for gpa in [0x20_3000, 0x3fff_ffff, 0x4000_0000, 0x80_0000_0000, 0xffff_ffff_ffff] {
        assert_eq!(walk(&memory, root, gpa), None);
    }
}

#[test]
fn ept_entry_bits() {
    let host = host_without(vec![]);
    let mut pool = pool(10);
    let ept = Ept::new(&host, &mut pool, BASE, 0x1000).ok().unwrap();
    assert_eq!(ept.table(0).unwrap().entry(0) & 0xfff, 0x7);
    assert_eq!(ept.table(1).unwrap().entry(0) & 0xfff, 0x7);
    assert_eq!(ept.table(2).unwrap().entry(0) & 0xfff, 0x7);
    assert_eq!(ept.table(3).unwrap().entry(0), (BASE + SHIFT) | 0x37);
    assert!(ept.table(4).is_none());
}

#[test]
fn npt_entry_bits_and_pointer() {
    let host = host_without(vec![]);
    let mut pool = pool(10);
    let npt = Npt::new(&host, &mut pool, BASE, 0x1000).ok().unwrap();
    assert_eq!(npt.table(0).unwrap().entry(0) & 0xfff, 0x7);
    assert_eq!(npt.table(3).unwrap().entry(0), (BASE + SHIFT) | 0x67);
    assert_eq!(npt.ncr3(&host), Ok(0x10_0000 + SHIFT));
    assert_eq!(npt.pointer(&host), Ok(0x10_0000 + SHIFT));
}

#[test]
fn empty_guest_memory_has_no_page_table() {
    let host = host_without(vec![]);
    let mut pool = pool(3);
    let npt = Npt::new(&host, &mut pool, BASE, 0).ok().unwrap();
    let memory = resident(|k| npt.table(k));
    assert_eq!(walk(&memory, 0x10_0000 + SHIFT, 0), None);
}

#[test]
fn building_fails_without_enough_pages() {
    let host = host_without(vec![]);
    let mut pool = pool(3);
    assert_eq!(
        Ept::new(&host, &mut pool, BASE, 0x1000).err(),
        Some(HypervisorError::AllocationFailed)
    );
    assert_eq!(pool.len(), 3);
}

#[test]
fn building_fails_without_a_translation() {
    for missing in [0x10_1000, 0x10_2000, 0x10_3000, BASE + 0x2000] {
        let host = host_without(vec![missing]);
        let mut pool = pool(8);
        assert_eq!(
            Npt::new(&host, &mut pool, BASE, 0x3000).err(),
            Some(HypervisorError::AllocationFailed)
        );
        assert_eq!(pool.len(), 8);
    }
    // Only the pointer needs the address of the top-level table.
    let host = host_without(vec![0x10_0000]);
    let mut pool = pool(8);
    let npt = Npt::new(&host, &mut pool, BASE, 0x3000).ok().unwrap();
    assert_eq!(npt.ncr3(&host), Err(HypervisorError::AllocationFailed));
}

#[test]
fn mapped_page_is_found_and_the_others_stay() {
    let host = host_without(vec![]);
    let mut pool = pool(12);
    let mut ept = Ept::new(&host, &mut pool, BASE, 0x2000).ok().unwrap();
    let root = 0x10_0000 + SHIFT;
    assert_eq!(ept.map_page(&host, &mut pool, LAPIC_BASE, 0xabc_d000), Ok(()));
    assert_eq!(pool.len(), 12 - 4 - 2);
    assert_eq!(ept.map_mmio(&host, &mut pool, IOAPIC_BASE, 0x123_4000), Ok(()));
    // The page directory of that GiB was there already.
    assert_eq!(pool.len(), 12 - 4 - 3);
    // A page next to the first one takes no table at all.
    assert_eq!(ept.map_page(&host, &mut pool, LAPIC_BASE + 0x1000, 0x777_7000), Ok(()));
    assert_eq!(pool.len(), 12 - 4 - 3);
    let memory = resident(|k| ept.table(k));
    assert_eq!(walk(&memory, root, LAPIC_BASE + 0x20), Some(0xabc_d020));
    assert_eq!(walk(&memory, root, LAPIC_BASE + 0x1020), Some(0x777_7020));
    assert_eq!(walk(&memory, root, LAPIC_BASE + 0x2000), None);
    assert_eq!(walk(&memory, root, IOAPIC_BASE + 0xfff), Some(0x123_4fff));
    assert_eq!(walk(&memory, root, IOAPIC_BASE - 1), None);
    assert_eq!(walk(&memory, root, 0x1234), Some(BASE + 0x1234 + SHIFT));
    assert_eq!(walk(&memory, root, 0x2000), None);
}

#[test]
fn mapping_again_replaces_the_page() {
    let host = host_without(vec![]);
    let mut pool = pool(12);
    let mut npt = Npt::new(&host, &mut pool, BASE, 0x1000).ok().unwrap();
    assert_eq!(npt.map_page(&host, &mut pool, 0x4000_0000, 0x1000), Ok(()));
    assert_eq!(npt.map_page(&host, &mut pool, 0x4000_0000, 0x2000), Ok(()));
    let memory = resident(|k| npt.table(k));
    assert_eq!(walk(&memory, 0x10_0000 + SHIFT, 0x4000_0008), Some(0x2008));
}

#[test]
fn mapping_fails_without_pages_and_maps_nothing() {
    let host = host_without(vec![]);
    for spare in 0..2 {
        let mut pool = pool(4 + spare);
        let mut npt = Npt::new(&host, &mut pool, BASE, 0x1000).ok().unwrap();
        assert_eq!(
            npt.map_page(&host, &mut pool, LAPIC_BASE, 0x1000),
            Err(HypervisorError::AllocationFailed)
        );
        let memory = resident(|k| npt.table(k));
        assert_eq!(walk(&memory, 0x10_0000 + SHIFT, LAPIC_BASE), None);
        assert_eq!(walk(&memory, 0x10_0000 + SHIFT, 0), Some(BASE + SHIFT));
    }
}

#[test]
fn page_comes_from_the_pool() {
    let host = host_without(vec![0x10_1000]);
    let mut pool = pool(2);
    let page = Page::zeroed(&mut pool).ok().unwrap();
    assert_eq!(page.host_physical(&host), Ok(0x10_0000 + SHIFT));
    let page = Page::zeroed(&mut pool).ok().unwrap();
    assert_eq!(page.host_physical(&host), Err(HypervisorError::AllocationFailed));
    assert_eq!(Page::zeroed(&mut pool).err(), Some(HypervisorError::AllocationFailed));
}

fn amd() -> Processor {
    Processor { extension: HypervisorExtension::Svm, vmx_basic: 0 }
}

fn intel() -> Processor {
    Processor { extension: HypervisorExtension::Vmx, vmx_basic: 0x8000_0012 }
}

#[test]
fn config_is_valid_if_aligned_and_small_enough() {
    let valid = |guest_base, guest_size| VmConfig { guest_base, guest_size }.is_valid();
    assert!(valid(BASE, 0x1000_0000));
    assert!(valid(0, 0));
    assert!(valid(BASE, 0x4000_0000));
    assert!(!valid(BASE, 0x4000_1000));
    assert!(!valid(BASE + 1, 0x1000));
    assert!(!valid(BASE, 0x1001));
    assert!(!valid(0xffff_ffff_ffff_f000, 0x1000));
}

#[test]
fn new_vm_maps_memory_and_apics() {
    for processor in [amd(), intel()] {
        let host = host_without(vec![]);
        let mut pool = pool(20);
        let config = VmConfig { guest_base: BASE, guest_size: 0x5000 };
        let vm = <Vm as VirtualMachine>::new(&host, &mut pool, processor, 3, config)
            .ok()
            .unwrap();
        assert_eq!(vm.id(), 3);
        assert!(vm.cpus().is_empty());
        // Four tables, two pages, three tables for the APICs.
        assert_eq!(pool.len(), 20 - 9);
        let memory = resident(|k| vm.table(k));
        let root = 0x10_0000 + SHIFT;
        assert_eq!(walk(&memory, root, 0x4fff), Some(BASE + 0x4fff + SHIFT));
        assert_eq!(walk(&memory, root, 0x5000), None);
        assert_eq!(walk(&memory, root, LAPIC_BASE), Some(0x10_4000 + SHIFT));
        assert_eq!(walk(&memory, root, LAPIC_BASE + 0x1000), None);
        assert_eq!(walk(&memory, root, IOAPIC_BASE + 0x10), Some(0x10_5010 + SHIFT));
        assert_eq!(walk(&memory, root, 0xFED0_0000), None);
    }
}

#[test]
fn new_vm_fails_without_pages_and_keeps_the_pool() {
    let config = VmConfig { guest_base: BASE, guest_size: 0x5000 };
    for count in 0..9 {
        let host = host_without(vec![]);
        let mut pool = pool(count);
        let vm = <Vm as VirtualMachine>::new(&host, &mut pool, amd(), 0, config);
        assert_eq!(vm.err(), Some(HypervisorError::AllocationFailed));
        assert_eq!(pool.len(), count as usize);
    }
    let host = host_without(vec![0x10_5000]);
    let mut pool = pool(20);
    let vm = <Vm as VirtualMachine>::new(&host, &mut pool, amd(), 0, config);
    assert_eq!(vm.err(), Some(HypervisorError::AllocationFailed));
    assert_eq!(pool.len(), 20);
}

#[test]
fn cpus_are_numbered_in_creation_order() {
    for processor in [amd(), intel()] {
        let host = host_without(vec![]);
        let mut pool = pool(40);
        let config = VmConfig { guest_base: BASE, guest_size: 0x1000 };
        let mut vm = <Vm as VirtualMachine>::new(&host, &mut pool, processor, 7, config)
            .ok()
            .unwrap();
        for id in 0..3 {
            let cpu = vm.create_cpu(&host, &mut pool, 0x8_0000 + id, 0x7_0000).ok().unwrap();
            assert_eq!(cpu.id(), id as usize);
            assert_eq!(cpu.vm_id(), 7);
            assert_eq!(cpu.registers().rip, 0x8_0000 + id);
            assert_eq!(cpu.registers().rsp, 0x7_0000);
            assert_eq!(cpu.registers().rsi, id);
            assert_eq!(cpu.registers().rdi, 0x9000);
            assert_eq!(cpu.registers().rflags, 2);
        }
        assert_eq!(vm.cpus().len(), 3);
        vm.cpus_mut()[1].registers_mut().rax = 5;
        assert_eq!(vm.cpus()[1].registers().rax, 5);
        assert_eq!(vm.cpus()[0].registers().rax, 0);
    }
}

#[test]
fn vcpu_gets_the_tables_of_its_vm() {
    let host = host_without(vec![]);
    let config = VmConfig { guest_base: BASE, guest_size: 0x1000 };
    let mut pages = pool(40);
    let mut vm = <Vm as VirtualMachine>::new(&host, &mut pages, amd(), 0, config)
        .ok()
        .unwrap();
    let cpu = vm.create_cpu(&host, &mut pages, 0x8_0000, 0x7_0000).ok().unwrap();
    match cpu.backend_mut() {
        Backend::Svm(svm) => {
            assert_eq!(svm.vmcb().read_u64(0x0B0), 0x10_0000 + SHIFT);
            assert_eq!(svm.guest_registers().rip, 0x8_0000);
        }
        Backend::Vmx(_) => panic!("wrong backend"),
    }
    let mut pages = pool(40);
    let mut vm = <Vm as VirtualMachine>::new(&host, &mut pages, intel(), 0, config)
        .ok()
        .unwrap();
    let cpu = vm.create_cpu(&host, &mut pages, 0x8_0000, 0x7_0000).ok().unwrap();
    match cpu.backend_mut() {
        Backend::Vmx(vmx) => {
            assert_eq!(vmx.revisions(), (0x12, 0x12));
            assert!(!vmx.launched());
        }
        Backend::Svm(_) => panic!("wrong backend"),
    }
}

#[test]
fn creating_a_vcpu_fails_without_pages() {
    let host = host_without(vec![]);
    let config = VmConfig { guest_base: BASE, guest_size: 0x1000 };
    let mut pool = pool(9 + 4);
    let mut vm = <Vm as VirtualMachine>::new(&host, &mut pool, amd(), 0, config)
        .ok()
        .unwrap();
    assert_eq!(
        vm.create_cpu(&host, &mut pool, 0, 0).err(),
        Some(HypervisorError::AllocationFailed)
    );
    assert_eq!(pool.len(), 4);
    assert!(vm.cpus().is_empty());
}
