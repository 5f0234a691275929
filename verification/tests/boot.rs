use rhyve::boot::{
    init_guest_memory, BOOT_END, BOOT_INFO_OFFSET, BOOT_PML4, FDT_OFFSET, GDT_OFFSET, GUEST_SIZE,
    KERNEL_OFFSET,
};
use rhyve::cpu::HypervisorExtension;
use rhyve::error::HypervisorError;
use rhyve::fdt::{guest_fdt, Fdt, FdtError, MAX_GUEST_TREE};
use rhyve::host::{set_host_memory, HostMemory, HostMemoryCell};
use rhyve::launch::{kernel_range, launch, prepare_guest, BootParameters};
use rhyve::paging::PagePool;
use rhyve::vcpu::Processor;
use rhyve::vm::VmConfig;
use vm_fdt::FdtWriter;

struct Host;

impl HostMemory for Host {
    fn translation(&self, vaddr: u64) -> Option<u64> {
        self.virtual_to_physical(vaddr)
    }

    fn virtual_to_physical(&self, vaddr: u64) -> Option<u64> {
        Some(vaddr)
    }
}

fn entry(memory: &[u8], table: u64, i: usize) -> u64 {
    let at = table as usize + 8 * i;
    u64::from_le_bytes(memory[at..at + 8].try_into().unwrap())
}

fn boot_walk(memory: &[u8], vaddr: u64) -> Option<u64> {
    let mut table = BOOT_PML4;
    for shift in [39, 30, 21] {
        let found = entry(memory, table, ((vaddr >> shift) & 0x1ff) as usize);
        if found & 1 == 0 {
            return None;
        }
        table = found & 0x000F_FFFF_FFFF_F000;
        if shift == 21 {
            assert_eq!(found & 0xfff, 0x83);
        }
    }
    Some(table + vaddr % 0x20_0000)
}

#[test]
fn boot_memory_has_gdt_and_page_tables() {
    let mut memory = vec![0xEEu8; 0x2_0000];
    init_guest_memory(&mut memory);
    assert_eq!(entry(&memory, GDT_OFFSET, 0), 0);
    assert_eq!(entry(&memory, GDT_OFFSET, 1), 0x00AF_9B00_0000_FFFF);
    assert_eq!(entry(&memory, GDT_OFFSET, 2), 0x00CF_9300_0000_FFFF);
    assert_eq!(entry(&memory, 0x1_0000, 0), 0x1_1003);
    assert_eq!(entry(&memory, 0x1_1000, 0), 0x1_2003);
    assert_eq!(entry(&memory, 0x1_2000, 0), 0x83);
    assert_eq!(entry(&memory, 0x1_2000, 511), 0x3FE0_0083);
    for (i, byte) in memory.iter().enumerate() {
        let boot = (0x1000..0x1018).contains(&i) || (0x1_0000..0x1_3000).contains(&i);
        assert!(boot || *byte == 0xEE);
    }
}

#[test]
fn boot_tables_identity_map_the_first_gib() {
    let mut memory = vec![0u8; BOOT_END];
    init_guest_memory(&mut memory);
    for vaddr in [0, 1, 0x1f_ffff, 0x20_0000, 0x1234_5678, 0x3fff_ffff] {
        assert_eq!(boot_walk(&memory, vaddr), Some(vaddr));
    }
    for vaddr in [0x4000_0000, 0x80_0000_0000, 0xffff_ffff_ffff] {
        assert_eq!(boot_walk(&memory, vaddr), None);
    }
}

fn expected_tree(platform: &str, size: u64) -> Vec<u8> {
    let mut writer = FdtWriter::new().unwrap();
    let root = writer.begin_node("").unwrap();
    writer.property_string("compatible", &format!("hermit,{platform}")).unwrap();
    writer.property_u32("#address-cells", 2).unwrap();
    writer.property_u32("#size-cells", 2).unwrap();
    let memory = writer.begin_node("memory@0").unwrap();
    writer.property_string("device_type", "memory").unwrap();
    writer.property_array_u64("reg", &[0, size]).unwrap();
    writer.end_node(memory).unwrap();
    let chosen = writer.begin_node("chosen").unwrap();
    writer.end_node(chosen).unwrap();
    writer.end_node(root).unwrap();
    writer.finish().unwrap()
}

#[test]
fn guest_tree_describes_platform_and_memory() {
    let tree = guest_fdt(0x1000_0000).unwrap();
    assert_eq!(tree, expected_tree("uhyve", 0x1000_0000));
    assert_eq!(tree[..4], [0xd0, 0x0d, 0xfe, 0xed]);
    assert_eq!(tree[4..8], (tree.len() as u32).to_be_bytes());
}

#[test]
fn tree_with_root_pointer_and_two_ranges() {
    let tree = Fdt::new("qemu")
        .ok()
        .unwrap()
        .memory(0x1000, 0x5000)
        .ok()
        .unwrap()
        .rsdp(0xabc_def0)
        .ok()
        .unwrap()
        .memory(0x10_0000, 0x20_0000)
        .ok()
        .unwrap()
        .finish()
        .unwrap();
    let mut writer = FdtWriter::new().unwrap();
    let root = writer.begin_node("").unwrap();
    writer.property_string("compatible", "hermit,qemu").unwrap();
    writer.property_u32("#address-cells", 2).unwrap();
    writer.property_u32("#size-cells", 2).unwrap();
    let node = writer.begin_node("memory@1000").unwrap();
    writer.property_string("device_type", "memory").unwrap();
    writer.property_array_u64("reg", &[0x1000, 0x4000]).unwrap();
    writer.end_node(node).unwrap();
    let node = writer.begin_node("hermit,rsdp@abcdef0").unwrap();
    writer.property_array_u64("reg", &[0xabc_def0, 1]).unwrap();
    writer.end_node(node).unwrap();
    let node = writer.begin_node("memory@100000").unwrap();
    writer.property_string("device_type", "memory").unwrap();
    writer.property_array_u64("reg", &[0x10_0000, 0x10_0000]).unwrap();
    writer.end_node(node).unwrap();
    let node = writer.begin_node("chosen").unwrap();
    writer.end_node(node).unwrap();
    writer.end_node(root).unwrap();
    assert_eq!(tree, writer.finish().unwrap());
}

#[test]
fn tree_of_a_platform_with_a_nul_is_refused() {
    assert_eq!(Fdt::new("a\0b").err(), Some(FdtError::InvalidString));
    assert!(Fdt::new("").is_ok());
}

#[test]
fn prepared_guest_has_tree_and_boot_structures() {
    let mut memory = vec![0x22u8; 0x10_0000];
    prepare_guest(&mut memory);
    let tree = expected_tree("uhyve", 0x10_0000);
    let at = FDT_OFFSET as usize;
    assert_eq!(&memory[at..at + tree.len()], tree.as_slice());
    assert_eq!(memory[at + tree.len()], 0x22);
    assert_eq!(memory[BOOT_INFO_OFFSET as usize], 0x22);
    assert_eq!(memory[KERNEL_OFFSET as usize], 0x22);
    assert_eq!(boot_walk(&memory, 0x1234), Some(0x1234));
}

#[test]
fn smallest_memory_is_prepared_too() {
    let mut memory = vec![0u8; BOOT_END];
    prepare_guest(&mut memory);
    let tree = expected_tree("uhyve", BOOT_END as u64);
    let at = FDT_OFFSET as usize;
    assert_eq!(&memory[at..at + tree.len()], tree.as_slice());
    assert!(tree.len() <= MAX_GUEST_TREE && at + MAX_GUEST_TREE <= BOOT_INFO_OFFSET as usize);
    assert_eq!(boot_walk(&memory, 0x5678), Some(0x5678));
}

#[test]
fn kernel_is_loaded_where_it_fits() {
    assert_eq!(kernel_range(0x10_0000, 0x1000), Some((0x8_0000, 0x8_1000)));
    assert_eq!(kernel_range(0x10_0000, 0x8_0000), Some((0x8_0000, 0x10_0000)));
    assert_eq!(kernel_range(0x10_0000, 0x8_0001), None);
    assert_eq!(kernel_range(0x1000, 0), None);
    assert_eq!(kernel_range(0x10_0000, usize::MAX), None);
}

#[test]
fn boot_parameters_describe_the_machine() {
    let parameters = BootParameters::new(2400, 1_700_000_000_000_000_000).unwrap();
    assert_eq!(parameters.memory_end, 256 << 20);
    assert_eq!(parameters.memory_end, GUEST_SIZE as u64);
    assert_eq!(parameters.serial_port_base, 0x800);
    assert_eq!(parameters.device_tree, 0x5000);
    assert!(!parameters.has_pci);
    assert_eq!(parameters.num_cpus, 1);
    assert_eq!(parameters.cpu_freq, 2_400_000);
    assert_eq!(parameters.boot_time, 1_700_000_000_000_000_000);
    assert_eq!(BootParameters::new(u16::MAX, 0).unwrap().cpu_freq, 65_535_000);
}

#[test]
fn boot_parameters_need_frequency_and_time() {
    assert_eq!(BootParameters::new(0, 0), None);
    let last = 253_402_300_799_999_999_999u128;
    assert!(BootParameters::new(1, last).is_some());
    assert_eq!(BootParameters::new(1, last + 1), None);
    assert_eq!(BootParameters::new(1, u128::MAX), None);
}

#[test]
fn launched_guest_has_one_vcpu_on_the_boot_stack() {
    for extension in [HypervisorExtension::Vmx, HypervisorExtension::Svm] {
        let mut host = HostMemoryCell::new();
        set_host_memory(&mut host, Host);
        let mut pool = PagePool::new((1..40).map(|i| i * 0x1000).collect());
        let processor = Processor { extension, vmx_basic: 1 };
        let config = VmConfig { guest_base: 0x100_0000, guest_size: 0x40_0000 };
        let vm = launch(&host, &mut pool, processor, config, 0x8_0123).ok().unwrap();
        assert_eq!(vm.id(), 0);
        assert_eq!(vm.cpus().len(), 1);
        assert_eq!(vm.cpus()[0].id(), 0);
        assert_eq!(vm.cpus()[0].registers().rip, 0x8_0123);
        assert_eq!(vm.cpus()[0].registers().rsp, 0x7_0000);
    }
}

#[test]
fn launch_without_pages_for_the_vcpu_keeps_the_pool() {
    let mut host = HostMemoryCell::new();
    set_host_memory(&mut host, Host);
    let processor = Processor { extension: HypervisorExtension::Svm, vmx_basic: 0 };
    let config = VmConfig { guest_base: 0x100_0000, guest_size: 0x1000 };
    let mut pool = PagePool::new((1..14).map(|i| i * 0x1000).collect());
    let launched = launch(&host, &mut pool, processor, config, 0);
    assert_eq!(launched.err(), Some(HypervisorError::AllocationFailed));
    assert_eq!(pool.len(), 13);
}
