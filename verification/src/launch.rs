//! Booting a guest.
//!
//! The embedder allocates the guest's memory, clears it, loads the kernel image into
//! it at [`KERNEL_OFFSET`](crate::boot::KERNEL_OFFSET) and stores the boot information
//! it makes from [`BootParameters`]; the rest of what the guest boots with is prepared
//! here, as is the virtual machine it runs in.

use vstd::prelude::*;

use crate::backend::VcpuBackend;
use crate::boot;
use crate::boot::{
    init_guest_memory, BOOT_END, BOOT_STACK_TOP, FDT_OFFSET, GUEST_SIZE, KERNEL_OFFSET,
};
use crate::bytes;
use crate::error::HypervisorError;
use crate::fdt;
use crate::fdt::guest_fdt;
use crate::host::{HostMemory, HostMemoryCell};
use crate::paging::PagePool;
use crate::vcpu;
use crate::vcpu::{CpuConfig, Processor, SERIAL_BASE};
use crate::vm;
use crate::vm::{VirtualMachine, Vm, VmConfig, VmState};
use crate::vmx::run;

verus! {

/// The first second that a point in time can be in: the start of the year -9999.
pub const FIRST_SECOND: i64 = -377_705_116_800;

/// The last second that a point in time can be in: the end of the year 9999.
pub const LAST_SECOND: i64 = 253_402_300_799;

/// Whether nanoseconds since the Unix epoch are a point in time.
pub open spec fn is_timestamp(nanos: i128) -> bool {
    FIRST_SECOND <= nanos as int / 1_000_000_000 <= LAST_SECOND
}

/// `OffsetDateTime::from_unix_timestamp_nanos` of `time`: whether it makes a point in
/// time of the nanoseconds since the Unix epoch. It does for the years from -9999 to
/// 9999.
#[verifier::external_body]
fn makes_timestamp(nanos: i128) -> (made: bool)
    ensures
        made == is_timestamp(nanos),
{
    time::OffsetDateTime::from_unix_timestamp_nanos(nanos).is_ok()
}

/// What the guest's kernel is told about the machine, besides where it was loaded.
#[derive(Debug, Clone, Copy, PartialEq, Eq)]
pub struct BootParameters {
    /// The guest's memory is from zero up to this address.
    pub memory_end: u64,
    /// I/O port base of the serial port.
    pub serial_port_base: u16,
    /// Guest-physical address of the device tree.
    pub device_tree: u64,
    /// Whether there is a PCI bus.
    pub has_pci: bool,
    /// Number of vCPUs.
    pub num_cpus: u64,
    /// Frequency of the processor in kHz; not zero.
    pub cpu_freq: u32,
    /// The time of the boot, in nanoseconds since the Unix epoch; a point in time.
    pub boot_time: i128,
}

impl BootParameters {
    /// The parameters on a processor with the given frequency in MHz, at the given time
    /// in nanoseconds since the Unix epoch. There are none where the frequency is not
    /// known (zero) or the time is not a point in time.
    pub fn new(cpu_mhz: u16, unix_nanos: u128) -> (parameters: Option<Self>)
        ensures
            parameters == (if cpu_mhz != 0 && unix_nanos <= i128::MAX && is_timestamp(
                unix_nanos as i128,
            ) {
                Some(
                    BootParameters {
                        memory_end: GUEST_SIZE as u64,
                        serial_port_base: SERIAL_BASE,
                        device_tree: FDT_OFFSET,
                        has_pci: false,
                        num_cpus: 1,
                        cpu_freq: (cpu_mhz * 1000) as u32,
                        boot_time: unix_nanos as i128,
                    },
                )
            } else {
                None
            }),
            parameters matches Some(p) ==> p.memory_end == 256 * 1024 * 1024 && p.serial_port_base
                == 0x800 && p.device_tree == 0x5000 && p.cpu_freq == 1000 * cpu_mhz,
    {
        if cpu_mhz == 0 || unix_nanos > 0x7FFF_FFFF_FFFF_FFFF_FFFF_FFFF_FFFF_FFFF {
            return None;
        }
        let boot_time = unix_nanos as i128;
        if !makes_timestamp(boot_time) {
            return None;
        }
        Some(
            BootParameters {
                memory_end: GUEST_SIZE as u64,
                serial_port_base: SERIAL_BASE,
                device_tree: FDT_OFFSET,
                has_pci: false,
                num_cpus: 1,
                cpu_freq: cpu_mhz as u32 * 1000,
                boot_time,
            },
        )
    }
}

/// Where in the guest's memory a kernel of `mem_size` bytes is loaded, or `None` where
/// it does not fit.
pub fn kernel_range(memory_len: usize, mem_size: usize) -> (range: Option<(usize, usize)>)
    ensures
        range == (if KERNEL_OFFSET + mem_size <= memory_len {
            Some((KERNEL_OFFSET as usize, (KERNEL_OFFSET + mem_size) as usize))
        } else {
            None
        }),
        range is Some <==> 0x8_0000 + mem_size <= memory_len,
        range matches Some(r) ==> r.0 == 0x8_0000 && r.1 - r.0 == mem_size,
{
    let start: usize = KERNEL_OFFSET as usize;
    if memory_len < start || memory_len - start < mem_size {
        return None;
    }
    Some((start, start + mem_size))
}

/// The guest's memory after [`prepare_guest`] has been through with it.
pub open spec fn prepared(before: Seq<u8>, now: Seq<u8>) -> bool {
    let tree = fdt::blob(fdt::guest_parts(before.len() as u64));
    &&& now.len() == before.len()
    &&& boot::has_boot_gdt(now)
    &&& boot::has_boot_tables(now)
    &&& tree.len() <= fdt::MAX_GUEST_TREE
    &&& forall|i: int|
        0 <= i < now.len() && !boot::is_boot_byte(i) ==> #[trigger] now[i] == bytes::overlay(
            before,
            FDT_OFFSET as int,
            tree,
        )[i]
}

/// Stores the device tree of a guest with this memory at [`FDT_OFFSET`], and the boot
/// GDT and page tables.
pub fn prepare_guest(memory: &mut [u8])
    requires
        BOOT_END <= old(memory)@.len(),
    ensures
        prepared(old(memory)@, final(memory)@),
{
    let length: usize = memory.len();
    let tree = match guest_fdt(length as u64) {
        Ok(tree) => tree,
        Err(_) => {
            // The device tree of a guest can always be made.
            assert(false);
            return;
        },
    };
    bytes::copy_in(memory, FDT_OFFSET as usize, tree.as_slice());
    init_guest_memory(memory);
}

/// What the guest boots with does not get in each other's way. In the prepared memory
/// the device tree is found as it was made, from 0x5000 on and below the boot information
/// at 0x9000. But for it, the 24 bytes of the GDT at 0x1000 and the three pages of tables
/// at 0x1_0000, the memory is what it was, as it is in particular at the boot information
/// and from 0x1_3000 on, where the kernel is loaded.
pub proof fn law_preparation_keeps_clear(before: Seq<u8>, now: Seq<u8>, i: int)
    requires
        BOOT_END <= before.len(),
        prepared(before, now),
        0 <= i < before.len(),
    ensures
        ({
            let tree = fdt::blob(fdt::guest_parts(before.len() as u64));
            &&& now.len() == before.len()
            &&& 0x5000 + tree.len() <= 0x9000
            &&& 0x5000 <= i < 0x5000 + tree.len() ==> now[i] == tree[i - 0x5000]
            &&& !(0x5000 <= i < 0x5000 + tree.len()) && !(0x1000 <= i < 0x1018) && !(0x1_0000 <= i
                < 0x1_3000) ==> now[i] == before[i]
            &&& 0x9000 <= i < 0x1_0000 ==> now[i] == before[i]
            &&& 0x1_3000 <= i ==> now[i] == before[i]
            &&& boot::has_boot_gdt(now) && boot::has_boot_tables(now)
        }),
{
}

/// A time is a point in time exactly if it is in the years from -9999 to 9999: not before
/// 377705116800 seconds before the epoch, and before 253402300800 seconds after it.
pub proof fn law_points_in_time(nanos: i128)
    ensures
        is_timestamp(nanos) <==> -377_705_116_800 * 1_000_000_000 <= nanos < 253_402_300_800
            * 1_000_000_000,
{
}

/// Creates the virtual machine of a guest, with one vCPU that starts at `entry_point`
/// with the boot stack. Where that takes more than the pool or the host's translation
/// have, the pool keeps its pages.
pub fn launch<H: HostMemory>(
    host: &HostMemoryCell<H>,
    pool: &mut PagePool,
    processor: Processor,
    config: VmConfig,
    entry_point: u64,
) -> (launched: Result<Vm, HypervisorError>)
    requires
        host.registered() is Some,
        config.valid(),
    ensures
        launchable(*host, old(pool)@, processor, config) ==> {
            let made = vm::layout(
                *host,
                vm::flags_of(processor.extension),
                old(pool)@,
                config,
            )->0;
            let boot = CpuConfig {
                nested_paging_pointer: host.translates(made.tables.pml4.vaddr)->0
                    | vm::pointer_bits_of(processor.extension),
                apic_access_hpa: made.apic.hpa,
                entry_point,
                stack_pointer: BOOT_STACK_TOP,
            };
            &&& launched matches Ok(v) && v@ == (VmState {
                id: 0,
                processor,
                tables: made.tables,
                flags: vm::flags_of(processor.extension),
                pointer_bits: vm::pointer_bits_of(processor.extension),
                apic_page: made.apic.vaddr,
                ioapic_page: made.ioapic.vaddr,
                apic_access_hpa: made.apic.hpa,
                cpus: v@.cpus,
            }) && v@.cpus.len() == 1 && v@.cpus[0]@.id == 0 && v@.cpus[0]@.vm_id == 0
                && v@.cpus[0]@.backend.captured() == run::boot_registers(
                0,
                entry_point,
                BOOT_STACK_TOP,
            ) && vcpu::created(*host, made.pool, processor, 0, boot, v@.cpus[0]@.backend)
            &&& final(pool)@ == made.pool.take(
                made.pool.len() - vcpu::pages_of(processor.extension),
            )
        },
        !launchable(*host, old(pool)@, processor, config) ==> {
            &&& launched matches Err(e) && e == HypervisorError::AllocationFailed
            &&& final(pool)@ == old(pool)@
        },
        launched matches Ok(v) ==> v@.cpus[0]@.backend.captured().rsp == 0x7_0000
            && v@.cpus[0]@.backend.captured().rip == entry_point,
{
    let mut work = pool.duplicate();
    let mut machine = match <Vm as VirtualMachine>::new(host, &mut work, processor, 0, config) {
        Ok(machine) => machine,
        Err(error) => return Err(error),
    };
    match machine.create_cpu(host, &mut work, entry_point, BOOT_STACK_TOP) {
        Ok(_) => {},
        Err(error) => return Err(error),
    }
    *pool = work;
    Ok(machine)
}

/// Whether the pool and the host's translation have what a virtual machine with one
/// vCPU takes.
pub open spec fn launchable<H: HostMemory>(
    host: HostMemoryCell<H>,
    pool: Seq<u64>,
    processor: Processor,
    config: VmConfig,
) -> bool {
    match vm::layout(host, vm::flags_of(processor.extension), pool, config) {
        Some(made) => host.translates(made.tables.pml4.vaddr) is Some && vcpu::can_create(
            host,
            made.pool,
            processor.extension,
        ),
        None => false,
    }
}

} // verus!
