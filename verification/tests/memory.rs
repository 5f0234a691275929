use rhyve::bytes::{copy_in, read_le, write_le};
use rhyve::error::HypervisorError;
use rhyve::fpu::{FpuState, FPU_STATE_SIZE, MXCSR_OFFSET, XSTATE_BV_OFFSET};
use rhyve::host::{
    host_physical, set_host_memory, virtual_to_physical, HostMemory, HostMemoryCell,
};
use rhyve::text::render;

struct Shifted(u64);

impl HostMemory for Shifted {
    fn translation(&self, vaddr: u64) -> Option<u64> {
        self.virtual_to_physical(vaddr)
    }

    fn virtual_to_physical(&self, vaddr: u64) -> Option<u64> {
        if vaddr == 0 {
            None
        } else {
            Some(vaddr + self.0)
        }
    }
}

#[test]
fn fields_are_little_endian() {
    let mut memory = [0u8; 16];
    write_le(&mut memory, 3, 8, 0x0102_0304_0506_0708);
    assert_eq!(&memory[3..11], &[8, 7, 6, 5, 4, 3, 2, 1]);
    assert_eq!(memory[2], 0);
    assert_eq!(memory[11], 0);
    assert_eq!(read_le(&memory, 3, 8), 0x0102_0304_0506_0708);
    assert_eq!(read_le(&memory, 3, 4), 0x0506_0708);
    assert_eq!(read_le(&memory, 3, 2), 0x0708);
    assert_eq!(read_le(&memory, 3, 1), 0x08);
    assert_eq!(read_le(&memory, 3, 0), 0);
}

#[test]
fn field_write_and_read_back() {
    let mut memory = vec![0xEEu8; 32];
    for width in [1usize, 2, 4, 8] {
        let value = if width == 8 { u64::MAX } else { (1u64 << (8 * width)) - 1 };
        write_le(&mut memory, 8, width, value);
        assert_eq!(read_le(&memory, 8, width), value);
    }
    assert_eq!(memory[7], 0xEE);
    assert_eq!(memory[16], 0xEE);
}

#[test]
fn bytes_are_copied_to_their_place_only() {
    let mut memory = [9u8; 8];
    copy_in(&mut memory, 2, &[1, 2, 3]);
    assert_eq!(memory, [9, 9, 1, 2, 3, 9, 9, 9]);
    copy_in(&mut memory, 8, &[]);
    assert_eq!(memory, [9, 9, 1, 2, 3, 9, 9, 9]);
}

#[test]
fn numbers_are_rendered_without_leading_zeros() {
    assert_eq!(render(0, 10), "0");
    assert_eq!(render(1234567890, 10), "1234567890");
    assert_eq!(render(u64::MAX, 10), "18446744073709551615");
    assert_eq!(render(0xdead_beef, 16), "deadbeef");
    assert_eq!(render(0x10, 16), "10");
    assert_eq!(render(u64::MAX, 16), "ffffffffffffffff");
}

#[test]
fn host_memory_is_registered_once() {
    let mut cell = HostMemoryCell::new();
    assert!(!cell.is_registered());
    set_host_memory(&mut cell, Shifted(0x1000));
    assert!(cell.is_registered());
    assert_eq!(virtual_to_physical(&cell, 0x10), Some(0x1010));
    set_host_memory(&mut cell, Shifted(0x2000));
    assert_eq!(virtual_to_physical(&cell, 0x10), Some(0x1010));
}

#[test]
fn unmapped_address_counts_as_failed_allocation() {
    let mut cell = HostMemoryCell::new();
    set_host_memory(&mut cell, Shifted(0x1000));
    assert_eq!(virtual_to_physical(&cell, 0), None);
    assert_eq!(host_physical(&cell, 0), Err(HypervisorError::AllocationFailed));
    assert_eq!(host_physical(&cell, 1), Ok(0x1001));
}

#[test]
fn error_messages() {
    assert_eq!(HypervisorError::IoError(5).message(), "IO error");
    assert_eq!(HypervisorError::ParseError.message(), "Unable to parse ELF file");
    assert_eq!(HypervisorError::CPUUnsupported.message(), "Intel CPU not found");
    assert_eq!(HypervisorError::VMXUnsupported.message(), "VMX is not supported");
    assert_eq!(HypervisorError::VMCLEARFailed.message(), "Failed to execute VMCLEAR");
    assert_eq!(HypervisorError::VMREADFailed.message(), "Failed to execute VMREAD");
    assert_eq!(HypervisorError::VMWRITEFailed.message(), "Failed to execute VMWRITE");
    assert_eq!(
        HypervisorError::VMEntryFailed(7).message(),
        "Failed to execute VMLAUNCH/VMRESUME (VM-instruction error 7)"
    );
    assert_eq!(
        HypervisorError::VMEntryFailed(0).message(),
        "Failed to execute VMLAUNCH/VMRESUME (VM-instruction error 0)"
    );
    assert_eq!(HypervisorError::AllocationFailed.message(), "Failed to allocate memory");
    assert_eq!(HypervisorError::VmUnsupported.message(), "Hardware support is missing");
    assert_eq!(
        HypervisorError::UnknownVMExitReason.message(),
        "Unknown VM exit basic reason"
    );
}

#[test]
fn fpu_scratch_is_zero() {
    let state = FpuState::scratch();
    for i in 0..FPU_STATE_SIZE {
        assert_eq!(state.area()[i], 0);
    }
}

#[test]
fn fpu_guest_state_has_mxcsr_at_its_reset_value() {
    let state = FpuState::init_guest();
    assert_eq!(state.area()[MXCSR_OFFSET], 0x80);
    assert_eq!(state.area()[MXCSR_OFFSET + 1], 0x1F);
    for i in 0..FPU_STATE_SIZE {
        if i != MXCSR_OFFSET && i != MXCSR_OFFSET + 1 {
            assert_eq!(state.area()[i], 0);
        }
    }
    assert_eq!(state.area()[XSTATE_BV_OFFSET], 0);
}

#[test]
fn fpu_state_is_replaced_by_what_was_saved() {
    let mut state = FpuState::scratch();
    let mut area = [0u8; 4096];
    area[100] = 7;
    state.load(area);
    assert_eq!(state.area()[100], 7);
    assert_eq!(state.area()[99], 0);
}
