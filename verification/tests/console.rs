use rhyve::backend::ExitReason;
use rhyve::cpu::HypervisorExtension;
use rhyve::host::{set_host_memory, HostMemory, HostMemoryCell};
use rhyve::hypercall::{can_serve, is_hypercall_port, serve};
use rhyve::paging::PagePool;
use rhyve::uart::Uart;
use rhyve::vcpu::{Cpu, CpuConfig, Processor, RunStatus, VCpu};
use tokio::sync::mpsc::{unbounded_channel, UnboundedReceiver};
use uhyve_interface::v2::parameters::{
    CloseParams, LseekParams, OpenParams, ReadParams, SerialWriteBufferParams, UnlinkParams,
    WriteParams,
};

struct Host;

impl HostMemory for Host {
    fn translation(&self, vaddr: u64) -> Option<u64> {
        self.virtual_to_physical(vaddr)
    }

    fn virtual_to_physical(&self, vaddr: u64) -> Option<u64> {
        Some(vaddr)
    }
}

fn uart() -> (Uart, UnboundedReceiver<Vec<u8>>) {
    let (sender, receiver) = unbounded_channel();
    let mut uart = Uart::new();
    uart.set_sink(sender);
    (uart, receiver)
}

fn messages(receiver: &mut UnboundedReceiver<Vec<u8>>) -> Vec<Vec<u8>> {
    let mut all = Vec::new();
    while let Ok(message) = receiver.try_recv() {
        all.push(message);
    }
    all
}

fn cpus() -> Vec<Cpu> {
    let mut host = HostMemoryCell::new();
    set_host_memory(&mut host, Host);
    let mut pool = PagePool::new((1..20).map(|i| i * 0x1000).collect());
    let config = CpuConfig {
        nested_paging_pointer: 0x1000,
        apic_access_hpa: 0x2000,
        entry_point: 0x8_0000,
        stack_pointer: 0x7_0000,
    };
    [HypervisorExtension::Svm, HypervisorExtension::Vmx]
        .into_iter()
        .map(|extension| {
            let processor = Processor { extension, vmx_basic: 4 };
            Cpu::new(&host, &mut pool, processor, 1, 0, config).ok().unwrap()
        })
        .collect()
}

fn port_out(port: u64) -> ExitReason {
    ExitReason::IoInstruction(port << 16)
}

fn port_in(port: u64) -> ExitReason {
    ExitReason::IoInstruction((port << 16) | 8)
}

#[test]
fn uart_registers() {
    let mut uart = Uart::new();
    assert_eq!(uart.read(5), 0x60);
    assert_eq!(uart.read(6), 0xB0);
    assert_eq!(uart.read(0), 0);
    assert_eq!(uart.read(4), 0);
    assert_eq!(uart.read(7), 0);
    assert_eq!(uart.write(4, 0x0b), None);
    assert_eq!(uart.write(7, 0x55), None);
    assert_eq!(uart.write(1, 0xff), None);
    assert_eq!(uart.write(5, 0xff), None);
    assert_eq!(uart.read(4), 0x0b);
    assert_eq!(uart.read(7), 0x55);
    assert_eq!(uart.read(1), 0);
    assert_eq!(uart.read(5), 0x60);
    assert_eq!(uart.read(100), 0);
}

#[test]
fn uart_without_a_sink_swallows_output() {
    let mut uart = Uart::new();
    assert_eq!(uart.write(0, b'a'), Some(b'a'));
    uart.write_buffer(b"bc".to_vec());
}

#[test]
fn bytes_are_streamed_one_by_one() {
    let (mut uart, mut receiver) = uart();
    for byte in b"a\x1b[1mb\x07\n" {
        assert_eq!(uart.write(0, *byte), Some(*byte));
    }
    assert_eq!(messages(&mut receiver), vec![b"a".to_vec(), b"b".to_vec(), b"\n".to_vec()]);
}

#[test]
fn buffer_is_streamed_as_one_message() {
    let (mut uart, mut receiver) = uart();
    uart.write_buffer(b"\x1b[0;32mok\x1b[0m\r\n\tdone\x0c\x00".to_vec());
    assert_eq!(messages(&mut receiver), vec![b"ok\r\n\tdone".to_vec()]);
    // What is stripped altogether is an empty message.
    uart.write_buffer(b"\x1b[2J".to_vec());
    assert_eq!(messages(&mut receiver), vec![Vec::<u8>::new()]);
}

#[test]
fn escape_sequences_span_messages() {
    let (mut uart, mut receiver) = uart();
    uart.write_buffer(b"a\x1b".to_vec());
    uart.write_buffer(b"[3".to_vec());
    assert_eq!(uart.write(0, b'1'), Some(b'1'));
    uart.write_buffer(b"mb".to_vec());
    let stream: Vec<u8> = messages(&mut receiver).concat();
    assert_eq!(stream, b"ab");
}

#[test]
fn escape_without_a_bracket_takes_one_byte_with_it() {
    let (mut uart, mut receiver) = uart();
    uart.write_buffer(b"\x1bcx\x1b\x1by".to_vec());
    assert_eq!(messages(&mut receiver), vec![b"xy".to_vec()]);
}

#[test]
fn bytes_and_buffer_make_the_same_stream() {
    let text = b"x\x1b[1;2;3mhello\x08 w\x1b[Korld\xff\x7f\n";
    let (mut one, mut from_one) = uart();
    let (mut other, mut from_other) = uart();
    for byte in text {
        one.write(0, *byte);
    }
    other.write_buffer(text.to_vec());
    assert_eq!(messages(&mut from_one).concat(), messages(&mut from_other).concat());
}

#[test]
fn output_without_a_receiver_is_dropped() {
    let (mut uart, receiver) = uart();
    drop(receiver);
    assert_eq!(uart.write(0, b'a'), Some(b'a'));
    uart.write_buffer(b"b".to_vec());
}

#[test]
fn hypercall_ports() {
    let ports = [
        0x1010, 0x1020, 0x1030, 0x1040, 0x1050, 0x1100, 0x1110, 0x1120, 0x1130, 0x1140, 0x1150,
        0x1160, 0x1170, 0x1180, 0x1190, 0x1200, 0x1210,
    ];
    for port in 0..=u16::MAX {
        assert_eq!(is_hypercall_port(port), ports.contains(&port), "port {port:#x}");
    }
}

#[test]
fn parameter_blocks_are_those_of_the_interface() {
    // A block at the very end of the guest's memory is served.
    for (port, size) in [
        (0x1030, size_of::<SerialWriteBufferParams>()),
        (0x1100, size_of::<WriteParams>()),
        (0x1110, size_of::<OpenParams>()),
        (0x1120, size_of::<CloseParams>()),
        (0x1130, size_of::<ReadParams>()),
        (0x1140, size_of::<LseekParams>()),
        (0x1150, size_of::<UnlinkParams>()),
    ] {
        assert!(can_serve(port, 0, &vec![0u8; size]), "port {port:#x}");
    }
}

#[test]
fn only_what_is_accessed_has_to_be_in_the_guests_memory() {
    // Where the fields end that a hypercall accesses.
    for (port, end) in [
        (0x1030, 16),
        (0x1100, 28),
        (0x1110, 20),
        (0x1120, 8),
        (0x1130, 16),
        (0x1140, 8),
        (0x1150, 12),
    ] {
        let mut memory = vec![0u8; end];
        assert!(can_serve(port, 0, &memory), "port {port:#x}");
        assert!(!can_serve(port, 1, &memory), "port {port:#x}");
        assert!(!can_serve(port, u64::MAX, &memory), "port {port:#x}");
        serve(port, 0, &mut Uart::new(), &mut memory);
    }
    for port in [0x1010, 0x1020, 0x1040, 0x1050, 0x1160, 0x1170, 0x1180, 0x1190, 0x1200, 0x1210] {
        assert!(can_serve(port, u64::MAX, &[]));
    }
}

#[test]
fn empty_buffer_may_be_anywhere() {
    let (mut uart, mut receiver) = uart();
    let mut memory = vec![0u8; 0x100];
    write_params(&mut memory, 0x40, 0, u64::MAX, 1);
    assert!(can_serve(0x1100, 0x40, &memory));
    serve(0x1100, 0x40, &mut uart, &mut memory);
    assert_eq!(memory[0x48..0x50], 0i64.to_le_bytes());
    assert_eq!(messages(&mut receiver), vec![Vec::<u8>::new()]);
}

#[test]
fn serial_hypercalls_write_to_the_console() {
    let (mut uart, mut receiver) = uart();
    let mut memory = vec![0u8; 0x1000];
    assert!(can_serve(0x1020, 0x1_0041, &memory));
    serve(0x1020, 0x1_0041, &mut uart, &mut memory);
    assert_eq!(messages(&mut receiver), vec![b"A".to_vec()]);
    memory[0x100..0x108].copy_from_slice(&5u64.to_le_bytes());
    memory[0x108..0x110].copy_from_slice(&0x200u64.to_le_bytes());
    memory[0x200..0x205].copy_from_slice(b"hello");
    assert!(can_serve(0x1030, 0x100, &memory));
    serve(0x1030, 0x100, &mut uart, &mut memory);
    assert_eq!(messages(&mut receiver), vec![b"hello".to_vec()]);
}

fn write_params(memory: &mut [u8], at: usize, len: u64, buf: u64, fd: i32) {
    memory[at..at + 8].copy_from_slice(&len.to_le_bytes());
    memory[at + 8..at + 16].copy_from_slice(&77i64.to_le_bytes());
    memory[at + 16..at + 24].copy_from_slice(&buf.to_le_bytes());
    memory[at + 24..at + 28].copy_from_slice(&fd.to_le_bytes());
}

#[test]
fn file_write_reaches_the_console_for_standard_streams_only() {
    for fd in [1, 2] {
        let (mut uart, mut receiver) = uart();
        let mut memory = vec![0u8; 0x1000];
        write_params(&mut memory, 0x40, 3, 0x80, fd);
        memory[0x80..0x83].copy_from_slice(b"xyz");
        assert!(can_serve(0x1100, 0x40, &memory));
        serve(0x1100, 0x40, &mut uart, &mut memory);
        assert_eq!(messages(&mut receiver), vec![b"xyz".to_vec()]);
        assert_eq!(memory[0x48..0x50], 3i64.to_le_bytes());
    }
    for fd in [0, 3, -1] {
        let (mut uart, mut receiver) = uart();
        let mut memory = vec![0u8; 0x1000];
        write_params(&mut memory, 0x40, 3, 0x80, fd);
        assert!(can_serve(0x1100, 0x40, &memory));
        serve(0x1100, 0x40, &mut uart, &mut memory);
        assert!(messages(&mut receiver).is_empty());
        assert_eq!(memory[0x48..0x50], (-1i64).to_le_bytes());
    }
}

#[test]
fn host_file_io_is_refused() {
    // Port, offset and width of the result.
    for (port, offset, width) in [
        (0x1130, 8, 8),
        (0x1110, 16, 4),
        (0x1120, 4, 4),
        (0x1140, 0, 8),
        (0x1150, 8, 4),
    ] {
        let (mut uart, mut receiver) = uart();
        let mut memory = vec![0x11u8; 0x1000];
        assert!(can_serve(port, 0x100, &memory));
        serve(port, 0x100, &mut uart, &mut memory);
        for (i, byte) in memory.iter().enumerate() {
            let expected = if (0x100 + offset..0x100 + offset + width).contains(&i) {
                0xff
            } else {
                0x11
            };
            assert_eq!(*byte, expected, "port {port:#x}, byte {i:#x}");
        }
        assert!(messages(&mut receiver).is_empty());
    }
}

#[test]
fn other_hypercalls_are_ignored() {
    for port in [0x1040, 0x1050, 0x1160, 0x1170, 0x1180, 0x1190, 0x1200, 0x1210] {
        let (mut uart, mut receiver) = uart();
        let mut memory = vec![0x11u8; 0x100];
        assert!(can_serve(port, u64::MAX, &memory));
        serve(port, u64::MAX, &mut uart, &mut memory);
        assert!(memory.iter().all(|byte| *byte == 0x11));
        assert!(messages(&mut receiver).is_empty());
    }
}

#[test]
fn buffers_outside_of_the_guests_memory_are_not_served() {
    let mut memory = vec![0u8; 0x1000];
    write_params(&mut memory, 0x40, 3, 0xffe, 1);
    assert!(!can_serve(0x1100, 0x40, &memory));
    write_params(&mut memory, 0x40, u64::MAX, 1, 2);
    assert!(!can_serve(0x1100, 0x40, &memory));
    // The buffer of a refused write does not matter.
    write_params(&mut memory, 0x40, u64::MAX, 1, 3);
    assert!(can_serve(0x1100, 0x40, &memory));
    memory[0x100..0x108].copy_from_slice(&5u64.to_le_bytes());
    memory[0x108..0x110].copy_from_slice(&0xfffu64.to_le_bytes());
    assert!(!can_serve(0x1030, 0x100, &memory));
}

#[test]
fn exit_ports_end_the_run() {
    for cpu in &mut cpus() {
        let (mut uart, mut receiver) = uart();
        let mut memory = vec![0u8; 0x100];
        for port in [0xf4, 0x540, 0x1010] {
            let status = cpu.handle_exit(port_out(port), &mut uart, &mut memory);
            assert_eq!(status, RunStatus::Finished);
            let status = cpu.handle_exit(port_in(port), &mut uart, &mut memory);
            assert_eq!(status, RunStatus::Yield);
        }
        let status = cpu.handle_exit(ExitReason::Shutdown, &mut uart, &mut memory);
        assert_eq!(status, RunStatus::Finished);
        let status = cpu.handle_exit(ExitReason::Success, &mut uart, &mut memory);
        assert_eq!(status, RunStatus::Yield);
        assert!(messages(&mut receiver).is_empty());
    }
}

#[test]
fn serial_port_is_emulated() {
    for cpu in &mut cpus() {
        let (mut uart, mut receiver) = uart();
        let mut memory = vec![0u8; 0x100];
        cpu.registers_mut().rax = 0x1122_3344_5566_7748;
        let status = cpu.handle_exit(port_out(0x800), &mut uart, &mut memory);
        assert_eq!(status, RunStatus::Yield);
        assert_eq!(messages(&mut receiver), vec![b"H".to_vec()]);
        let status = cpu.handle_exit(port_in(0x805), &mut uart, &mut memory);
        assert_eq!(status, RunStatus::Yield);
        assert_eq!(cpu.registers().rax, 0x1122_3344_5566_7760);
        cpu.registers_mut().rax = 0xab;
        assert_eq!(
            cpu.handle_exit(port_out(0x807), &mut uart, &mut memory),
            RunStatus::Yield
        );
        cpu.registers_mut().rax = u64::MAX;
        assert_eq!(
            cpu.handle_exit(port_in(0x807), &mut uart, &mut memory),
            RunStatus::Yield
        );
        assert_eq!(cpu.registers().rax, 0xffff_ffff_ffff_ffab);
    }
}

#[test]
fn other_ports_read_as_zero_and_swallow_writes() {
    for cpu in &mut cpus() {
        let (mut uart, mut receiver) = uart();
        let mut memory = vec![0u8; 0x100];
        for port in [0x7ff, 0x808, 0x3f8, 0xffff] {
            cpu.registers_mut().rax = 0xffff;
            let status = cpu.handle_exit(port_out(port), &mut uart, &mut memory);
            assert_eq!(status, RunStatus::Yield);
            let status = cpu.handle_exit(port_in(port), &mut uart, &mut memory);
            assert_eq!(status, RunStatus::Yield);
            assert_eq!(cpu.registers().rax, 0xff00);
        }
        assert!(messages(&mut receiver).is_empty());
    }
}

#[test]
fn hypercalls_take_their_argument_from_rdi() {
    for cpu in &mut cpus() {
        let (mut uart, mut receiver) = uart();
        let mut memory = vec![0u8; 0x100];
        cpu.registers_mut().rdi = 0x5a;
        cpu.registers_mut().rax = 0x41;
        let status = cpu.handle_exit(port_out(0x1020), &mut uart, &mut memory);
        assert_eq!(status, RunStatus::Resume);
        assert_eq!(messages(&mut receiver), vec![b"Z".to_vec()]);
        cpu.registers_mut().rdi = 0x1000;
        let status = cpu.try_handle_exit(port_out(0x1130), &mut uart, &mut memory);
        assert_eq!(status, None);
        assert!(memory.iter().all(|byte| *byte == 0));
        cpu.registers_mut().rdi = 0;
        let status = cpu.try_handle_exit(port_out(0x1130), &mut uart, &mut memory);
        assert_eq!(status, Some(RunStatus::Resume));
        assert_eq!(memory[8..16], (-1i64).to_le_bytes());
        let status = cpu.try_handle_exit(port_out(0xf4), &mut uart, &mut memory);
        assert_eq!(status, Some(RunStatus::Finished));
    }
}
