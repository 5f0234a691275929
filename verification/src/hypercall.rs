//! The uhyve hypercall interface (<https://github.com/hermit-os/uhyve>).
//!
//! The guest writes to a port that names the hypercall; the argument, in RDI, is
//! either a scalar or the guest-physical address of a parameter block in the guest's
//! memory. Only the console is there for the guest: host file I/O is refused.

use vstd::prelude::*;

use crate::bytes;
use crate::uart::{Uart, UartState};

verus! {

// Port addresses of the hypercalls that are acted on.

/// Exit the VM.
pub const EXIT: u16 = 0x1010;

/// Write a byte to the console.
pub const SERIAL_WRITE_BYTE: u16 = 0x1020;

/// Write a buffer to the console.
pub const SERIAL_WRITE_BUFFER: u16 = 0x1030;

/// Write to a file.
pub const FILE_WRITE: u16 = 0x1100;

/// Open a file.
pub const FILE_OPEN: u16 = 0x1110;

/// Close a file.
pub const FILE_CLOSE: u16 = 0x1120;

/// Read from a file.
pub const FILE_READ: u16 = 0x1130;

/// Move the position in a file.
pub const FILE_LSEEK: u16 = 0x1140;

/// Remove a file.
pub const FILE_UNLINK: u16 = 0x1150;

/// Whether a port is that of a hypercall. Besides those acted on there are console
/// input (`0x1040`, `0x1050`), directories and file metadata (`0x1160` to `0x1190`)
/// and shared memory (`0x1200`, `0x1210`).
pub open spec fn is_hypercall(port: u16) -> bool {
    ||| port == EXIT
    ||| port == SERIAL_WRITE_BYTE
    ||| port == SERIAL_WRITE_BUFFER
    ||| port == 0x1040
    ||| port == 0x1050
    ||| port == FILE_WRITE
    ||| port == FILE_OPEN
    ||| port == FILE_CLOSE
    ||| port == FILE_READ
    ||| port == FILE_LSEEK
    ||| port == FILE_UNLINK
    ||| port == 0x1160
    ||| port == 0x1170
    ||| port == 0x1180
    ||| port == 0x1190
    ||| port == 0x1200
    ||| port == 0x1210
}

/// `HypercallAddress::try_from` of `uhyve_interface`: the address of the hypercall at
/// a port, if there is one.
#[verifier::external_body]
fn hypercall_address(port: u16) -> (address: Option<u64>)
    ensures
        address == (if is_hypercall(port) {
            Some(port as u64)
        } else {
            None
        }),
{
    match uhyve_interface::v2::HypercallAddress::try_from(port as u64) {
        Ok(address) => Some(address as u64),
        Err(_) => None,
    }
}

/// Tells whether a port is that of a hypercall.
pub fn is_hypercall_port(port: u16) -> (known: bool)
    ensures
        known == is_hypercall(port),
{
    hypercall_address(port).is_some()
}

/// Whether `len` bytes from the guest-physical address `gpa` on are in the guest's
/// memory.
pub open spec fn in_guest(memory: Seq<u8>, gpa: u64, len: nat) -> bool {
    gpa + len <= memory.len()
}

/// Whether a buffer is in the guest's memory; an empty one is, wherever it is said to
/// be.
pub open spec fn buffer_in_guest(memory: Seq<u8>, buf: nat, len: nat) -> bool {
    len == 0 || buf + len <= memory.len()
}

/// The bytes of a buffer in the guest's memory.
pub open spec fn buffer_at(memory: Seq<u8>, buf: nat, len: nat) -> Seq<u8> {
    if len == 0 {
        Seq::empty()
    } else {
        memory.subrange(buf as int, (buf + len) as int)
    }
}

/// Whether all that a hypercall accesses is in the guest's memory: the fields of the
/// parameter block that are read or written, and the buffer that is written to the
/// console.
pub open spec fn reaches(port: u16, data: u64, memory: Seq<u8>) -> bool {
    if port == SERIAL_WRITE_BUFFER {
        let len = bytes::field(memory, data as int, 8);
        let buf = bytes::field(memory, data + 8, 8);
        in_guest(memory, data, 16) && buffer_in_guest(memory, buf, len)
    } else if port == FILE_WRITE {
        let len = bytes::field(memory, data as int, 8);
        let buf = bytes::field(memory, data + 16, 8);
        let fd = bytes::field(memory, data + 24, 4);
        in_guest(memory, data, 28) && (fd == 1 || fd == 2 ==> buffer_in_guest(memory, buf, len))
    } else {
        match result_field(port) {
            Some((offset, width)) => in_guest(memory, data, offset + width),
            None => true,
        }
    }
}

/// The offset and the width of the result field of a request for host file I/O.
pub open spec fn result_field(port: u16) -> Option<(nat, nat)> {
    if port == FILE_WRITE || port == FILE_READ {
        Some((8, 8))
    } else if port == FILE_OPEN {
        Some((16, 4))
    } else if port == FILE_CLOSE {
        Some((4, 4))
    } else if port == FILE_LSEEK {
        Some((0, 8))
    } else if port == FILE_UNLINK {
        Some((8, 4))
    } else {
        None
    }
}

/// What a hypercall leads to: the UART and the guest's memory after it.
pub open spec fn served(port: u16, data: u64, uart: UartState, memory: Seq<u8>) -> (
    UartState,
    Seq<u8>,
) {
    if port == SERIAL_WRITE_BYTE {
        (uart.after_buffer(seq![data as u8]), memory)
    } else if port == SERIAL_WRITE_BUFFER {
        let len = bytes::field(memory, data as int, 8);
        let buf = bytes::field(memory, data + 8, 8);
        (uart.after_buffer(buffer_at(memory, buf, len)), memory)
    } else if port == FILE_WRITE && is_console(memory, data) {
        let len = bytes::field(memory, data as int, 8);
        let buf = bytes::field(memory, data + 16, 8);
        (
            uart.after_buffer(buffer_at(memory, buf, len)),
            bytes::overlay(memory, data + 8, bytes::le_bytes(len, 8)),
        )
    } else {
        match result_field(port) {
            Some((offset, width)) => (uart, refused(memory, data, offset as int, width)),
            None => (uart, memory),
        }
    }
}

/// Whether the parameter block of a write to a file says that the file is the standard
/// output or error.
pub open spec fn is_console(memory: Seq<u8>, data: u64) -> bool {
    let fd = bytes::field(memory, data + 24, 4);
    fd == 1 || fd == 2
}

/// The guest's memory after a request for host file I/O has been refused: the result
/// field of its parameter block, `width` bytes at `offset`, says minus one.
pub open spec fn refused(memory: Seq<u8>, data: u64, offset: int, width: nat) -> Seq<u8> {
    bytes::overlay(
        memory,
        data + offset,
        bytes::le_bytes((bytes::span(width) - 1) as nat, width),
    )
}

/// Tells whether a range is in memory of the given length.
fn fits(start: u64, len: u64, memory_len: usize) -> (fits: bool)
    ensures
        fits == (start + len <= memory_len),
{
    let total = memory_len as u64;
    start <= total && len <= total - start
}

/// Copies a buffer out of the guest's memory.
fn copy_out(memory: &[u8], start: u64, len: u64) -> (data: Vec<u8>)
    requires
        buffer_in_guest(memory@, start as nat, len as nat),
    ensures
        data@ == buffer_at(memory@, start as nat, len as nat),
{
    let mut data: Vec<u8> = Vec::new();
    if len == 0 {
        return data;
    }
    let length: usize = memory.len();
    let from: usize = start as usize;
    let count: usize = len as usize;
    let mut i: usize = 0;
    while i < count
        invariant
            i <= count,
            from + count <= memory@.len() == length,
            data@ =~= memory@.subrange(from as int, from + i),
        decreases count - i,
    {
        data.push(memory[from + i]);
        i = i + 1;
    }
    data
}

/// Refuses a request for host file I/O: stores minus one in the `width` bytes at
/// `offset` of the parameter block.
fn refuse(memory: &mut [u8], data: u64, offset: usize, width: usize)
    requires
        in_guest(old(memory)@, data, (offset + width) as nat),
        width == 4 || width == 8,
    ensures
        final(memory)@ == refused(old(memory)@, data, offset as int, width as nat),
{
    proof {
        bytes::lemma_spans();
    }
    // Addresses in the guest's memory fit in `usize`, as its length does.
    let _length: usize = memory.len();
    let value: u64 = if width == 4 {
        0xFFFF_FFFF
    } else {
        0xFFFF_FFFF_FFFF_FFFF
    };
    bytes::write_le(memory, data as usize + offset, width, value);
}

/// Tells whether all that a hypercall accesses is in the guest's memory.
pub fn can_serve(port: u16, data: u64, memory: &[u8]) -> (can: bool)
    ensures
        can == reaches(port, data, memory@),
{
    let total: usize = memory.len();
    if port == SERIAL_WRITE_BUFFER {
        if !fits(data, 16, total) {
            return false;
        }
        let block = data as usize;
        let len = bytes::read_le(memory, block, 8);
        let buf = bytes::read_le(memory, block + 8, 8);
        len == 0 || fits(buf, len, total)
    } else if port == FILE_WRITE {
        if !fits(data, 28, total) {
            return false;
        }
        let block = data as usize;
        let len = bytes::read_le(memory, block, 8);
        let buf = bytes::read_le(memory, block + 16, 8);
        let fd = bytes::read_le(memory, block + 24, 4);
        (fd != 1 && fd != 2) || len == 0 || fits(buf, len, total)
    } else if port == FILE_READ {
        fits(data, 16, total)
    } else if port == FILE_OPEN {
        fits(data, 20, total)
    } else if port == FILE_CLOSE {
        fits(data, 8, total)
    } else if port == FILE_LSEEK {
        fits(data, 8, total)
    } else if port == FILE_UNLINK {
        fits(data, 12, total)
    } else {
        true
    }
}

/// Serves a hypercall other than [`EXIT`].
///
/// Console output goes to the UART, as does what is written to the standard output
/// (1) and error (2) descriptors, which counts as written in full. Any other request
/// for host file I/O is reported to the guest as failed, so that it fails gracefully
/// instead of hanging. There is no console input and no shared memory; what asks for
/// those is ignored. What the hypercall accesses has to be in the guest's memory, which
/// [`can_serve`] tells.
pub fn serve(port: u16, data: u64, uart: &mut Uart, memory: &mut [u8])
    requires
        reaches(port, data, old(memory)@),
    ensures
        (final(uart)@, final(memory)@) == served(port, data, old(uart)@, old(memory)@),
{
    // Addresses in the guest's memory fit in `usize`, as its length does.
    let _length: usize = memory.len();
    if port == SERIAL_WRITE_BYTE {
        let mut buffer: Vec<u8> = Vec::new();
        buffer.push(data as u8);
        assert(buffer@ =~= seq![data as u8]);
        uart.write_buffer(buffer);
    } else if port == SERIAL_WRITE_BUFFER {
        let block = data as usize;
        let len = bytes::read_le(memory, block, 8);
        let buf = bytes::read_le(memory, block + 8, 8);
        uart.write_buffer(copy_out(memory, buf, len));
    } else if port == FILE_WRITE {
        let block = data as usize;
        let len = bytes::read_le(memory, block, 8);
        let buf = bytes::read_le(memory, block + 16, 8);
        let fd = bytes::read_le(memory, block + 24, 4);
        if fd == 1 || fd == 2 {
            uart.write_buffer(copy_out(memory, buf, len));
            proof {
                bytes::lemma_spans();
            }
            bytes::write_le(memory, block + 8, 8, len);
        } else {
            refuse(memory, data, 8, 8);
        }
    } else if port == FILE_READ {
        refuse(memory, data, 8, 8);
    } else if port == FILE_OPEN {
        refuse(memory, data, 16, 4);
    } else if port == FILE_CLOSE {
        refuse(memory, data, 4, 4);
    } else if port == FILE_LSEEK {
        refuse(memory, data, 0, 8);
    } else if port == FILE_UNLINK {
        refuse(memory, data, 8, 4);
    }
    // No console input and no shared memory.
}

/// The guest finds minus one in the result field of a request for host file I/O, unless
/// it is a write to the console; nothing else in its memory changes, and nothing is
/// written to the console.
pub proof fn law_refusal_is_reported(port: u16, data: u64, uart: UartState, memory: Seq<u8>)
    requires
        result_field(port) is Some,
        reaches(port, data, memory),
        port == FILE_WRITE ==> !is_console(memory, data),
    ensures
        ({
            let (offset, width) = result_field(port)->0;
            let (after, changed) = served(port, data, uart, memory);
            &&& after == uart
            &&& changed.len() == memory.len()
            &&& bytes::field(changed, data + offset, width) == bytes::span(width) - 1
            &&& forall|i: int|
                0 <= i < memory.len() && !(data + offset <= i < data + offset + width)
                    ==> #[trigger] changed[i] == memory[i]
        }),
{
    let (offset, width) = result_field(port)->0;
    bytes::lemma_spans();
    bytes::lemma_le_round_trip((bytes::span(width) - 1) as nat, width);
    bytes::lemma_field_of_overlay(memory, data + offset, (bytes::span(width) - 1) as nat, width);
}

/// A write to the standard output or error is reported as written in full, and what
/// reaches the UART is the buffer.
pub proof fn law_console_write_is_complete(data: u64, uart: UartState, memory: Seq<u8>)
    requires
        reaches(FILE_WRITE, data, memory),
        is_console(memory, data),
    ensures
        ({
            let len = bytes::field(memory, data as int, 8);
            let buf = bytes::field(memory, data + 16, 8);
            let (after, changed) = served(FILE_WRITE, data, uart, memory);
            &&& after == uart.after_buffer(buffer_at(memory, buf, len))
            &&& bytes::field(changed, data + 8, 8) == len
        }),
{
    let len = bytes::field(memory, data as int, 8);
    bytes::lemma_spans();
    bytes::lemma_le_value_bound(memory.subrange(data as int, data + 8));
    bytes::lemma_field_of_overlay(memory, data + 8, len, 8);
}

/// The bytes from an address in the guest's memory on.
pub open spec fn bytes_at(memory: Seq<u8>, start: nat, len: nat) -> Seq<u8> {
    Seq::new(len, |i: int| memory[start + i])
}

/// Writing a byte to the console (port 0x1020) sends the low byte of the argument, and
/// needs nothing of the guest's memory.
pub proof fn law_serial_write_byte(data: u64, uart: UartState, memory: Seq<u8>)
    ensures
        reaches(0x1020, data, memory),
        served(0x1020, data, uart, memory) == (
            uart.after_buffer(seq![(data % 0x100) as u8]),
            memory,
        ),
{
    bytes::lemma_bits(data);
}

/// Writing a buffer to the console (port 0x1030) takes a block of the length and the
/// address of the buffer, each of eight bytes. It can be served exactly if the block and
/// the buffer are in the guest's memory; what reaches the UART is the buffer, and the
/// guest's memory stays as it is.
pub proof fn law_serial_write_buffer(data: u64, uart: UartState, memory: Seq<u8>)
    ensures
        ({
            let len = bytes::field(memory, data as int, 8);
            let buf = bytes::field(memory, data + 8, 8);
            &&& reaches(0x1030, data, memory) <==> data + 16 <= memory.len() && (len == 0 || buf
                + len <= memory.len())
            &&& reaches(0x1030, data, memory) ==> served(0x1030, data, uart, memory) == (
                uart.after_buffer(bytes_at(memory, buf, len)),
                memory,
            )
        }),
{
    let len = bytes::field(memory, data as int, 8);
    let buf = bytes::field(memory, data + 8, 8);
    if reaches(0x1030, data, memory) {
        assert(buffer_at(memory, buf, len) =~= bytes_at(memory, buf, len));
    }
}

/// Writing to a file (port 0x1100) takes a block of the length, the result and the address
/// of the buffer, each of eight bytes, and the descriptor, of four. For the descriptors 1
/// and 2 the buffer has to be in the guest's memory; it reaches the UART, and the result
/// is the length. For another descriptor nothing is sent, and the result is minus one. No
/// other byte of the guest's memory changes.
pub proof fn law_file_write(data: u64, uart: UartState, memory: Seq<u8>)
    ensures
        ({
            let len = bytes::field(memory, data as int, 8);
            let buf = bytes::field(memory, data + 16, 8);
            let fd = bytes::field(memory, data + 24, 4);
            let console = fd == 1 || fd == 2;
            let (after, changed) = served(0x1100, data, uart, memory);
            &&& reaches(0x1100, data, memory) <==> data + 28 <= memory.len() && (console ==> len
                == 0 || buf + len <= memory.len())
            &&& reaches(0x1100, data, memory) ==> {
                &&& console ==> after == uart.after_buffer(bytes_at(memory, buf, len))
                &&& console ==> bytes::field(changed, data + 8, 8) == len
                &&& !console ==> after == uart
                &&& !console ==> bytes::field(changed, data + 8, 8) == 0xFFFF_FFFF_FFFF_FFFF
                &&& changed.len() == memory.len()
                &&& forall|i: int|
                    0 <= i < memory.len() && !(data + 8 <= i < data + 16) ==> #[trigger] changed[i]
                        == memory[i]
            }
        }),
{
    let len = bytes::field(memory, data as int, 8);
    let buf = bytes::field(memory, data + 16, 8);
    let fd = bytes::field(memory, data + 24, 4);
    if reaches(0x1100, data, memory) {
        bytes::lemma_spans();
        if fd == 1 || fd == 2 {
            assert(buffer_at(memory, buf, len) =~= bytes_at(memory, buf, len));
            bytes::lemma_le_value_bound(memory.subrange(data as int, data + 8));
            bytes::lemma_field_of_overlay(memory, data + 8, len, 8);
            bytes::lemma_le_round_trip(len, 8);
            bytes::lemma_overlay_is_local(memory, data + 8, bytes::le_bytes(len, 8));
        } else {
            law_refusal_is_reported(0x1100, data, uart, memory);
        }
    }
}

/// Requests for other host file I/O are refused: the guest finds minus one in the result
/// field of the parameter block. That has eight bytes at offset 8 for a read (port 0x1130)
/// and at offset 0 for a move of the position (0x1140), and four at offset 16 for an open
/// (0x1110), at offset 4 for a close (0x1120) and at offset 8 for a removal (0x1150). The
/// request can be served exactly if the block is in the guest's memory up to the end of
/// that field; nothing else changes, and nothing is sent.
pub proof fn law_file_requests_are_refused(port: u16, data: u64, uart: UartState, memory: Seq<u8>)
    requires
        port == 0x1110 || port == 0x1120 || port == 0x1130 || port == 0x1140 || port == 0x1150,
    ensures
        ({
            let wide = port == 0x1130 || port == 0x1140;
            let start: int = data + if port == 0x1110 {
                16int
            } else if port == 0x1120 {
                4
            } else if port == 0x1140 {
                0
            } else {
                8
            };
            let end = start + if wide {
                8int
            } else {
                4
            };
            let (after, changed) = served(port, data, uart, memory);
            &&& reaches(port, data, memory) <==> end <= memory.len()
            &&& after == uart
            &&& reaches(port, data, memory) ==> {
                &&& wide ==> bytes::field(changed, start, 8) == 0xFFFF_FFFF_FFFF_FFFF
                &&& !wide ==> bytes::field(changed, start, 4) == 0xFFFF_FFFF
                &&& changed.len() == memory.len()
                &&& forall|i: int|
                    0 <= i < memory.len() && !(start <= i < end) ==> #[trigger] changed[i]
                        == memory[i]
            }
        }),
{
    bytes::lemma_spans();
    if reaches(port, data, memory) {
        law_refusal_is_reported(port, data, uart, memory);
    }
}

/// The ports of the hypercalls, and those that have no effect: all but the ones to the
/// console and for host file I/O.
pub proof fn law_hypercall_ports(port: u16, data: u64, uart: UartState, memory: Seq<u8>)
    ensures
        is_hypercall(port) <==> {
            ||| port == 0x1010 || port == 0x1020 || port == 0x1030 || port == 0x1040 || port
                == 0x1050
            ||| 0x1100 <= port <= 0x1190 && port % 0x10 == 0
            ||| port == 0x1200 || port == 0x1210
        },
        !(port == 0x1020 || port == 0x1030 || 0x1100 <= port <= 0x1150 && port % 0x10 == 0) ==> {
            &&& reaches(port, data, memory)
            &&& served(port, data, uart, memory) == (uart, memory)
        },
{
}

} // verus!
