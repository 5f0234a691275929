//! A minimal 16550 UART model for the guest's serial port.
//!
//! It is just complete enough to let the guest's serial driver finish its
//! initialization/polling and transmit characters: the line-status register
//! always reports the transmitter as ready, the modem-status register reports
//! the modem as ready, and the writable scratch/modem-control registers retain
//! the last value written so read-back checks succeed.

use vstd::prelude::*;

use tokio::sync::mpsc::UnboundedSender;

verus! {

// Register offsets relative to the serial port base.

/// RBR (read) / THR (write)
pub const REG_DATA: u16 = 0;

/// Modem Control Register
pub const REG_MCR: u16 = 4;

/// Line Status Register
pub const REG_LSR: u16 = 5;

/// Modem Status Register
pub const REG_MSR: u16 = 6;

/// Scratch Register
pub const REG_SCR: u16 = 7;

/// Line Status: THRE (bit 5) and TEMT (bit 6), transmitter holding register and
/// shift register empty, i.e. always ready to accept a byte. DR (bit 0) is clear,
/// so no input is ever reported as pending.
pub const LSR_TX_READY: u8 = 0x60;

/// Modem Status: DCD (bit 7), DSR (bit 5) and CTS (bit 4) set: the modem is
/// "connected and ready", which satisfies drivers that gate transmission on it.
pub const MSR_READY: u8 = 0xB0;

/// The channel end of `tokio` that the guest's output goes to.
#[verifier::external_type_specification]
#[verifier::external_body]
#[verifier::reject_recursive_types(T)]
pub struct ExUnboundedSender<T>(UnboundedSender<T>);

/// The messages that have been handed to `UnboundedSender::send` through a channel
/// end, in order.
pub uninterp spec fn handed_over(sink: UnboundedSender<Vec<u8>>) -> Seq<Seq<u8>>;

/// `UnboundedSender::send` of `tokio`: hands a message over. The channel is unbounded,
/// so this never blocks; whether there is still a receiver to get the message is not
/// looked at.
#[verifier::external_body]
fn hand_over(sink: &mut UnboundedSender<Vec<u8>>, message: Vec<u8>)
    ensures
        handed_over(*final(sink)) == handed_over(*old(sink)).push(message@),
{
    let _ = sink.send(message);
}

/// State of the ANSI-escape stripper, which spans several transmitted bytes.
#[derive(Debug, Clone, Copy, PartialEq, Eq, Structural)]
pub enum AnsiState {
    /// Outside any escape sequence.
    Normal,
    /// Saw `ESC`; awaiting the next byte (`[` starts a CSI sequence).
    Esc,
    /// Inside a CSI sequence (`ESC [ … <final byte>`).
    Csi,
}

/// Whether a byte is forwarded when it occurs outside of an escape sequence: anything
/// but the C0 control characters, of which newline, carriage return and tab pass.
pub open spec fn is_printed(byte: u8) -> bool {
    byte >= 0x20 || byte == 0x0A || byte == 0x0D || byte == 0x09
}

/// The state of the stripper after a byte.
pub open spec fn next_state(state: AnsiState, byte: u8) -> AnsiState {
    match state {
        AnsiState::Normal => if byte == 0x1B {
            AnsiState::Esc
        } else {
            AnsiState::Normal
        },
        AnsiState::Esc => if byte == 0x5B {
            AnsiState::Csi
        } else {
            AnsiState::Normal
        },
        AnsiState::Csi => if 0x40 <= byte <= 0x7E {
            AnsiState::Normal
        } else {
            AnsiState::Csi
        },
    }
}

/// What the stripper makes of a byte: itself, or nothing if it is part of an escape
/// sequence or not printed.
pub open spec fn filtered(state: AnsiState, byte: u8) -> Option<u8> {
    if state == AnsiState::Normal && is_printed(byte) {
        Some(byte)
    } else {
        None
    }
}

/// The state of the stripper after some bytes.
pub open spec fn final_state(state: AnsiState, bytes: Seq<u8>) -> AnsiState
    decreases bytes.len(),
{
    if bytes.len() == 0 {
        state
    } else {
        next_state(final_state(state, bytes.drop_last()), bytes.last())
    }
}

/// What the stripper leaves of some bytes.
pub open spec fn stripped(state: AnsiState, bytes: Seq<u8>) -> Seq<u8>
    decreases bytes.len(),
{
    if bytes.len() == 0 {
        Seq::empty()
    } else {
        let before = stripped(state, bytes.drop_last());
        match filtered(final_state(state, bytes.drop_last()), bytes.last()) {
            Some(byte) => before.push(byte),
            None => before,
        }
    }
}

/// Emulated state of a 16550 UART.
pub struct Uart {
    /// Last value written to the Modem Control Register.
    mcr: u8,
    /// Last value written to the Scratch Register.
    scr: u8,
    /// Channel the guest's transmitted bytes are streamed into, so the run handler
    /// can forward them to the client as they arrive. `None` until a sink is
    /// attached via [`Uart::set_sink`].
    sink: Option<UnboundedSender<Vec<u8>>>,
    /// Running state of the ANSI-escape stripper applied to streamed output.
    ansi: AnsiState,
}

/// What a UART holds.
#[verifier::ext_equal]
pub struct UartState {
    /// The Modem Control Register.
    pub mcr: u8,
    /// The Scratch Register.
    pub scr: u8,
    /// The state of the ANSI-escape stripper.
    pub ansi: AnsiState,
    /// The messages handed over to the attached sink, if there is one.
    pub output: Option<Seq<Seq<u8>>>,
}

impl View for Uart {
    type V = UartState;

    closed spec fn view(&self) -> UartState {
        UartState {
            mcr: self.mcr,
            scr: self.scr,
            ansi: self.ansi,
            output: match self.sink {
                Some(sink) => Some(handed_over(sink)),
                None => None,
            },
        }
    }
}

impl UartState {
    /// What the guest reads from the register at `offset`.
    pub open spec fn register(self, offset: u16) -> u8 {
        if offset == REG_LSR {
            LSR_TX_READY
        } else if offset == REG_MSR {
            MSR_READY
        } else if offset == REG_MCR {
            self.mcr
        } else if offset == REG_SCR {
            self.scr
        } else {
            0
        }
    }

    /// The UART after a message for the sink, if there is one.
    pub open spec fn with_message(self, message: Seq<u8>) -> UartState {
        UartState {
            output: match self.output {
                Some(messages) => Some(messages.push(message)),
                None => None,
            },
            ..self
        }
    }

    /// The UART after the guest has sent a byte: the byte goes to the sink as a message
    /// of its own, unless the stripper drops it.
    pub open spec fn after_byte(self, byte: u8) -> UartState {
        let moved = UartState { ansi: next_state(self.ansi, byte), ..self };
        match filtered(self.ansi, byte) {
            Some(out) => moved.with_message(seq![out]),
            None => moved,
        }
    }

    /// The UART after the guest has sent a buffer: what the stripper leaves of it goes
    /// to the sink as one message.
    pub open spec fn after_buffer(self, bytes: Seq<u8>) -> UartState {
        UartState { ansi: final_state(self.ansi, bytes), ..self }.with_message(
            stripped(self.ansi, bytes),
        )
    }

    /// The UART after the guest has written a register: the data register sends the
    /// byte, the modem-control and scratch registers keep it, and the others accept it
    /// without effect.
    pub open spec fn after_write(self, offset: u16, value: u8) -> UartState {
        if offset == REG_DATA {
            self.after_byte(value)
        } else if offset == REG_MCR {
            UartState { mcr: value, ..self }
        } else if offset == REG_SCR {
            UartState { scr: value, ..self }
        } else {
            self
        }
    }
}

impl Uart {
    /// A UART without a sink.
    pub fn new() -> (uart: Self)
        ensures
            uart@ == (UartState { mcr: 0, scr: 0, ansi: AnsiState::Normal, output: None }),
    {
        Uart { mcr: 0, scr: 0, sink: None, ansi: AnsiState::Normal }
    }

    /// Feeds one transmitted byte through the ANSI-escape stripper, returning the
    /// byte to forward to the consumer (or `None` if it is part of an escape
    /// sequence or a non-whitespace control character). This keeps the streamed
    /// output readable in a browser. Newlines, carriage returns and tabs pass
    /// through; other C0 control bytes (e.g. form feed) and `ESC[…<letter>`
    /// sequences are dropped.
    fn ansi_filter(&mut self, byte: u8) -> (out: Option<u8>)
        ensures
            out == filtered(old(self)@.ansi, byte),
            final(self)@ == (UartState { ansi: next_state(old(self)@.ansi, byte), ..old(self)@ }),
            final(self).sink == old(self).sink,
    {
        match self.ansi {
            AnsiState::Normal => {
                if byte == 0x1B {
                    self.ansi = AnsiState::Esc;
                    None
                } else if byte == 0x0A || byte == 0x0D || byte == 0x09 {
                    Some(byte)
                } else if byte <= 0x1F {
                    // Drop other C0 controls.
                    None
                } else {
                    Some(byte)
                }
            },
            AnsiState::Esc => {
                self.ansi = if byte == 0x5B {
                    AnsiState::Csi
                } else {
                    AnsiState::Normal
                };
                None
            },
            AnsiState::Csi => {
                // A CSI sequence ends at its final byte.
                if 0x40 <= byte && byte <= 0x7E {
                    self.ansi = AnsiState::Normal;
                }
                None
            },
        }
    }

    /// Attaches the channel the guest's transmit bytes are streamed into.
    pub fn set_sink(&mut self, sink: UnboundedSender<Vec<u8>>)
        ensures
            final(self)@ == (UartState { output: Some(handed_over(sink)), ..old(self)@ }),
    {
        self.sink = Some(sink);
    }

    /// Handles an `IN` from the register at `offset` (port − base) and returns
    /// the byte the guest reads.
    pub fn read(&self, offset: u16) -> (value: u8)
        ensures
            value == self@.register(offset),
    {
        if offset == REG_LSR {
            LSR_TX_READY
        } else if offset == REG_MSR {
            MSR_READY
        } else if offset == REG_MCR {
            self.mcr
        } else if offset == REG_SCR {
            self.scr
        } else {
            // RBR (no input) and the remaining registers.
            0
        }
    }

    /// Handles an `OUT` of `value` to the register at `offset` (port − base).
    ///
    /// Returns `Some(byte)` when the write targets the transmit register, i.e.
    /// the byte the guest wants to send to the console.
    pub fn write(&mut self, offset: u16, value: u8) -> (sent: Option<u8>)
        ensures
            sent == (if offset == REG_DATA {
                Some(value)
            } else {
                None
            }),
            final(self)@ == old(self)@.after_write(offset, value),
    {
        if offset == REG_DATA {
            // Strip ANSI escapes/control bytes, then stream the byte to the consumer,
            // if one is attached.
            if let Some(out) = self.ansi_filter(value) {
                if let Some(sink) = &mut self.sink {
                    let mut message: Vec<u8> = Vec::new();
                    message.push(out);
                    assert(message@ =~= seq![out]);
                    hand_over(sink, message);
                }
            }
            return Some(value);
        } else if offset == REG_MCR {
            self.mcr = value;
        } else if offset == REG_SCR {
            self.scr = value;
        }
        // IER/FCR/LCR: accepted but not modelled.
        None
    }

    /// Write a buffer to the uart device
    pub fn write_buffer(&mut self, buf: Vec<u8>)
        ensures
            final(self)@ == old(self)@.after_buffer(buf@),
    {
        let mut data: Vec<u8> = Vec::new();
        let mut i: usize = 0;
        assert(buf@.take(0) =~= Seq::empty());
        while i < buf.len()
            invariant
                i <= buf@.len(),
                self@ == (UartState {
                    ansi: final_state(old(self)@.ansi, buf@.take(i as int)),
                    ..old(self)@
                }),
                data@ == stripped(old(self)@.ansi, buf@.take(i as int)),
            decreases buf@.len() - i,
        {
            assert(buf@.take(i + 1).drop_last() =~= buf@.take(i as int));
            if let Some(out) = self.ansi_filter(buf[i]) {
                data.push(out);
            }
            i = i + 1;
        }
        assert(buf@.take(i as int) =~= buf@);
        if let Some(sink) = &mut self.sink {
            hand_over(sink, data);
        }
    }
}

/// Stripping does not depend on how the output is cut into pieces: the pieces leave
/// what the whole leaves.
pub proof fn law_stripping_is_piecewise(state: AnsiState, a: Seq<u8>, b: Seq<u8>)
    ensures
        final_state(state, a + b) == final_state(final_state(state, a), b),
        stripped(state, a + b) == stripped(state, a) + stripped(final_state(state, a), b),
    decreases b.len(),
{
    if b.len() == 0 {
        assert(a + b =~= a);
        assert(stripped(state, a) + stripped(final_state(state, a), b) =~= stripped(state, a));
    } else {
        law_stripping_is_piecewise(state, a, b.drop_last());
        assert((a + b).drop_last() =~= a + b.drop_last());
        assert((a + b).last() == b.last());
        match filtered(final_state(state, a + b.drop_last()), b.last()) {
            Some(byte) => {
                assert(stripped(state, a + b) =~= stripped(state, a) + stripped(
                    final_state(state, a),
                    b,
                ));
            },
            None => {},
        }
    }
}

/// The streamed output is readable: it holds no control character but newline,
/// carriage return and tab, and in particular no escape.
pub proof fn law_output_has_no_controls(state: AnsiState, bytes: Seq<u8>)
    ensures
        forall|i: int|
            #![trigger stripped(state, bytes)[i]]
            0 <= i < stripped(state, bytes).len() ==> {
                let byte = stripped(state, bytes)[i];
                byte >= 0x20 || byte == 0x09 || byte == 0x0A || byte == 0x0D
            },
    decreases bytes.len(),
{
    if bytes.len() > 0 {
        let (before, now) = (stripped(state, bytes.drop_last()), stripped(state, bytes));
        law_output_has_no_controls(state, bytes.drop_last());
        assert forall|i: int| 0 <= i < now.len() implies #[trigger] now[i] >= 0x20 || now[i] == 0x09
            || now[i] == 0x0A || now[i] == 0x0D by {
            if i < before.len() {
                assert(now[i] == before[i]);
            }
        }
    }
}

/// Whether a text is made of bytes from 0x20 up, tabs (0x09), newlines (0x0A) and carriage
/// returns (0x0D).
pub open spec fn is_plain(text: Seq<u8>) -> bool {
    forall|i: int|
        0 <= i < text.len() ==> 0x20 <= #[trigger] text[i] <= 0xFF || text[i] == 0x09 || text[i]
            == 0x0A || text[i] == 0x0D
}

/// Outside of an escape sequence, a text of bytes from 0x20 up, tabs, newlines and
/// carriage returns is streamed as it is.
pub proof fn law_plain_text_passes(bytes: Seq<u8>)
    requires
        is_plain(bytes),
    ensures
        final_state(AnsiState::Normal, bytes) == AnsiState::Normal,
        stripped(AnsiState::Normal, bytes) == bytes,
    decreases bytes.len(),
{
    if bytes.len() > 0 {
        let rest = bytes.drop_last();
        assert forall|i: int| 0 <= i < rest.len() implies 0x20 <= #[trigger] rest[i] <= 0xFF
            || rest[i] == 0x09 || rest[i] == 0x0A || rest[i] == 0x0D by {
            assert(rest[i] == bytes[i]);
        }
        law_plain_text_passes(rest);
        let last = bytes[bytes.len() - 1];
        assert(0x20 <= last <= 0xFF || last == 0x09 || last == 0x0A || last == 0x0D);
        assert(bytes =~= rest.push(bytes.last()));
    } else {
        assert(bytes =~= Seq::empty());
    }
}

/// A text that is sent as a buffer outside of an escape sequence arrives as one message,
/// as it is, and the UART stays outside of an escape sequence.
pub proof fn law_plain_buffer_is_streamed(uart: UartState, text: Seq<u8>)
    requires
        uart.ansi == AnsiState::Normal,
        is_plain(text),
    ensures
        ({
            let after = uart.after_buffer(text);
            &&& uart.output is Some ==> after.output == Some(uart.output->0.push(text))
            &&& uart.output is None ==> after.output is None
            &&& after.ansi == AnsiState::Normal && after.mcr == uart.mcr && after.scr == uart.scr
        }),
{
    law_plain_text_passes(text);
}

/// A buffer makes one message for the sink, whatever is left of it, and nothing if there
/// is none; it changes no register.
pub proof fn law_buffer_is_one_message(uart: UartState, bytes: Seq<u8>)
    ensures
        ({
            let after = uart.after_buffer(bytes);
            &&& uart.output is Some ==> after.output == Some(
                uart.output->0.push(stripped(uart.ansi, bytes)),
            )
            &&& uart.output is None ==> after.output is None
            &&& after.ansi == final_state(uart.ansi, bytes)
            &&& after.mcr == uart.mcr && after.scr == uart.scr
        }),
{
}

/// What becomes of a byte that the guest sends. Outside of an escape sequence, a byte from
/// 0x20 up, a tab, a newline or a carriage return is a message of its own; an escape
/// (0x1B) starts a sequence; other control bytes are dropped. The byte after an escape is
/// dropped, and the sequence goes on if it is `[` (0x5B). In a sequence that goes on, bytes
/// are dropped up to and with the first from 0x40 to 0x7E.
pub proof fn law_bytes_are_filtered(uart: UartState, byte: u8)
    ensures
        ({
            let after = uart.after_byte(byte);
            let plain = 0x20 <= byte <= 0xFF || byte == 0x09 || byte == 0x0A || byte == 0x0D;
            let passes = uart.ansi == AnsiState::Normal && plain;
            &&& uart.output is Some && passes ==> after.output == Some(
                uart.output->0.push(seq![byte]),
            )
            &&& !passes || uart.output is None ==> after.output == uart.output
            &&& uart.ansi == AnsiState::Normal ==> after.ansi == (if byte == 0x1B {
                AnsiState::Esc
            } else {
                AnsiState::Normal
            })
            &&& uart.ansi == AnsiState::Esc ==> after.ansi == (if byte == 0x5B {
                AnsiState::Csi
            } else {
                AnsiState::Normal
            })
            &&& uart.ansi == AnsiState::Csi ==> after.ansi == (if 0x40 <= byte <= 0x7E {
                AnsiState::Normal
            } else {
                AnsiState::Csi
            })
            &&& after.mcr == uart.mcr && after.scr == uart.scr
        }),
{
}

/// An escape and one more byte other than `[` leave nothing behind.
pub proof fn law_short_sequences_are_dropped(byte: u8)
    requires
        byte != 0x5B,
    ensures
        final_state(AnsiState::Normal, seq![0x1Bu8, byte]) == AnsiState::Normal,
        stripped(AnsiState::Normal, seq![0x1Bu8, byte]) == Seq::<u8>::empty(),
{
    let both = seq![0x1Bu8, byte];
    assert(both.drop_last() =~= seq![0x1Bu8]);
    assert(both.drop_last().drop_last() =~= Seq::empty());
    reveal_with_fuel(final_state, 3);
    reveal_with_fuel(stripped, 3);
}

/// The parameters of a CSI sequence are dropped.
proof fn lemma_csi_parameters(parameters: Seq<u8>)
    requires
        forall|i: int|
            0 <= i < parameters.len() ==> !(0x40 <= #[trigger] parameters[i] <= 0x7E),
    ensures
        final_state(AnsiState::Csi, parameters) == AnsiState::Csi,
        stripped(AnsiState::Csi, parameters) == Seq::<u8>::empty(),
    decreases parameters.len(),
{
    if parameters.len() > 0 {
        let rest = parameters.drop_last();
        assert forall|i: int| 0 <= i < rest.len() implies !(0x40 <= #[trigger] rest[i] <= 0x7E) by {
            assert(rest[i] == parameters[i]);
        }
        lemma_csi_parameters(rest);
        assert(!(0x40 <= parameters[parameters.len() - 1] <= 0x7E));
    }
}

/// A control sequence, `ESC [`, parameters and a final byte, leaves nothing behind.
pub proof fn law_control_sequences_are_dropped(parameters: Seq<u8>, last: u8)
    requires
        forall|i: int|
            0 <= i < parameters.len() ==> !(0x40 <= #[trigger] parameters[i] <= 0x7E),
        0x40 <= last <= 0x7E,
    ensures
        final_state(AnsiState::Normal, seq![0x1Bu8, 0x5Bu8] + parameters + seq![last])
            == AnsiState::Normal,
        stripped(AnsiState::Normal, seq![0x1Bu8, 0x5Bu8] + parameters + seq![last]) == Seq::<
            u8,
        >::empty(),
{
    let start = seq![0x1Bu8, 0x5Bu8];
    let end = seq![last];
    assert(start.drop_last() =~= seq![0x1Bu8]);
    assert(start.drop_last().drop_last() =~= Seq::empty());
    reveal_with_fuel(final_state, 3);
    reveal_with_fuel(stripped, 3);
    assert(final_state(AnsiState::Normal, start) == AnsiState::Csi);
    assert(stripped(AnsiState::Normal, start) =~= Seq::empty());
    assert(end.drop_last() =~= Seq::empty());
    lemma_csi_parameters(parameters);
    law_stripping_is_piecewise(AnsiState::Normal, start, parameters);
    law_stripping_is_piecewise(AnsiState::Normal, start + parameters, end);
    assert(stripped(AnsiState::Normal, start + parameters + end) =~= Seq::<u8>::empty());
}

/// The UART after the guest has sent some bytes, one by one.
pub open spec fn after_bytes(uart: UartState, bytes: Seq<u8>) -> UartState
    decreases bytes.len(),
{
    if bytes.len() == 0 {
        uart
    } else {
        after_bytes(uart, bytes.drop_last()).after_byte(bytes.last())
    }
}

/// Bytes sent one by one through the data register and the same bytes sent as a buffer
/// make the same stream, and leave the UART in the same state.
pub proof fn law_buffer_is_its_bytes(uart: UartState, bytes: Seq<u8>)
    ensures
        ({
            let (one, other) = (after_bytes(uart, bytes), uart.after_buffer(bytes));
            &&& one.mcr == other.mcr
            &&& one.scr == other.scr
            &&& one.ansi == other.ansi
            &&& one.output is Some == other.output is Some
            &&& one.output matches Some(messages) ==> messages.flatten()
                == other.output->0.flatten()
        }),
    decreases bytes.len(),
{
    broadcast use Seq::lemma_flatten_push;

    let rest = bytes.drop_last();
    if bytes.len() > 0 {
        law_buffer_is_its_bytes(uart, rest);
        if let Some(messages) = uart.output {
            let before = after_bytes(uart, rest).output->0;
            assert(before.flatten() =~= messages.flatten() + stripped(uart.ansi, rest));
            match filtered(final_state(uart.ansi, rest), bytes.last()) {
                Some(byte) => {
                    assert(before.push(seq![byte]).flatten() =~= messages.flatten() + stripped(
                        uart.ansi,
                        bytes,
                    ));
                },
                None => {},
            }
        }
    } else if let Some(messages) = uart.output {
        assert(messages.push(Seq::empty()).flatten() =~= messages.flatten());
    }
}

/// The transmitter is always ready and input is never pending (register 5 reads 0x60), the
/// modem is always ready (register 6 reads 0xB0), and the modem-control and scratch
/// registers (4 and 7) read back the last value written to them, whatever is written to
/// other registers in between. All other registers read as zero.
pub proof fn law_registers_read_back(uart: UartState, offset: u16, value: u8)
    ensures
        uart.register(5) == 0x60,
        uart.register(6) == 0xB0,
        uart.register(4) == uart.mcr,
        uart.register(7) == uart.scr,
        offset < 4 || offset > 7 ==> uart.register(offset) == 0,
        uart.after_write(4, value).register(4) == value,
        uart.after_write(7, value).register(7) == value,
        offset != 4 ==> uart.after_write(offset, value).register(4) == uart.register(4),
        offset != 7 ==> uart.after_write(offset, value).register(7) == uart.register(7),
{
}

/// A write to register 0 sends the byte; a write to another register sends nothing, and to
/// another than 4 and 7 it has no effect at all.
pub proof fn law_register_writes(uart: UartState, offset: u16, value: u8)
    ensures
        uart.after_write(0, value) == uart.after_byte(value),
        offset != 0 ==> uart.after_write(offset, value).output == uart.output && uart.after_write(
            offset,
            value,
        ).ansi == uart.ansi,
        offset != 0 && offset != 4 && offset != 7 ==> uart.after_write(offset, value) == uart,
{
}

} // verus!
