use vstd::prelude::*;
use vstd::string::StringSliceAdditionalSpecFns;

verus! {

/// Base address of the PL011 UART of the Raspberry Pi 5.
pub const UART0_BASE: u64 = 0x107D001000;

/// Data register.
pub const UART_DR: u64 = UART0_BASE + 0x00;

/// Flag register.
pub const UART_FR: u64 = UART0_BASE + 0x18;

/// Line control register.
pub const UART_LCRH: u64 = UART0_BASE + 0x2C;

/// Control register.
pub const UART_CR: u64 = UART0_BASE + 0x30;

/// Flag register bit: transmit FIFO full (bit 5).
pub const UART_FR_TXFF: u32 = 0x20;

/// Control register bits: UART enable (bit 0), transmit enable (bit 8),
/// receive enable (bit 9).
pub const UART_CR_UARTEN: u32 = 0x1;
pub const UART_CR_TXE: u32 = 0x100;
pub const UART_CR_RXE: u32 = 0x200;

/// Line control register bits: 8-bit words, FIFOs enabled (bit 4).
pub const UART_LCRH_WLEN_8: u32 = 0x60;
pub const UART_LCRH_FEN: u32 = 0x10;

/// Number of dummy reads that let the UART settle after it is enabled.
pub const UART_SETTLE_SPINS: u32 = 10000;

/// Whether a flag register value says that the transmit FIFO is full.
pub fn tx_fifo_full(fr: u32) -> (r: bool)
    ensures
        r == (fr & UART_FR_TXFF != 0),
{
    fr & UART_FR_TXFF != 0
}

/// Line control for 8-bit words, no parity, one stop bit, FIFOs on.
pub fn line_control_8n1() -> (v: u32)
    ensures
        v == 0x70,
{
    let v = UART_LCRH_WLEN_8 | UART_LCRH_FEN;
    assert(0x60u32 | 0x10u32 == 0x70u32) by (bit_vector);
    v
}

/// Control value that enables the UART, its transmitter and its receiver.
pub fn control_enabled() -> (v: u32)
    ensures
        v == 0x301,
{
    let v = UART_CR_UARTEN | UART_CR_TXE | UART_CR_RXE;
    assert(0x1u32 | 0x100u32 | 0x200u32 == 0x301u32) by (bit_vector);
    v
}

/// A register access that the UART set-up asks of its caller.
#[derive(Debug, Clone, Copy, PartialEq, Eq, Structural)]
pub enum UartAccess {
    /// Write `value` to the register at `addr`.
    Write { addr: u64, value: u32 },
    /// Read the register at `addr` and hand its value to the next step.
    Read { addr: u64 },
    /// Let the UART settle for `spins` dummy reads.
    Settle { spins: u32 },
    /// The set-up is over.
    Finish,
}

/// How far the UART set-up has come.
#[derive(Debug, Clone, Copy, PartialEq, Eq, Structural)]
pub enum UartInitState {
    /// Nothing done yet.
    Start,
    /// The UART was disabled; the control register must be read back.
    Disabled,
    /// The control register was read back; the value read decides.
    CheckedBack,
    /// The line control register was set.
    LineConfigured,
    /// The UART was enabled.
    Enabled,
    /// The set-up is over.
    Done,
}

/// One step of the set-up: from `state`, with `read_value` the value of the
/// last register read, the next state and the access to perform.
pub open spec fn uart_init_transition(state: UartInitState, read_value: u32) -> (UartInitState, UartAccess) {
    match state {
        UartInitState::Start => (UartInitState::Disabled, UartAccess::Write { addr: UART_CR, value: 0 }),
        UartInitState::Disabled => (UartInitState::CheckedBack, UartAccess::Read { addr: UART_CR }),
        UartInitState::CheckedBack => if read_value != 0 {
            (UartInitState::Done, UartAccess::Finish)
        } else {
            (UartInitState::LineConfigured, UartAccess::Write { addr: UART_LCRH, value: 0x70 })
        },
        UartInitState::LineConfigured => (UartInitState::Enabled, UartAccess::Write { addr: UART_CR, value: 0x301 }),
        UartInitState::Enabled => (UartInitState::Done, UartAccess::Settle { spins: UART_SETTLE_SPINS }),
        UartInitState::Done => (UartInitState::Done, UartAccess::Finish),
    }
}

/// Decides the next step of the UART set-up: disable the UART, read the
/// control register back and stop if it did not read 0 (the registers are
/// then taken not to be reachable), else set 8N1 with FIFOs, enable the UART
/// with transmitter and receiver, and let it settle.
pub fn uart_init_step(state: UartInitState, read_value: u32) -> (r: (UartInitState, UartAccess))
    ensures
        r == uart_init_transition(state, read_value),
{
    match state {
        UartInitState::Start => (UartInitState::Disabled, UartAccess::Write { addr: UART_CR, value: 0 }),
        UartInitState::Disabled => (UartInitState::CheckedBack, UartAccess::Read { addr: UART_CR }),
        UartInitState::CheckedBack => if read_value != 0 {
            (UartInitState::Done, UartAccess::Finish)
        } else {
            (UartInitState::LineConfigured, UartAccess::Write { addr: UART_LCRH, value: line_control_8n1() })
        },
        UartInitState::LineConfigured => (UartInitState::Enabled, UartAccess::Write { addr: UART_CR, value: control_enabled() }),
        UartInitState::Enabled => (UartInitState::Done, UartAccess::Settle { spins: UART_SETTLE_SPINS }),
        UartInitState::Done => (UartInitState::Done, UartAccess::Finish),
    }
}

/// The accesses performed by `n` steps from `state` when every register read
/// returns `read_value`.
pub open spec fn uart_init_trace(state: UartInitState, read_value: u32, n: nat) -> Seq<UartAccess>
    decreases n,
{
    if n == 0 {
        Seq::empty()
    } else {
        let (next, access) = uart_init_transition(state, read_value);
        seq![access] + uart_init_trace(next, read_value, (n - 1) as nat)
    }
}

/// From the start, the set-up disables the UART and reads the control
/// register back; if the read gives a value other than 0 it finishes at once,
/// else it sets 8N1 with FIFOs, enables the UART, lets it settle and
/// finishes; after that it only finishes.
pub proof fn lemma_uart_init_sequence(read_value: u32)
    ensures
        read_value != 0 ==> uart_init_trace(UartInitState::Start, read_value, 3) == seq![
            UartAccess::Write { addr: UART_CR, value: 0 },
            UartAccess::Read { addr: UART_CR },
            UartAccess::Finish,
        ],
        read_value == 0 ==> uart_init_trace(UartInitState::Start, read_value, 6) == seq![
            UartAccess::Write { addr: UART_CR, value: 0 },
            UartAccess::Read { addr: UART_CR },
            UartAccess::Write { addr: UART_LCRH, value: 0x70 },
            UartAccess::Write { addr: UART_CR, value: 0x301 },
            UartAccess::Settle { spins: UART_SETTLE_SPINS },
            UartAccess::Finish,
        ],
        uart_init_transition(UartInitState::Done, read_value) == (UartInitState::Done, UartAccess::Finish),
{
    reveal_with_fuel(uart_init_trace, 7);
    if read_value != 0 {
        assert(uart_init_trace(UartInitState::Start, read_value, 3) =~= seq![
            UartAccess::Write { addr: UART_CR, value: 0 },
            UartAccess::Read { addr: UART_CR },
            UartAccess::Finish,
        ]);
    } else {
        assert(uart_init_trace(UartInitState::Start, read_value, 6) =~= seq![
            UartAccess::Write { addr: UART_CR, value: 0 },
            UartAccess::Read { addr: UART_CR },
            UartAccess::Write { addr: UART_LCRH, value: 0x70 },
            UartAccess::Write { addr: UART_CR, value: 0x301 },
            UartAccess::Settle { spins: UART_SETTLE_SPINS },
            UartAccess::Finish,
        ]);
    }
}

/// The bytes that logging `bytes` sends, before the final line feed: each
/// byte in order, a line feed followed by a carriage return.
pub open spec fn log_expand(bytes: Seq<u8>) -> Seq<u8>
    decreases bytes.len(),
{
    if bytes.len() == 0 {
        Seq::empty()
    } else {
        log_expand(bytes.drop_last()) + if bytes.last() == 10 {
            seq![10u8, 13u8]
        } else {
            seq![bytes.last()]
        }
    }
}

/// The bytes that logging a message of the given bytes sends to the UART:
/// the expanded message and a closing line feed.
pub open spec fn log_wire(bytes: Seq<u8>) -> Seq<u8> {
    log_expand(bytes).push(10u8)
}

/// The bytes to send to the UART to log `s`: its UTF-8 bytes, a carriage
/// return after each line feed, and a final line feed. The carriage return
/// deliberately follows the line feed (LF CR), the order the driver has
/// always sent.
pub fn log_bytes(s: &str) -> (out: Vec<u8>)
    ensures
        out@ == log_wire(s.spec_bytes()),
{
    let bytes = s.as_bytes();
    let mut out: Vec<u8> = Vec::new();
    let mut i: usize = 0;
    while i < bytes.len()
        invariant
            i <= bytes@.len(),
            bytes@ == s.spec_bytes(),
            out@ == log_expand(bytes@.take(i as int)),
        decreases bytes@.len() - i,
    {
        let b = bytes[i];
        out.push(b);
        if b == 10 {
            out.push(13);
        }
        proof {
            let t = bytes@.take(i + 1);
            assert(t.drop_last() =~= bytes@.take(i as int));
            assert(t.last() == b);
            assert(out@ =~= log_expand(t));
        }
        i = i + 1;
    }
    assert(bytes@.take(bytes@.len() as int) =~= bytes@);
    out.push(10);
    out
}

/// Removes the carriage return that follows each line feed.
pub open spec fn strip_cr_after_lf(wire: Seq<u8>) -> Seq<u8>
    decreases wire.len(),
{
    if wire.len() == 0 {
        Seq::empty()
    } else if wire.len() >= 2 && wire[wire.len() - 2] == 10 && wire.last() == 13 {
        strip_cr_after_lf(wire.drop_last())
    } else {
        strip_cr_after_lf(wire.drop_last()).push(wire.last())
    }
}

/// Logging loses nothing: dropping the carriage returns inserted after line
/// feeds gives back the message, and the wire always ends with a line feed.
pub proof fn lemma_log_roundtrip(bytes: Seq<u8>)
    ensures
        strip_cr_after_lf(log_expand(bytes)) == bytes,
        strip_cr_after_lf(log_wire(bytes)) == bytes.push(10u8),
        log_wire(bytes).last() == 10u8,
    decreases bytes.len(),
{
    if bytes.len() > 0 {
        lemma_log_roundtrip(bytes.drop_last());
        let e = log_expand(bytes.drop_last());
        if bytes.last() == 10 {
            let w = e + seq![10u8, 13u8];
            assert(w.drop_last() =~= e.push(10u8));
            assert(e.push(10u8).drop_last() =~= e);
            assert(strip_cr_after_lf(w) == strip_cr_after_lf(e.push(10u8)));
            assert(bytes =~= bytes.drop_last().push(10u8));
        } else {
            let w = e + seq![bytes.last()];
            assert(w =~= e.push(bytes.last()));
            assert(w.drop_last() =~= e);
            if w.len() >= 2 && w[w.len() - 2] == 10 && w.last() == 13 {
                // the previous byte of the expansion is a line feed only when
                // it was followed by its carriage return
                lemma_expand_no_bare_lf_end(bytes.drop_last());
            }
            assert(bytes =~= bytes.drop_last().push(bytes.last()));
        }
    }
    let e = log_expand(bytes);
    assert(e.push(10u8).drop_last() =~= e);
}

/// A non-empty expansion never ends with a bare line feed.
proof fn lemma_expand_no_bare_lf_end(bytes: Seq<u8>)
    ensures
        log_expand(bytes).len() > 0 ==> log_expand(bytes).last() != 10u8,
    decreases bytes.len(),
{
    if bytes.len() > 0 {
        lemma_expand_no_bare_lf_end(bytes.drop_last());
    }
}

} // verus!
