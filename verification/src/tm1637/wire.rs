//! The two-wire protocol of the TM1637, written down as sequences of line
//! operations.
//!
//! The chip is driven over a clock line and a data line. Everything the
//! driver asks of the hardware is one of the [`LineOp`]s below; the spec
//! functions of this module say, operation by operation, what a start
//! condition, a stop condition, a byte and a whole register write look like
//! on the wire.

use vstd::prelude::*;
use crate::tm1637::mappings::GpioPinValue;
use crate::tm1637::mappings::ISA;

verus! {

/// Number of display registers in the chip. Only the first four are wired to
/// digits on a four-digit module.
pub const DISPLAY_REGISTERS_COUNT: usize = 6;

/// Bits in a transmitted byte.
pub const BITS_PER_BYTE: u8 = 8;

/// One thing to do on the lines.
#[derive(Clone, Copy, Debug, PartialEq, Eq, Structural)]
pub enum LineOp {
    /// Drive the clock line to the given level.
    Clock(GpioPinValue),
    /// Drive the data line to the given level.
    Data(GpioPinValue),
    /// Read the data line. The chip acknowledges a byte by pulling it low.
    SampleData,
    /// Block for this many microseconds.
    DelayUs(u16),
    /// Block for this many milliseconds.
    DelayMs(u16),
}

/// Start condition: the data line falls while the clock is high.
pub open spec fn start_ops(delay_us: u16) -> Seq<LineOp> {
    seq![
        LineOp::Data(GpioPinValue::High),
        LineOp::Clock(GpioPinValue::High),
        LineOp::DelayUs(delay_us),
        LineOp::Data(GpioPinValue::Low),
        LineOp::DelayUs(delay_us),
    ]
}

/// Stop condition: the data line rises while the clock is high.
pub open spec fn stop_ops(delay_us: u16) -> Seq<LineOp> {
    seq![
        LineOp::Data(GpioPinValue::Low),
        LineOp::Clock(GpioPinValue::High),
        LineOp::DelayUs(delay_us),
        LineOp::Data(GpioPinValue::High),
        LineOp::DelayUs(delay_us),
    ]
}

/// The level that carries bit `k` of `byte`: high for a one.
pub open spec fn bit_level(byte: u8, k: u8) -> GpioPinValue {
    if (byte >> k) & 1u8 == 0u8 {
        GpioPinValue::Low
    } else {
        GpioPinValue::High
    }
}

/// One data bit: set the data line while the clock is low, then raise the
/// clock so that the chip latches it.
pub open spec fn bit_ops(level: GpioPinValue, delay_us: u16) -> Seq<LineOp> {
    seq![
        LineOp::Clock(GpioPinValue::Low),
        LineOp::Data(level),
        LineOp::DelayUs(delay_us),
        LineOp::Clock(GpioPinValue::High),
        LineOp::DelayUs(delay_us),
    ]
}

/// The lowest `n` bits of `byte`, least significant first.
pub open spec fn bits_ops(byte: u8, n: u8, delay_us: u16) -> Seq<LineOp>
    decreases n,
{
    if n == 0 {
        Seq::empty()
    } else {
        let k = (n - 1) as u8;
        bits_ops(byte, k, delay_us) + bit_ops(bit_level(byte, k), delay_us)
    }
}

/// The ninth clock of a byte: the data line is sampled once for the chip's
/// acknowledge, then both lines are left low.
pub open spec fn ack_ops(delay_us: u16) -> Seq<LineOp> {
    seq![
        LineOp::Clock(GpioPinValue::Low),
        LineOp::Data(GpioPinValue::Low),
        LineOp::DelayUs(delay_us),
        LineOp::Clock(GpioPinValue::High),
        LineOp::SampleData,
        LineOp::Clock(GpioPinValue::Low),
        LineOp::Data(GpioPinValue::Low),
        LineOp::DelayUs(delay_us),
    ]
}

/// One byte on the wire: eight bits, least significant first, then the
/// acknowledge clock.
pub open spec fn byte_ops(byte: u8, delay_us: u16) -> Seq<LineOp> {
    bits_ops(byte, BITS_PER_BYTE, delay_us) + ack_ops(delay_us)
}

/// The value of the bit that a level carries.
pub open spec fn bit_value(level: GpioPinValue) -> u8 {
    match level {
        GpioPinValue::Low => 0,
        GpioPinValue::High => 1,
    }
}

/// The eight levels of a byte, put back together with the first as the least
/// significant bit, are the byte.
pub proof fn lemma_bits_carry_the_byte(byte: u8)
    ensures
        bit_value(bit_level(byte, 0)) | bit_value(bit_level(byte, 1)) << 1 | bit_value(
            bit_level(byte, 2),
        ) << 2 | bit_value(bit_level(byte, 3)) << 3 | bit_value(bit_level(byte, 4)) << 4
            | bit_value(bit_level(byte, 5)) << 5 | bit_value(bit_level(byte, 6)) << 6 | bit_value(
            bit_level(byte, 7),
        ) << 7 == byte,
{
    assert forall|k: u8| k < 8 implies #[trigger] bit_value(bit_level(byte, k)) == (byte >> k)
        & 1u8 by {
        assert((byte >> k) & 1u8 == 0u8 || (byte >> k) & 1u8 == 1u8) by (bit_vector);
    }
    assert(((byte >> 0u8) & 1u8) | ((byte >> 1u8) & 1u8) << 1 | ((byte >> 2u8) & 1u8) << 2 | ((byte
        >> 3u8) & 1u8) << 3 | ((byte >> 4u8) & 1u8) << 4 | ((byte >> 5u8) & 1u8) << 5 | ((byte
        >> 6u8) & 1u8) << 6 | ((byte >> 7u8) & 1u8) << 7 == byte) by (bit_vector);
}

/// Among the operations of the first `n` bits, those of bit `k` are the
/// `k`-th group of five.
pub proof fn lemma_bits_layout(byte: u8, n: u8, delay_us: u16, k: u8)
    requires
        k < n,
    ensures
        bits_ops(byte, n, delay_us).len() == 5 * n,
        bits_ops(byte, n, delay_us)[5 * k] == LineOp::Clock(GpioPinValue::Low),
        bits_ops(byte, n, delay_us)[5 * k + 1] == LineOp::Data(bit_level(byte, k)),
        bits_ops(byte, n, delay_us)[5 * k + 2] == LineOp::DelayUs(delay_us),
        bits_ops(byte, n, delay_us)[5 * k + 3] == LineOp::Clock(GpioPinValue::High),
        bits_ops(byte, n, delay_us)[5 * k + 4] == LineOp::DelayUs(delay_us),
    decreases n,
{
    lemma_bits_len(byte, (n - 1) as u8, delay_us);
    if k < n - 1 {
        lemma_bits_layout(byte, (n - 1) as u8, delay_us, k);
    }
}

/// The first `n` bits of a byte take five operations each.
pub proof fn lemma_bits_len(byte: u8, n: u8, delay_us: u16)
    ensures
        bits_ops(byte, n, delay_us).len() == 5 * n,
    decreases n,
{
    if n > 0 {
        lemma_bits_len(byte, (n - 1) as u8, delay_us);
    }
}

/// A byte on the wire is 48 operations: bit `k` is put on the data line by
/// the second operation of the `k`-th group of five and latched by the rising
/// clock two operations later, and the data line is read once, in the
/// acknowledge clock behind the eight bits.
pub proof fn lemma_byte_layout(byte: u8, delay_us: u16, k: u8)
    requires
        k < BITS_PER_BYTE,
    ensures
        byte_ops(byte, delay_us).len() == 48,
        byte_ops(byte, delay_us)[5 * k] == LineOp::Clock(GpioPinValue::Low),
        byte_ops(byte, delay_us)[5 * k + 1] == LineOp::Data(bit_level(byte, k)),
        byte_ops(byte, delay_us)[5 * k + 3] == LineOp::Clock(GpioPinValue::High),
        byte_ops(byte, delay_us)[44] == LineOp::SampleData,
        forall|i: int| 0 <= i < 48 && i != 44 ==> byte_ops(byte, delay_us)[i] != LineOp::SampleData,
{
    lemma_bits_layout(byte, BITS_PER_BYTE, delay_us, k);
    let bits = bits_ops(byte, BITS_PER_BYTE, delay_us);
    let ops = byte_ops(byte, delay_us);
    assert forall|i: int| 0 <= i < 48 && i != 44 implies ops[i] != LineOp::SampleData by {
        if i < 40 {
            let j = (i / 5) as u8;
            lemma_bits_layout(byte, BITS_PER_BYTE, delay_us, j);
            assert(ops[i] == bits[i]);
            assert(i == 5 * j || i == 5 * j + 1 || i == 5 * j + 2 || i == 5 * j + 3 || i == 5 * j
                + 4);
        }
    }
}

/// The first `n` bytes of `bytes`, one after the other with nothing between
/// them.
pub open spec fn bytes_ops(bytes: Seq<u8>, n: nat, delay_us: u16) -> Seq<LineOp>
    decreases n,
{
    if n == 0 {
        Seq::empty()
    } else {
        bytes_ops(bytes, (n - 1) as nat, delay_us) + byte_ops(bytes[n - 1], delay_us)
    }
}

/// The display control command for a control nibble (brightness in bits 0 to
/// 2, on/off in bit 3).
pub open spec fn display_control_byte(control: u8) -> u8 {
    ISA::DisplayControlOff.spec_bits() | control
}

/// The display control command in its own start/stop frame.
pub open spec fn display_control_ops(control: u8, delay_us: u16) -> Seq<LineOp> {
    start_ops(delay_us) + byte_ops(display_control_byte(control), delay_us) + stop_ops(delay_us)
}

/// The register that a requested start position addresses: positions wrap
/// around the six registers.
pub open spec fn register_of(pos: u8) -> u8 {
    (pos as int % DISPLAY_REGISTERS_COUNT as int) as u8
}

/// How many of `len` bytes are written when the write starts at `pos`: as
/// many as there are registers from there to the last one.
pub open spec fn clipped_len(len: nat, pos: u8) -> nat {
    let room = (DISPLAY_REGISTERS_COUNT - register_of(pos)) as nat;
    if len <= room {
        len
    } else {
        room
    }
}

/// A write never reaches behind the last register, and it leaves out bytes
/// only when it would.
pub proof fn lemma_write_stays_within_registers(len: nat, pos: u8)
    ensures
        register_of(pos) < DISPLAY_REGISTERS_COUNT,
        register_of(pos) + clipped_len(len, pos) <= DISPLAY_REGISTERS_COUNT,
        clipped_len(len, pos) <= len,
        register_of(pos) + len <= DISPLAY_REGISTERS_COUNT ==> clipped_len(len, pos) == len,
        len > 0 ==> clipped_len(len, pos) > 0,
{
}

/// The address command for a start position.
pub open spec fn address_byte(pos: u8) -> u8 {
    ISA::AddressCommandD0.spec_bits() | register_of(pos)
}

/// The address command of each digit is the one that the command table lists
/// for it.
pub proof fn lemma_address_commands_match_the_table()
    ensures
        address_byte(0) == ISA::AddressCommandD0.spec_bits(),
        address_byte(1) == ISA::AddressCommandD1.spec_bits(),
        address_byte(2) == ISA::AddressCommandD2.spec_bits(),
        address_byte(3) == ISA::AddressCommandD3.spec_bits(),
{
    assert(0xc0u8 | 0u8 == 0xc0u8 && 0xc0u8 | 1u8 == 0xc1u8 && 0xc0u8 | 2u8 == 0xc2u8 && 0xc0u8
        | 3u8 == 0xc3u8) by (bit_vector);
}

/// The display control command of each setting is the one that the command
/// table lists for it: off, whatever the brightness bits, under the prefix
/// alone when they are zero, and on at each of the eight levels.
pub proof fn lemma_display_control_commands_match_the_table()
    ensures
        display_control_byte(0b0000) == ISA::DisplayControlOff.spec_bits(),
        display_control_byte(0b1000) == ISA::DisplayControlOnL0.spec_bits(),
        display_control_byte(0b1001) == ISA::DisplayControlOnL1.spec_bits(),
        display_control_byte(0b1010) == ISA::DisplayControlOnL2.spec_bits(),
        display_control_byte(0b1011) == ISA::DisplayControlOnL3.spec_bits(),
        display_control_byte(0b1100) == ISA::DisplayControlOnL4.spec_bits(),
        display_control_byte(0b1101) == ISA::DisplayControlOnL5.spec_bits(),
        display_control_byte(0b1110) == ISA::DisplayControlOnL6.spec_bits(),
        display_control_byte(0b1111) == ISA::DisplayControlOnL7.spec_bits(),
{
    assert(0x80u8 | 0u8 == 0x80u8 && 0x80u8 | 8u8 == 0x88u8 && 0x80u8 | 9u8 == 0x89u8 && 0x80u8
        | 10u8 == 0x8au8 && 0x80u8 | 11u8 == 0x8bu8 && 0x80u8 | 12u8 == 0x8cu8 && 0x80u8 | 13u8
        == 0x8du8 && 0x80u8 | 14u8 == 0x8eu8 && 0x80u8 | 15u8 == 0x8fu8) by (bit_vector);
}

/// A write of `segments` into the registers from `pos` on.
///
/// Nothing at all is sent for an empty slice. Otherwise the data command goes
/// out in a frame of its own; then, in a second frame, the address command
/// and the data bytes, clipped to the registers that exist; and last the
/// display control command, so that brightness and on/off are committed with
/// every write.
pub open spec fn write_ops(segments: Seq<u8>, pos: u8, control: u8, delay_us: u16) -> Seq<LineOp> {
    if segments.len() == 0 {
        Seq::empty()
    } else {
        start_ops(delay_us)
            + byte_ops(ISA::DataCommandWriteToDisplay.spec_bits(), delay_us)
            + stop_ops(delay_us)
            + start_ops(delay_us)
            + byte_ops(address_byte(pos), delay_us)
            + bytes_ops(segments, clipped_len(segments.len(), pos), delay_us)
            + stop_ops(delay_us)
            + display_control_ops(control, delay_us)
    }
}

/// The write that blanks all six registers.
pub open spec fn clear_ops(control: u8, delay_us: u16) -> Seq<LineOp> {
    write_ops(seq![0u8, 0u8, 0u8, 0u8, 0u8, 0u8], 0, control, delay_us)
}

} // verus!
