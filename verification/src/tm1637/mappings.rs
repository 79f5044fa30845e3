//! Bit patterns understood by the TM1637: segments, glyphs, commands,
//! brightness levels and the on/off flag.
//!
//! Every table is an enum with a `bits` method. A glyph is written as the
//! union of the segments it lights, so the tables can be read against a
//! drawing of the digit:
//!
//! ```text
//!      A
//!    F   B
//!      G
//!    E   C
//!      D
//! ```

use vstd::prelude::*;

verus! {

pub const SEG_A: u8 = 0b0000_0001;

pub const SEG_B: u8 = 0b0000_0010;

pub const SEG_C: u8 = 0b0000_0100;

pub const SEG_D: u8 = 0b0000_1000;

pub const SEG_E: u8 = 0b0001_0000;

pub const SEG_F: u8 = 0b0010_0000;

pub const SEG_G: u8 = 0b0100_0000;

pub const SEG_COLON_OR_DOT: u8 = 0b1000_0000;

/// One illuminable element of a digit. Bits 0 to 6 are the segments A to G;
/// bit 7 is the colon (or decimal point) beside the digit.
#[derive(Clone, Copy, Debug, PartialEq, Eq, Structural)]
pub enum SegmentBits {
    SegA,
    SegB,
    SegC,
    SegD,
    SegE,
    SegF,
    SegG,
    /// The double point of a four-digit clock display.
    SegColonOrDot,
}

impl SegmentBits {
    pub open spec fn spec_bits(self) -> u8 {
        match self {
            SegmentBits::SegA => SEG_A,
            SegmentBits::SegB => SEG_B,
            SegmentBits::SegC => SEG_C,
            SegmentBits::SegD => SEG_D,
            SegmentBits::SegE => SEG_E,
            SegmentBits::SegF => SEG_F,
            SegmentBits::SegG => SEG_G,
            SegmentBits::SegColonOrDot => SEG_COLON_OR_DOT,
        }
    }

    /// The single bit that drives this segment.
    #[verifier::when_used_as_spec(spec_bits)]
    pub fn bits(self) -> (b: u8)
        ensures
            b == self.spec_bits(),
    {
        match self {
            SegmentBits::SegA => SEG_A,
            SegmentBits::SegB => SEG_B,
            SegmentBits::SegC => SEG_C,
            SegmentBits::SegD => SEG_D,
            SegmentBits::SegE => SEG_E,
            SegmentBits::SegF => SEG_F,
            SegmentBits::SegG => SEG_G,
            SegmentBits::SegColonOrDot => SEG_COLON_OR_DOT,
        }
    }
}

/// The ten digits.
#[derive(Clone, Copy, Debug, PartialEq, Eq, Structural)]
pub enum NumberCharBits {
    Zero,
    One,
    Two,
    Three,
    Four,
    Five,
    Six,
    Seven,
    Eight,
    Nine,
}

impl NumberCharBits {
    pub open spec fn spec_bits(self) -> u8 {
        match self {
            NumberCharBits::Zero => 0b0011_1111u8,
            NumberCharBits::One => 0b0000_0110u8,
            NumberCharBits::Two => 0b0101_1011u8,
            NumberCharBits::Three => 0b0100_1111u8,
            NumberCharBits::Four => 0b0110_0110u8,
            NumberCharBits::Five => 0b0110_1101u8,
            NumberCharBits::Six => 0b0111_1101u8,
            NumberCharBits::Seven => 0b0000_0111u8,
            NumberCharBits::Eight => 0b0111_1111u8,
            NumberCharBits::Nine => 0b0110_1111u8,
        }
    }

    /// The segments lit for this digit, as one byte.
    #[verifier::when_used_as_spec(spec_bits)]
    pub fn bits(self) -> (b: u8)
        ensures
            b == self.spec_bits(),
    {
        match self {
            NumberCharBits::Zero => 0b0011_1111u8,
            NumberCharBits::One => 0b0000_0110u8,
            NumberCharBits::Two => 0b0101_1011u8,
            NumberCharBits::Three => 0b0100_1111u8,
            NumberCharBits::Four => 0b0110_0110u8,
            NumberCharBits::Five => 0b0110_1101u8,
            NumberCharBits::Six => 0b0111_1101u8,
            NumberCharBits::Seven => 0b0000_0111u8,
            NumberCharBits::Eight => 0b0111_1111u8,
            NumberCharBits::Nine => 0b0110_1111u8,
        }
    }
}

/// Upper-case letters that have a legible shape on seven segments.
#[derive(Clone, Copy, Debug, PartialEq, Eq, Structural)]
pub enum UpperCharBits {
    CharA,
    CharC,
    CharE,
    CharF,
    CharG,
    CharH,
    CharI,
    CharJ,
    CharL,
    CharN,
    CharO,
    CharP,
    CharR,
    CharS,
    CharU,
}

impl UpperCharBits {
    pub open spec fn spec_bits(self) -> u8 {
        match self {
            UpperCharBits::CharA => SEG_A | SEG_B | SEG_C | SEG_E | SEG_F | SEG_G,
            UpperCharBits::CharC => SEG_A | SEG_D | SEG_E | SEG_F,
            UpperCharBits::CharE => SEG_A | SEG_D | SEG_E | SEG_F | SEG_G,
            UpperCharBits::CharF => SEG_A | SEG_E | SEG_F | SEG_G,
            UpperCharBits::CharG => SEG_A | SEG_C | SEG_D | SEG_E | SEG_F,
            UpperCharBits::CharH => SEG_B | SEG_C | SEG_E | SEG_F | SEG_G,
            UpperCharBits::CharI => SEG_B | SEG_C,
            UpperCharBits::CharJ => SEG_B | SEG_C | SEG_D | SEG_E,
            UpperCharBits::CharL => SEG_D | SEG_E | SEG_F,
            UpperCharBits::CharN => SEG_A | SEG_B | SEG_C | SEG_E | SEG_F,
            UpperCharBits::CharO => SEG_A | SEG_B | SEG_C | SEG_D | SEG_E | SEG_F,
            UpperCharBits::CharP => SEG_A | SEG_B | SEG_E | SEG_F | SEG_G,
            UpperCharBits::CharR => SEG_A | SEG_E | SEG_F,
            UpperCharBits::CharS => SEG_A | SEG_C | SEG_D | SEG_F | SEG_G,
            UpperCharBits::CharU => SEG_B | SEG_C | SEG_D | SEG_E | SEG_F,
        }
    }

    /// The segments lit for this glyph, as one byte.
    #[verifier::when_used_as_spec(spec_bits)]
    pub fn bits(self) -> (b: u8)
        ensures
            b == self.spec_bits(),
    {
        match self {
            UpperCharBits::CharA => SEG_A | SEG_B | SEG_C | SEG_E | SEG_F | SEG_G,
            UpperCharBits::CharC => SEG_A | SEG_D | SEG_E | SEG_F,
            UpperCharBits::CharE => SEG_A | SEG_D | SEG_E | SEG_F | SEG_G,
            UpperCharBits::CharF => SEG_A | SEG_E | SEG_F | SEG_G,
            UpperCharBits::CharG => SEG_A | SEG_C | SEG_D | SEG_E | SEG_F,
            UpperCharBits::CharH => SEG_B | SEG_C | SEG_E | SEG_F | SEG_G,
            UpperCharBits::CharI => SEG_B | SEG_C,
            UpperCharBits::CharJ => SEG_B | SEG_C | SEG_D | SEG_E,
            UpperCharBits::CharL => SEG_D | SEG_E | SEG_F,
            UpperCharBits::CharN => SEG_A | SEG_B | SEG_C | SEG_E | SEG_F,
            UpperCharBits::CharO => SEG_A | SEG_B | SEG_C | SEG_D | SEG_E | SEG_F,
            UpperCharBits::CharP => SEG_A | SEG_B | SEG_E | SEG_F | SEG_G,
            UpperCharBits::CharR => SEG_A | SEG_E | SEG_F,
            UpperCharBits::CharS => SEG_A | SEG_C | SEG_D | SEG_F | SEG_G,
            UpperCharBits::CharU => SEG_B | SEG_C | SEG_D | SEG_E | SEG_F,
        }
    }
}

/// Lower-case letters that have a legible shape on seven segments.
#[derive(Clone, Copy, Debug, PartialEq, Eq, Structural)]
pub enum LowerCharBits {
    CharA,
    CharB,
    CharC,
    CharD,
    CharE,
    CharH,
    CharI,
    CharL,
    CharN,
    CharO,
    CharQ,
    CharR,
    CharT,
    CharU,
    CharY,
}

impl LowerCharBits {
    pub open spec fn spec_bits(self) -> u8 {
        match self {
            LowerCharBits::CharA => SEG_A | SEG_B | SEG_C | SEG_D | SEG_E | SEG_G,
            LowerCharBits::CharB => SEG_C | SEG_D | SEG_E | SEG_F | SEG_G,
            LowerCharBits::CharC => SEG_D | SEG_E | SEG_G,
            LowerCharBits::CharD => SEG_B | SEG_C | SEG_D | SEG_E | SEG_G,
            LowerCharBits::CharE => SEG_A | SEG_B | SEG_D | SEG_E | SEG_F | SEG_G,
            LowerCharBits::CharH => SEG_C | SEG_E | SEG_F | SEG_G,
            LowerCharBits::CharI => SEG_C,
            LowerCharBits::CharL => SEG_D | SEG_E,
            LowerCharBits::CharN => SEG_C | SEG_E | SEG_G,
            LowerCharBits::CharO => SEG_C | SEG_D | SEG_E | SEG_G,
            LowerCharBits::CharQ => SEG_A | SEG_B | SEG_C | SEG_F | SEG_G,
            LowerCharBits::CharR => SEG_E | SEG_G,
            LowerCharBits::CharT => SEG_D | SEG_E | SEG_F | SEG_G,
            LowerCharBits::CharU => SEG_C | SEG_D | SEG_E,
            LowerCharBits::CharY => SEG_B | SEG_C | SEG_D | SEG_F | SEG_G,
        }
    }

    /// The segments lit for this glyph, as one byte.
    #[verifier::when_used_as_spec(spec_bits)]
    pub fn bits(self) -> (b: u8)
        ensures
            b == self.spec_bits(),
    {
        match self {
            LowerCharBits::CharA => SEG_A | SEG_B | SEG_C | SEG_D | SEG_E | SEG_G,
            LowerCharBits::CharB => SEG_C | SEG_D | SEG_E | SEG_F | SEG_G,
            LowerCharBits::CharC => SEG_D | SEG_E | SEG_G,
            LowerCharBits::CharD => SEG_B | SEG_C | SEG_D | SEG_E | SEG_G,
            LowerCharBits::CharE => SEG_A | SEG_B | SEG_D | SEG_E | SEG_F | SEG_G,
            LowerCharBits::CharH => SEG_C | SEG_E | SEG_F | SEG_G,
            LowerCharBits::CharI => SEG_C,
            LowerCharBits::CharL => SEG_D | SEG_E,
            LowerCharBits::CharN => SEG_C | SEG_E | SEG_G,
            LowerCharBits::CharO => SEG_C | SEG_D | SEG_E | SEG_G,
            LowerCharBits::CharQ => SEG_A | SEG_B | SEG_C | SEG_F | SEG_G,
            LowerCharBits::CharR => SEG_E | SEG_G,
            LowerCharBits::CharT => SEG_D | SEG_E | SEG_F | SEG_G,
            LowerCharBits::CharU => SEG_C | SEG_D | SEG_E,
            LowerCharBits::CharY => SEG_B | SEG_C | SEG_D | SEG_F | SEG_G,
        }
    }
}

/// Blank, punctuation, the fallback glyph and the colon overlay.
#[derive(Clone, Copy, Debug, PartialEq, Eq, Structural)]
pub enum SpecialCharBits {
    Space,
    Minus,
    Underscore,
    Equals,
    /// Also shown for every character that has no glyph of its own.
    QuestionMark,
    /// Not a glyph: OR-ed into the glyph of the second digit to light the colon.
    ColonOrDot,
    BracketLeft,
    BracketRight,
}

impl SpecialCharBits {
    pub open spec fn spec_bits(self) -> u8 {
        match self {
            SpecialCharBits::Space => 0u8,
            SpecialCharBits::Minus => SEG_G,
            SpecialCharBits::Underscore => SEG_D,
            SpecialCharBits::Equals => SEG_G | SEG_D,
            SpecialCharBits::QuestionMark => SEG_A | SEG_B | SEG_G | SEG_E,
            SpecialCharBits::ColonOrDot => SEG_COLON_OR_DOT,
            SpecialCharBits::BracketLeft => SEG_A | SEG_D | SEG_E | SEG_F,
            SpecialCharBits::BracketRight => SEG_A | SEG_B | SEG_C | SEG_D,
        }
    }

    /// The segments lit for this glyph, as one byte.
    #[verifier::when_used_as_spec(spec_bits)]
    pub fn bits(self) -> (b: u8)
        ensures
            b == self.spec_bits(),
    {
        match self {
            SpecialCharBits::Space => 0u8,
            SpecialCharBits::Minus => SEG_G,
            SpecialCharBits::Underscore => SEG_D,
            SpecialCharBits::Equals => SEG_G | SEG_D,
            SpecialCharBits::QuestionMark => SEG_A | SEG_B | SEG_G | SEG_E,
            SpecialCharBits::ColonOrDot => SEG_COLON_OR_DOT,
            SpecialCharBits::BracketLeft => SEG_A | SEG_D | SEG_E | SEG_F,
            SpecialCharBits::BracketRight => SEG_A | SEG_B | SEG_C | SEG_D,
        }
    }
}

/// The commands of the TM1637 that the driver sends. Bits 6 and 7 tell the
/// kind of command; the low bits carry its argument.
#[derive(Clone, Copy, Debug, PartialEq, Eq, Structural)]
pub enum ISA {
    /// Data command: write to the display registers, address auto-increment.
    DataCommandWriteToDisplay,
    /// Address command for register 0. Each data byte that follows goes to
    /// the next register: the chip increments the address by itself.
    AddressCommandD0,
    AddressCommandD1,
    AddressCommandD2,
    AddressCommandD3,
    /// Display control: off. Bits 0 to 2 carry the brightness, bit 3 on/off.
    DisplayControlOff,
    /// Display control: on, lowest brightness.
    DisplayControlOnL0,
    DisplayControlOnL1,
    DisplayControlOnL2,
    DisplayControlOnL3,
    DisplayControlOnL4,
    DisplayControlOnL5,
    DisplayControlOnL6,
    /// Display control: on, highest brightness.
    DisplayControlOnL7,
}

impl ISA {
    pub open spec fn spec_bits(self) -> u8 {
        match self {
            ISA::DataCommandWriteToDisplay => 0b0100_0000u8,
            ISA::AddressCommandD0 => 0b1100_0000u8,
            ISA::AddressCommandD1 => 0b1100_0001u8,
            ISA::AddressCommandD2 => 0b1100_0010u8,
            ISA::AddressCommandD3 => 0b1100_0011u8,
            ISA::DisplayControlOff => 0b1000_0000u8,
            ISA::DisplayControlOnL0 => 0b1000_1000u8,
            ISA::DisplayControlOnL1 => 0b1000_1001u8,
            ISA::DisplayControlOnL2 => 0b1000_1010u8,
            ISA::DisplayControlOnL3 => 0b1000_1011u8,
            ISA::DisplayControlOnL4 => 0b1000_1100u8,
            ISA::DisplayControlOnL5 => 0b1000_1101u8,
            ISA::DisplayControlOnL6 => 0b1000_1110u8,
            ISA::DisplayControlOnL7 => 0b1000_1111u8,
        }
    }

    /// The command byte.
    #[verifier::when_used_as_spec(spec_bits)]
    pub fn bits(self) -> (b: u8)
        ensures
            b == self.spec_bits(),
    {
        match self {
            ISA::DataCommandWriteToDisplay => 0b0100_0000u8,
            ISA::AddressCommandD0 => 0b1100_0000u8,
            ISA::AddressCommandD1 => 0b1100_0001u8,
            ISA::AddressCommandD2 => 0b1100_0010u8,
            ISA::AddressCommandD3 => 0b1100_0011u8,
            ISA::DisplayControlOff => 0b1000_0000u8,
            ISA::DisplayControlOnL0 => 0b1000_1000u8,
            ISA::DisplayControlOnL1 => 0b1000_1001u8,
            ISA::DisplayControlOnL2 => 0b1000_1010u8,
            ISA::DisplayControlOnL3 => 0b1000_1011u8,
            ISA::DisplayControlOnL4 => 0b1000_1100u8,
            ISA::DisplayControlOnL5 => 0b1000_1101u8,
            ISA::DisplayControlOnL6 => 0b1000_1110u8,
            ISA::DisplayControlOnL7 => 0b1000_1111u8,
        }
    }
}

/// The eight brightness levels, carried in bits 0 to 2 of the display
/// control command.
#[derive(Clone, Copy, Debug, PartialEq, Eq, Structural)]
pub enum Brightness {
    /// Lowest brightness.
    L0,
    L1,
    L2,
    L3,
    L4,
    L5,
    L6,
    /// Highest brightness.
    L7,
}

impl Brightness {
    pub open spec fn spec_bits(self) -> u8 {
        match self {
            Brightness::L0 => 0b000u8,
            Brightness::L1 => 0b001u8,
            Brightness::L2 => 0b010u8,
            Brightness::L3 => 0b011u8,
            Brightness::L4 => 0b100u8,
            Brightness::L5 => 0b101u8,
            Brightness::L6 => 0b110u8,
            Brightness::L7 => 0b111u8,
        }
    }

    /// The level, in the low three bits.
    #[verifier::when_used_as_spec(spec_bits)]
    pub fn bits(self) -> (b: u8)
        ensures
            b == self.spec_bits(),
    {
        match self {
            Brightness::L0 => 0b000u8,
            Brightness::L1 => 0b001u8,
            Brightness::L2 => 0b010u8,
            Brightness::L3 => 0b011u8,
            Brightness::L4 => 0b100u8,
            Brightness::L5 => 0b101u8,
            Brightness::L6 => 0b110u8,
            Brightness::L7 => 0b111u8,
        }
    }
}

/// Whether the display is on, carried in bit 3 of the display control
/// command.
#[derive(Clone, Copy, Debug, PartialEq, Eq, Structural)]
pub enum DisplayState {
    Off,
    On,
}

impl DisplayState {
    pub open spec fn spec_bits(self) -> u8 {
        match self {
            DisplayState::Off => 0b0000u8,
            DisplayState::On => 0b1000u8,
        }
    }

    /// The on/off flag, in bit 3.
    #[verifier::when_used_as_spec(spec_bits)]
    pub fn bits(self) -> (b: u8)
        ensures
            b == self.spec_bits(),
    {
        match self {
            DisplayState::Off => 0b0000u8,
            DisplayState::On => 0b1000u8,
        }
    }
}

/// The level of a digital line.
#[derive(Clone, Copy, Debug, PartialEq, Eq, Structural)]
pub enum GpioPinValue {
    Low,
    High,
}

impl From<u8> for GpioPinValue {
    /// Zero is low; every other value is high.
    fn from(x: u8) -> (level: Self) {
        if x == 0 {
            GpioPinValue::Low
        } else {
            GpioPinValue::High
        }
    }
}

impl vstd::std_specs::convert::FromSpecImpl<u8> for GpioPinValue {
    open spec fn obeys_from_spec() -> bool {
        true
    }

    open spec fn from_spec(x: u8) -> Self {
        if x == 0 {
            GpioPinValue::Low
        } else {
            GpioPinValue::High
        }
    }
}

} // verus!
