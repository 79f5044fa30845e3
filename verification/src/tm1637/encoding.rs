//! From characters to segment bytes.
//!
//! The table covers the digits, the letters that can be told apart on seven
//! segments, and a little punctuation. A letter that is legible in one case
//! only is shown in that case whichever way it was written: `'f'` is drawn as
//! `F`, `'B'` as `b`. Every other character is drawn as a question mark.

use vstd::prelude::*;
use crate::tm1637::mappings::LowerCharBits;
use crate::tm1637::mappings::NumberCharBits;
use crate::tm1637::mappings::SpecialCharBits;
use crate::tm1637::mappings::UpperCharBits;
use crate::tm1637::mappings::SEG_COLON_OR_DOT;

verus! {

/// Whether the table has an entry for `c`.
pub open spec fn has_glyph(c: char) -> bool {
    c == 'A' || c == 'C' || c == 'E' || c == 'F' || c == 'f' || c == 'G' || c == 'g' || c == 'H'
        || c == 'I' || c == 'J' || c == 'j' || c == 'L' || c == 'N' || c == 'O' || c == 'P' || c == 'p'
        || c == 'R' || c == 'S' || c == 's' || c == 'U' || c == 'a' || c == 'b' || c == 'B' || c == 'c'
        || c == 'd' || c == 'D' || c == 'e' || c == 'h' || c == 'i' || c == 'l' || c == 'n' || c == 'o'
        || c == 'q' || c == 'Q' || c == 'r' || c == 't' || c == 'T' || c == 'u' || c == 'y' || c == 'Y'
        || c == '0' || c == '1' || c == '2' || c == '3' || c == '4' || c == '5' || c == '6' || c == '7'
        || c == '8' || c == '9' || c == ' ' || c == '-' || c == '_' || c == '=' || c == '?' || c == '['
        || c == ']'
}

/// The segment byte that displays `c`.
pub open spec fn segment_byte(c: char) -> u8 {
    match c {
        // upper-case letters with a shape of their own
        'A' => UpperCharBits::CharA.spec_bits(),
        'C' => UpperCharBits::CharC.spec_bits(),
        'E' => UpperCharBits::CharE.spec_bits(),
        'F' | 'f' => UpperCharBits::CharF.spec_bits(),
        'G' | 'g' => UpperCharBits::CharG.spec_bits(),
        'H' => UpperCharBits::CharH.spec_bits(),
        'I' => UpperCharBits::CharI.spec_bits(),
        'J' | 'j' => UpperCharBits::CharJ.spec_bits(),
        'L' => UpperCharBits::CharL.spec_bits(),
        'N' => UpperCharBits::CharN.spec_bits(),
        'O' => UpperCharBits::CharO.spec_bits(),
        'P' | 'p' => UpperCharBits::CharP.spec_bits(),
        'R' => UpperCharBits::CharR.spec_bits(),
        'S' | 's' => UpperCharBits::CharS.spec_bits(),
        'U' => UpperCharBits::CharU.spec_bits(),
        // lower-case letters with a shape of their own
        'a' => LowerCharBits::CharA.spec_bits(),
        'b' | 'B' => LowerCharBits::CharB.spec_bits(),
        'c' => LowerCharBits::CharC.spec_bits(),
        'd' | 'D' => LowerCharBits::CharD.spec_bits(),
        'e' => LowerCharBits::CharE.spec_bits(),
        'h' => LowerCharBits::CharH.spec_bits(),
        'i' => LowerCharBits::CharI.spec_bits(),
        'l' => LowerCharBits::CharL.spec_bits(),
        'n' => LowerCharBits::CharN.spec_bits(),
        'o' => LowerCharBits::CharO.spec_bits(),
        'q' | 'Q' => LowerCharBits::CharQ.spec_bits(),
        'r' => LowerCharBits::CharR.spec_bits(),
        't' | 'T' => LowerCharBits::CharT.spec_bits(),
        'u' => LowerCharBits::CharU.spec_bits(),
        'y' | 'Y' => LowerCharBits::CharY.spec_bits(),
        // digits
        '0' => NumberCharBits::Zero.spec_bits(),
        '1' => NumberCharBits::One.spec_bits(),
        '2' => NumberCharBits::Two.spec_bits(),
        '3' => NumberCharBits::Three.spec_bits(),
        '4' => NumberCharBits::Four.spec_bits(),
        '5' => NumberCharBits::Five.spec_bits(),
        '6' => NumberCharBits::Six.spec_bits(),
        '7' => NumberCharBits::Seven.spec_bits(),
        '8' => NumberCharBits::Eight.spec_bits(),
        '9' => NumberCharBits::Nine.spec_bits(),
        // punctuation
        ' ' => SpecialCharBits::Space.spec_bits(),
        '-' => SpecialCharBits::Minus.spec_bits(),
        '_' => SpecialCharBits::Underscore.spec_bits(),
        '=' => SpecialCharBits::Equals.spec_bits(),
        '?' => SpecialCharBits::QuestionMark.spec_bits(),
        '[' => SpecialCharBits::BracketLeft.spec_bits(),
        ']' => SpecialCharBits::BracketRight.spec_bits(),
        // everything else is an unknown character
        _ => SpecialCharBits::QuestionMark.spec_bits(),
    }
}

/// Encodes one character. The result depends on the character alone, and a
/// character without a glyph comes out as the question mark.
pub fn char_to_segment_byte(c: char) -> (b: u8)
    ensures
        b == segment_byte(c),
        !has_glyph(c) ==> b == SpecialCharBits::QuestionMark.spec_bits(),
{
    match c {
        // upper-case letters with a shape of their own
        'A' => UpperCharBits::CharA.bits(),
        'C' => UpperCharBits::CharC.bits(),
        'E' => UpperCharBits::CharE.bits(),
        'F' | 'f' => UpperCharBits::CharF.bits(),
        'G' | 'g' => UpperCharBits::CharG.bits(),
        'H' => UpperCharBits::CharH.bits(),
        'I' => UpperCharBits::CharI.bits(),
        'J' | 'j' => UpperCharBits::CharJ.bits(),
        'L' => UpperCharBits::CharL.bits(),
        'N' => UpperCharBits::CharN.bits(),
        'O' => UpperCharBits::CharO.bits(),
        'P' | 'p' => UpperCharBits::CharP.bits(),
        'R' => UpperCharBits::CharR.bits(),
        'S' | 's' => UpperCharBits::CharS.bits(),
        'U' => UpperCharBits::CharU.bits(),
        // lower-case letters with a shape of their own
        'a' => LowerCharBits::CharA.bits(),
        'b' | 'B' => LowerCharBits::CharB.bits(),
        'c' => LowerCharBits::CharC.bits(),
        'd' | 'D' => LowerCharBits::CharD.bits(),
        'e' => LowerCharBits::CharE.bits(),
        'h' => LowerCharBits::CharH.bits(),
        'i' => LowerCharBits::CharI.bits(),
        'l' => LowerCharBits::CharL.bits(),
        'n' => LowerCharBits::CharN.bits(),
        'o' => LowerCharBits::CharO.bits(),
        'q' | 'Q' => LowerCharBits::CharQ.bits(),
        'r' => LowerCharBits::CharR.bits(),
        't' | 'T' => LowerCharBits::CharT.bits(),
        'u' => LowerCharBits::CharU.bits(),
        'y' | 'Y' => LowerCharBits::CharY.bits(),
        // digits
        '0' => NumberCharBits::Zero.bits(),
        '1' => NumberCharBits::One.bits(),
        '2' => NumberCharBits::Two.bits(),
        '3' => NumberCharBits::Three.bits(),
        '4' => NumberCharBits::Four.bits(),
        '5' => NumberCharBits::Five.bits(),
        '6' => NumberCharBits::Six.bits(),
        '7' => NumberCharBits::Seven.bits(),
        '8' => NumberCharBits::Eight.bits(),
        '9' => NumberCharBits::Nine.bits(),
        // punctuation
        ' ' => SpecialCharBits::Space.bits(),
        '-' => SpecialCharBits::Minus.bits(),
        '_' => SpecialCharBits::Underscore.bits(),
        '=' => SpecialCharBits::Equals.bits(),
        '?' => SpecialCharBits::QuestionMark.bits(),
        '[' => SpecialCharBits::BracketLeft.bits(),
        ']' => SpecialCharBits::BracketRight.bits(),
        // everything else is an unknown character
        _ => SpecialCharBits::QuestionMark.bits(),
    }
}

/// The byte written for `c` at digit `pos`: its glyph, with the colon bit
/// added at the second digit when the colon is to be shown.
pub open spec fn digit_byte(pos: u8, c: char, show_colon: bool) -> u8 {
    with_colon(pos, segment_byte(c), show_colon)
}

/// `glyph` as it is written at digit `pos`: the colon hangs off the second
/// digit, so that is where its bit is added.
pub open spec fn with_colon(pos: u8, glyph: u8, show_colon: bool) -> u8 {
    if pos == 1 && show_colon {
        glyph | SpecialCharBits::ColonOrDot.spec_bits()
    } else {
        glyph
    }
}

/// A character outside the table is shown as the question mark.
pub proof fn lemma_unknown_char_is_question_mark(c: char)
    requires
        !has_glyph(c),
    ensures
        segment_byte(c) == SpecialCharBits::QuestionMark.spec_bits(),
{
}

/// The encoding is a function of the character: equal characters have equal
/// bytes, whatever else the display is doing.
pub proof fn lemma_encoding_is_deterministic(a: char, b: char)
    requires
        a == b,
    ensures
        segment_byte(a) == segment_byte(b),
{
}

/// No glyph uses the colon bit, so adding the colon to a glyph and masking it
/// off again gives the glyph back.
pub proof fn lemma_glyphs_leave_colon_bit_clear(c: char)
    ensures
        segment_byte(c) & SEG_COLON_OR_DOT == 0,
        (segment_byte(c) | SEG_COLON_OR_DOT) & 0x7fu8 == segment_byte(c),
{
    let g = segment_byte(c);
    assert(g <= 0x7f) by {
        lemma_union_stays_below_colon();
    }
    assert(g <= 0x7fu8 ==> g & 0x80u8 == 0 && (g | 0x80u8) & 0x7fu8 == g) by (bit_vector);
}

/// A union of bytes that leave bit 7 clear leaves bit 7 clear.
proof fn lemma_union_stays_below_colon()
    ensures
        forall|a: u8, b: u8| a <= 0x7f && b <= 0x7f ==> #[trigger] (a | b) <= 0x7f,
{
    assert(forall|a: u8, b: u8| a <= 0x7f && b <= 0x7f ==> #[trigger] (a | b) <= 0x7f)
        by (bit_vector);
}

} // verus!
