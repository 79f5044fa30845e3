//! TM1637 LED display controller: glyph tables, wire protocol and text
//! rendering.
//!
//! [`Tm1637`] holds what the driver remembers about one display (its width,
//! the brightness and on/off setting, the bit delay) and turns each request
//! into the script of line operations that carries it out. Performing a
//! script on real lines is the caller's part; a
//! [`transmission::Transmission`] walks a script and stops it at the first
//! hardware failure.

pub mod encoding;
pub mod errors;
pub mod frames;
pub mod mappings;
pub mod transmission;
pub mod wire;

use vstd::prelude::*;
use crate::tm1637::encoding::char_to_segment_byte;
use crate::tm1637::encoding::digit_byte;
use crate::tm1637::encoding::segment_byte;
use crate::tm1637::encoding::with_colon;
use crate::tm1637::errors::TmError;
use crate::tm1637::frames::banner_frames;
use crate::tm1637::frames::blanks;
use crate::tm1637::frames::frame_ops;
use crate::tm1637::frames::frames_of;
use crate::tm1637::frames::frames_ops;
use crate::tm1637::frames::left_aligned;
use crate::tm1637::frames::pause_ops;
use crate::tm1637::frames::render_ops;
use crate::tm1637::frames::right_aligned;
use crate::tm1637::frames::scroll_frame_count;
use crate::tm1637::frames::scroll_refused;
use crate::tm1637::frames::shown_digits;
use crate::tm1637::frames::window;
use crate::tm1637::frames::window_len;
use crate::tm1637::frames::Tm1637BannerAutoScrollConfig;
use crate::tm1637::mappings::Brightness;
use crate::tm1637::mappings::DisplayState;
use crate::tm1637::mappings::GpioPinValue;
use crate::tm1637::mappings::SpecialCharBits;
use crate::tm1637::mappings::ISA;
use crate::tm1637::wire::ack_ops;
use crate::tm1637::wire::bit_level;
use crate::tm1637::wire::bit_ops;
use crate::tm1637::wire::bits_ops;
use crate::tm1637::wire::byte_ops;
use crate::tm1637::wire::bytes_ops;
use crate::tm1637::wire::clear_ops;
use crate::tm1637::wire::display_control_ops;
use crate::tm1637::wire::start_ops;
use crate::tm1637::wire::stop_ops;
use crate::tm1637::wire::write_ops;
use crate::tm1637::wire::LineOp;
use crate::tm1637::wire::BITS_PER_BYTE;
use crate::tm1637::wire::DISPLAY_REGISTERS_COUNT;

verus! {

/// Digits on the display.
pub const DISPLAY_SIZE: u8 = 4;

/// Highest clock frequency the chip is driven at.
pub const MAX_FREQ_KHZ: u16 = 500;

pub const USECS_IN_MSEC: u16 = 1_000;

/// Pause after each edge, so that the clock stays below `MAX_FREQ_KHZ`.
pub const DELAY_USECS: u16 = USECS_IN_MSEC / MAX_FREQ_KHZ;

/// Mask of the brightness bits in the control nibble.
pub const BRIGHTNESS_MASK: u8 = 0b0000_0111;

/// Mask of the on/off bit in the control nibble.
pub const DISPLAY_STATE_MASK: u8 = 0b0000_1000;

/// The control nibble with its on/off bit replaced by `state`.
pub open spec fn with_display_state(control: u8, state: DisplayState) -> u8 {
    state.spec_bits() | (control & BRIGHTNESS_MASK)
}

/// The control nibble with its brightness bits replaced by `level`.
pub open spec fn with_brightness(control: u8, level: Brightness) -> u8 {
    (control & DISPLAY_STATE_MASK) | level.spec_bits()
}

/// The control nibble of a display in `state` at brightness `level`.
pub open spec fn control_of(state: DisplayState, level: Brightness) -> u8 {
    state.spec_bits() | level.spec_bits()
}

/// Setting the brightness leaves the on/off bit as it was and stores the
/// level in the low three bits.
pub proof fn lemma_brightness_keeps_display_state(control: u8, level: Brightness)
    ensures
        with_brightness(control, level) & DISPLAY_STATE_MASK == control & DISPLAY_STATE_MASK,
        with_brightness(control, level) & BRIGHTNESS_MASK == level.spec_bits(),
{
    let l = level.spec_bits();
    assert(l <= 7u8 ==> ((control & 0b1000u8) | l) & 0b1000u8 == control & 0b1000u8 && ((control
        & 0b1000u8) | l) & 0b0111u8 == l) by (bit_vector);
}

/// Switching the display on or off leaves the brightness as it was and stores
/// the flag in bit 3.
pub proof fn lemma_display_state_keeps_brightness(control: u8, state: DisplayState)
    ensures
        with_display_state(control, state) & BRIGHTNESS_MASK == control & BRIGHTNESS_MASK,
        with_display_state(control, state) & DISPLAY_STATE_MASK == state.spec_bits(),
{
    let s = state.spec_bits();
    assert((s == 0u8 || s == 8u8) ==> (s | (control & 0b0111u8)) & 0b0111u8 == control & 0b0111u8
        && (s | (control & 0b0111u8)) & 0b1000u8 == s) by (bit_vector);
}

/// The two settings do not disturb each other: set in either order, from any
/// control nibble, they give the nibble of that state at that brightness.
pub proof fn lemma_control_setters_commute(control: u8, state: DisplayState, level: Brightness)
    ensures
        with_brightness(with_display_state(control, state), level) == control_of(state, level),
        with_display_state(with_brightness(control, level), state) == control_of(state, level),
{
    let s = state.spec_bits();
    let l = level.spec_bits();
    assert((s == 0u8 || s == 8u8) && l <= 7u8 ==> (((s | (control & 0b0111u8)) & 0b1000u8) | l) == (
    s | l) && (s | (((control & 0b1000u8) | l) & 0b0111u8)) == (s | l)) by (bit_vector);
}

/// State of one TM1637 display.
pub struct Tm1637 {
    display_size: u8,
    /// Brightness in bits 0 to 2, on/off in bit 3; bits 4 to 7 are zero. The
    /// display control command is this nibble under its command prefix.
    brightness: u8,
    delay_us: u16,
}

impl Tm1637 {
    #[verifier::type_invariant]
    spec fn well_formed(self) -> bool {
        &&& self.display_size == DISPLAY_SIZE
        &&& self.brightness <= 0x0f
    }

    /// The control nibble: brightness in bits 0 to 2, on/off in bit 3.
    pub closed spec fn control(self) -> u8 {
        self.brightness
    }

    /// The pause after each edge, in microseconds.
    pub closed spec fn bit_delay(self) -> u16 {
        self.delay_us
    }

    /// A display that is on, at full brightness.
    pub fn new() -> (tm: Self)
        ensures
            tm.control() == control_of(DisplayState::On, Brightness::L7),
            tm.bit_delay() == DELAY_USECS,
    {
        let control: u8 = DisplayState::On.bits() | Brightness::L7.bits();
        assert(0b1000u8 | 0b111u8 == 0x0fu8) by (bit_vector);
        Tm1637 { display_size: DISPLAY_SIZE, brightness: control, delay_us: DELAY_USECS }
    }

    /// Number of digits.
    pub fn display_size(&self) -> (n: u8)
        ensures
            n == DISPLAY_SIZE,
    {
        proof {
            use_type_invariant(self);
        }
        self.display_size
    }

    /// The control nibble that the next write commits.
    pub fn control_bits(&self) -> (c: u8)
        ensures
            c == self.control(),
            c <= 0x0f,
    {
        proof {
            use_type_invariant(self);
        }
        self.brightness
    }

    /// Switches the display on or off and keeps the brightness. Nothing is
    /// sent: the setting reaches the chip with the next write.
    pub fn set_display_state(&mut self, ds: DisplayState)
        ensures
            final(self).control() == with_display_state(old(self).control(), ds),
            final(self).bit_delay() == old(self).bit_delay(),
    {
        proof {
            use_type_invariant(&*self);
        }
        let current: u8 = self.brightness;
        let old_brightness: u8 = current & BRIGHTNESS_MASK;
        let state: u8 = ds.bits();
        assert(old_brightness <= 7u8) by (bit_vector)
            requires
                old_brightness == current & 0b0000_0111u8,
        ;
        assert(state <= 8u8 && old_brightness <= 7u8 ==> (state | old_brightness) <= 0x0fu8)
            by (bit_vector);
        self.brightness = state | old_brightness;
    }

    /// Sets the brightness and keeps the on/off flag. Nothing is sent: the
    /// setting reaches the chip with the next write.
    pub fn set_brightness(&mut self, brightness: Brightness)
        ensures
            final(self).control() == with_brightness(old(self).control(), brightness),
            final(self).bit_delay() == old(self).bit_delay(),
    {
        proof {
            use_type_invariant(&*self);
        }
        let current: u8 = self.brightness;
        let display_on: u8 = current & DISPLAY_STATE_MASK;
        let level: u8 = brightness.bits();
        assert(display_on <= 8u8) by (bit_vector)
            requires
                display_on == current & 0b0000_1000u8,
        ;
        assert(display_on <= 8u8 && level <= 7u8 ==> (display_on | level) <= 0x0fu8)
            by (bit_vector);
        self.brightness = display_on | level;
    }

    /// The glyph of `chr`.
    pub fn char_to_bytes(&self, chr: char) -> (b: u8)
        ensures
            b == segment_byte(chr),
    {
        char_to_segment_byte(chr)
    }

    /// The pause between two edges.
    pub fn set_delay_us(&self) -> (op: LineOp)
        ensures
            op == LineOp::DelayUs(self.bit_delay()),
    {
        LineOp::DelayUs(self.delay_us)
    }

    /// A pause of `ms_delay` milliseconds.
    pub fn set_delay_ms(&self, ms_delay: u16) -> (op: LineOp)
        ensures
            op == LineOp::DelayMs(ms_delay),
    {
        LineOp::DelayMs(ms_delay)
    }

    /// Tells the chip that a transfer begins.
    pub fn start(&self) -> (ops: Vec<LineOp>)
        ensures
            ops@ == start_ops(self.bit_delay()),
    {
        let mut ops: Vec<LineOp> = Vec::new();
        ops.push(LineOp::Data(GpioPinValue::High));
        ops.push(LineOp::Clock(GpioPinValue::High));
        ops.push(self.set_delay_us());
        ops.push(LineOp::Data(GpioPinValue::Low));
        ops.push(self.set_delay_us());
        assert(ops@ =~= start_ops(self.bit_delay()));
        ops
    }

    /// Tells the chip that the transfer is over.
    pub fn stop(&self) -> (ops: Vec<LineOp>)
        ensures
            ops@ == stop_ops(self.bit_delay()),
    {
        let mut ops: Vec<LineOp> = Vec::new();
        ops.push(LineOp::Data(GpioPinValue::Low));
        ops.push(LineOp::Clock(GpioPinValue::High));
        ops.push(self.set_delay_us());
        ops.push(LineOp::Data(GpioPinValue::High));
        ops.push(self.set_delay_us());
        assert(ops@ =~= stop_ops(self.bit_delay()));
        ops
    }

    /// The acknowledge clock after a byte. The data line is sampled once; a
    /// missing acknowledge does not change what is sent next.
    pub fn recv_ack(&self) -> (ops: Vec<LineOp>)
        ensures
            ops@ == ack_ops(self.bit_delay()),
    {
        let mut ops: Vec<LineOp> = Vec::new();
        ops.push(LineOp::Clock(GpioPinValue::Low));
        ops.push(LineOp::Data(GpioPinValue::Low));
        ops.push(self.set_delay_us());
        ops.push(LineOp::Clock(GpioPinValue::High));
        ops.push(LineOp::SampleData);
        ops.push(LineOp::Clock(GpioPinValue::Low));
        ops.push(LineOp::Data(GpioPinValue::Low));
        ops.push(self.set_delay_us());
        assert(ops@ =~= ack_ops(self.bit_delay()));
        ops
    }

    /// Sends one byte, least significant bit first, and clocks the
    /// acknowledge.
    pub fn write_byte_and_wait_ack(&self, byte: u8) -> (ops: Vec<LineOp>)
        ensures
            ops@ == byte_ops(byte, self.bit_delay()),
    {
        let mut ops: Vec<LineOp> = Vec::new();
        let mut k: u8 = 0;
        while k < BITS_PER_BYTE
            invariant
                k <= BITS_PER_BYTE,
                ops@ == bits_ops(byte, k, self.bit_delay()),
            decreases BITS_PER_BYTE - k,
        {
            let next_gpio_state = GpioPinValue::from((byte >> k) & 0x01);
            ops.push(LineOp::Clock(GpioPinValue::Low));
            ops.push(LineOp::Data(next_gpio_state));
            ops.push(self.set_delay_us());
            ops.push(LineOp::Clock(GpioPinValue::High));
            ops.push(self.set_delay_us());
            assert(ops@ =~= bits_ops(byte, k, self.bit_delay()) + bit_ops(
                bit_level(byte, k),
                self.bit_delay(),
            ));
            k = k + 1;
        }
        let mut ack = self.recv_ack();
        ops.append(&mut ack);
        ops
    }

    /// Sends the display control command, which commits brightness and
    /// on/off.
    pub fn write_display_state(&self) -> (ops: Vec<LineOp>)
        ensures
            ops@ == display_control_ops(self.control(), self.bit_delay()),
    {
        let mut ops = self.start();
        let mut command = self.write_byte_and_wait_ack(ISA::DisplayControlOff.bits() | self.brightness);
        ops.append(&mut command);
        let mut end = self.stop();
        ops.append(&mut end);
        ops
    }

    /// Writes `segments` into the display registers from `pos` on. The chip
    /// moves to the next register after each byte; bytes that would fall
    /// behind the last register are left out, and an empty slice sends
    /// nothing. The display control command follows every write.
    pub fn write_segments_raw(&self, segments: &[u8], pos: u8) -> (ops: Vec<LineOp>)
        ensures
            ops@ == write_ops(segments@, pos, self.control(), self.bit_delay()),
    {
        let len = segments.len();
        if len == 0 {
            return Vec::new();
        }
        let register: u8 = pos % (DISPLAY_REGISTERS_COUNT as u8);
        let room: usize = DISPLAY_REGISTERS_COUNT - register as usize;
        let n: usize = if len <= room {
            len
        } else {
            room
        };
        let ghost d = self.bit_delay();

        let mut ops = self.start();
        let mut part = self.write_byte_and_wait_ack(ISA::DataCommandWriteToDisplay.bits());
        ops.append(&mut part);
        part = self.stop();
        ops.append(&mut part);

        part = self.start();
        ops.append(&mut part);
        part = self.write_byte_and_wait_ack(ISA::AddressCommandD0.bits() | register);
        ops.append(&mut part);

        let ghost head = ops@;
        let mut i: usize = 0;
        while i < n
            invariant
                i <= n <= segments@.len(),
                d == self.bit_delay(),
                ops@ == head + bytes_ops(segments@, i as nat, d),
            decreases n - i,
        {
            part = self.write_byte_and_wait_ack(segments[i]);
            ops.append(&mut part);
            assert(ops@ =~= head + bytes_ops(segments@, (i + 1) as nat, d));
            i = i + 1;
        }
        part = self.stop();
        ops.append(&mut part);
        part = self.write_display_state();
        ops.append(&mut part);
        assert(ops@ =~= write_ops(segments@, pos, self.control(), d));
        ops
    }

    /// Writes one byte into the register at `position`.
    pub fn write_segment_raw(&self, segments: u8, position: u8) -> (ops: Vec<LineOp>)
        ensures
            ops@ == write_ops(seq![segments], position, self.control(), self.bit_delay()),
    {
        let mut bytes: Vec<u8> = Vec::new();
        bytes.push(segments);
        assert(bytes@ =~= seq![segments]);
        self.write_segments_raw(bytes.as_slice(), position)
    }

    /// Blanks the display: zero into all six registers.
    pub fn clear(&self) -> (ops: Vec<LineOp>)
        ensures
            ops@ == clear_ops(self.control(), self.bit_delay()),
            ops@ == write_ops(
                seq![0u8, 0u8, 0u8, 0u8, 0u8, 0u8],
                0,
                self.control(),
                self.bit_delay(),
            ),
    {
        let zeros: [u8; 6] = [0, 0, 0, 0, 0, 0];
        assert(zeros@ =~= seq![0u8, 0u8, 0u8, 0u8, 0u8, 0u8]);
        self.write_segments_raw(zeros.as_slice(), 0)
    }

    /// Shows the glyph `chr` at digit `address`, with the colon bit added at
    /// the second digit when `show_colon` is set.
    pub fn print_char_byte(&self, address: u8, chr: u8, show_colon: bool) -> (ops: Vec<LineOp>)
        ensures
            ops@ == write_ops(
                seq![with_colon(address, chr, show_colon)],
                address,
                self.control(),
                self.bit_delay(),
            ),
    {
        let mut c: u8 = chr;
        if address == 1 && show_colon {
            c = c | SpecialCharBits::ColonOrDot.bits();
        }
        self.write_segment_raw(c, address)
    }

    /// Shows the character `chr` at digit `address`.
    pub fn print_char(&self, address: u8, chr: char, show_colon: bool) -> (ops: Vec<LineOp>)
        ensures
            ops@ == write_ops(
                seq![digit_byte(address, chr, show_colon)],
                address,
                self.control(),
                self.bit_delay(),
            ),
    {
        let c = self.char_to_bytes(chr);
        self.print_char_byte(address, c, show_colon)
    }
}

/// Code of the error that refuses an auto-scroll configuration.
pub const AUTO_SCROLL_ERROR_CODE: &'static str = "E0026";

/// Message of the error that refuses an auto-scroll configuration.
pub const AUTO_SCROLL_ERROR_MESSAGE: &'static str =
    "'min_char_count_to_be_displayed' should not be greater than the 'display_size'";

/// Whether `e` is the error that refuses an auto-scroll configuration.
pub open spec fn is_auto_scroll_error<E>(e: TmError<E>) -> bool {
    match e {
        TmError::AutoScroll(code, message) => code@ == AUTO_SCROLL_ERROR_CODE@ && message@
            == AUTO_SCROLL_ERROR_MESSAGE@,
        _ => false,
    }
}

/// Appends `n` spaces to `frame`.
fn push_blanks(frame: &mut String, n: usize)
    ensures
        final(frame)@ == old(frame)@ + blanks(n as nat),
{
    let mut i: usize = 0;
    assert(frame@ =~= old(frame)@ + blanks(0));
    while i < n
        invariant
            i <= n,
            frame@ == old(frame)@ + blanks(i as nat),
        decreases n - i,
    {
        proof {
            reveal_strlit(" ");
        }
        frame.append(" ");
        assert(frame@ =~= old(frame)@ + blanks((i + 1) as nat));
        i = i + 1;
    }
}

/// `text` in a field of `width` characters, pushed to the right.
fn right_align(text: &str, width: usize) -> (frame: String)
    ensures
        frame@ == right_aligned(text@, width as nat),
{
    let len = text.unicode_len();
    let mut frame = String::new();
    if len >= width {
        frame.append(text.substring_char(0, width));
        assert(frame@ =~= text@.take(width as int));
    } else {
        push_blanks(&mut frame, width - len);
        frame.append(text);
        assert(frame@ =~= blanks((width - len) as nat) + text@);
    }
    frame
}

/// The window over `text` that begins at `start`, in a field of `width`
/// characters, pushed to the left.
fn left_align_window(text: &str, start: usize, width: usize) -> (frame: String)
    requires
        start <= text@.len(),
    ensures
        frame@ == left_aligned(window(text@, start as nat, width as nat), width as nat),
{
    let len = text.unicode_len();
    let remaining: usize = len - start;
    let taken: usize = if remaining < width {
        remaining
    } else {
        width
    };
    assert(taken == window_len(text@.len(), start as nat, width as nat));
    let mut frame = String::new();
    frame.append(text.substring_char(start, start + taken));
    assert(frame@ =~= window(text@, start as nat, width as nat));
    if taken < width {
        push_blanks(&mut frame, width - taken);
    } else {
        assert(frame@ =~= frame@.take(width as int));
    }
    frame
}

impl Tm1637 {
    /// The frames of a text that qualifies for scrolling under `config`; the
    /// configuration is refused when it asks for more characters on the
    /// display than the display has digits.
    pub fn get_auto_scrolling_banners<E>(
        &self,
        string: &str,
        config: &Tm1637BannerAutoScrollConfig,
    ) -> (r: Result<Vec<String>, TmError<E>>)
        ensures
            match r {
                Ok(frames) => config.min_char_count_to_be_displayed <= DISPLAY_SIZE
                    && frames.deep_view() == banner_frames(
                    string@,
                    config.min_char_count_to_be_displayed as nat,
                    DISPLAY_SIZE as nat,
                ),
                Err(e) => config.min_char_count_to_be_displayed > DISPLAY_SIZE
                    && is_auto_scroll_error(e),
            },
    {
        proof {
            use_type_invariant(self);
        }
        if config.min_char_count_to_be_displayed > self.display_size {
            return Err(
                TmError::AutoScroll(
                    AUTO_SCROLL_ERROR_CODE.to_owned(),
                    AUTO_SCROLL_ERROR_MESSAGE.to_owned(),
                ),
            );
        }
        let width: usize = self.display_size as usize;
        let min_shown: usize = config.min_char_count_to_be_displayed as usize;
        let len: usize = string.unicode_len();
        let mut output: Vec<String> = Vec::new();

        // A text this short is shown at once.
        if len <= min_shown {
            output.push(right_align(string, width));
            assert(output.deep_view() =~= seq![right_aligned(string@, width as nat)]);
            return Ok(output);
        }
        let ghost count = scroll_frame_count(len as nat, min_shown as nat);
        let mut outer: usize = 0;
        assert(output.deep_view() =~= Seq::new(
            0,
            |i: int| left_aligned(window(string@, i as nat, width as nat), width as nat),
        ));
        while outer < len
            invariant
                len == string@.len(),
                min_shown < len,
                min_shown <= width,
                count == scroll_frame_count(len as nat, min_shown as nat),
                outer <= count <= len,
                output.deep_view() == Seq::new(
                    outer as nat,
                    |i: int| left_aligned(window(string@, i as nat, width as nat), width as nat),
                ),
            ensures
                outer == count,
                output.deep_view() == Seq::new(
                    outer as nat,
                    |i: int| left_aligned(window(string@, i as nat, width as nat), width as nat),
                ),
            decreases len - outer,
        {
            let remaining: usize = len - outer;
            let taken: usize = if remaining < width {
                remaining
            } else {
                width
            };
            if taken < min_shown {
                break;
            }
            let frame = left_align_window(string, outer, width);
            let ghost before = output.deep_view();
            output.push(frame);
            assert(output.deep_view() =~= before.push(frame@));
            assert(output.deep_view() =~= Seq::new(
                (outer + 1) as nat,
                |i: int| left_aligned(window(string@, i as nat, width as nat), width as nat),
            ));
            outer = outer + 1;
        }
        Ok(output)
    }

    /// The frames that show `string`: the sliding windows of a text that is
    /// long enough to scroll under `auto_scroll`, and otherwise the text in
    /// one frame, pushed to the right.
    pub fn frames<E>(
        &self,
        string: &str,
        auto_scroll: Option<&Tm1637BannerAutoScrollConfig>,
    ) -> (r: Result<Vec<String>, TmError<E>>)
        ensures
            match r {
                Ok(frames) => !scroll_refused(string@, auto_scroll, DISPLAY_SIZE as nat)
                    && frames.deep_view() == frames_of(string@, auto_scroll, DISPLAY_SIZE as nat),
                Err(e) => scroll_refused(string@, auto_scroll, DISPLAY_SIZE as nat)
                    && is_auto_scroll_error(e),
            },
    {
        proof {
            use_type_invariant(self);
        }
        if let Some(config) = auto_scroll {
            if string.unicode_len() >= config.scroll_min_char_count as usize {
                return self.get_auto_scrolling_banners(string, config);
            }
        }
        let mut output: Vec<String> = Vec::new();
        output.push(right_align(string, self.display_size as usize));
        assert(output.deep_view() =~= seq![right_aligned(string@, DISPLAY_SIZE as nat)]);
        Ok(output)
    }

    /// The digits of one frame, written one register at a time from the left.
    /// A text that is longer than the display is cut off at its width; of a
    /// shorter one, the digits that it has are written.
    pub fn print_frame(&self, frame: &str, show_colon: bool) -> (ops: Vec<LineOp>)
        ensures
            ops@ == frame_ops(
                frame@,
                shown_digits(frame@.len(), DISPLAY_SIZE as nat),
                show_colon,
                self.control(),
                self.bit_delay(),
            ),
    {
        proof {
            use_type_invariant(self);
        }
        let len: usize = frame.unicode_len();
        let shown: u8 = if len < self.display_size as usize {
            len as u8
        } else {
            self.display_size
        };
        let mut ops: Vec<LineOp> = Vec::new();
        let mut pos: u8 = 0;
        while pos < shown
            invariant
                pos <= shown <= frame@.len(),
                shown == shown_digits(frame@.len(), DISPLAY_SIZE as nat),
                ops@ == frame_ops(frame@, pos as nat, show_colon, self.control(), self.bit_delay()),
            decreases shown - pos,
        {
            let item = frame.get_char(pos as usize);
            let mut part = self.print_char(pos, item, show_colon);
            ops.append(&mut part);
            pos = pos + 1;
        }
        ops
    }

    /// Shows `string`. A text of at least `scroll_min_char_count` characters
    /// is scrolled under `auto_scroll`, with the configured pause after each
    /// frame; any other text is shown in one frame, pushed to the right, and
    /// an empty one blanks the display. `delay_ms` is a pause after every
    /// frame. The request is refused, with nothing to send, exactly when the
    /// text would be scrolled under a configuration that asks for more
    /// characters than the display has digits.
    pub fn print_string<E>(
        &self,
        string: &str,
        show_colon: bool,
        auto_scroll: Option<&Tm1637BannerAutoScrollConfig>,
        delay_ms: u16,
    ) -> (r: Result<Vec<LineOp>, TmError<E>>)
        ensures
            match r {
                Ok(ops) => !scroll_refused(string@, auto_scroll, DISPLAY_SIZE as nat) && ops@
                    == render_ops(
                    string@,
                    show_colon,
                    auto_scroll,
                    delay_ms,
                    DISPLAY_SIZE as nat,
                    self.control(),
                    self.bit_delay(),
                ),
                Err(e) => scroll_refused(string@, auto_scroll, DISPLAY_SIZE as nat)
                    && is_auto_scroll_error(e),
            },
    {
        let string_bucket: Vec<String> = match self.frames(string, auto_scroll) {
            Ok(frames) => frames,
            Err(e) => {
                return Err(e);
            },
        };
        // The pause that scrolling adds, once the text has qualified for it.
        let mut approved_delay_ms: Option<u16> = None;
        if let Some(config) = auto_scroll {
            if string.unicode_len() >= config.scroll_min_char_count as usize {
                approved_delay_ms = Some(config.delay_ms);
            }
        }
        if approved_delay_ms.is_none() && string.unicode_len() == 0 {
            return Ok(self.clear());
        }
        let ghost frames = frames_of(string@, auto_scroll, DISPLAY_SIZE as nat);
        let ghost control = self.control();
        let ghost delay_us = self.bit_delay();
        let mut ops: Vec<LineOp> = Vec::new();
        let mut i: usize = 0;
        while i < string_bucket.len()
            invariant
                i <= string_bucket@.len(),
                string_bucket.deep_view() == frames,
                frames == frames_of(string@, auto_scroll, DISPLAY_SIZE as nat),
                control == self.control(),
                delay_us == self.bit_delay(),
                ops@ == frames_ops(
                    frames,
                    i as nat,
                    DISPLAY_SIZE as nat,
                    show_colon,
                    approved_delay_ms,
                    delay_ms,
                    control,
                    delay_us,
                ),
            decreases string_bucket@.len() - i,
        {
            let next_string: &String = &string_bucket[i];
            proof {
                assert(next_string@ == frames[i as int]);
                crate::tm1637::frames::lemma_frames_fill_the_display(
                    string@,
                    auto_scroll,
                    DISPLAY_SIZE as nat,
                    i as int,
                );
            }
            let mut part = self.print_frame(next_string.as_str(), show_colon);
            ops.append(&mut part);
            if let Some(ms) = approved_delay_ms {
                ops.push(self.set_delay_ms(ms));
            }
            ops.push(self.set_delay_ms(delay_ms));
            assert(ops@ =~= frames_ops(
                frames,
                i as nat,
                DISPLAY_SIZE as nat,
                show_colon,
                approved_delay_ms,
                delay_ms,
                control,
                delay_us,
            ) + frame_ops(frames[i as int], DISPLAY_SIZE as nat, show_colon, control, delay_us)
                + pause_ops(approved_delay_ms, delay_ms));
            i = i + 1;
        }
        Ok(ops)
    }
}

} // verus!
