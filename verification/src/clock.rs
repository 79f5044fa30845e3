//! What the display shows from one second to the next: the time since the
//! device started, and now and then a message.
//!
//! In its first hour the device shows minutes and seconds with a blinking
//! colon. After that the time no longer fits four digits and is scrolled, as
//! hours, minutes and seconds with a letter after each. A message, when one
//! is waiting, takes the place of the time, but only at every few ticks, so
//! that messages cannot keep the time off the display.

use vstd::prelude::*;
use crate::tm1637::frames::Tm1637BannerAutoScrollConfig;
use crate::tm1637::DISPLAY_SIZE;

verus! {

pub const SECONDS_PER_MINUTE: u64 = 60;

pub const MINUTES_PER_HOUR: u64 = 60;

/// Pause after each frame of a scrolled text, in milliseconds.
pub const SCROLL_DELAY_MS: u16 = 750;

/// Pause after the time is shown in its first hour, in milliseconds.
pub const CLOCK_FRAME_DELAY_MS: u16 = 100;

/// Time to the next tick after minutes and seconds were shown, in
/// milliseconds.
pub const CLOCK_TICK_MS: u64 = 1000;

/// Time to the next tick after a scrolled text was shown, in milliseconds.
pub const SCROLL_TICK_MS: u64 = 2000;

/// In the first hour a waiting message is shown at every fifth tick.
pub const MESSAGE_EVERY_IN_FIRST_HOUR: u32 = 5;

/// After the first hour a waiting message is shown at every second tick.
pub const MESSAGE_EVERY_LATER: u32 = 2;

/// The character of a decimal digit.
pub open spec fn digit_char(d: nat) -> char {
    if d == 0 {
        '0'
    } else if d == 1 {
        '1'
    } else if d == 2 {
        '2'
    } else if d == 3 {
        '3'
    } else if d == 4 {
        '4'
    } else if d == 5 {
        '5'
    } else if d == 6 {
        '6'
    } else if d == 7 {
        '7'
    } else if d == 8 {
        '8'
    } else {
        '9'
    }
}

/// `n` in decimal, without leading zeros.
pub open spec fn decimal(n: nat) -> Seq<char>
    decreases n,
{
    if n < 10 {
        seq![digit_char(n)]
    } else {
        decimal(n / 10).push(digit_char(n % 10))
    }
}

/// A number below a hundred in two digits, with a leading zero if need be.
pub open spec fn two_digits(n: nat) -> Seq<char> {
    seq![digit_char(n / 10), digit_char(n % 10)]
}

/// The time since start as the display shows it: minutes and seconds in the
/// first hour, and later hours, minutes and seconds, marked `h`, `n` and `c`.
pub open spec fn uptime_text(uptime_secs: u64) -> Seq<char> {
    let seconds = (uptime_secs % SECONDS_PER_MINUTE) as nat;
    let minutes = (uptime_secs / SECONDS_PER_MINUTE % MINUTES_PER_HOUR) as nat;
    let hours = (uptime_secs / SECONDS_PER_MINUTE / MINUTES_PER_HOUR) as nat;
    if hours < 1 {
        two_digits(minutes) + two_digits(seconds)
    } else {
        decimal(hours) + seq!['h', ' '] + two_digits(minutes) + seq!['n', ' '] + two_digits(seconds)
            + seq!['c']
    }
}

/// The digits at positions `k - 1` down to 0, in that order.
pub open spec fn digits_down_from(digits: Seq<u8>, k: nat) -> Seq<char>
    decreases k,
{
    if k == 0 {
        Seq::empty()
    } else {
        seq![digit_char(digits[k - 1] as nat)] + digits_down_from(digits, (k - 1) as nat)
    }
}

/// Digits pushed behind position `k` do not change the digits below it.
proof fn lemma_digits_down_ignores_push(digits: Seq<u8>, d: u8, k: nat)
    requires
        k <= digits.len(),
    ensures
        digits_down_from(digits.push(d), k) == digits_down_from(digits, k),
    decreases k,
{
    if k > 0 {
        lemma_digits_down_ignores_push(digits, d, (k - 1) as nat);
    }
}

/// The text of one decimal digit.
fn digit_str(d: u8) -> (s: &'static str)
    requires
        d < 10,
    ensures
        s@ == seq![digit_char(d as nat)],
{
    proof {
        reveal_strlit("0");
        reveal_strlit("1");
        reveal_strlit("2");
        reveal_strlit("3");
        reveal_strlit("4");
        reveal_strlit("5");
        reveal_strlit("6");
        reveal_strlit("7");
        reveal_strlit("8");
        reveal_strlit("9");
    }
    let s = match d {
        0 => "0",
        1 => "1",
        2 => "2",
        3 => "3",
        4 => "4",
        5 => "5",
        6 => "6",
        7 => "7",
        8 => "8",
        _ => "9",
    };
    assert(s@ =~= seq![digit_char(d as nat)]);
    s
}

/// Appends `n` in decimal, without leading zeros.
fn push_decimal(text: &mut String, n: u64)
    ensures
        final(text)@ == old(text)@ + decimal(n as nat),
{
    // The digits after the first, the last of them first.
    let mut digits: Vec<u8> = Vec::new();
    let mut rest: u64 = n;
    assert(decimal(n as nat) =~= decimal(rest as nat) + digits_down_from(digits@, 0));
    while rest >= 10
        invariant
            decimal(n as nat) == decimal(rest as nat) + digits_down_from(digits@, digits@.len()),
            forall|j: int| 0 <= j < digits@.len() ==> #[trigger] digits@[j] < 10,
        decreases rest,
    {
        let d: u8 = (rest % 10) as u8;
        proof {
            lemma_digits_down_ignores_push(digits@, d, digits@.len());
            assert(decimal(rest as nat) == decimal((rest / 10) as nat).push(
                digit_char((rest % 10) as nat),
            ));
            assert(decimal((rest / 10) as nat) + digits_down_from(
                digits@.push(d),
                digits@.len() + 1,
            ) =~= decimal(rest as nat) + digits_down_from(digits@, digits@.len()));
        }
        digits.push(d);
        rest = rest / 10;
    }
    text.append(digit_str(rest as u8));
    let mut k: usize = digits.len();
    assert(text@ + digits_down_from(digits@, k as nat) =~= old(text)@ + decimal(n as nat));
    while k > 0
        invariant
            k <= digits@.len(),
            forall|j: int| 0 <= j < digits@.len() ==> #[trigger] digits@[j] < 10,
            text@ + digits_down_from(digits@, k as nat) == old(text)@ + decimal(n as nat),
        decreases k,
    {
        let ghost before = text@;
        text.append(digit_str(digits[k - 1]));
        assert(text@ + digits_down_from(digits@, (k - 1) as nat) =~= before + digits_down_from(
            digits@,
            k as nat,
        ));
        k = k - 1;
    }
    assert(text@ =~= text@ + digits_down_from(digits@, 0));
}

/// Appends a number below a hundred in two digits.
fn push_two_digits(text: &mut String, n: u64)
    requires
        n < 100,
    ensures
        final(text)@ == old(text)@ + two_digits(n as nat),
{
    text.append(digit_str((n / 10) as u8));
    text.append(digit_str((n % 10) as u8));
    assert(text@ =~= old(text)@ + two_digits(n as nat));
}

/// The time since start, as the display shows it.
pub fn format_uptime(uptime_secs: u64) -> (text: String)
    ensures
        text@ == uptime_text(uptime_secs),
{
    let seconds: u64 = uptime_secs % SECONDS_PER_MINUTE;
    let minutes: u64 = (uptime_secs / SECONDS_PER_MINUTE) % MINUTES_PER_HOUR;
    let hours: u64 = (uptime_secs / SECONDS_PER_MINUTE) / MINUTES_PER_HOUR;
    let mut text = String::new();
    if hours < 1 {
        push_two_digits(&mut text, minutes);
        push_two_digits(&mut text, seconds);
        assert(text@ =~= uptime_text(uptime_secs));
        return text;
    }
    proof {
        reveal_strlit("h ");
        reveal_strlit("n ");
        reveal_strlit("c");
    }
    push_decimal(&mut text, hours);
    text.append("h ");
    push_two_digits(&mut text, minutes);
    text.append("n ");
    push_two_digits(&mut text, seconds);
    text.append("c");
    assert(text@ =~= uptime_text(uptime_secs));
    text
}

/// A text that is longer than the display is scrolled, a window of full width
/// at a time.
pub open spec fn banner_scroll() -> Tm1637BannerAutoScrollConfig {
    Tm1637BannerAutoScrollConfig {
        scroll_min_char_count: (DISPLAY_SIZE + 1) as u8,
        delay_ms: SCROLL_DELAY_MS,
        min_char_count_to_be_displayed: DISPLAY_SIZE,
    }
}

/// One request to the display, and when to come back.
#[derive(Clone, Debug, PartialEq, Eq)]
pub struct DisplayRequest {
    pub text: String,
    pub show_colon: bool,
    pub auto_scroll: Option<Tm1637BannerAutoScrollConfig>,
    /// Pause after each frame, in milliseconds.
    pub delay_ms: u16,
    /// Whether the text is the message that was waiting.
    pub message_shown: bool,
    /// Time to the next tick, in milliseconds.
    pub next_delay_ms: u64,
}

/// Where the display loop stands.
#[derive(Clone, Copy, Debug, PartialEq, Eq, Structural)]
pub struct DisplayLoop {
    /// A waiting message is shown at the ticks that this divides.
    pub message_every: u32,
    /// Ticks so far; the count starts over when it no longer fits.
    pub ticks: u32,
    /// Whether the colon was lit when the time was last shown.
    pub show_colon: bool,
}

impl DisplayLoop {
    /// Whether a message that waits is shown at this tick.
    pub open spec fn shows_message(self) -> bool {
        self.message_every != 0 && self.ticks % self.message_every == 0
    }

    /// The loop after the tick at `uptime_secs`, with or without a message
    /// waiting.
    pub open spec fn after_tick(self, message_waits: bool, uptime_secs: u64) -> Self {
        let ticks = if self.ticks == u32::MAX {
            0u32
        } else {
            (self.ticks + 1) as u32
        };
        if message_waits && self.shows_message() {
            DisplayLoop { ticks, ..self }
        } else if uptime_secs / SECONDS_PER_MINUTE / MINUTES_PER_HOUR < 1 {
            DisplayLoop {
                ticks,
                show_colon: !self.show_colon,
                message_every: MESSAGE_EVERY_IN_FIRST_HOUR,
            }
        } else {
            DisplayLoop { ticks, message_every: MESSAGE_EVERY_LATER, ..self }
        }
    }

    /// Whether `request` is what the tick at `uptime_secs` asks of the
    /// display.
    pub open spec fn is_request_of(
        self,
        request: DisplayRequest,
        message: Option<&str>,
        uptime_secs: u64,
    ) -> bool {
        match message {
            Some(text) if self.shows_message() => {
                &&& request.text@ == text@
                &&& !request.show_colon
                &&& request.auto_scroll == Some(banner_scroll())
                &&& request.delay_ms == 0
                &&& request.message_shown
                &&& request.next_delay_ms == SCROLL_TICK_MS
            },
            _ => {
                &&& request.text@ == uptime_text(uptime_secs)
                &&& !request.message_shown
                &&& if uptime_secs / SECONDS_PER_MINUTE / MINUTES_PER_HOUR < 1 {
                    &&& request.show_colon == !self.show_colon
                    &&& request.auto_scroll is None
                    &&& request.delay_ms == CLOCK_FRAME_DELAY_MS
                    &&& request.next_delay_ms == CLOCK_TICK_MS
                } else {
                    &&& !request.show_colon
                    &&& request.auto_scroll == Some(banner_scroll())
                    &&& request.delay_ms == 0
                    &&& request.next_delay_ms == SCROLL_TICK_MS
                }
            },
        }
    }

    /// The loop at the start of the device.
    pub fn new() -> (display_loop: Self)
        ensures
            display_loop == (DisplayLoop {
                message_every: MESSAGE_EVERY_IN_FIRST_HOUR,
                ticks: 0,
                show_colon: false,
            }),
    {
        DisplayLoop { message_every: MESSAGE_EVERY_IN_FIRST_HOUR, ticks: 0, show_colon: false }
    }

    /// One tick: what to show now, given the message that waits, if any, and
    /// the time since start.
    pub fn tick(&mut self, message: Option<&str>, uptime_secs: u64) -> (request: DisplayRequest)
        ensures
            old(self).is_request_of(request, message, uptime_secs),
            *final(self) == old(self).after_tick(message is Some, uptime_secs),
    {
        let due: bool = self.message_every != 0 && self.ticks % self.message_every == 0;
        self.ticks = if self.ticks == u32::MAX {
            0
        } else {
            self.ticks + 1
        };
        let scroll = Tm1637BannerAutoScrollConfig {
            scroll_min_char_count: DISPLAY_SIZE + 1,
            delay_ms: SCROLL_DELAY_MS,
            min_char_count_to_be_displayed: DISPLAY_SIZE,
        };
        if let Some(text) = message {
            if due {
                return DisplayRequest {
                    text: text.to_owned(),
                    show_colon: false,
                    auto_scroll: Some(scroll),
                    delay_ms: 0,
                    message_shown: true,
                    next_delay_ms: SCROLL_TICK_MS,
                };
            }
        }
        let hours: u64 = (uptime_secs / SECONDS_PER_MINUTE) / MINUTES_PER_HOUR;
        if hours < 1 {
            self.show_colon = !self.show_colon;
            self.message_every = MESSAGE_EVERY_IN_FIRST_HOUR;
            return DisplayRequest {
                text: format_uptime(uptime_secs),
                show_colon: self.show_colon,
                auto_scroll: None,
                delay_ms: CLOCK_FRAME_DELAY_MS,
                message_shown: false,
                next_delay_ms: CLOCK_TICK_MS,
            };
        }
        self.message_every = MESSAGE_EVERY_LATER;
        DisplayRequest {
            text: format_uptime(uptime_secs),
            show_colon: false,
            auto_scroll: Some(scroll),
            delay_ms: 0,
            message_shown: false,
            next_delay_ms: SCROLL_TICK_MS,
        }
    }
}

} // verus!
