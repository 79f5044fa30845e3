//! From a text to the frames that show it.
//!
//! A frame is what the display shows at one moment: exactly as many
//! characters as it has digits. A text that is not scrolled becomes one
//! frame, pushed to the right. A scrolled text becomes the windows that slide
//! over it from its first character on, each pushed to the left, for as long
//! as a window still holds the configured minimum of characters.

use vstd::prelude::*;
use crate::tm1637::encoding::digit_byte;
use crate::tm1637::wire::clear_ops;
use crate::tm1637::wire::write_ops;
use crate::tm1637::wire::LineOp;

verus! {

/// When and how a text is scrolled.
#[derive(Clone, Copy, Debug, PartialEq, Eq, Structural)]
pub struct Tm1637BannerAutoScrollConfig {
    /// A text of at least this many characters is scrolled.
    pub scroll_min_char_count: u8,
    /// Pause after each frame of a scrolled text, in milliseconds.
    pub delay_ms: u16,
    /// Scrolling ends before a frame would hold fewer characters of the text
    /// than this. Must not exceed the number of digits.
    pub min_char_count_to_be_displayed: u8,
}

/// `n` spaces.
pub open spec fn blanks(n: nat) -> Seq<char> {
    Seq::new(n, |i: int| ' ')
}

/// `text` in a field of `width` characters, pushed to the right: spaces fill
/// the field on the left, and a text that is too long keeps its first `width`
/// characters.
pub open spec fn right_aligned(text: Seq<char>, width: nat) -> Seq<char> {
    if text.len() >= width {
        text.take(width as int)
    } else {
        blanks((width - text.len()) as nat) + text
    }
}

/// `text` in a field of `width` characters, pushed to the left.
pub open spec fn left_aligned(text: Seq<char>, width: nat) -> Seq<char> {
    if text.len() >= width {
        text.take(width as int)
    } else {
        text + blanks((width - text.len()) as nat)
    }
}

/// Number of characters in the window over `text` that begins at `start`: the
/// width, or what is left of the text.
pub open spec fn window_len(len: nat, start: nat, width: nat) -> nat {
    if start + width <= len {
        width
    } else if start <= len {
        (len - start) as nat
    } else {
        0
    }
}

/// The window over `text` that begins at `start`.
pub open spec fn window(text: Seq<char>, start: nat, width: nat) -> Seq<char> {
    text.subrange(start as int, (start + window_len(text.len(), start, width)) as int)
}

/// Number of frames of a scrolled text of `len` characters, `len` above
/// `min_shown`: one for each start position whose window holds at least
/// `min_shown` characters.
pub open spec fn scroll_frame_count(len: nat, min_shown: nat) -> nat {
    if min_shown == 0 {
        len
    } else {
        (len - min_shown + 1) as nat
    }
}

/// The frames of a text that qualifies for scrolling. A text of no more than
/// `min_shown` characters is shown at once, pushed to the right.
pub open spec fn banner_frames(text: Seq<char>, min_shown: nat, width: nat) -> Seq<Seq<char>> {
    if text.len() <= min_shown {
        seq![right_aligned(text, width)]
    } else {
        Seq::new(
            scroll_frame_count(text.len(), min_shown),
            |i: int| left_aligned(window(text, i as nat, width), width),
        )
    }
}

/// Whether `text` is scrolled: a configuration is given and the text is long
/// enough for it.
pub open spec fn scrolls(text: Seq<char>, auto_scroll: Option<&Tm1637BannerAutoScrollConfig>) -> bool {
    match auto_scroll {
        Some(config) => text.len() >= config.scroll_min_char_count,
        None => false,
    }
}

/// Whether the configuration is refused for `text`: the text would be
/// scrolled, and the least number of characters to show does not fit the
/// display.
pub open spec fn scroll_refused(
    text: Seq<char>,
    auto_scroll: Option<&Tm1637BannerAutoScrollConfig>,
    width: nat,
) -> bool {
    match auto_scroll {
        Some(config) => scrolls(text, auto_scroll) && config.min_char_count_to_be_displayed
            > width,
        None => false,
    }
}

/// The frames that show `text`.
pub open spec fn frames_of(
    text: Seq<char>,
    auto_scroll: Option<&Tm1637BannerAutoScrollConfig>,
    width: nat,
) -> Seq<Seq<char>> {
    match auto_scroll {
        Some(config) if scrolls(text, auto_scroll) => banner_frames(
            text,
            config.min_char_count_to_be_displayed as nat,
            width,
        ),
        _ => seq![right_aligned(text, width)],
    }
}

/// How many digits of a text of `len` characters a display of `width` digits
/// shows.
pub open spec fn shown_digits(len: nat, width: nat) -> nat {
    if len < width {
        len
    } else {
        width
    }
}

/// The first `shown` digits of a frame, written one register at a time from
/// the left.
pub open spec fn frame_ops(
    frame: Seq<char>,
    shown: nat,
    show_colon: bool,
    control: u8,
    delay_us: u16,
) -> Seq<LineOp>
    decreases shown,
{
    if shown == 0 {
        Seq::empty()
    } else {
        let pos = (shown - 1) as nat;
        frame_ops(frame, pos, show_colon, control, delay_us) + write_ops(
            seq![digit_byte(pos as u8, frame[pos as int], show_colon)],
            pos as u8,
            control,
            delay_us,
        )
    }
}

/// The pauses after a frame: the scroll pause, if the text is scrolled, and
/// then the caller's.
pub open spec fn pause_ops(scroll_delay_ms: Option<u16>, delay_ms: u16) -> Seq<LineOp> {
    match scroll_delay_ms {
        Some(ms) => seq![LineOp::DelayMs(ms), LineOp::DelayMs(delay_ms)],
        None => seq![LineOp::DelayMs(delay_ms)],
    }
}

/// The first `n` of `frames`, each written in full and followed by its
/// pauses.
pub open spec fn frames_ops(
    frames: Seq<Seq<char>>,
    n: nat,
    width: nat,
    show_colon: bool,
    scroll_delay_ms: Option<u16>,
    delay_ms: u16,
    control: u8,
    delay_us: u16,
) -> Seq<LineOp>
    decreases n,
{
    if n == 0 {
        Seq::empty()
    } else {
        frames_ops(
            frames,
            (n - 1) as nat,
            width,
            show_colon,
            scroll_delay_ms,
            delay_ms,
            control,
            delay_us,
        ) + frame_ops(frames[n - 1], width, show_colon, control, delay_us) + pause_ops(
            scroll_delay_ms,
            delay_ms,
        )
    }
}

/// The pause that the configuration adds after each frame of `text`, if it is
/// scrolled.
pub open spec fn scroll_delay_of(
    text: Seq<char>,
    auto_scroll: Option<&Tm1637BannerAutoScrollConfig>,
) -> Option<u16> {
    match auto_scroll {
        Some(config) if scrolls(text, auto_scroll) => Some(config.delay_ms),
        _ => None,
    }
}

/// Everything that showing `text` puts on the wire, for a configuration that
/// is not refused. An empty text that is not scrolled blanks the display and
/// does not pause.
pub open spec fn render_ops(
    text: Seq<char>,
    show_colon: bool,
    auto_scroll: Option<&Tm1637BannerAutoScrollConfig>,
    delay_ms: u16,
    width: nat,
    control: u8,
    delay_us: u16,
) -> Seq<LineOp> {
    if text.len() == 0 && !scrolls(text, auto_scroll) {
        clear_ops(control, delay_us)
    } else {
        let frames = frames_of(text, auto_scroll, width);
        frames_ops(
            frames,
            frames.len(),
            width,
            show_colon,
            scroll_delay_of(text, auto_scroll),
            delay_ms,
            control,
            delay_us,
        )
    }
}

/// Every frame is exactly as wide as the display.
pub proof fn lemma_frames_fill_the_display(
    text: Seq<char>,
    auto_scroll: Option<&Tm1637BannerAutoScrollConfig>,
    width: nat,
    i: int,
)
    requires
        0 <= i < frames_of(text, auto_scroll, width).len(),
    ensures
        frames_of(text, auto_scroll, width)[i].len() == width,
{
}

/// A text that fits the display and is not scrolled is one frame: the text at
/// the right, spaces before it.
pub proof fn lemma_short_text_is_one_right_aligned_frame(text: Seq<char>, width: nat)
    requires
        text.len() <= width,
    ensures
        frames_of(text, None, width) == seq![blanks((width - text.len()) as nat) + text],
        frames_of(text, None, width).len() == 1,
        frames_of(text, None, width)[0].len() == width,
        forall|k: int|
            0 <= k < width - text.len() ==> (#[trigger] frames_of(text, None, width)[0][k]) == ' ',
        forall|k: int|
            0 <= k < text.len() ==> (#[trigger] frames_of(text, None, width)[0][width - text.len()
                + k]) == text[k],
{
    let frame = right_aligned(text, width);
    assert(frame =~= blanks((width - text.len()) as nat) + text);
}

/// Showing a text that fits the display, without scrolling, writes one frame,
/// the text at its right, and pauses once. The empty text is the exception:
/// it blanks the display.
pub proof fn lemma_short_text_renders_one_frame(
    text: Seq<char>,
    show_colon: bool,
    delay_ms: u16,
    width: nat,
    control: u8,
    delay_us: u16,
)
    requires
        0 < text.len() <= width,
    ensures
        render_ops(text, show_colon, None, delay_ms, width, control, delay_us) == frame_ops(
            blanks((width - text.len()) as nat) + text,
            width,
            show_colon,
            control,
            delay_us,
        ) + seq![LineOp::DelayMs(delay_ms)],
        render_ops(Seq::empty(), show_colon, None, delay_ms, width, control, delay_us)
            == clear_ops(control, delay_us),
{
    lemma_short_text_is_one_right_aligned_frame(text, width);
    let frames = frames_of(text, None, width);
    let none: Option<u16> = None;
    assert(frames_ops(frames, 0, width, show_colon, none, delay_ms, control, delay_us)
        =~= Seq::<LineOp>::empty());
    assert(frames_ops(frames, 1, width, show_colon, none, delay_ms, control, delay_us)
        =~= frame_ops(frames[0], width, show_colon, control, delay_us) + pause_ops(
        none,
        delay_ms,
    ));
}

/// A configuration that asks for more characters than the display has digits
/// is refused for every text that it would scroll, and for no other.
pub proof fn lemma_oversized_minimum_is_refused(
    text: Seq<char>,
    config: &Tm1637BannerAutoScrollConfig,
    width: nat,
)
    requires
        config.min_char_count_to_be_displayed > width,
    ensures
        scroll_refused(text, Some(config), width) <==> text.len()
            >= config.scroll_min_char_count,
{
}

/// A scrolled text longer than the least number of characters to show has one
/// frame for each way of placing that many characters at the left of the
/// display; a shorter one has a single frame.
pub proof fn lemma_scroll_frame_count(
    text: Seq<char>,
    config: &Tm1637BannerAutoScrollConfig,
    width: nat,
)
    requires
        text.len() >= config.scroll_min_char_count,
        1 <= config.min_char_count_to_be_displayed <= width,
    ensures
        text.len() > config.min_char_count_to_be_displayed ==> frames_of(
            text,
            Some(config),
            width,
        ).len() == text.len() - config.min_char_count_to_be_displayed + 1,
        text.len() <= config.min_char_count_to_be_displayed ==> frames_of(
            text,
            Some(config),
            width,
        ).len() == 1,
{
}

/// The frames of a scrolled text are exactly those whose window holds the
/// least number of characters to show: every frame's window does, and the
/// window after the last frame does not.
pub proof fn lemma_scroll_stops_at_short_window(text: Seq<char>, min_shown: nat, width: nat)
    requires
        min_shown <= width,
        text.len() > min_shown,
    ensures
        forall|i: nat|
            i < scroll_frame_count(text.len(), min_shown) ==> i < text.len() && #[trigger] window_len(
                text.len(),
                i,
                width,
            ) >= min_shown,
        scroll_frame_count(text.len(), min_shown) < text.len() ==> window_len(
            text.len(),
            scroll_frame_count(text.len(), min_shown),
            width,
        ) < min_shown,
{
}

} // verus!
