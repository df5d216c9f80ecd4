//! The reader's state and its per-frame transitions.
//!
//! The shell owns the window, the font and the event loop; each frame it
//! hands the reader plain values (events, held keys, elapsed milliseconds)
//! and paints what the reader tells it to. Speed is in words per minute and
//! the word cursor is kept in fixed point: `UNITS_PER_WORD` cursor units
//! make one word, so advancing by `speed * elapsed_ms` units each frame
//! moves the cursor by `speed / 60` words per second, with no rounding
//! drift.

use vstd::prelude::*;

use crate::color::Rgba;
use crate::color::spec_white;
use crate::color::spec_black;
use crate::color::spec_red;
use crate::color::spec_green;
use crate::color::spec_blue;
use crate::color::spec_aqua;
use crate::color::spec_maroon;
use crate::color::spec_orange;
use crate::color::spec_navy;
use crate::color::spec_magenta;
use crate::color::white;
use crate::color::black;
use crate::color::red;
use crate::color::green;
use crate::color::blue;
use crate::color::aqua;
use crate::color::maroon;
use crate::color::orange;
use crate::color::navy;
use crate::color::magenta;
use crate::input::InputEvent;
use crate::input::KeySet;
use crate::text::is_valid_utf8;
use crate::text::spec_split_words;
use crate::text::split_words;
use crate::text::utf8_check;
use crate::text::words_view;

verus! {

/// The lowest speed the wheel can reach, in words per minute.
pub const MIN_SPEED: i32 = -180;

/// How much one wheel tick changes the speed, in words per minute.
pub const WHEEL_STEP: i32 = 10;

/// Cursor units in one word: speed (words per minute) times elapsed
/// milliseconds advances the cursor by exactly `speed / 60` words per
/// second.
pub const UNITS_PER_WORD: i64 = 60000;

/// How much one frame of Up or Down changes the text size.
pub const SIZE_STEP: i32 = 2;

/// The text size at start.
pub const INITIAL_TEXT_SIZE: i32 = 32;

/// What the window shows this frame.
#[derive(Clone, Copy, Debug, PartialEq, Eq, Structural)]
pub enum DisplayMode {
    /// At least one drag is over the window: draw the drop overlay.
    DragOverlay,
    /// No words are loaded yet: draw the prompt to drop a file.
    IdlePrompt,
    /// Words are loaded: draw the current word.
    WordDisplay,
}

/// Why a dropped file's text was not taken.
#[derive(Clone, Copy, Debug, PartialEq, Eq, Structural)]
pub enum TextError {
    /// The bytes are not well-formed UTF-8; the reader is left as it was,
    /// so the idle prompt stays up instead of the viewer going down.
    InvalidUtf8,
    /// A text is already loaded; the word list is filled at most once.
    AlreadyLoaded,
}

/// The whole state of the viewer.
pub struct Reader {
    /// How many drags are over the window right now.
    pub dragging: usize,
    /// The words of the loaded text, empty until a file is taken.
    pub words: Vec<Vec<u8>>,
    /// Scroll speed in words per minute; negative scrolls backwards.
    pub speed: i32,
    /// Fixed-point word cursor: `UNITS_PER_WORD` units per word. It is
    /// never wrapped or reset, only clamped for display.
    pub cursor: i64,
    /// The window's background color.
    pub background_color: Rgba,
    /// The displayed word's color.
    pub text_color: Rgba,
    /// The displayed word's size in points.
    pub text_size: i32,
}

/// `v` clamped to `[lo, hi]`.
pub open spec fn spec_clamp(v: int, lo: int, hi: int) -> int {
    if v < lo {
        lo
    } else if v > hi {
        hi
    } else {
        v
    }
}

/// The speed after one wheel tick of the given sign: one step against the
/// sign, floored at `MIN_SPEED`, with no ceiling short of the type's.
pub open spec fn spec_wheel_speed(speed: int, delta_sign: int) -> int {
    spec_clamp(speed - WHEEL_STEP * delta_sign, MIN_SPEED as int, i32::MAX as int)
}

/// The drag counter after one more drag entered.
pub open spec fn spec_drag_enter(dragging: int) -> int {
    if dragging == usize::MAX {
        dragging
    } else {
        dragging + 1
    }
}

/// The MIME type that marks a droppable text file: "text/plain".
pub open spec fn spec_text_plain_mime() -> Seq<u8> {
    seq![116u8, 101u8, 120u8, 116u8, 47u8, 112u8, 108u8, 97u8, 105u8, 110u8]
}

/// The state after one window event: drag-enter counts the drag,
/// drag-leave and a drop reset the counter to zero, and a wheel tick steps
/// the speed.
pub open spec fn spec_event_step(s: Reader, evt: InputEvent) -> Reader {
    match evt {
        InputEvent::DragEnter => Reader {
            dragging: spec_drag_enter(s.dragging as int) as usize,
            ..s
        },
        InputEvent::DragLeave => Reader { dragging: 0, ..s },
        InputEvent::MouseWheel { delta_sign } => Reader {
            speed: spec_wheel_speed(s.speed as int, delta_sign as int) as i32,
            ..s
        },
        InputEvent::FileDrop { .. } => Reader { dragging: 0, ..s },
    }
}

/// Whether an event asks the shell to load the dropped file: only a drop
/// whose MIME type is exactly "text/plain" does.
pub open spec fn spec_wants_load(evt: InputEvent) -> bool {
    evt matches InputEvent::FileDrop { mime } && mime@ == spec_text_plain_mime()
}

/// The background after one frame of key polling. Later assignments in the
/// frame win, so this reads the cascade backwards: the rainbow chord
/// first, then F, the two two-key chords, and the single letters.
pub open spec fn spec_background_after(k: KeySet, rainbow: Rgba, bg: Rgba) -> Rgba {
    if k.num1 && k.num2 && k.num3 {
        spec_rainbow_background(rainbow)
    } else if k.f {
        spec_magenta()
    } else if k.z && k.x {
        spec_black()
    } else if k.v && k.c {
        spec_white()
    } else if k.o {
        spec_black()
    } else if k.i {
        spec_white()
    } else if k.u {
        spec_navy()
    } else if k.y {
        spec_orange()
    } else if k.t {
        spec_maroon()
    } else if k.r {
        spec_aqua()
    } else if k.e {
        spec_blue()
    } else if k.w {
        spec_green()
    } else if k.q {
        spec_red()
    } else {
        bg
    }
}

/// The text color after one frame of key polling, read backwards like the
/// background.
pub open spec fn spec_text_color_after(k: KeySet, rainbow: Rgba, fg: Rgba) -> Rgba {
    if k.num1 && k.num2 && k.num3 {
        spec_rainbow_text(rainbow)
    } else if k.m {
        spec_magenta()
    } else if k.n {
        spec_navy()
    } else if k.b {
        spec_orange()
    } else if k.l {
        spec_maroon()
    } else if k.k {
        spec_aqua()
    } else if k.j {
        spec_blue()
    } else if k.h {
        spec_green()
    } else if k.g {
        spec_red()
    } else if k.z && k.x {
        spec_white()
    } else if k.v && k.c {
        spec_black()
    } else if k.a {
        spec_white()
    } else if k.p {
        spec_black()
    } else {
        fg
    }
}

/// The rainbow chord's background: the shell's pulsing color, opaque.
pub open spec fn spec_rainbow_background(c: Rgba) -> Rgba {
    Rgba { red: c.red, green: c.green, blue: c.blue, alpha: 255 }
}

/// The rainbow chord's text color: the same channels rotated once.
pub open spec fn spec_rainbow_text(c: Rgba) -> Rgba {
    Rgba { red: c.blue, green: c.red, blue: c.green, alpha: 255 }
}

/// The text size after one frame: up two for Up, then down two for Down,
/// each saturating at the type's bounds.
pub open spec fn spec_size_after(size: int, up: bool, down: bool) -> int {
    let grown = if up {
        spec_clamp(size + SIZE_STEP, i32::MIN as int, i32::MAX as int)
    } else {
        size
    };
    if down {
        spec_clamp(grown - SIZE_STEP, i32::MIN as int, i32::MAX as int)
    } else {
        grown
    }
}

/// The state after one frame of polling: colors from the key cascade, speed
/// zeroed while the left button is held, size stepped by Up and Down.
pub open spec fn spec_input_step(s: Reader, k: KeySet, mouse_left: bool, rainbow: Rgba) -> Reader {
    Reader {
        background_color: spec_background_after(k, rainbow, s.background_color),
        text_color: spec_text_color_after(k, rainbow, s.text_color),
        speed: if mouse_left {
            0
        } else {
            s.speed
        },
        text_size: spec_size_after(s.text_size as int, k.up, k.down) as i32,
        ..s
    }
}

/// The cursor after one frame: `speed * elapsed_ms` more units, saturating
/// at the cursor type's bounds.
pub open spec fn spec_cursor_after(cursor: int, speed: int, elapsed_ms: int) -> int {
    spec_clamp(cursor + speed * elapsed_ms, i64::MIN as int, i64::MAX as int)
}

/// The word index on show: the cursor's whole part, clamped to the valid
/// range `[0, len - 1]`. In spec arithmetic `/` is Euclidean, so for a
/// positive divisor the quotient is the floor also when the cursor is
/// negative.
pub open spec fn spec_display_index(cursor: int, len: int) -> int
    recommends
        len > 0,
{
    spec_clamp(cursor / (UNITS_PER_WORD as int), 0, len - 1)
}

/// What the window shows: the drop overlay while any drag is over it, the
/// idle prompt while no words are loaded, else the current word.
pub open spec fn spec_display_mode(s: Reader) -> DisplayMode {
    if s.dragging > 0 {
        DisplayMode::DragOverlay
    } else if s.words@.len() == 0 {
        DisplayMode::IdlePrompt
    } else {
        DisplayMode::WordDisplay
    }
}

/// Whether the MIME bytes read exactly "text/plain".
fn is_text_plain(mime: &Vec<u8>) -> (r: bool)
    ensures
        r == (mime@ == spec_text_plain_mime()),
{
    if mime.len() != 10 {
        return false;
    }
    let r = mime[0] == 116 && mime[1] == 101 && mime[2] == 120 && mime[3] == 116 && mime[4] == 47
        && mime[5] == 112 && mime[6] == 108 && mime[7] == 97 && mime[8] == 105 && mime[9] == 110;
    proof {
        if r {
            assert(mime@ =~= spec_text_plain_mime());
        }
    }
    r
}

/// Computes the background the key cascade leaves behind.
fn background_after(keys: &KeySet, rainbow: Rgba, bg: Rgba) -> (c: Rgba)
    ensures
        c == spec_background_after(*keys, rainbow, bg),
{
    if keys.num1 && keys.num2 && keys.num3 {
        Rgba::opaque(rainbow.red, rainbow.green, rainbow.blue)
    } else if keys.f {
        magenta()
    } else if keys.z && keys.x {
        black()
    } else if keys.v && keys.c {
        white()
    } else if keys.o {
        black()
    } else if keys.i {
        white()
    } else if keys.u {
        navy()
    } else if keys.y {
        orange()
    } else if keys.t {
        maroon()
    } else if keys.r {
        aqua()
    } else if keys.e {
        blue()
    } else if keys.w {
        green()
    } else if keys.q {
        red()
    } else {
        bg
    }
}

/// Computes the text color the key cascade leaves behind.
fn text_color_after(keys: &KeySet, rainbow: Rgba, fg: Rgba) -> (c: Rgba)
    ensures
        c == spec_text_color_after(*keys, rainbow, fg),
{
    if keys.num1 && keys.num2 && keys.num3 {
        Rgba::opaque(rainbow.blue, rainbow.red, rainbow.green)
    } else if keys.m {
        magenta()
    } else if keys.n {
        navy()
    } else if keys.b {
        orange()
    } else if keys.l {
        maroon()
    } else if keys.k {
        aqua()
    } else if keys.j {
        blue()
    } else if keys.h {
        green()
    } else if keys.g {
        red()
    } else if keys.z && keys.x {
        white()
    } else if keys.v && keys.c {
        black()
    } else if keys.a {
        white()
    } else if keys.p {
        black()
    } else {
        fg
    }
}

impl Reader {
    /// The state at start: nothing loaded, nothing dragged, at rest, white
    /// on black at the initial size.
    pub fn new() -> (s: Reader)
        ensures
            s.dragging == 0,
            s.words@.len() == 0,
            s.speed == 0,
            s.cursor == 0,
            s.background_color == spec_black(),
            s.text_color == spec_white(),
            s.text_size == INITIAL_TEXT_SIZE,
    {
        Reader {
            dragging: 0,
            words: Vec::new(),
            speed: 0,
            cursor: 0,
            background_color: black(),
            text_color: white(),
            text_size: INITIAL_TEXT_SIZE,
        }
    }

    /// Reacts to one window event and says whether the shell should load
    /// the dropped file (it should exactly for a "text/plain" drop).
    pub fn handle_event(&mut self, evt: &InputEvent) -> (load: bool)
        ensures
            *final(self) == spec_event_step(*old(self), *evt),
            load == spec_wants_load(*evt),
    {
        match evt {
            InputEvent::DragEnter => {
                if self.dragging < usize::MAX {
                    self.dragging = self.dragging + 1;
                }
                false
            },
            InputEvent::DragLeave => {
                self.dragging = 0;
                false
            },
            InputEvent::MouseWheel { delta_sign } => {
                let wide: i64 = self.speed as i64 - (WHEEL_STEP as i64) * (*delta_sign as i64);
                self.speed = if wide < MIN_SPEED as i64 {
                    MIN_SPEED
                } else if wide > i32::MAX as i64 {
                    i32::MAX
                } else {
                    wide as i32
                };
                false
            },
            InputEvent::FileDrop { mime } => {
                self.dragging = 0;
                is_text_plain(mime)
            },
        }
    }

    /// Applies one frame of keyboard and mouse polling. The cascade polls
    /// every key and the last assignment wins, so each field takes the
    /// highest-priority effect among the keys held this frame.
    pub fn apply_input(&mut self, keys: &KeySet, mouse_left: bool, rainbow: Rgba)
        ensures
            *final(self) == spec_input_step(*old(self), *keys, mouse_left, rainbow),
    {
        self.background_color = background_after(keys, rainbow, self.background_color);
        self.text_color = text_color_after(keys, rainbow, self.text_color);
        if mouse_left {
            self.speed = 0;
        }
        if keys.up {
            let wide: i64 = self.text_size as i64 + SIZE_STEP as i64;
            self.text_size = if wide > i32::MAX as i64 {
                i32::MAX
            } else {
                wide as i32
            };
        }
        if keys.down {
            let wide: i64 = self.text_size as i64 - SIZE_STEP as i64;
            self.text_size = if wide < i32::MIN as i64 {
                i32::MIN
            } else {
                wide as i32
            };
        }
    }

    /// Takes the bytes of the dropped file, once: splits well-formed UTF-8
    /// text into words and reports how many, rejects malformed bytes and a
    /// second load without touching anything.
    pub fn load_text(&mut self, bytes: &Vec<u8>) -> (result: Result<usize, TextError>)
        ensures
            old(self).words@.len() > 0 ==> result == Err::<usize, TextError>(
                TextError::AlreadyLoaded,
            ) && *final(self) == *old(self),
            old(self).words@.len() == 0 && !is_valid_utf8(bytes@) ==> result == Err::<
                usize,
                TextError,
            >(TextError::InvalidUtf8) && *final(self) == *old(self),
            old(self).words@.len() == 0 && is_valid_utf8(bytes@) ==> {
                &&& result matches Ok(count) && count == spec_split_words(bytes@).len()
                &&& words_view(final(self).words@) == spec_split_words(bytes@)
                &&& final(self).dragging == old(self).dragging
                &&& final(self).speed == old(self).speed
                &&& final(self).cursor == old(self).cursor
                &&& final(self).background_color == old(self).background_color
                &&& final(self).text_color == old(self).text_color
                &&& final(self).text_size == old(self).text_size
            },
    {
        if self.words.len() > 0 {
            return Err(TextError::AlreadyLoaded);
        }
        if !utf8_check(bytes) {
            return Err(TextError::InvalidUtf8);
        }
        self.words = split_words(bytes);
        Ok(self.words.len())
    }

    /// What the window shows this frame.
    pub fn display_mode(&self) -> (mode: DisplayMode)
        ensures
            mode == spec_display_mode(*self),
    {
        if self.dragging > 0 {
            DisplayMode::DragOverlay
        } else if self.words.len() == 0 {
            DisplayMode::IdlePrompt
        } else {
            DisplayMode::WordDisplay
        }
    }

    /// The index of the word on show: the cursor's whole part clamped to
    /// the word list, whatever the cursor's value, negative or far past
    /// the end.
    pub fn displayed_index(&self) -> (index: usize)
        requires
            self.words@.len() > 0,
        ensures
            index == spec_display_index(self.cursor as int, self.words@.len() as int),
    {
        if self.cursor < 0 {
            return 0;
        }
        let quotient: i64 = self.cursor / UNITS_PER_WORD;
        let len = self.words.len();
        if quotient as u64 >= len as u64 {
            len - 1
        } else {
            quotient as usize
        }
    }

    /// The word on show.
    pub fn displayed_word(&self) -> (word: &Vec<u8>)
        requires
            self.words@.len() > 0,
        ensures
            word@ == words_view(self.words@)[spec_display_index(
                self.cursor as int,
                self.words@.len() as int,
            )],
    {
        let index = self.displayed_index();
        &self.words[index]
    }

    /// Advances the cursor by one frame: `speed * elapsed_ms` units,
    /// saturating at the cursor type's bounds. The shell calls this on the
    /// frames that show a word.
    pub fn advance(&mut self, elapsed_ms: u32)
        ensures
            final(self).cursor as int == spec_cursor_after(
                old(self).cursor as int,
                old(self).speed as int,
                elapsed_ms as int,
            ),
            final(self).dragging == old(self).dragging,
            final(self).words == old(self).words,
            final(self).speed == old(self).speed,
            final(self).background_color == old(self).background_color,
            final(self).text_color == old(self).text_color,
            final(self).text_size == old(self).text_size,
    {
        proof {
            let sp: int = self.speed as int;
            let dt: int = elapsed_ms as int;
            assert(sp * dt <= 0x7fff_ffff_ffff_ffff && sp * dt >= -0x8000_0000_0000_0000)
                by (nonlinear_arith)
                requires
                    -0x8000_0000 <= sp <= 0x7fff_ffff,
                    0 <= dt <= 0xffff_ffff,
            ;
        }
        let delta: i64 = (self.speed as i64) * (elapsed_ms as i64);
        let wide: i128 = self.cursor as i128 + delta as i128;
        self.cursor = if wide > i64::MAX as i128 {
            i64::MAX
        } else if wide < i64::MIN as i128 {
            i64::MIN
        } else {
            wide as i64
        };
    }
}

} // verus!
