//! The native console backend: what to do with its event records and screen
//! buffer when escape sequences are not understood, and which backend a
//! terminal gets.
use vstd::prelude::*;

use crate::keys::{byte_key, is_alphanumeric, key_from_byte};
use crate::sequences::{
    color_bg, color_bytes, color_fg, color_reset, color_reset_bytes, console_clear,
    console_clear_bytes, cursor_set, cursor_set_bytes,
};
use crate::{KeyCode, Pos};

verus! {

/// Console input mode that lets escape sequences through.
pub const ENABLE_PROCESSED_INPUT: u32 = 0x0001;
pub const ENABLE_VIRTUAL_TERMINAL_INPUT: u32 = 0x0200;

/// Console output modes that interpret escape sequences.
pub const ENABLE_PROCESSED_OUTPUT: u32 = 0x0001;
pub const ENABLE_WRAP_AT_EOL_OUTPUT: u32 = 0x0002;
pub const ENABLE_VIRTUAL_TERMINAL_PROCESSING: u32 = 0x0004;

/// Text attributes that reset the console's colours: white on black.
pub const LEGACY_DEFAULT_ATTRIBUTES: u16 = 15;

/// How a terminal is driven.
#[derive(Debug, Clone, Copy, PartialEq, Eq, Structural)]
pub enum Backend {
    /// The terminal understands escape sequences.
    Ansi,
    /// A console reached through its native event and buffer calls only.
    LegacyConsole,
}

/// What was learnt of the terminal at start-up, fixed from then on.
#[derive(Debug, Clone, Copy, PartialEq, Eq, Structural)]
pub struct Terminal {
    pub backend: Backend,
}

/// The configuration for a terminal that does, or does not, understand
/// escape sequences.
pub fn terma_init(supports_ansi: bool) -> (t: Terminal)
    ensures
        t.backend == (if supports_ansi {
            Backend::Ansi
        } else {
            Backend::LegacyConsole
        }),
{
    if supports_ansi {
        Terminal { backend: Backend::Ansi }
    } else {
        Terminal { backend: Backend::LegacyConsole }
    }
}

impl Terminal {
    /// The mode to give the console's input handle, if any.
    pub fn input_mode(&self) -> (r: Option<u32>)
        ensures
            self.backend == Backend::Ansi ==> r == Some(
                ENABLE_PROCESSED_INPUT | ENABLE_VIRTUAL_TERMINAL_INPUT,
            ),
            self.backend == Backend::LegacyConsole ==> r is None,
    {
        match self.backend {
            Backend::Ansi => Some(ENABLE_PROCESSED_INPUT | ENABLE_VIRTUAL_TERMINAL_INPUT),
            Backend::LegacyConsole => None,
        }
    }

    /// The mode to give the console's output handle, if any.
    pub fn output_mode(&self) -> (r: Option<u32>)
        ensures
            self.backend == Backend::Ansi ==> r == Some(
                ENABLE_VIRTUAL_TERMINAL_PROCESSING | ENABLE_WRAP_AT_EOL_OUTPUT
                    | ENABLE_PROCESSED_OUTPUT,
            ),
            self.backend == Backend::LegacyConsole ==> r is None,
    {
        match self.backend {
            Backend::Ansi => Some(
                ENABLE_VIRTUAL_TERMINAL_PROCESSING | ENABLE_WRAP_AT_EOL_OUTPUT
                    | ENABLE_PROCESSED_OUTPUT,
            ),
            Backend::LegacyConsole => None,
        }
    }
}

/// A console cell coordinate, 0-indexed.
#[derive(Debug, Clone, Copy, PartialEq, Eq, Structural)]
pub struct Coord {
    pub x: i16,
    pub y: i16,
}

/// A rectangle of console cells, edges included.
#[derive(Debug, Clone, Copy, PartialEq, Eq, Structural)]
pub struct Rect {
    pub left: i16,
    pub top: i16,
    pub right: i16,
    pub bottom: i16,
}

/// What the console reports of its screen buffer.
#[derive(Debug, Clone, Copy, PartialEq, Eq, Structural)]
pub struct BufferInfo {
    pub size: Coord,
    pub cursor: Coord,
    pub attributes: u16,
}

/// A keyboard event record.
#[derive(Debug, Clone, Copy, PartialEq, Eq, Structural)]
pub struct KeyRecord {
    pub key_down: bool,
    pub virtual_keycode: u16,
    /// The UTF-16 code unit typed, 0 if none.
    pub character: u16,
}

/// One console input event.
#[derive(Debug, Clone, Copy, PartialEq, Eq, Structural)]
pub enum InputEvent {
    Key(KeyRecord),
    /// Mouse, resize, menu and focus events.
    Other,
}

/// What a legacy key read does after one event read.
#[derive(Debug, Clone, Copy, PartialEq, Eq, Structural)]
pub enum LegacyStep {
    /// Report this key.
    Key(KeyCode),
    /// The event named no key: read the next one.
    ReadAgain,
    /// Events cannot be read: fall back to a plain byte read.
    Fallback,
}

/// The key that a typed character names, if any.
pub open spec fn character_key(c: u16) -> Option<KeyCode> {
    if c < 0x80 && is_alphanumeric(c as u8) {
        Some(KeyCode::Char((c as u8) as char))
    } else if c == 8 {
        Some(KeyCode::Backspace)
    } else if c == 13 {
        Some(KeyCode::Enter)
    } else if c == 32 {
        Some(KeyCode::Space)
    } else {
        None
    }
}

/// The arrow key that a virtual key code names, if any.
pub open spec fn virtual_key(vk: u16) -> Option<KeyCode> {
    if vk == 0x25 {
        Some(KeyCode::ArrowLeft)
    } else if vk == 0x26 {
        Some(KeyCode::ArrowUp)
    } else if vk == 0x27 {
        Some(KeyCode::ArrowRight)
    } else if vk == 0x28 {
        Some(KeyCode::ArrowDown)
    } else {
        None
    }
}

/// The step for an event read: `None` when reading it failed.
pub open spec fn legacy_step(read: Option<InputEvent>) -> LegacyStep {
    match read {
        None => LegacyStep::Fallback,
        Some(InputEvent::Other) => LegacyStep::ReadAgain,
        Some(InputEvent::Key(k)) => if !k.key_down {
            LegacyStep::ReadAgain
        } else {
            match character_key(k.character) {
                Some(key) => LegacyStep::Key(key),
                None => match virtual_key(k.virtual_keycode) {
                    Some(key) => LegacyStep::Key(key),
                    None => LegacyStep::ReadAgain,
                },
            }
        },
    }
}

/// Decides a legacy key read from one event read (`None` when the read
/// failed): a key press is classified by its character, then by its virtual
/// key code; releases and other events are skipped.
pub fn read_key_legacy(read: Option<InputEvent>) -> (r: LegacyStep)
    ensures
        r == legacy_step(read),
{
    let key = match read {
        None => return LegacyStep::Fallback,
        Some(InputEvent::Other) => return LegacyStep::ReadAgain,
        Some(InputEvent::Key(k)) => k,
    };
    if !key.key_down {
        return LegacyStep::ReadAgain;
    }
    let c = key.character;
    if c < 0x80 {
        let b = c as u8;
        if (0x30 <= b && b <= 0x39) || (0x61 <= b && b <= 0x7a) || (0x41 <= b && b <= 0x5a) {
            return LegacyStep::Key(KeyCode::Char(b as char));
        }
    }
    if c == 8 {
        return LegacyStep::Key(KeyCode::Backspace);
    } else if c == 13 {
        return LegacyStep::Key(KeyCode::Enter);
    } else if c == 32 {
        return LegacyStep::Key(KeyCode::Space);
    }
    match key.virtual_keycode {
        0x25 => LegacyStep::Key(KeyCode::ArrowLeft),
        0x26 => LegacyStep::Key(KeyCode::ArrowUp),
        0x27 => LegacyStep::Key(KeyCode::ArrowRight),
        0x28 => LegacyStep::Key(KeyCode::ArrowDown),
        _ => LegacyStep::ReadAgain,
    }
}

/// The key for the plain byte read that stands in when console events
/// cannot be read: `count` is what the read returned, `first` the first byte.
/// The byte is classified as a lone input byte is; a failed read, or a byte
/// that names no key, gives `Error`.
pub fn fallback_read_key(count: isize, first: u8) -> (k: KeyCode)
    ensures
        count <= 0 ==> k == KeyCode::Error,
        count > 0 ==> k == (match byte_key(first) {
            Some(key) => key,
            None => KeyCode::Error,
        }),
{
    if count <= 0 {
        return KeyCode::Error;
    }
    match key_from_byte(first) {
        Some(key) => key,
        None => KeyCode::Error,
    }
}

/// `-v`, or the largest value where that does not fit.
pub open spec fn negated(v: i16) -> i16 {
    if v == i16::MIN {
        i16::MAX
    } else {
        (-v) as i16
    }
}

/// How a legacy console is cleared: the whole buffer is scrolled up out of
/// view, the cells it uncovers filled with blanks in the current attributes,
/// and the cursor homed.
#[derive(Debug, Clone, Copy, PartialEq, Eq, Structural)]
pub struct ClearPlan {
    pub scroll: Rect,
    pub destination: Coord,
    pub fill_char: u16,
    pub fill_attributes: u16,
    pub cursor: Coord,
}

/// The clearing plan for a screen buffer of `info`.
pub open spec fn clear_plan(info: BufferInfo) -> ClearPlan {
    ClearPlan {
        scroll: Rect { left: 0, top: 0, right: info.size.x, bottom: info.size.y },
        destination: Coord { x: 0, y: negated(info.size.y) },
        fill_char: 32,
        fill_attributes: info.attributes,
        cursor: Coord { x: 0, y: 0 },
    }
}

/// The clearing plan for a screen buffer.
pub fn console_clear_legacy(info: &BufferInfo) -> (p: ClearPlan)
    ensures
        p == clear_plan(*info),
{
    let up = if info.size.y == i16::MIN {
        i16::MAX
    } else {
        -info.size.y
    };
    ClearPlan {
        scroll: Rect { left: 0, top: 0, right: info.size.x, bottom: info.size.y },
        destination: Coord { x: 0, y: up },
        fill_char: 32,
        fill_attributes: info.attributes,
        cursor: Coord { x: 0, y: 0 },
    }
}

/// `v` as a position coordinate; a negative one reads as 0.
pub open spec fn coord_to_pos(v: i16) -> u16 {
    if v < 0 {
        0
    } else {
        v as u16
    }
}

/// `v` as a console coordinate, capped at the largest one.
pub open spec fn pos_to_coord(v: u16) -> i16 {
    if v > i16::MAX {
        i16::MAX
    } else {
        v as i16
    }
}

/// The cursor position that a screen buffer reports.
pub fn cursor_get_legacy(info: &BufferInfo) -> (p: Pos)
    ensures
        p == (Pos { x: coord_to_pos(info.cursor.x), y: coord_to_pos(info.cursor.y) }),
{
    let x: u16 = if info.cursor.x < 0 {
        0
    } else {
        info.cursor.x as u16
    };
    let y: u16 = if info.cursor.y < 0 {
        0
    } else {
        info.cursor.y as u16
    };
    Pos { x, y }
}

/// The console coordinate for column `x`, row `y`.
pub fn cursor_set_legacy(x: u16, y: u16) -> (c: Coord)
    ensures
        c == (Coord { x: pos_to_coord(x), y: pos_to_coord(y) }),
{
    let cx: i16 = if x > 0x7fff {
        0x7fff
    } else {
        x as i16
    };
    let cy: i16 = if y > 0x7fff {
        0x7fff
    } else {
        y as i16
    };
    Coord { x: cx, y: cy }
}

/// One thing to do on the terminal.
#[derive(Debug, Clone, PartialEq, Eq)]
pub enum Command {
    /// Write these bytes to the output.
    Write(Vec<u8>),
    /// Move the console cursor to this cell.
    SetCursor(Coord),
    /// Give the console's text these attributes.
    SetAttributes(u16),
    /// Clear the console by this plan.
    Clear(ClearPlan),
    /// Nothing: the backend cannot do it.
    Nothing,
}

impl Terminal {
    /// Moves the cursor to column `x`, row `y` (0-indexed).
    pub fn cursor_set(&self, x: u16, y: u16) -> (c: Command)
        ensures
            self.backend == Backend::Ansi ==> c is Write && c->Write_0@ == cursor_set_bytes(x, y),
            self.backend == Backend::LegacyConsole ==> c == Command::SetCursor(
                Coord { x: pos_to_coord(x), y: pos_to_coord(y) },
            ),
    {
        match self.backend {
            Backend::Ansi => Command::Write(cursor_set(x, y)),
            Backend::LegacyConsole => Command::SetCursor(cursor_set_legacy(x, y)),
        }
    }

    /// Clears the screen. A legacy console needs what its screen buffer
    /// reports, `None` where that could not be read; then nothing is done.
    pub fn console_clear(&self, info: Option<BufferInfo>) -> (c: Command)
        ensures
            self.backend == Backend::Ansi ==> c is Write && c->Write_0@ == console_clear_bytes(),
            self.backend == Backend::LegacyConsole ==> c == (match info {
                Some(i) => Command::Clear(clear_plan(i)),
                None => Command::Nothing,
            }),
    {
        match self.backend {
            Backend::Ansi => Command::Write(console_clear()),
            Backend::LegacyConsole => match info {
                Some(i) => Command::Clear(console_clear_legacy(&i)),
                None => Command::Nothing,
            },
        }
    }

    /// Sets the 24-bit background colour; a legacy console has no such
    /// colours and does nothing.
    pub fn color_bg(&self, red: u8, green: u8, blue: u8) -> (c: Command)
        ensures
            self.backend == Backend::Ansi ==> c is Write && c->Write_0@ == color_bytes(
                0x34,
                red,
                green,
                blue,
            ),
            self.backend == Backend::LegacyConsole ==> c == Command::Nothing,
    {
        match self.backend {
            Backend::Ansi => Command::Write(color_bg(red, green, blue)),
            Backend::LegacyConsole => Command::Nothing,
        }
    }

    /// Sets the 24-bit foreground colour; a legacy console has no such
    /// colours and does nothing.
    pub fn color_fg(&self, red: u8, green: u8, blue: u8) -> (c: Command)
        ensures
            self.backend == Backend::Ansi ==> c is Write && c->Write_0@ == color_bytes(
                0x33,
                red,
                green,
                blue,
            ),
            self.backend == Backend::LegacyConsole ==> c == Command::Nothing,
    {
        match self.backend {
            Backend::Ansi => Command::Write(color_fg(red, green, blue)),
            Backend::LegacyConsole => Command::Nothing,
        }
    }

    /// Resets colours: by escape sequence, or on a legacy console by
    /// restoring its default attributes.
    pub fn color_reset(&self) -> (c: Command)
        ensures
            self.backend == Backend::Ansi ==> c is Write && c->Write_0@ == color_reset_bytes(),
            self.backend == Backend::LegacyConsole ==> c == Command::SetAttributes(
                LEGACY_DEFAULT_ATTRIBUTES,
            ),
    {
        match self.backend {
            Backend::Ansi => Command::Write(color_reset()),
            Backend::LegacyConsole => Command::SetAttributes(LEGACY_DEFAULT_ATTRIBUTES),
        }
    }
}

} // verus!
