//! Terminal control primitives: key decoding, control sequences,
//! cursor-position reports and raw-mode bookkeeping, with the byte-level
//! work proved against its specification. The reads and writes themselves
//! are left to the caller.
use vstd::prelude::*;

pub mod decimal;
pub mod keys;
pub mod report;
pub mod sequences;
pub mod session;
pub mod console;

pub use console::{terma_init, Backend, Command, Terminal};
pub use keys::{decode, read_key_step};
pub use report::{cursor_get, parse_pos};
pub use sequences::{color_bg, color_fg, color_reset, console_clear, cursor_query, cursor_set};
pub use session::{RawModeGuard, SessionError, TermMode};

verus! {

/// A terminal position, 0-indexed: `x` is the column, `y` the row.
#[derive(Debug, Clone, Copy, PartialEq, Eq, Structural)]
pub struct Pos {
    pub x: u16,
    pub y: u16,
}

/// One decoded key event.
#[derive(Debug, Clone, Copy, PartialEq, Eq, Structural)]
pub enum KeyCode {
    Char(char),
    Enter,
    Backspace,
    Space,
    ArrowUp,
    ArrowDown,
    ArrowRight,
    ArrowLeft,
    /// Input that matched no key: the 8 raw bytes read as a little-endian integer.
    Other(u64),
    /// The input could not be read.
    Error,
}

} // verus!
