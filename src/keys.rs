//! Decoding of raw input bytes into key events.
use vstd::prelude::*;

use crate::decimal::is_digit;
use crate::KeyCode;

verus! {

pub const ESC: u8 = 0x1b;

/// The key named by the final byte of an arrow-key sequence (`A` to `D`).
pub open spec fn arrow_key(b: u8) -> Option<KeyCode> {
    if b == 0x41 {
        Some(KeyCode::ArrowUp)
    } else if b == 0x42 {
        Some(KeyCode::ArrowDown)
    } else if b == 0x43 {
        Some(KeyCode::ArrowRight)
    } else if b == 0x44 {
        Some(KeyCode::ArrowLeft)
    } else {
        None
    }
}

/// Where the final byte of a control sequence stands: after a `1;` modifier
/// prefix it is at offset 5, otherwise at offset 2.
pub open spec fn csi_final_index(raw: Seq<u8>) -> int {
    if raw[2] == 0x31 && raw[3] == 0x3b {
        5
    } else {
        2
    }
}

/// The arrow key that `raw` encodes as a control sequence, if any.
pub open spec fn csi_arrow(raw: Seq<u8>) -> Option<KeyCode> {
    if raw[0] == ESC && raw[1] == 0x5b {
        arrow_key(raw[csi_final_index(raw)])
    } else {
        None
    }
}

pub open spec fn is_alphanumeric(b: u8) -> bool {
    is_digit(b) || (0x61 <= b <= 0x7a) || (0x41 <= b <= 0x5a)
}

/// The key that a single byte stands for, if any.
pub open spec fn byte_key(b: u8) -> Option<KeyCode> {
    if is_alphanumeric(b) {
        Some(KeyCode::Char(b as char))
    } else if b == 10 || b == 13 {
        Some(KeyCode::Enter)
    } else if b == 32 {
        Some(KeyCode::Space)
    } else if b == 127 {
        Some(KeyCode::Backspace)
    } else {
        None
    }
}

/// Eight bytes read as a little-endian integer.
pub open spec fn raw_value(raw: Seq<u8>) -> int {
    raw[0] + raw[1] * 0x100 + raw[2] * 0x1_0000 + raw[3] * 0x100_0000 + raw[4] * 0x1_0000_0000
        + raw[5] * 0x100_0000_0000 + raw[6] * 0x1_0000_0000_0000 + raw[7]
        * 0x100_0000_0000_0000
}

/// The key event that an 8-byte input buffer decodes to.
pub open spec fn key_of(raw: Seq<u8>) -> KeyCode {
    match csi_arrow(raw) {
        Some(k) => k,
        None => match byte_key(raw[0]) {
            Some(k) => k,
            None => KeyCode::Other(raw_value(raw) as u64),
        },
    }
}

fn arrow_from_final(b: u8) -> (r: Option<KeyCode>)
    ensures
        r == arrow_key(b),
{
    match b {
        0x41 => Some(KeyCode::ArrowUp),
        0x42 => Some(KeyCode::ArrowDown),
        0x43 => Some(KeyCode::ArrowRight),
        0x44 => Some(KeyCode::ArrowLeft),
        _ => None,
    }
}

pub(crate) fn key_from_byte(b: u8) -> (r: Option<KeyCode>)
    ensures
        r == byte_key(b),
{
    if (0x30 <= b && b <= 0x39) || (0x61 <= b && b <= 0x7a) || (0x41 <= b && b <= 0x5a) {
        Some(KeyCode::Char(b as char))
    } else if b == 10 || b == 13 {
        Some(KeyCode::Enter)
    } else if b == 32 {
        Some(KeyCode::Space)
    } else if b == 127 {
        Some(KeyCode::Backspace)
    } else {
        None
    }
}

fn raw_to_u64(raw: &[u8; 8]) -> (r: u64)
    ensures
        r == raw_value(raw@),
{
    raw[0] as u64 + raw[1] as u64 * 0x100 + raw[2] as u64 * 0x1_0000 + raw[3] as u64
        * 0x100_0000 + raw[4] as u64 * 0x1_0000_0000 + raw[5] as u64 * 0x100_0000_0000
        + raw[6] as u64 * 0x1_0000_0000_0000 + raw[7] as u64 * 0x100_0000_0000_0000
}

/// Decodes one 8-byte input buffer into a key event. Every buffer decodes to
/// some event; one that names no key gives `KeyCode::Other`.
pub fn decode(raw: &[u8; 8]) -> (k: KeyCode)
    ensures
        k == key_of(raw@),
{
    if raw[0] == ESC && raw[1] == 0x5b {
        let at: usize = if raw[2] == 0x31 && raw[3] == 0x3b {
            5
        } else {
            2
        };
        if let Some(k) = arrow_from_final(raw[at]) {
            return k;
        }
    }
    match key_from_byte(raw[0]) {
        Some(k) => k,
        None => KeyCode::Other(raw_to_u64(raw)),
    }
}

/// One step of a blocking key read. `count` is what the read of `raw`
/// returned: the number of bytes, or a negative value on failure. Gives the
/// key to report, or `None` when the input named no key and the caller
/// reads again. A failed or empty read ends the wait with `KeyCode::Error`.
pub fn read_key_step(count: isize, raw: &[u8; 8]) -> (r: Option<KeyCode>)
    ensures
        count <= 0 ==> r == Some(KeyCode::Error),
        count > 0 ==> r == (if key_of(raw@) is Other {
            None
        } else {
            Some(key_of(raw@))
        }),
{
    if count <= 0 {
        return Some(KeyCode::Error);
    }
    let k = decode(raw);
    match k {
        KeyCode::Other(_) => None,
        _ => Some(k),
    }
}

/// A lone ASCII letter or digit, followed by zero bytes, decodes to that
/// character.
pub proof fn lemma_alphanumeric_is_char(b: u8)
    requires
        is_alphanumeric(b),
    ensures
        key_of(seq![b, 0u8, 0u8, 0u8, 0u8, 0u8, 0u8, 0u8]) == KeyCode::Char(b as char),
{
}

/// Newline and carriage return decode to `Enter`, space to `Space` and DEL
/// to `Backspace`, whatever bytes follow the first.
pub proof fn lemma_control_bytes(raw: Seq<u8>)
    requires
        raw.len() == 8,
    ensures
        raw[0] == 10 || raw[0] == 13 ==> key_of(raw) == KeyCode::Enter,
        raw[0] == 32 ==> key_of(raw) == KeyCode::Space,
        raw[0] == 127 ==> key_of(raw) == KeyCode::Backspace,
{
}

} // verus!
