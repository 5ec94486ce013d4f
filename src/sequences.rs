//! Outbound control sequences for cursor movement, clearing and colour.
use vstd::prelude::*;

use crate::decimal::{decimal, push_decimal};
use crate::keys::ESC;

verus! {

/// The terminal's 1-indexed coordinate for a 0-indexed one, saturating at
/// the largest 16-bit value.
pub open spec fn wire_coord(v: u16) -> u16 {
    if v == u16::MAX {
        v
    } else {
        (v + 1) as u16
    }
}

/// `ESC [ row ; col H`: move the cursor to column `x`, row `y` (0-indexed).
pub open spec fn cursor_set_bytes(x: u16, y: u16) -> Seq<u8> {
    seq![ESC, 0x5b] + decimal(wire_coord(y) as nat) + seq![0x3bu8] + decimal(wire_coord(x) as nat)
        + seq![0x48u8]
}

/// `ESC [ 1 ; 1 H` then `ESC [ 0 J`: home the cursor and erase to the end.
pub open spec fn console_clear_bytes() -> Seq<u8> {
    seq![ESC, 0x5b, 0x31, 0x3b, 0x31, 0x48, ESC, 0x5b, 0x30, 0x4a]
}

/// `ESC [ 0 m`: reset all attributes.
pub open spec fn color_reset_bytes() -> Seq<u8> {
    seq![ESC, 0x5b, 0x30, 0x6d]
}

/// `ESC [ 6 n`: ask the terminal for the cursor position.
pub open spec fn cursor_query_bytes() -> Seq<u8> {
    seq![ESC, 0x5b, 0x36, 0x6e]
}

/// `ESC [ <layer>8 ; 2 ; r ; g ; b m`, where `layer` is `3` (foreground) or
/// `4` (background).
pub open spec fn color_bytes(layer: u8, red: u8, green: u8, blue: u8) -> Seq<u8> {
    seq![ESC, 0x5b, layer, 0x38, 0x3b, 0x32, 0x3b] + decimal(red as nat) + seq![0x3bu8] + decimal(
        green as nat,
    ) + seq![0x3bu8] + decimal(blue as nat) + seq![0x6du8]
}

/// The sequence that moves the cursor to column `x`, row `y` (0-indexed).
pub fn cursor_set(x: u16, y: u16) -> (r: Vec<u8>)
    ensures
        r@ == cursor_set_bytes(x, y),
{
    let mut out: Vec<u8> = vec![ESC, 0x5b];
    push_decimal(&mut out, y.saturating_add(1) as u32);
    out.push(0x3b);
    push_decimal(&mut out, x.saturating_add(1) as u32);
    out.push(0x48);
    proof {
        assert(out@ =~= cursor_set_bytes(x, y));
    }
    out
}

/// The sequence that homes the cursor and erases the screen.
pub fn console_clear() -> (r: Vec<u8>)
    ensures
        r@ == console_clear_bytes(),
{
    let out: Vec<u8> = vec![ESC, 0x5b, 0x31, 0x3b, 0x31, 0x48, ESC, 0x5b, 0x30, 0x4a];
    proof {
        assert(out@ =~= console_clear_bytes());
    }
    out
}

/// The sequence that resets colours and other attributes.
pub fn color_reset() -> (r: Vec<u8>)
    ensures
        r@ == color_reset_bytes(),
{
    let out: Vec<u8> = vec![ESC, 0x5b, 0x30, 0x6d];
    proof {
        assert(out@ =~= color_reset_bytes());
    }
    out
}

/// The sequence that asks the terminal to report the cursor position.
pub fn cursor_query() -> (r: Vec<u8>)
    ensures
        r@ == cursor_query_bytes(),
{
    let out: Vec<u8> = vec![ESC, 0x5b, 0x36, 0x6e];
    proof {
        assert(out@ =~= cursor_query_bytes());
    }
    out
}

fn color(layer: u8, red: u8, green: u8, blue: u8) -> (r: Vec<u8>)
    ensures
        r@ == color_bytes(layer, red, green, blue),
{
    let mut out: Vec<u8> = vec![ESC, 0x5b, layer, 0x38, 0x3b, 0x32, 0x3b];
    push_decimal(&mut out, red as u32);
    out.push(0x3b);
    push_decimal(&mut out, green as u32);
    out.push(0x3b);
    push_decimal(&mut out, blue as u32);
    out.push(0x6d);
    proof {
        assert(out@ =~= color_bytes(layer, red, green, blue));
    }
    out
}

/// The sequence that sets the 24-bit background colour.
pub fn color_bg(red: u8, green: u8, blue: u8) -> (r: Vec<u8>)
    ensures
        r@ == color_bytes(0x34, red, green, blue),
{
    color(0x34, red, green, blue)
}

/// The sequence that sets the 24-bit foreground colour.
pub fn color_fg(red: u8, green: u8, blue: u8) -> (r: Vec<u8>)
    ensures
        r@ == color_bytes(0x33, red, green, blue),
{
    color(0x33, red, green, blue)
}

} // verus!
