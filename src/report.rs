//! Parsing of the terminal's cursor-position report, `ESC [ row ; col R`.
use vstd::prelude::*;
use vstd::arithmetic::div_mod::lemma_fundamental_div_mod;

use crate::decimal::{is_digit, decimal, lemma_decimal_digits};
use crate::keys::ESC;
use crate::sequences::{cursor_set_bytes, wire_coord};
use crate::Pos;

verus! {

/// The index just past the first NUL or `[` at or after `i`, or the length
/// of `s` when there is none.
pub open spec fn after_prefix(s: Seq<u8>, i: int) -> int
    decreases s.len() - i,
{
    if i >= s.len() {
        s.len() as int
    } else if s[i] == 0 || s[i] == 0x5b {
        i + 1
    } else {
        after_prefix(s, i + 1)
    }
}

/// The end of the run of digits that starts at `i`.
pub open spec fn digits_end(s: Seq<u8>, i: int) -> int
    decreases s.len() - i,
{
    if i >= s.len() || !is_digit(s[i]) {
        i
    } else {
        digits_end(s, i + 1)
    }
}

/// The number that the digits `s[i..j]` write in base 10.
pub open spec fn digits_value(s: Seq<u8>, i: int, j: int) -> int
    decreases j - i,
{
    if j <= i {
        0
    } else {
        digits_value(s, i, j - 1) * 10 + (s[j - 1] - 0x30)
    }
}

/// The number written by the run of digits at `i` (0 for an empty run).
pub open spec fn field_value(s: Seq<u8>, i: int) -> int {
    digits_value(s, i, digits_end(s, i))
}

/// Where the next field starts: past the byte that ended the run of digits
/// at `i`.
pub open spec fn field_next(s: Seq<u8>, i: int) -> int {
    if digits_end(s, i) < s.len() {
        digits_end(s, i) + 1
    } else {
        s.len() as int
    }
}

/// Whether the scan for the start of a report stopped on a `[` (and not on
/// a NUL or the end of the buffer).
pub open spec fn opens_report(s: Seq<u8>) -> bool {
    let at = after_prefix(s, 0);
    at >= 1 && at <= s.len() && s[at - 1] == 0x5b
}

/// Whether a run of digits starts at `i` and writes a number that fits in
/// 16 bits.
pub open spec fn is_field(s: Seq<u8>, i: int) -> bool {
    digits_end(s, i) > i && field_value(s, i) <= u16::MAX
}

/// Whether `s` is a well-formed report: a `[` before any NUL, then two runs
/// of digits, each naming a 16-bit number.
pub open spec fn is_report(s: Seq<u8>) -> bool {
    let row_at = after_prefix(s, 0);
    opens_report(s) && is_field(s, row_at) && is_field(s, field_next(s, row_at))
}

/// The raw position that a report buffer holds, in the terminal's own
/// 1-indexed terms: the first number is the row, the second the column. A
/// malformed buffer gives the origin.
pub open spec fn reported_pos(s: Seq<u8>) -> Pos {
    let row_at = after_prefix(s, 0);
    let col_at = field_next(s, row_at);
    if is_report(s) {
        Pos { x: field_value(s, col_at) as u16, y: field_value(s, row_at) as u16 }
    } else {
        Pos { x: 0, y: 0 }
    }
}

/// One less than `v`, or 0 for 0.
pub open spec fn one_less(v: u16) -> u16 {
    if v == 0 {
        0
    } else {
        (v - 1) as u16
    }
}

/// The 0-indexed position that a report buffer holds.
pub open spec fn report_to_pos(s: Seq<u8>) -> Pos {
    Pos { x: one_less(reported_pos(s).x), y: one_less(reported_pos(s).y) }
}

/// The report a terminal sends for the 1-indexed position (`row`, `col`).
pub open spec fn report_bytes(row: nat, col: nat) -> Seq<u8> {
    seq![ESC, 0x5b] + decimal(row) + seq![0x3bu8] + decimal(col) + seq![0x52u8]
}

proof fn lemma_digits_end_at_least(s: Seq<u8>, i: int)
    ensures
        digits_end(s, i) >= i,
    decreases s.len() - i,
{
    if i < s.len() && is_digit(s[i]) {
        lemma_digits_end_at_least(s, i + 1);
    }
}

/// The largest value a field is tracked to: anything larger is too large.
pub const FIELD_CAP: u32 = 0x1_0000;

/// `v`, or `FIELD_CAP` where `v` is larger.
pub open spec fn capped(v: int) -> int {
    if v > FIELD_CAP {
        FIELD_CAP as int
    } else {
        v
    }
}

/// Reads the run of digits at `start`. Gives its value, capped at
/// `FIELD_CAP`; whether the run is non-empty; and the index past the byte
/// that ended it.
fn read_field(buffer: &[u8], start: usize) -> (r: (u32, bool, usize))
    requires
        start <= buffer@.len(),
    ensures
        r.0 == capped(field_value(buffer@, start as int)),
        r.1 == (digits_end(buffer@, start as int) > start),
        r.2 == field_next(buffer@, start as int),
{
    let ghost s = buffer@;
    let nonempty = start < buffer.len() && 0x30 <= buffer[start] && buffer[start] <= 0x39;
    proof {
        lemma_digits_end_at_least(s, start + 1);
    }
    let mut i: usize = start;
    let mut v: u32 = 0;
    while i < buffer.len()
        invariant_except_break
            digits_end(s, i as int) == digits_end(s, start as int),
            v == capped(digits_value(s, start as int, i as int)),
            digits_value(s, start as int, i as int) >= 0,
        invariant
            s == buffer@,
            start <= i <= s.len(),
        ensures
            v == capped(field_value(s, start as int)),
            i == field_next(s, start as int),
        decreases s.len() - i,
    {
        let byte = buffer[i];
        i += 1;
        if 0x30 <= byte && byte <= 0x39 {
            let next = v * 10 + (byte - 0x30) as u32;
            v = if next > FIELD_CAP {
                FIELD_CAP
            } else {
                next
            };
        } else {
            break;
        }
    }
    (v, nonempty, i)
}

/// Parses a cursor-position report into the raw row and column it holds
/// (`y` is the row, `x` the column). Bytes are skipped up to and including the
/// first NUL or `[`; then two runs of digits are read, each ended by any
/// other byte. Unless the skip stopped on a `[` and both runs are non-empty
/// and fit in 16 bits, the report is malformed and reads as the origin.
pub fn parse_pos(buffer: &[u8]) -> (p: Pos)
    ensures
        p == reported_pos(buffer@),
{
    let ghost s = buffer@;
    let mut i: usize = 0;
    let mut opened = false;
    while i < buffer.len()
        invariant_except_break
            after_prefix(s, i as int) == after_prefix(s, 0),
            !opened,
            forall|k: int| 0 <= k < i ==> #[trigger] s[k] != 0 && s[k] != 0x5b,
        invariant
            s == buffer@,
            i <= s.len(),
        ensures
            i == after_prefix(s, 0),
            opened == opens_report(s),
        decreases s.len() - i,
    {
        let byte = buffer[i];
        i += 1;
        if byte == 0 || byte == 0x5b {
            opened = byte == 0x5b;
            break;
        }
    }
    let (y, y_present, next) = read_field(buffer, i);
    let (x, x_present, _) = read_field(buffer, next);
    if opened && y_present && x_present && y <= 0xffff && x <= 0xffff {
        Pos { x: x as u16, y: y as u16 }
    } else {
        Pos { x: 0, y: 0 }
    }
}


/// The 0-indexed cursor position in a report buffer: the parsed row and
/// column, each less one (0 stays 0). A malformed report gives the origin.
pub fn cursor_get(report: &[u8]) -> (p: Pos)
    ensures
        p == report_to_pos(report@),
{
    let raw = parse_pos(report);
    Pos { x: raw.x.saturating_sub(1), y: raw.y.saturating_sub(1) }
}

/// The report that a terminal which echoes cursor moves sends back after
/// `sequence`: the same parameters, with `R` in place of the final byte.
pub open spec fn position_echo(sequence: Seq<u8>) -> Seq<u8> {
    sequence.drop_last().push(0x52u8)
}

proof fn lemma_run_of_digits(s: Seq<u8>, i: int, j: int)
    requires
        0 <= i <= j <= s.len(),
        forall|k: int| i <= k < j ==> is_digit(#[trigger] s[k]),
        j == s.len() || !is_digit(s[j]),
    ensures
        digits_end(s, i) == j,
    decreases j - i,
{
    if i < j {
        lemma_run_of_digits(s, i + 1, j);
    }
}

proof fn lemma_value_of_decimal(s: Seq<u8>, i: int, n: nat)
    requires
        0 <= i,
        i + decimal(n).len() <= s.len(),
        s.subrange(i, i + decimal(n).len()) == decimal(n),
    ensures
        digits_value(s, i, i + decimal(n).len()) == n,
    decreases n,
{
    let len = decimal(n).len() as int;
    assert(s[i + len - 1] == s.subrange(i, i + len)[len - 1]);
    if n >= 10 {
        let shorter = decimal(n / 10);
        assert(decimal(n) == shorter.push((0x30 + n % 10) as u8));
        assert(decimal(n).subrange(0, shorter.len() as int) =~= shorter);
        assert(s[i + len - 1] == 0x30 + n % 10);
        assert(s.subrange(i, i + shorter.len()) =~= s.subrange(i, i + len).subrange(
            0,
            shorter.len() as int,
        ));
        lemma_value_of_decimal(s, i, n / 10);
        assert(digits_value(s, i, i + len) == digits_value(s, i, i + len - 1) * 10 + (s[i + len
            - 1] - 0x30));
        assert(digits_value(s, i, i + len - 1) == n / 10);
        lemma_fundamental_div_mod(n as int, 10);
    } else {
        assert(digits_value(s, i, i) == 0);
    }
}

/// The digits of `n`, written at `i` and followed by a byte that is no digit,
/// read back as `n`; the next field starts past that byte.
proof fn lemma_field_of_decimal(s: Seq<u8>, i: int, n: nat)
    requires
        0 <= i,
        i + decimal(n).len() < s.len(),
        s.subrange(i, i + decimal(n).len()) == decimal(n),
        !is_digit(s[i + decimal(n).len()]),
    ensures
        field_value(s, i) == n,
        field_next(s, i) == i + decimal(n).len() + 1,
{
    let len = decimal(n).len() as int;
    lemma_decimal_digits(n);
    assert forall|k: int| i <= k < i + len implies is_digit(#[trigger] s[k]) by {
        assert(s[k] == s.subrange(i, i + len)[k - i]);
    }
    lemma_run_of_digits(s, i, i + len);
    lemma_value_of_decimal(s, i, n);
}

/// Parsing a well-formed report gives back the row and column it was written
/// with.
pub proof fn lemma_report_round_trip(row: u16, col: u16)
    ensures
        reported_pos(report_bytes(row as nat, col as nat)) == (Pos { x: col, y: row }),
{
    let s = report_bytes(row as nat, col as nat);
    let lr = decimal(row as nat).len() as int;
    let lc = decimal(col as nat).len() as int;
    assert(s.len() == lr + lc + 4);
    assert(s[0] == ESC && s[1] == 0x5b);
    assert(after_prefix(s, 1) == 2);
    assert(after_prefix(s, 0) == 2);
    assert(s.subrange(2, 2 + lr) =~= decimal(row as nat));
    assert(s[2 + lr] == 0x3b);
    lemma_field_of_decimal(s, 2, row as nat);
    assert(s.subrange(3 + lr, 3 + lr + lc) =~= decimal(col as nat));
    assert(s[3 + lr + lc] == 0x52);
    lemma_field_of_decimal(s, 3 + lr, col as nat);
}

proof fn lemma_after_prefix_stop(s: Seq<u8>, i: int)
    requires
        0 <= i <= s.len(),
    ensures
        i <= after_prefix(s, i) <= s.len(),
        after_prefix(s, i) == s.len() || (after_prefix(s, i) > i && (s[after_prefix(s, i) - 1] == 0
            || s[after_prefix(s, i) - 1] == 0x5b)),
    decreases s.len() - i,
{
    if i < s.len() && s[i] != 0 && s[i] != 0x5b {
        lemma_after_prefix_stop(s, i + 1);
    }
}

/// A buffer with no `[` is no report: it reads as the origin.
pub proof fn lemma_malformed_report_is_origin(s: Seq<u8>)
    requires
        forall|i: int| 0 <= i < s.len() ==> #[trigger] s[i] != 0x5b,
    ensures
        reported_pos(s) == (Pos { x: 0, y: 0 }),
        report_to_pos(s) == (Pos { x: 0, y: 0 }),
{
    lemma_after_prefix_stop(s, 0);
}

/// Moving the cursor and then reading back the position that an echoing
/// terminal reports gives the position just set, for every position whose
/// 1-indexed form fits in 16 bits.
pub proof fn lemma_cursor_set_then_get(x: u16, y: u16)
    requires
        x < u16::MAX,
        y < u16::MAX,
    ensures
        report_to_pos(position_echo(cursor_set_bytes(x, y))) == (Pos { x, y }),
{
    assert(position_echo(cursor_set_bytes(x, y)) =~= report_bytes(
        wire_coord(y) as nat,
        wire_coord(x) as nat,
    ));
    lemma_report_round_trip(wire_coord(y), wire_coord(x));
}

} // verus!
