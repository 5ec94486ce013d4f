use terma_utils::{cursor_get, cursor_query, cursor_set, parse_pos, Pos};

fn format_query_response(row: u16, col: u16) -> Vec<u8> {
    format!("\x1b[{row};{col}R").into_bytes()
}

fn in_buffer(bytes: &[u8]) -> [u8; 16] {
    let mut buffer = [0u8; 16];
    buffer[..bytes.len()].copy_from_slice(bytes);
    buffer
}

/// What a terminal that echoes cursor moves reports after `sequence`.
fn echo(sequence: &[u8]) -> Vec<u8> {
    let mut report = sequence[..sequence.len() - 1].to_vec();
    report.push(b'R');
    report
}

#[test]
fn report_round_trip() {
    for row in (0..=9999u16).step_by(7).chain([9999]) {
        for col in [0u16, 1, 9, 10, 99, 100, 1234, 9998, 9999] {
            let report = format_query_response(row, col);
            assert_eq!(parse_pos(&report), Pos { x: col, y: row });
            assert_eq!(parse_pos(&in_buffer(&report)), Pos { x: col, y: row });
        }
    }
}

#[test]
fn report_round_trip_full_range_edges() {
    assert_eq!(parse_pos(&format_query_response(65535, 65535)), Pos { x: 65535, y: 65535 });
    assert_eq!(parse_pos(&format_query_response(0, 65535)), Pos { x: 65535, y: 0 });
}

#[test]
fn malformed_reports_parse_to_origin() {
    assert_eq!(parse_pos(&[0u8; 16]), Pos { x: 0, y: 0 });
    assert_eq!(parse_pos(b"12;34R"), Pos { x: 0, y: 0 });
    assert_eq!(parse_pos(b"\x1b12;34R"), Pos { x: 0, y: 0 });
    assert_eq!(parse_pos(&[]), Pos { x: 0, y: 0 });
    assert_eq!(cursor_get(&[0u8; 16]), Pos { x: 0, y: 0 });
}

#[test]
fn truncated_reports_read_as_origin() {
    assert_eq!(parse_pos(b"\x1b[12"), Pos { x: 0, y: 0 });
    assert_eq!(parse_pos(b"\x1b[12;"), Pos { x: 0, y: 0 });
    assert_eq!(parse_pos(&in_buffer(b"\x1b[12R")), Pos { x: 0, y: 0 });
    assert_eq!(cursor_get(&in_buffer(b"\x1b[12R")), Pos { x: 0, y: 0 });
    assert_eq!(parse_pos(b"\x1b[;7R"), Pos { x: 0, y: 0 });
    assert_eq!(parse_pos(b"\x1b["), Pos { x: 0, y: 0 });
}

#[test]
fn report_cut_after_the_second_number_still_parses() {
    assert_eq!(parse_pos(b"\x1b[12;7"), Pos { x: 7, y: 12 });
}

#[test]
fn oversized_numbers_are_malformed() {
    assert_eq!(parse_pos(b"\x1b[70000;1R"), Pos { x: 0, y: 0 });
    assert_eq!(parse_pos(b"\x1b[1;65536R"), Pos { x: 0, y: 0 });
    assert_eq!(parse_pos(b"\x1b[1;99999999999999999999R"), Pos { x: 0, y: 0 });
    assert_eq!(parse_pos(b"\x1b[00065535;1R"), Pos { x: 1, y: 65535 });
}

#[test]
fn cursor_get_is_zero_indexed() {
    assert_eq!(cursor_get(b"\x1b[1;1R"), Pos { x: 0, y: 0 });
    assert_eq!(cursor_get(b"\x1b[6;11R"), Pos { x: 10, y: 5 });
    assert_eq!(cursor_get(&in_buffer(b"\x1b[24;80R")), Pos { x: 79, y: 23 });
}

#[test]
fn set_then_get_returns_the_position() {
    for (x, y) in [(0u16, 0u16), (10, 5), (9999, 9999), (65534, 65534)] {
        let report = echo(&cursor_set(x, y));
        assert_eq!(cursor_get(&report), Pos { x, y });
    }
}

#[test]
fn set_then_get_at_the_largest_coordinate_saturates() {
    let report = echo(&cursor_set(65535, 3));
    assert_eq!(cursor_get(&report), Pos { x: 65534, y: 3 });
}

#[test]
fn query_sequence() {
    assert_eq!(cursor_query(), b"\x1b[6n".to_vec());
}

#[test]
fn digits_after_a_nul_are_no_report() {
    assert_eq!(parse_pos(&[0, b'1', b';', b'2', b'R']), Pos { x: 0, y: 0 });
    assert_eq!(parse_pos(&[0, b'[', b'1', b';', b'2', b'R']), Pos { x: 0, y: 0 });
}
