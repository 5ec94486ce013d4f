use terma_utils::{decode, read_key_step, KeyCode};

fn buffer(bytes: &[u8]) -> [u8; 8] {
    let mut raw = [0u8; 8];
    raw[..bytes.len()].copy_from_slice(bytes);
    raw
}

#[test]
fn alphanumeric_bytes_decode_to_chars() {
    for b in (b'0'..=b'9').chain(b'a'..=b'z').chain(b'A'..=b'Z') {
        assert_eq!(decode(&buffer(&[b])), KeyCode::Char(b as char));
    }
}

#[test]
fn control_bytes_decode_whatever_follows() {
    assert_eq!(decode(&buffer(&[10])), KeyCode::Enter);
    assert_eq!(decode(&buffer(&[13])), KeyCode::Enter);
    assert_eq!(decode(&buffer(&[32])), KeyCode::Space);
    assert_eq!(decode(&buffer(&[127])), KeyCode::Backspace);
    assert_eq!(decode(&[10, 0xff, b'[', b'A', 1, 2, 3, 4]), KeyCode::Enter);
    assert_eq!(decode(&[13, b'x', b'y', b'z', 9, 9, 9, 9]), KeyCode::Enter);
    assert_eq!(decode(&[32, 0x1b, b'[', b'B', 0, 0, 0, 7]), KeyCode::Space);
    assert_eq!(decode(&[127, 127, 127, 127, 127, 127, 127, 127]), KeyCode::Backspace);
}

#[test]
fn bare_arrow_sequences() {
    assert_eq!(decode(&buffer(&[0x1b, b'[', b'A'])), KeyCode::ArrowUp);
    assert_eq!(decode(&buffer(&[0x1b, b'[', b'B'])), KeyCode::ArrowDown);
    assert_eq!(decode(&buffer(&[0x1b, b'[', b'C'])), KeyCode::ArrowRight);
    assert_eq!(decode(&buffer(&[0x1b, b'[', b'D'])), KeyCode::ArrowLeft);
}

#[test]
fn modifier_prefixed_arrow_sequences() {
    assert_eq!(decode(&[0x1b, b'[', 0x31, 0x3b, 0, b'A', 0, 0]), KeyCode::ArrowUp);
    assert_eq!(decode(&[0x1b, b'[', b'1', b';', b'5', b'B', 0, 0]), KeyCode::ArrowDown);
    assert_eq!(decode(&[0x1b, b'[', b'1', b';', b'2', b'C', 0, 0]), KeyCode::ArrowRight);
    assert_eq!(decode(&[0x1b, b'[', b'1', b';', b'3', b'D', 0, 0]), KeyCode::ArrowLeft);
}

#[test]
fn unknown_sequence_is_other() {
    let raw = buffer(&[0x1b, b'[', b'Z']);
    assert_eq!(decode(&raw), KeyCode::Other(0x5a5b1b));
    assert_eq!(decode(&[0x1b, b'[', b'1', b';', b'5', b'Z', 0, 0]), KeyCode::Other(0x5a_35_3b_31_5b_1b));
}

#[test]
fn all_zero_buffer_is_not_a_char() {
    assert_eq!(decode(&[0; 8]), KeyCode::Other(0));
    assert_eq!(read_key_step(1, &[0; 8]), None);
}

#[test]
fn other_keeps_every_byte_little_endian() {
    assert_eq!(
        decode(&[0x01, 0x02, 0x03, 0x04, 0x05, 0x06, 0x07, 0x08]),
        KeyCode::Other(0x0807060504030201)
    );
    assert_eq!(decode(&[0xff; 8]), KeyCode::Other(u64::MAX));
}

#[test]
fn read_step_reports_or_retries() {
    assert_eq!(read_key_step(1, &buffer(&[b'q'])), Some(KeyCode::Char('q')));
    assert_eq!(read_key_step(3, &buffer(&[0x1b, b'[', b'C'])), Some(KeyCode::ArrowRight));
    assert_eq!(read_key_step(1, &buffer(&[0x07])), None);
    assert_eq!(read_key_step(0, &buffer(&[b'q'])), Some(KeyCode::Error));
    assert_eq!(read_key_step(-1, &buffer(&[b'q'])), Some(KeyCode::Error));
}
