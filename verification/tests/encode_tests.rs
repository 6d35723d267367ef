use slow_scan_print::encode::encode_char;

#[test]
fn encodes_each_length() {
    assert_eq!(encode_char('A'), vec![0x41]);
    assert_eq!(encode_char('é'), vec![0xC3, 0xA9]);
    assert_eq!(encode_char('中'), vec![0xE4, 0xB8, 0xAD]);
    assert_eq!(encode_char('😀'), vec![0xF0, 0x9F, 0x98, 0x80]);
}

#[test]
fn encodes_the_edges_of_each_length() {
    assert_eq!(encode_char('\0'), vec![0x00]);
    assert_eq!(encode_char('\u{7f}'), vec![0x7F]);
    assert_eq!(encode_char('\u{80}'), vec![0xC2, 0x80]);
    assert_eq!(encode_char('\u{7ff}'), vec![0xDF, 0xBF]);
    assert_eq!(encode_char('\u{800}'), vec![0xE0, 0xA0, 0x80]);
    assert_eq!(encode_char('\u{ffff}'), vec![0xEF, 0xBF, 0xBF]);
    assert_eq!(encode_char('\u{10000}'), vec![0xF0, 0x90, 0x80, 0x80]);
    assert_eq!(encode_char('\u{10ffff}'), vec![0xF4, 0x8F, 0xBF, 0xBF]);
}

#[test]
fn encoding_agrees_with_std() {
    let mut code: u32 = 0;
    while code <= 0x10FFFF {
        if let Some(ch) = char::from_u32(code) {
            let mut buf = [0u8; 4];
            let expected = ch.encode_utf8(&mut buf).as_bytes().to_vec();
            assert_eq!(encode_char(ch), expected, "U+{:04X}", code);
        }
        code += 13;
    }
}
