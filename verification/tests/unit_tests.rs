use slow_scan_print::unit::{classify, classify_width, UnitClass};

#[test]
fn letters_and_digits_are_plain() {
    assert_eq!(classify('A'), UnitClass::Plain);
    assert_eq!(classify('1'), UnitClass::Plain);
    assert_eq!(classify(' '), UnitClass::Plain);
    assert_eq!(classify('~'), UnitClass::Plain);
}

#[test]
fn newline_and_tab_are_control() {
    assert_eq!(classify('\n'), UnitClass::Control);
    assert_eq!(classify('\t'), UnitClass::Control);
    assert_eq!(classify('\0'), UnitClass::Control);
    assert_eq!(classify('\u{1f}'), UnitClass::Control);
    assert_eq!(classify('\u{7f}'), UnitClass::Control);
    assert_eq!(classify('\u{9f}'), UnitClass::Control);
}

#[test]
fn cjk_ideographs_are_wide() {
    assert_eq!(classify('中'), UnitClass::Wide);
    assert_eq!(classify('日'), UnitClass::Wide);
    assert_eq!(classify('한'), UnitClass::Wide);
    assert_eq!(classify('あ'), UnitClass::Wide);
}

#[test]
fn ambiguous_width_counts_as_wide() {
    assert_eq!(classify('±'), UnitClass::Wide);
    assert_eq!(classify('§'), UnitClass::Wide);
}

#[test]
fn characters_beyond_ascii_without_double_width_are_plain() {
    assert_eq!(classify('\u{a0}'), UnitClass::Plain);
    assert_eq!(classify('ñ'), UnitClass::Plain);
    assert_eq!(classify('\u{301}'), UnitClass::Plain);
}

#[test]
fn control_codes_are_exactly_the_control_class() {
    for code in 0u32..0x3000 {
        if let Some(ch) = char::from_u32(code) {
            let is_control_code = code <= 0x1f || (0x7f..=0x9f).contains(&code);
            assert_eq!(classify(ch) == UnitClass::Control, is_control_code, "U+{:04X}", code);
        }
    }
}

#[test]
fn classification_is_repeatable() {
    for ch in ['A', '\n', '中', '±', '\u{a0}', '😀'] {
        let first = classify(ch);
        let second = classify(ch);
        assert_eq!(first, second);
    }
}

#[test]
fn class_follows_the_width() {
    assert_eq!(classify_width(None), UnitClass::Control);
    assert_eq!(classify_width(Some(2)), UnitClass::Wide);
    assert_eq!(classify_width(Some(0)), UnitClass::Plain);
    assert_eq!(classify_width(Some(1)), UnitClass::Plain);
    assert_eq!(classify_width(Some(3)), UnitClass::Plain);
}
