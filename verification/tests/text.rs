use apple_ie::text::{chars_of, hex_digit, is_space, to_upper, trim};

#[test]
fn chars_are_taken_in_order() {
    assert_eq!(chars_of("LDA #$c0"), vec!['L', 'D', 'A', ' ', '#', '$', 'c', '0']);
    assert_eq!(chars_of(""), Vec::<char>::new());
    assert_eq!(chars_of("a\u{3000}ß"), vec!['a', '\u{3000}', 'ß']);
}

#[test]
fn ascii_letters_are_put_in_upper_case() {
    assert_eq!(to_upper('a'), 'A');
    assert_eq!(to_upper('z'), 'Z');
    assert_eq!(to_upper('m'), 'M');
    assert_eq!(to_upper('A'), 'A');
    assert_eq!(to_upper('0'), '0');
    assert_eq!(to_upper('`'), '`');
    assert_eq!(to_upper('{'), '{');
    assert_eq!(to_upper('ß'), 'ß');
    assert_eq!(to_upper('é'), 'é');
    assert_eq!(to_upper('ſ'), 'ſ');
}

#[test]
fn hexadecimal_digits_have_values() {
    assert_eq!(hex_digit('0'), Some(0));
    assert_eq!(hex_digit('9'), Some(9));
    assert_eq!(hex_digit('a'), Some(10));
    assert_eq!(hex_digit('f'), Some(15));
    assert_eq!(hex_digit('A'), Some(10));
    assert_eq!(hex_digit('F'), Some(15));
    assert_eq!(hex_digit('g'), None);
    assert_eq!(hex_digit('G'), None);
    assert_eq!(hex_digit('/'), None);
    assert_eq!(hex_digit(':'), None);
    assert_eq!(hex_digit('@'), None);
    assert_eq!(hex_digit('`'), None);
    assert_eq!(hex_digit('+'), None);
    assert_eq!(hex_digit(' '), None);
}

#[test]
fn white_space_is_what_unicode_says() {
    for c in [
        '\t', '\n', '\u{0B}', '\u{0C}', '\r', ' ', '\u{85}', '\u{A0}', '\u{1680}', '\u{2000}',
        '\u{200A}', '\u{2028}', '\u{2029}', '\u{202F}', '\u{205F}', '\u{3000}',
    ] {
        assert!(is_space(c));
    }
    for c in ['a', '0', '\u{08}', '\u{0E}', '\u{1F}', '!', '\u{200B}', '\u{FEFF}', '\u{2060}'] {
        assert!(!is_space(c));
    }
}

#[test]
fn white_space_agrees_with_the_standard_library() {
    for code in 0..=0x3100u32 {
        if let Some(c) = char::from_u32(code) {
            assert_eq!(is_space(c), c.is_whitespace());
        }
    }
}

#[test]
fn trim_cuts_white_space_at_both_ends() {
    let text = chars_of("  \tLDA #$c0 \r");
    assert_eq!(trim(&text), &chars_of("LDA #$c0")[..]);
    let text = chars_of("BRK");
    assert_eq!(trim(&text), &text[..]);
    let text = chars_of(" \n ");
    assert_eq!(trim(&text), &[][..]);
    let text = chars_of("");
    assert_eq!(trim(&text), &[][..]);
    let text = chars_of("a b");
    assert_eq!(trim(&text), &text[..]);
}
