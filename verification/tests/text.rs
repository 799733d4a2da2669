use lazymusic::text::{
    char_lowercase, chars_eq_str, is_blank, is_whitespace, lowercase, parse_decimal_u8,
    push_decimal, push_two_digits, to_chars,
};

fn chars(s: &str) -> Vec<char> {
    s.chars().collect()
}

#[test]
fn lowercase_folds_ascii_and_the_rest() {
    assert_eq!(lowercase(&chars("Hello, WORLD-42")), chars("hello, world-42"));
    assert_eq!(lowercase(&chars("")), chars(""));
    assert_eq!(lowercase(&chars("ÀB")), chars("àb"));
    assert_eq!(lowercase(&chars("\u{212a}")), chars("k"));
    assert_eq!(lowercase(&chars("ΌΣΟΣ")), chars("όσος"));
    assert_eq!(char_lowercase('Q'), chars("q"));
    assert_eq!(char_lowercase('İ'), chars("i\u{307}"));
    assert_eq!(char_lowercase('1'), chars("1"));
}

#[test]
fn white_space_is_what_the_standard_library_says() {
    for code in 0..=0x3000u32 {
        if let Some(c) = char::from_u32(code) {
            assert_eq!(is_whitespace(c), c.is_whitespace(), "{:?}", c);
        }
    }
    assert!(is_whitespace('\u{3000}'));
    assert!(is_whitespace('\u{b}'));
    assert!(!is_whitespace('é'));
    let text = chars("a \t\u{a0}b");
    assert!(is_blank(&text, 1, 4));
    assert!(!is_blank(&text, 0, 4));
    assert!(is_blank(&text, 2, 2));
}

#[test]
fn decimal_numbers_are_read_as_the_standard_library_reads_them() {
    let texts = [
        "", "+", "-", "0", "7", "+7", "-7", "007", "255", "256", "0255", "+0255", "999",
        "12a", "a12", " 1", "1 ", "++1", "1+", "٣", "18446744073709551616",
    ];
    for text in texts {
        assert_eq!(parse_decimal_u8(&chars(text), 0), text.parse::<u8>().ok(), "{:?}", text);
    }
    assert_eq!(parse_decimal_u8(&chars("f12"), 1), Some(12));
    assert_eq!(parse_decimal_u8(&chars("f"), 1), None);
}

#[test]
fn decimal_numbers_are_written_as_the_standard_library_writes_them() {
    for n in [0u64, 1, 9, 10, 99, 100, 255, 1000, 123456789, u64::MAX] {
        let mut out = chars("x");
        push_decimal(&mut out, n);
        assert_eq!(out.iter().collect::<String>(), format!("x{}", n));
        let mut out = Vec::new();
        push_two_digits(&mut out, n);
        assert_eq!(out.iter().collect::<String>(), format!("{:0>2}", n));
    }
}

#[test]
fn characters_are_compared_with_texts() {
    assert_eq!(to_chars("añb"), chars("añb"));
    assert!(chars_eq_str(&chars("abc"), "abc"));
    assert!(!chars_eq_str(&chars("abc"), "abd"));
    assert!(!chars_eq_str(&chars("abc"), "ab"));
    assert!(chars_eq_str(&chars(""), ""));
}

#[test]
fn white_space_is_the_listed_set_and_nothing_else() {
    let listed = |c: char| {
        matches!(
            c,
            ' ' | '\t'..='\r'
                | '\u{85}'
                | '\u{A0}'
                | '\u{1680}'
                | '\u{2000}'..='\u{200A}'
                | '\u{2028}'
                | '\u{2029}'
                | '\u{202F}'
                | '\u{205F}'
                | '\u{3000}'
        )
    };
    let mut found = 0;
    for n in 0..=0x10FFFFu32 {
        if let Some(c) = char::from_u32(n) {
            assert_eq!(is_whitespace(c), listed(c), "{:?}", c);
            if is_whitespace(c) {
                found += 1;
            }
        }
    }
    assert_eq!(found, 25);
}
