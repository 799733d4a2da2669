use lazymusic::keymap::{
    format_key_string, key_code_of, parse_key_string, settle_key, KeyCode, KeyModifiers,
};

fn ctrl() -> KeyModifiers {
    KeyModifiers::control()
}

#[test]
fn test_parse_key_string() {
    // Single characters
    assert_eq!(
        parse_key_string("q"),
        Some((KeyCode::Char('q'), KeyModifiers::none()))
    );
    assert_eq!(
        parse_key_string("L"),
        Some((KeyCode::Char('L'), KeyModifiers::none()))
    );
    assert_eq!(
        parse_key_string("+"),
        Some((KeyCode::Char('+'), KeyModifiers::none()))
    );

    // Special keys
    assert_eq!(
        parse_key_string("<Enter>"),
        Some((KeyCode::Enter, KeyModifiers::none()))
    );
    assert_eq!(
        parse_key_string("<esc>"),
        Some((KeyCode::Esc, KeyModifiers::none()))
    );
    assert_eq!(
        parse_key_string("<F5>"),
        Some((KeyCode::F(5), KeyModifiers::none()))
    );

    // Simple modifiers
    assert_eq!(
        parse_key_string("<c-a>"),
        Some((KeyCode::Char('a'), KeyModifiers::control()))
    );
    assert_eq!(
        parse_key_string("<a-a>"),
        Some((KeyCode::Char('a'), KeyModifiers::alt()))
    );
    assert_eq!(
        parse_key_string("<s-a>"),
        Some((KeyCode::Char('a'), KeyModifiers::shift()))
    );

    // Case insensitivity
    assert_eq!(
        parse_key_string("<C-a>"),
        Some((KeyCode::Char('a'), KeyModifiers::control()))
    );
    assert_eq!(
        parse_key_string("<c-A>"),
        Some((KeyCode::Char('a'), KeyModifiers::control()))
    );
    assert_eq!(
        parse_key_string("<CTRL-Enter>"),
        Some((KeyCode::Enter, KeyModifiers::control()))
    );

    // Multiple modifiers
    assert_eq!(
        parse_key_string("<c-s-b>"),
        Some((
            KeyCode::Char('b'),
            KeyModifiers::control().union(KeyModifiers::shift())
        ))
    );
    assert_eq!(
        parse_key_string("<c-a-s-F11>"),
        Some((
            KeyCode::F(11),
            KeyModifiers::control()
                .union(KeyModifiers::alt())
                .union(KeyModifiers::shift())
        ))
    );

    // Invalid cases
    assert_eq!(parse_key_string("longstring"), None);
    assert_eq!(parse_key_string("<x-a>"), None); // invalid modifier
    assert_eq!(parse_key_string("<f13>"), None); // invalid f key
    assert_eq!(parse_key_string("<c-enter-a>"), None); // key must be last
    assert_eq!(parse_key_string(""), None);
    assert_eq!(parse_key_string("< >"), None);
    assert_eq!(parse_key_string("<c- >"), None);
    assert_eq!(
        parse_key_string("<->"),
        Some((KeyCode::Char('-'), KeyModifiers::none()))
    );
}

#[test]
fn test_format_key_string() {
    // Single characters
    assert_eq!(format_key_string(KeyCode::Char('q'), KeyModifiers::none()), "q");
    assert_eq!(format_key_string(KeyCode::Char('A'), KeyModifiers::none()), "A");

    // Special keys
    assert_eq!(format_key_string(KeyCode::Enter, KeyModifiers::none()), "<enter>");
    assert_eq!(format_key_string(KeyCode::F(5), KeyModifiers::none()), "<f5>");

    // Simple modifiers
    assert_eq!(format_key_string(KeyCode::Char('a'), ctrl()), "<c-a>");
    // It should lowercase the character
    assert_eq!(format_key_string(KeyCode::Char('A'), ctrl()), "<c-a>");
    assert_eq!(format_key_string(KeyCode::Enter, ctrl()), "<c-enter>");

    // Multiple modifiers (order should be consistent: c-a-s)
    assert_eq!(
        format_key_string(
            KeyCode::Char('b'),
            KeyModifiers::control().union(KeyModifiers::shift())
        ),
        "<c-s-b>"
    );
    assert_eq!(
        format_key_string(
            KeyCode::F(11),
            KeyModifiers::control()
                .union(KeyModifiers::alt())
                .union(KeyModifiers::shift())
        ),
        "<c-a-s-f11>"
    );
}

#[test]
fn round_trip_on_canonical_form() {
    let texts = [
        "q", "L", "+", "-", "<", ">", "<->", "<Enter>", "<ESCAPE>", "<F5>", "<f12>", "<c-a>",
        "<a-a>", "<s-a>", "<C-a>", "<c-A>", "<CTRL-Enter>", "<shift-alt-ctrl-x>", "<s-c-b>",
        "<c-a-s-F11>", "<a>", "<A>", "<c->>", "<c-<>", "<--a>", "<c--s-tab>", "<pagedown>",
        "é", "É", "<é>", "<É>", "<c-é>", "<s-É>", "<a-ß>", "<c-\u{212a}>", "<c-ǅ>", "<c-语>", "语",
        " ", "\u{3000}", "<c-σ>", "<c-Σ>",
    ];
    for text in texts {
        let key = parse_key_string(text).unwrap();
        let written = format_key_string(key.0, key.1);
        assert_eq!(parse_key_string(&written), Some(key), "{}", text);
        // The canonical form is its own canonical form.
        assert_eq!(format_key_string(key.0, key.1), written);
    }
}

#[test]
fn modifiers_are_read_in_any_order_and_written_in_one() {
    let all = KeyModifiers::control()
        .union(KeyModifiers::alt())
        .union(KeyModifiers::shift());
    assert_eq!(parse_key_string("<s-a-c-x>"), Some((KeyCode::Char('x'), all)));
    assert_eq!(parse_key_string("<alt-SHIFT-Ctrl-x>"), Some((KeyCode::Char('x'), all)));
    assert_eq!(format_key_string(KeyCode::Char('x'), all), "<c-a-s-x>");
    assert_eq!(all.bits(), 7);
    assert!(all.contains(KeyModifiers::alt()));
    assert!(!KeyModifiers::control().contains(KeyModifiers::alt()));
    assert!(KeyModifiers::none().is_empty());
}

#[test]
fn named_keys_are_read_and_written() {
    let names = [
        ("enter", KeyCode::Enter),
        ("tab", KeyCode::Tab),
        ("backspace", KeyCode::Backspace),
        ("esc", KeyCode::Esc),
        ("left", KeyCode::Left),
        ("right", KeyCode::Right),
        ("up", KeyCode::Up),
        ("down", KeyCode::Down),
        ("home", KeyCode::Home),
        ("end", KeyCode::End),
        ("pageup", KeyCode::PageUp),
        ("pagedown", KeyCode::PageDown),
        ("delete", KeyCode::Delete),
        ("insert", KeyCode::Insert),
    ];
    for (name, code) in names {
        let text = format!("<{}>", name);
        assert_eq!(parse_key_string(&text), Some((code, KeyModifiers::none())));
        assert_eq!(format_key_string(code, KeyModifiers::none()), text);
    }
    assert_eq!(
        parse_key_string("<escape>"),
        Some((KeyCode::Esc, KeyModifiers::none()))
    );
    assert_eq!(format_key_string(KeyCode::Null, KeyModifiers::none()), "<unknown>");
}

#[test]
fn function_keys_go_from_one_to_twelve() {
    for n in 1..=12u8 {
        let text = format!("<f{}>", n);
        assert_eq!(parse_key_string(&text), Some((KeyCode::F(n), KeyModifiers::none())));
        assert_eq!(format_key_string(KeyCode::F(n), KeyModifiers::none()), text);
    }
    assert_eq!(parse_key_string("<f0>"), None);
    assert_eq!(parse_key_string("<f13>"), None);
    assert_eq!(parse_key_string("<f256>"), None);
    assert_eq!(parse_key_string("<f1000000000000000000000>"), None);
    assert_eq!(parse_key_string("<fx>"), None);
    assert_eq!(parse_key_string("<f+>"), None);
    assert_eq!(parse_key_string("<f 1>"), None);
    // A sign and leading zeros are part of a number.
    assert_eq!(parse_key_string("<f+5>"), Some((KeyCode::F(5), KeyModifiers::none())));
    assert_eq!(parse_key_string("<f007>"), Some((KeyCode::F(7), KeyModifiers::none())));
    // A lone f is a character.
    assert_eq!(parse_key_string("<f>"), Some((KeyCode::Char('f'), KeyModifiers::none())));
    assert_eq!(format_key_string(KeyCode::F(200), KeyModifiers::none()), "<f200>");
}

#[test]
fn malformed_texts_are_refused() {
    let texts = [
        "", "qq", "<>", "éé", "<éé>", "<c-İ>", "<c->", "<c-->", "<-->", "<ctl-a>", "<c-x-b>", "<c-ab>",
        "<c-\t>", "< >", "<\u{3000}>", "<c-\u{3000}>", "<c-a", "c-a>", "<<a>>",
    ];
    for text in texts {
        assert_eq!(parse_key_string(text), None, "{:?}", text);
    }
}

#[test]
fn lower_case_comes_from_the_standard_library_outside_ascii() {
    // The Kelvin sign folds to an ASCII k.
    assert_eq!(
        parse_key_string("<bac\u{212a}space>"),
        Some((KeyCode::Backspace, KeyModifiers::none()))
    );
    assert_eq!(
        parse_key_string("<c-\u{212a}>"),
        Some((KeyCode::Char('k'), KeyModifiers::control()))
    );
    assert_eq!(format_key_string(KeyCode::Char('É'), KeyModifiers::control()), "<c-é>");
    assert_eq!(format_key_string(KeyCode::Char('É'), KeyModifiers::none()), "É");
    // Modifiers beyond control, alt and shift are not written.
    assert_eq!(
        format_key_string(KeyCode::Char('q'), KeyModifiers::from_bits(KeyModifiers::SUPER)),
        "<q>"
    );
}

#[test]
fn every_single_character_is_a_key() {
    for c in ['q', 'L', '+', '-', '<', '>', ' ', '\t', 'é', 'É', 'ß', '语', '\u{3000}', '\u{10ffff}'] {
        let text = c.to_string();
        assert_eq!(
            parse_key_string(&text),
            Some((KeyCode::Char(c), KeyModifiers::none())),
            "{:?}",
            c
        );
        assert_eq!(format_key_string(KeyCode::Char(c), KeyModifiers::none()), text);
    }
}

#[test]
fn between_brackets_any_character_but_white_space_and_dash_is_a_key() {
    let cases = [
        ("<é>", 'é'),
        ("<É>", 'é'),
        ("<ß>", 'ß'),
        ("<语>", '语'),
        ("<Ω>", 'ω'),
        ("<ǅ>", 'ǆ'),
        ("<\u{212a}>", 'k'),
        ("<%>", '%'),
        ("<Z>", 'z'),
    ];
    for (text, c) in cases {
        assert_eq!(
            parse_key_string(text),
            Some((KeyCode::Char(c), KeyModifiers::none())),
            "{}",
            text
        );
        let with_control = format!("<c-{}", &text[1..]);
        assert_eq!(
            parse_key_string(&with_control),
            Some((KeyCode::Char(c), KeyModifiers::control())),
            "{}",
            with_control
        );
        assert_eq!(
            format_key_string(KeyCode::Char(c), KeyModifiers::control()),
            format!("<c-{}>", c)
        );
    }
    for text in ["< >", "<\u{a0}>", "<\u{3000}>", "<c-\u{2003}>", "<c-->", "<c-\t>"] {
        assert_eq!(parse_key_string(text), None, "{:?}", text);
    }
}

#[test]
fn key_character_is_kept_in_lower_case() {
    assert_eq!(settle_key('a'), Some('a'));
    assert_eq!(settle_key('A'), Some('a'));
    assert_eq!(settle_key('7'), Some('7'));
    assert_eq!(settle_key('é'), Some('é'));
    assert_eq!(settle_key('语'), Some('语'));
    // A character that folding would change is not in lower case: the key
    // part never holds one, since it has been folded.
    assert_eq!(settle_key('É'), None);
    assert_eq!(settle_key('İ'), None);
    let key: Vec<char> = "é".chars().collect();
    assert_eq!(key_code_of(&key), Some(KeyCode::Char('é')));
    let key: Vec<char> = "enter".chars().collect();
    assert_eq!(key_code_of(&key), Some(KeyCode::Enter));
    let key: Vec<char> = "-".chars().collect();
    assert_eq!(key_code_of(&key), None);
}
