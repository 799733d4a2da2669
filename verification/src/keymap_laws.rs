//! What holds between reading and writing key combinations.

use vstd::prelude::*;
use crate::keymap::{
    format_key_spec, is_plain_key_char, is_settled, join_modifiers, key_code_spec, key_text,
    last_dash, lemma_last_dash, modifiers_scan, modifiers_spec, modifiers_text, named_key,
    parse_key_spec, segment_modifier, settled_key, KeyCode, KeyModifiers,
};
use crate::text::{
    all_digits, ascii_lower, ascii_lower_text, decimal_text, digit_char, digit_value,
    digits_value, is_ascii_char, is_ascii_text, is_blank_spec, is_digit, lowercase_spec,
};

verus! {

/// A text of ASCII characters in lower case, without dashes and without
/// white space, and not empty: the name of a key, or `f` and a number.
pub open spec fn is_plain_ascii_text(text: Seq<char>) -> bool {
    &&& text.len() > 0
    &&& forall|i: int|
        0 <= i < text.len() ==> is_ascii_char(#[trigger] text[i]) && is_plain_key_char(text[i])
            && ascii_lower(text[i]) == text[i]
}

/// A text as the writer produces it for a key: a plain ASCII text, or one
/// settled character that is neither white space nor a dash.
pub open spec fn is_plain_key_text(text: Seq<char>) -> bool {
    ||| is_plain_ascii_text(text)
    ||| text.len() == 1 && is_plain_key_char(text[0]) && is_settled(text[0])
}

/// The combinations that reading can give: only control, alt and shift as
/// modifiers; as key a named key, `F(1)`..`F(12)` or a character, which is
/// settled and neither white space nor a dash wherever a modifier stands
/// with it.
pub open spec fn is_readable(code: KeyCode, modifiers: KeyModifiers) -> bool {
    &&& modifiers.bits <= 7
    &&& match code {
        KeyCode::Char(c) => modifiers.bits != 0 ==> is_plain_key_char(c) && is_settled(c),
        KeyCode::F(n) => 1 <= n && n <= 12,
        KeyCode::Enter
        | KeyCode::Tab
        | KeyCode::Backspace
        | KeyCode::Esc
        | KeyCode::Left
        | KeyCode::Right
        | KeyCode::Up
        | KeyCode::Down
        | KeyCode::Home
        | KeyCode::End
        | KeyCode::PageUp
        | KeyCode::PageDown
        | KeyCode::Delete
        | KeyCode::Insert => true,
        _ => false,
    }
}

proof fn lemma_decimal_text(n: nat)
    ensures
        decimal_text(n).len() >= 1,
        all_digits(decimal_text(n)),
        digits_value(decimal_text(n)) == n,
    decreases n,
{
    if n >= 10 {
        lemma_decimal_text(n / 10);
        let head = decimal_text(n / 10);
        let full = head.push(digit_char(n % 10));
        assert(full.drop_last() == head);
        assert(full.last() == digit_char(n % 10));
        assert(digit_value(digit_char(n % 10)) == n % 10);
        assert forall|i: int| 0 <= i < full.len() implies is_digit(#[trigger] full[i]) by {
            if i < head.len() {
                assert(full[i] == head[i]);
            }
        }
    } else {
        let one = seq![digit_char(n)];
        assert(one.drop_last().len() == 0);
        assert(digits_value(one.drop_last()) == 0);
        assert(one.last() == digit_char(n));
    }
}

/// An ASCII character in lower case is settled.
proof fn lemma_ascii_settled(c: char)
    requires
        is_ascii_char(c),
        ascii_lower(c) == c,
    ensures
        is_settled(c),
{
    let one = seq![c];
    assert(is_ascii_text(one));
    assert(ascii_lower_text(one) =~= one);
}

proof fn lemma_plain_key_text(text: Seq<char>)
    requires
        is_plain_key_text(text),
    ensures
        lowercase_spec(text) == text,
        !is_blank_spec(text),
        last_dash(text) == -1,
        text != seq!['-'],
{
    if is_plain_ascii_text(text) {
        assert(is_ascii_text(text));
        assert(ascii_lower_text(text) =~= text);
    } else {
        assert(text =~= seq![text[0]]);
    }
    assert(is_plain_key_char(text[0]));
    lemma_last_dash(text);
    if last_dash(text) >= 0 {
        assert(is_plain_key_char(text[last_dash(text)]));
    }
    if text == seq!['-'] {
        assert(text[0] == '-');
    }
}

proof fn lemma_names()
    ensures
        "enter"@ == seq!['e', 'n', 't', 'e', 'r'],
        "tab"@ == seq!['t', 'a', 'b'],
        "backspace"@ == seq!['b', 'a', 'c', 'k', 's', 'p', 'a', 'c', 'e'],
        "esc"@ == seq!['e', 's', 'c'],
        "escape"@ == seq!['e', 's', 'c', 'a', 'p', 'e'],
        "left"@ == seq!['l', 'e', 'f', 't'],
        "right"@ == seq!['r', 'i', 'g', 'h', 't'],
        "up"@ == seq!['u', 'p'],
        "down"@ == seq!['d', 'o', 'w', 'n'],
        "home"@ == seq!['h', 'o', 'm', 'e'],
        "end"@ == seq!['e', 'n', 'd'],
        "pageup"@ == seq!['p', 'a', 'g', 'e', 'u', 'p'],
        "pagedown"@ == seq!['p', 'a', 'g', 'e', 'd', 'o', 'w', 'n'],
        "delete"@ == seq!['d', 'e', 'l', 'e', 't', 'e'],
        "insert"@ == seq!['i', 'n', 's', 'e', 'r', 't'],
{
    reveal_strlit("enter");
    reveal_strlit("tab");
    reveal_strlit("backspace");
    reveal_strlit("esc");
    reveal_strlit("escape");
    reveal_strlit("left");
    reveal_strlit("right");
    reveal_strlit("up");
    reveal_strlit("down");
    reveal_strlit("home");
    reveal_strlit("end");
    reveal_strlit("pageup");
    reveal_strlit("pagedown");
    reveal_strlit("delete");
    reveal_strlit("insert");
    assert("enter"@ =~= seq!['e', 'n', 't', 'e', 'r']);
    assert("tab"@ =~= seq!['t', 'a', 'b']);
    assert("backspace"@ =~= seq!['b', 'a', 'c', 'k', 's', 'p', 'a', 'c', 'e']);
    assert("esc"@ =~= seq!['e', 's', 'c']);
    assert("escape"@ =~= seq!['e', 's', 'c', 'a', 'p', 'e']);
    assert("left"@ =~= seq!['l', 'e', 'f', 't']);
    assert("right"@ =~= seq!['r', 'i', 'g', 'h', 't']);
    assert("up"@ =~= seq!['u', 'p']);
    assert("down"@ =~= seq!['d', 'o', 'w', 'n']);
    assert("home"@ =~= seq!['h', 'o', 'm', 'e']);
    assert("end"@ =~= seq!['e', 'n', 'd']);
    assert("pageup"@ =~= seq!['p', 'a', 'g', 'e', 'u', 'p']);
    assert("pagedown"@ =~= seq!['p', 'a', 'g', 'e', 'd', 'o', 'w', 'n']);
    assert("delete"@ =~= seq!['d', 'e', 'l', 'e', 't', 'e']);
    assert("insert"@ =~= seq!['i', 'n', 's', 'e', 'r', 't']);
}

/// A name of a key has two characters or more and does not begin with `f`.
proof fn lemma_named_key_shape(name: Seq<char>)
    requires
        named_key(name) is Some,
    ensures
        name.len() >= 2,
        name[0] != 'f',
        is_plain_ascii_text(name),
        key_text(named_key(name)->0) == name || name == "escape"@,
        named_key(name)->0 !is Char,
        named_key(name)->0 !is F,
        is_readable(named_key(name)->0, KeyModifiers { bits: 0 }),
{
    lemma_names();
}

proof fn lemma_key_text_of_named(code: KeyCode)
    requires
        code !is Char,
        code !is F,
        is_readable(code, KeyModifiers { bits: 0 }),
    ensures
        named_key(key_text(code)) == Some(code),
{
    lemma_names();
}

proof fn lemma_or_bound(a: u8, b: u8)
    requires
        a <= 7,
        b <= 7,
    ensures
        a | b <= 7,
{
    assert(a <= 7 && b <= 7 ==> a | b <= 7) by (bit_vector);
}

proof fn lemma_modifier_names()
    ensures
        "c"@ == seq!['c'],
        "a"@ == seq!['a'],
        "s"@ == seq!['s'],
        "ctrl"@.len() == 4,
        "alt"@.len() == 3,
        "shift"@.len() == 5,
{
    reveal_strlit("c");
    reveal_strlit("a");
    reveal_strlit("s");
    reveal_strlit("ctrl");
    reveal_strlit("alt");
    reveal_strlit("shift");
    assert("c"@ =~= seq!['c']);
    assert("a"@ =~= seq!['a']);
    assert("s"@ =~= seq!['s']);
}

proof fn lemma_scan_bound(text: Seq<char>, seg_start: int, pos: int)
    requires
        0 <= seg_start <= pos <= text.len(),
    ensures
        modifiers_scan(text, seg_start, pos) matches Some(bits) ==> bits <= 7,
    decreases text.len() - pos,
{
    if pos >= text.len() {
    } else if text[pos] == '-' {
        lemma_scan_bound(text, pos + 1, pos + 1);
        match (
            segment_modifier(text.subrange(seg_start, pos)),
            modifiers_scan(text, pos + 1, pos + 1),
        ) {
            (Some(x), Some(y)) => {
                lemma_or_bound(x, y);
            },
            _ => {},
        }
    } else {
        lemma_scan_bound(text, seg_start, pos + 1);
    }
}

/// Scanning does not depend on what stands before the segment it began in.
proof fn lemma_scan_shift(before: Seq<char>, text: Seq<char>, seg_start: int, pos: int)
    requires
        0 <= seg_start <= pos <= text.len(),
    ensures
        modifiers_scan(before + text, before.len() + seg_start, before.len() + pos)
            == modifiers_scan(text, seg_start, pos),
    decreases text.len() - pos,
{
    let all = before + text;
    let shift = before.len() as int;
    if pos >= text.len() {
        assert(all.subrange(shift + seg_start, all.len() as int) == text.subrange(
            seg_start,
            text.len() as int,
        ));
    } else if text[pos] == '-' {
        assert(all[shift + pos] == '-');
        assert(all.subrange(shift + seg_start, shift + pos) == text.subrange(seg_start, pos));
        lemma_scan_shift(before, text, pos + 1, pos + 1);
    } else {
        assert(all[shift + pos] == text[pos]);
        lemma_scan_shift(before, text, seg_start, pos + 1);
    }
}

/// The bit of a modifier letter.
pub open spec fn letter_bit(letter: char) -> u8 {
    if letter == 'c' {
        KeyModifiers::CONTROL
    } else if letter == 'a' {
        KeyModifiers::ALT
    } else {
        KeyModifiers::SHIFT
    }
}

proof fn lemma_scan_letter(letter: char)
    requires
        letter == 'c' || letter == 'a' || letter == 's',
    ensures
        modifiers_spec(seq![letter]) == Some(letter_bit(letter)),
{
    lemma_modifier_names();
    let text = seq![letter];
    assert(text.subrange(0, 1) == text);
    assert(ascii_lower_text(text) == text);
    reveal_with_fuel(modifiers_scan, 3);
}

proof fn lemma_scan_prepend(letter: char, rest: Seq<char>)
    requires
        letter == 'c' || letter == 'a' || letter == 's',
    ensures
        modifiers_spec(seq![letter, '-'] + rest) == join_modifiers(
            Some(letter_bit(letter)),
            modifiers_spec(rest),
        ),
{
    lemma_modifier_names();
    let head = seq![letter, '-'];
    let all = head + rest;
    let one = seq![letter];
    assert(all.subrange(0, 1) == one);
    assert(ascii_lower_text(one) == one);
    assert(all[0] == letter);
    assert(all[1] == '-');
    lemma_scan_shift(head, rest, 0, 0);
    assert(modifiers_scan(all, 2, 2) == modifiers_scan(rest, 0, 0));
    assert(segment_modifier(one) == Some(letter_bit(letter))) by {
        lemma_scan_letter(letter);
        assert(one.subrange(0, 1) == one);
        reveal_with_fuel(modifiers_scan, 3);
    }
    assert(modifiers_scan(all, 0, 1) == join_modifiers(
        segment_modifier(all.subrange(0, 1)),
        modifiers_scan(all, 2, 2),
    ));
    assert(modifiers_scan(all, 0, 0) == modifiers_scan(all, 0, 1));
}

/// The written modifiers, without their last dash, read back as the same
/// bits.
proof fn lemma_modifiers_round_trip(bits: u8)
    requires
        1 <= bits <= 7,
    ensures
        modifiers_text(bits).len() >= 2,
        modifiers_text(bits).last() == '-',
        modifiers_spec(modifiers_text(bits).drop_last()) == Some(bits),
{
    assert(1u8 & 1 == 1 && 1u8 & 2 == 0 && 1u8 & 4 == 0 && 2u8 & 1 == 0 && 2u8 & 2 == 2 && 2u8 & 4
        == 0 && 3u8 & 1 == 1 && 3u8 & 2 == 2 && 3u8 & 4 == 0 && 4u8 & 1 == 0 && 4u8 & 2 == 0 && 4u8
        & 4 == 4 && 5u8 & 1 == 1 && 5u8 & 2 == 0 && 5u8 & 4 == 4 && 6u8 & 1 == 0 && 6u8 & 2 == 2
        && 6u8 & 4 == 4 && 7u8 & 1 == 1 && 7u8 & 2 == 2 && 7u8 & 4 == 4 && 2u8 | 4 == 6 && 2u8 | 1
        == 3 && 4u8 | 1 == 5 && 2u8 | 5 == 7) by (bit_vector);
    let text = modifiers_text(bits);
    let empty = Seq::<char>::empty();
    lemma_scan_letter('c');
    lemma_scan_letter('a');
    lemma_scan_letter('s');
    if bits == 1 {
        assert(text.drop_last() == seq!['s']);
    } else if bits == 2 {
        assert(text.drop_last() == seq!['c']);
    } else if bits == 4 {
        assert(text.drop_last() == seq!['a']);
    } else if bits == 3 {
        assert(text.drop_last() == seq!['c', '-'] + seq!['s']);
        lemma_scan_prepend('c', seq!['s']);
    } else if bits == 5 {
        assert(text.drop_last() == seq!['a', '-'] + seq!['s']);
        lemma_scan_prepend('a', seq!['s']);
    } else if bits == 6 {
        assert(text.drop_last() == seq!['c', '-'] + seq!['a']);
        lemma_scan_prepend('c', seq!['a']);
    } else {
        assert(bits == 7);
        assert(text.drop_last() == seq!['c', '-'] + (seq!['a', '-'] + seq!['s']));
        lemma_scan_prepend('a', seq!['s']);
        lemma_scan_prepend('c', seq!['a', '-'] + seq!['s']);
    }
}

/// The written key reads back as the same key.
proof fn lemma_key_text_round_trip(code: KeyCode, modifiers: KeyModifiers)
    requires
        is_readable(code, modifiers),
        modifiers.bits != 0 || code !is Char,
    ensures
        is_plain_key_text(key_text(code)),
        key_code_spec(key_text(code)) == Some(code),
{
    let text = key_text(code);
    match code {
        KeyCode::Char(c) => {
            assert(text == seq![c]);
            assert(text[0] == c);
            if named_key(text) is Some {
                lemma_named_key_shape(text);
            }
            if is_ascii_char(c) {
                assert(seq![ascii_lower(c)][0] == seq![c][0]);
            }
            assert(settled_key(c) == Some(c));
        },
        KeyCode::F(n) => {
            lemma_decimal_text(n as nat);
            let digits = decimal_text(n as nat);
            assert(text.subrange(1, text.len() as int) == digits);
            assert(is_digit(digits[0]));
            if named_key(text) is Some {
                lemma_named_key_shape(text);
            }
            assert forall|i: int| 0 <= i < text.len() implies is_ascii_char(#[trigger] text[i])
                && is_plain_key_char(text[i]) && ascii_lower(text[i]) == text[i] by {
                if i > 0 {
                    assert(text[i] == digits[i - 1]);
                    assert(is_digit(digits[i - 1]));
                }
            }
        },
        _ => {
            lemma_key_text_of_named(code);
            lemma_named_key_shape(text);
        },
    }
}

/// Behind a text that ends in a dash, the last dash of a text without
/// dashes is that one.
proof fn lemma_last_dash_before_key(before: Seq<char>, key: Seq<char>)
    requires
        before.len() > 0,
        before.last() == '-',
        last_dash(key) == -1,
    ensures
        last_dash(before + key) == before.len() - 1,
{
    let all = before + key;
    lemma_last_dash(all);
    lemma_last_dash(key);
    let found = last_dash(all);
    assert(all[before.len() - 1] == '-');
    if found >= before.len() {
        assert(all[found] == key[found - before.len()]);
    }
}

/// Writing a readable combination and reading the text gives the
/// combination back.
pub proof fn lemma_write_then_read(code: KeyCode, modifiers: KeyModifiers)
    requires
        is_readable(code, modifiers),
    ensures
        parse_key_spec(format_key_spec(code, modifiers)) == Some((code, modifiers)),
{
    let text = format_key_spec(code, modifiers);
    if modifiers.bits == 0 && code is Char {
        assert(text.len() == 1);
    } else {
        let mods = modifiers_text(modifiers.bits);
        let key = key_text(code);
        let inner = mods + key;
        lemma_key_text_round_trip(code, modifiers);
        lemma_plain_key_text(key);
        assert(text.subrange(1, text.len() - 1) == inner);
        assert(text.first() == '<');
        assert(text.last() == '>');
        assert(is_plain_key_char(key[0]));
        assert(inner[inner.len() - key.len()] == key[0]);
        assert(!is_blank_spec(inner));
        if modifiers.bits == 0 {
            assert(0u8 & 1 == 0 && 0u8 & 2 == 0 && 0u8 & 4 == 0) by (bit_vector);
            assert(mods == Seq::<char>::empty());
            assert(inner == key);
            assert(modifiers_spec(Seq::<char>::empty()) == Some(0u8));
        } else {
            lemma_modifiers_round_trip(modifiers.bits);
            lemma_last_dash_before_key(mods, key);
            assert(inner.subrange(0, mods.len() - 1) == mods.drop_last());
            assert(inner.subrange(mods.len() as int, inner.len() as int) == key);
            assert(inner != seq!['-']);
        }
    }
}

/// Reading gives readable combinations only.
pub proof fn lemma_read_is_readable(text: Seq<char>)
    requires
        parse_key_spec(text) is Some,
    ensures
        parse_key_spec(text) matches Some(key) && is_readable(key.0, key.1),
{
    if text.len() >= 2 && text.first() == '<' && text.last() == '>' {
        let inner = text.subrange(1, text.len() - 1);
        if inner != seq!['-'] {
            let dash = last_dash(inner);
            let mods_text = if dash >= 0 {
                inner.subrange(0, dash)
            } else {
                Seq::<char>::empty()
            };
            let key_part = if dash >= 0 {
                inner.subrange(dash + 1, inner.len() as int)
            } else {
                inner
            };
            let key = lowercase_spec(key_part);
            lemma_scan_bound(mods_text, 0, 0);
            if named_key(key) is Some {
                lemma_named_key_shape(key);
            } else if key.len() == 1 && is_ascii_char(key[0]) {
                lemma_ascii_settled(ascii_lower(key[0]));
            }
        }
    }
}

/// Reading a text, writing what was read and reading that again gives the
/// same combination: every text that stands for a combination stands for
/// the one its canonical form stands for.
pub proof fn law_key_text_round_trip(text: Seq<char>)
    requires
        parse_key_spec(text) is Some,
    ensures
        parse_key_spec(text) matches Some(key) && parse_key_spec(format_key_spec(key.0, key.1))
            == Some(key),
{
    lemma_read_is_readable(text);
    let key = parse_key_spec(text)->0;
    lemma_write_then_read(key.0, key.1);
}

} // verus!
