//! Key combinations and their textual form.
//!
//! A combination is written either as one character, or between angle
//! brackets as `<modifier-...-key>`: modifiers are `c`/`ctrl`, `a`/`alt` and
//! `s`/`shift`, in any order and any case; the key is a named key, `f1` to
//! `f12`, or one character that is neither white space nor a dash. Between
//! brackets the key is taken in lower case.

use vstd::prelude::*;
use crate::text::{
    ascii_lower, char_ascii_lower, char_is_ascii, char_lowercase, char_lowercase_spec,
    chars_eq_str, decimal_text, decimal_u8_spec, is_ascii_char, is_blank, is_blank_spec,
    is_whitespace, is_whitespace_spec, lowercase, lowercase_spec, parse_decimal_u8, push_chars,
    push_decimal, push_str, slice_chars, string_from_chars, to_chars,
};

verus! {

/// The media keys of an enhanced keyboard protocol.
#[derive(Clone, Copy, Debug, PartialEq, Eq, Hash, Structural)]
pub enum MediaKeyCode {
    Play,
    Pause,
    PlayPause,
    Reverse,
    Stop,
    FastForward,
    Rewind,
    TrackNext,
    TrackPrevious,
    Record,
    LowerVolume,
    RaiseVolume,
    MuteVolume,
}

/// The modifier keys, when they are reported as keys of their own.
#[derive(Clone, Copy, Debug, PartialEq, Eq, Hash, Structural)]
pub enum ModifierKeyCode {
    LeftShift,
    LeftControl,
    LeftAlt,
    LeftSuper,
    LeftHyper,
    LeftMeta,
    RightShift,
    RightControl,
    RightAlt,
    RightSuper,
    RightHyper,
    RightMeta,
    IsoLevel3Shift,
    IsoLevel5Shift,
}

/// The key of a key press, without its modifiers.
#[derive(Clone, Copy, Debug, PartialEq, Eq, Hash, Structural)]
pub enum KeyCode {
    Backspace,
    Enter,
    Left,
    Right,
    Up,
    Down,
    Home,
    End,
    PageUp,
    PageDown,
    Tab,
    BackTab,
    Delete,
    Insert,
    F(u8),
    Char(char),
    Null,
    Esc,
    CapsLock,
    ScrollLock,
    NumLock,
    PrintScreen,
    Pause,
    Menu,
    KeypadBegin,
    Media(MediaKeyCode),
    Modifier(ModifierKeyCode),
}

/// The modifiers held during a key press, one bit each.
#[derive(Clone, Copy, Debug, PartialEq, Eq, Hash, Structural)]
pub struct KeyModifiers {
    pub bits: u8,
}

impl KeyModifiers {
    pub const SHIFT: u8 = 0x01;

    pub const CONTROL: u8 = 0x02;

    pub const ALT: u8 = 0x04;

    pub const SUPER: u8 = 0x08;

    pub const HYPER: u8 = 0x10;

    pub const META: u8 = 0x20;

    /// Whether every bit of `flag` is set.
    pub open spec fn has(self, flag: u8) -> bool {
        self.bits & flag == flag
    }

    /// No modifier.
    pub fn none() -> (m: KeyModifiers)
        ensures
            m.bits == 0,
    {
        KeyModifiers { bits: 0 }
    }

    /// The shift key alone.
    pub fn shift() -> (m: KeyModifiers)
        ensures
            m.bits == KeyModifiers::SHIFT,
    {
        KeyModifiers { bits: KeyModifiers::SHIFT }
    }

    /// The control key alone.
    pub fn control() -> (m: KeyModifiers)
        ensures
            m.bits == KeyModifiers::CONTROL,
    {
        KeyModifiers { bits: KeyModifiers::CONTROL }
    }

    /// The alt key alone.
    pub fn alt() -> (m: KeyModifiers)
        ensures
            m.bits == KeyModifiers::ALT,
    {
        KeyModifiers { bits: KeyModifiers::ALT }
    }

    /// The modifiers with exactly these bits.
    pub fn from_bits(bits: u8) -> (m: KeyModifiers)
        ensures
            m.bits == bits,
    {
        KeyModifiers { bits }
    }

    /// The bits of these modifiers.
    pub fn bits(self) -> (bits: u8)
        ensures
            bits == self.bits,
    {
        self.bits
    }

    /// Whether no modifier is held.
    pub fn is_empty(self) -> (empty: bool)
        ensures
            empty == (self.bits == 0),
    {
        self.bits == 0
    }

    /// Whether all modifiers of `other` are among these.
    pub fn contains(self, other: KeyModifiers) -> (inside: bool)
        ensures
            inside == self.has(other.bits),
    {
        self.bits & other.bits == other.bits
    }

    /// These modifiers together with those of `other`.
    pub fn union(self, other: KeyModifiers) -> (both: KeyModifiers)
        ensures
            both.bits == self.bits | other.bits,
    {
        KeyModifiers { bits: self.bits | other.bits }
    }
}

/// The position of the last `-` in a text, or -1 where it has none.
pub open spec fn last_dash(text: Seq<char>) -> int
    decreases text.len(),
{
    if text.len() == 0 {
        -1
    } else if text.last() == '-' {
        text.len() - 1
    } else {
        last_dash(text.drop_last())
    }
}

/// Both sets of modifier bits, if both are there.
pub open spec fn join_modifiers(a: Option<u8>, b: Option<u8>) -> Option<u8> {
    match (a, b) {
        (Some(x), Some(y)) => Some(x | y),
        _ => None,
    }
}

/// The modifier that one lower-case name stands for.
pub open spec fn named_modifier(name: Seq<char>) -> Option<u8> {
    if name == "c"@ || name == "ctrl"@ {
        Some(KeyModifiers::CONTROL)
    } else if name == "a"@ || name == "alt"@ {
        Some(KeyModifiers::ALT)
    } else if name == "s"@ || name == "shift"@ {
        Some(KeyModifiers::SHIFT)
    } else {
        None
    }
}

/// The modifier of one segment between dashes. An empty segment adds
/// nothing; any other is folded to lower case and must be a known name.
pub open spec fn segment_modifier(segment: Seq<char>) -> Option<u8> {
    if segment.len() == 0 {
        Some(0u8)
    } else {
        named_modifier(lowercase_spec(segment))
    }
}

/// The modifiers named from `pos` on, where the segment that `pos` lies in
/// began at `seg_start`.
pub open spec fn modifiers_scan(text: Seq<char>, seg_start: int, pos: int) -> Option<u8>
    decreases text.len() - pos,
{
    if pos >= text.len() {
        segment_modifier(text.subrange(seg_start, text.len() as int))
    } else if text[pos] == '-' {
        join_modifiers(
            segment_modifier(text.subrange(seg_start, pos)),
            modifiers_scan(text, pos + 1, pos + 1),
        )
    } else {
        modifiers_scan(text, seg_start, pos + 1)
    }
}

/// The modifiers that a dash-separated list of names stands for, or `None`
/// where one of the names is unknown.
pub open spec fn modifiers_spec(text: Seq<char>) -> Option<u8> {
    modifiers_scan(text, 0, 0)
}

/// The key that a lower-case name stands for.
pub open spec fn named_key(name: Seq<char>) -> Option<KeyCode> {
    if name == "enter"@ {
        Some(KeyCode::Enter)
    } else if name == "tab"@ {
        Some(KeyCode::Tab)
    } else if name == "backspace"@ {
        Some(KeyCode::Backspace)
    } else if name == "esc"@ || name == "escape"@ {
        Some(KeyCode::Esc)
    } else if name == "left"@ {
        Some(KeyCode::Left)
    } else if name == "right"@ {
        Some(KeyCode::Right)
    } else if name == "up"@ {
        Some(KeyCode::Up)
    } else if name == "down"@ {
        Some(KeyCode::Down)
    } else if name == "home"@ {
        Some(KeyCode::Home)
    } else if name == "end"@ {
        Some(KeyCode::End)
    } else if name == "pageup"@ {
        Some(KeyCode::PageUp)
    } else if name == "pagedown"@ {
        Some(KeyCode::PageDown)
    } else if name == "delete"@ {
        Some(KeyCode::Delete)
    } else if name == "insert"@ {
        Some(KeyCode::Insert)
    } else {
        None
    }
}

/// A character that can be the key of a bracketed combination: no white
/// space, no dash.
pub open spec fn is_plain_key_char(c: char) -> bool {
    !is_whitespace_spec(c) && c != '-'
}

/// A character that is its own lower-case form, folded alone and folded as
/// a text of one character. Of ASCII these are all characters but `A`..`Z`.
pub open spec fn is_settled(c: char) -> bool {
    char_lowercase_spec(c) == seq![c] && lowercase_spec(seq![c]) == seq![c]
}

/// The character that is kept for the one character of a lower-case key
/// part. An ASCII character is kept in lower case. Any other character is
/// kept as it is; it is a key only if it is settled, which a character in
/// lower case is.
pub open spec fn settled_key(c: char) -> Option<char> {
    if is_ascii_char(c) {
        Some(ascii_lower(c))
    } else if is_settled(c) {
        Some(c)
    } else {
        None
    }
}

/// The key that the lower-case key part of a bracketed combination stands
/// for: a named key; `f` and a number from 1 to 12; or one character that
/// is neither white space nor a dash, kept in lower case.
pub open spec fn key_code_spec(key: Seq<char>) -> Option<KeyCode> {
    if named_key(key) is Some {
        named_key(key)
    } else if key.len() > 1 && key[0] == 'f' {
        match decimal_u8_spec(key.subrange(1, key.len() as int)) {
            Some(n) => if 1 <= n && n <= 12 {
                Some(KeyCode::F(n))
            } else {
                None
            },
            None => None,
        }
    } else if key.len() == 1 && is_plain_key_char(key[0]) {
        match settled_key(key[0]) {
            Some(c) => Some(KeyCode::Char(c)),
            None => None,
        }
    } else {
        None
    }
}

/// The combination written between the angle brackets.
pub open spec fn parse_bracketed_spec(inner: Seq<char>) -> Option<(KeyCode, KeyModifiers)> {
    if is_blank_spec(inner) {
        None
    } else if inner == seq!['-'] {
        Some((KeyCode::Char('-'), KeyModifiers { bits: 0 }))
    } else {
        let dash = last_dash(inner);
        let mods_text = if dash >= 0 {
            inner.subrange(0, dash)
        } else {
            Seq::<char>::empty()
        };
        let key_text = if dash >= 0 {
            inner.subrange(dash + 1, inner.len() as int)
        } else {
            inner
        };
        if is_blank_spec(key_text) {
            None
        } else {
            match (modifiers_spec(mods_text), key_code_spec(lowercase_spec(key_text))) {
                (Some(bits), Some(code)) => Some((code, KeyModifiers { bits })),
                _ => None,
            }
        }
    }
}

/// The combination that a text stands for, or `None` where it is malformed.
pub open spec fn parse_key_spec(text: Seq<char>) -> Option<(KeyCode, KeyModifiers)> {
    if text.len() >= 2 && text.first() == '<' && text.last() == '>' {
        parse_bracketed_spec(text.subrange(1, text.len() - 1))
    } else if text.len() == 1 {
        Some((KeyCode::Char(text[0]), KeyModifiers { bits: 0 }))
    } else {
        None
    }
}

/// The modifiers in their fixed order `c`, `a`, `s`, each followed by a dash.
pub open spec fn modifiers_text(bits: u8) -> Seq<char> {
    (if bits & KeyModifiers::CONTROL == KeyModifiers::CONTROL {
        seq!['c', '-']
    } else {
        Seq::<char>::empty()
    }) + (if bits & KeyModifiers::ALT == KeyModifiers::ALT {
        seq!['a', '-']
    } else {
        Seq::<char>::empty()
    }) + (if bits & KeyModifiers::SHIFT == KeyModifiers::SHIFT {
        seq!['s', '-']
    } else {
        Seq::<char>::empty()
    })
}

/// The lower-case name of a key between brackets.
pub open spec fn key_text(code: KeyCode) -> Seq<char> {
    match code {
        KeyCode::Char(c) => char_lowercase_spec(c),
        KeyCode::Enter => "enter"@,
        KeyCode::Tab => "tab"@,
        KeyCode::Backspace => "backspace"@,
        KeyCode::Esc => "esc"@,
        KeyCode::Left => "left"@,
        KeyCode::Right => "right"@,
        KeyCode::Up => "up"@,
        KeyCode::Down => "down"@,
        KeyCode::Home => "home"@,
        KeyCode::End => "end"@,
        KeyCode::PageUp => "pageup"@,
        KeyCode::PageDown => "pagedown"@,
        KeyCode::Delete => "delete"@,
        KeyCode::Insert => "insert"@,
        KeyCode::F(n) => seq!['f'] + decimal_text(n as nat),
        _ => "unknown"@,
    }
}

/// The canonical text of a combination: a character without modifiers
/// stands alone; everything else goes between brackets, lower case, the
/// modifiers in the order `c`, `a`, `s`.
pub open spec fn format_key_spec(code: KeyCode, modifiers: KeyModifiers) -> Seq<char> {
    if modifiers.bits == 0 && code is Char {
        seq![code->Char_0]
    } else {
        seq!['<'] + modifiers_text(modifiers.bits) + key_text(code) + seq!['>']
    }
}

/// Where `last_dash` points there is a dash, and none comes after it.
pub proof fn lemma_last_dash(text: Seq<char>)
    ensures
        -1 <= last_dash(text) < text.len(),
        last_dash(text) >= 0 ==> text[last_dash(text)] == '-',
        forall|j: int| last_dash(text) < j < text.len() ==> text[j] != '-',
    decreases text.len(),
{
    if text.len() > 0 && text.last() != '-' {
        let head = text.drop_last();
        lemma_last_dash(head);
        assert forall|j: int| last_dash(text) < j < text.len() implies text[j] != '-' by {
            if j < head.len() {
                assert(head[j] == text[j]);
            }
        }
    }
}

/// The position of the last `-`, if there is one.
fn rfind_dash(text: &Vec<char>) -> (found: Option<usize>)
    ensures
        match found {
            Some(p) => p as int == last_dash(text@),
            None => last_dash(text@) == -1,
        },
        last_dash(text@) < text.len(),
{
    let mut i: usize = text.len();
    assert(text@ == text@.take(i as int));
    proof {
        lemma_last_dash(text@);
    }
    while i > 0
        invariant
            i <= text.len(),
            last_dash(text@) == last_dash(text@.take(i as int)),
        decreases i,
    {
        let ghost head = text@.take(i as int);
        assert(head.last() == text@[i - 1]);
        assert(head.drop_last() == text@.take(i - 1));
        if text[i - 1] == '-' {
            return Some(i - 1);
        }
        i -= 1;
    }
    None
}

/// The bits of one modifier name, already in lower case.
pub fn modifier_of_name(name: &Vec<char>) -> (bits: Option<u8>)
    ensures
        bits == named_modifier(name@),
{
    if chars_eq_str(name, "c") || chars_eq_str(name, "ctrl") {
        Some(KeyModifiers::CONTROL)
    } else if chars_eq_str(name, "a") || chars_eq_str(name, "alt") {
        Some(KeyModifiers::ALT)
    } else if chars_eq_str(name, "s") || chars_eq_str(name, "shift") {
        Some(KeyModifiers::SHIFT)
    } else {
        None
    }
}

/// The bits of the segment that runs from `from` up to `to`.
fn modifier_of_segment(text: &Vec<char>, from: usize, to: usize) -> (bits: Option<u8>)
    requires
        from <= to <= text.len(),
    ensures
        bits == segment_modifier(text@.subrange(from as int, to as int)),
{
    if from == to {
        Some(0)
    } else {
        let segment = slice_chars(text, from, to);
        let name = lowercase(&segment);
        modifier_of_name(&name)
    }
}

proof fn lemma_or_assoc(a: u8, b: u8, c: u8)
    ensures
        a | (b | c) == (a | b) | c,
{
    assert(a | (b | c) == (a | b) | c) by (bit_vector);
}

/// The modifiers that a dash-separated list of names stands for.
fn parse_modifiers(text: &Vec<char>) -> (bits: Option<u8>)
    ensures
        bits == modifiers_spec(text@),
{
    let mut acc: u8 = 0;
    let mut seg_start: usize = 0;
    let mut pos: usize = 0;
    proof {
        match modifiers_scan(text@, 0, 0) {
            Some(r) => {
                assert(0u8 | r == r) by (bit_vector);
            },
            None => {},
        }
    }
    while pos < text.len()
        invariant
            seg_start <= pos <= text.len(),
            modifiers_spec(text@) == join_modifiers(
                Some(acc),
                modifiers_scan(text@, seg_start as int, pos as int),
            ),
        decreases text.len() - pos,
    {
        if text[pos] == '-' {
            match modifier_of_segment(text, seg_start, pos) {
                None => {
                    return None;
                },
                Some(here) => {
                    proof {
                        match modifiers_scan(text@, pos + 1, pos + 1) {
                            Some(r) => {
                                lemma_or_assoc(acc, here, r);
                            },
                            None => {},
                        }
                    }
                    acc = acc | here;
                },
            }
            seg_start = pos + 1;
        }
        pos += 1;
    }
    match modifier_of_segment(text, seg_start, pos) {
        None => None,
        Some(here) => Some(acc | here),
    }
}

/// The key that a lower-case name stands for.
pub fn key_of_name(name: &Vec<char>) -> (code: Option<KeyCode>)
    ensures
        code == named_key(name@),
{
    if chars_eq_str(name, "enter") {
        Some(KeyCode::Enter)
    } else if chars_eq_str(name, "tab") {
        Some(KeyCode::Tab)
    } else if chars_eq_str(name, "backspace") {
        Some(KeyCode::Backspace)
    } else if chars_eq_str(name, "esc") || chars_eq_str(name, "escape") {
        Some(KeyCode::Esc)
    } else if chars_eq_str(name, "left") {
        Some(KeyCode::Left)
    } else if chars_eq_str(name, "right") {
        Some(KeyCode::Right)
    } else if chars_eq_str(name, "up") {
        Some(KeyCode::Up)
    } else if chars_eq_str(name, "down") {
        Some(KeyCode::Down)
    } else if chars_eq_str(name, "home") {
        Some(KeyCode::Home)
    } else if chars_eq_str(name, "end") {
        Some(KeyCode::End)
    } else if chars_eq_str(name, "pageup") {
        Some(KeyCode::PageUp)
    } else if chars_eq_str(name, "pagedown") {
        Some(KeyCode::PageDown)
    } else if chars_eq_str(name, "delete") {
        Some(KeyCode::Delete)
    } else if chars_eq_str(name, "insert") {
        Some(KeyCode::Insert)
    } else {
        None
    }
}

/// The character that is kept for the one character of a lower-case key
/// part. The key part comes out of the folding of the standard library,
/// which is taken as it is outside ASCII; so the character is folded once
/// more, and is kept only where that leaves it as it is. What is kept can
/// then be written and read again.
pub fn settle_key(c: char) -> (kept: Option<char>)
    ensures
        kept == settled_key(c),
{
    if char_is_ascii(c) {
        Some(char_ascii_lower(c))
    } else {
        let alone = char_lowercase(c);
        let mut one: Vec<char> = Vec::new();
        one.push(c);
        assert(one@ =~= seq![c]);
        let as_text = lowercase(&one);
        if alone.len() == 1 && alone[0] == c && as_text.len() == 1 && as_text[0] == c {
            assert(alone@ =~= seq![c]);
            assert(as_text@ =~= seq![c]);
            Some(c)
        } else {
            assert(!is_settled(c)) by {
                if is_settled(c) {
                    assert(alone@[0] == seq![c][0]);
                    assert(as_text@[0] == seq![c][0]);
                }
            }
            None
        }
    }
}

/// The key that the lower-case key part stands for.
pub fn key_code_of(key: &Vec<char>) -> (code: Option<KeyCode>)
    ensures
        code == key_code_spec(key@),
{
    let named = key_of_name(key);
    if named.is_some() {
        named
    } else if key.len() > 1 && key[0] == 'f' {
        match parse_decimal_u8(key, 1) {
            Some(n) => if 1 <= n && n <= 12 {
                Some(KeyCode::F(n))
            } else {
                None
            },
            None => None,
        }
    } else if key.len() == 1 && !is_whitespace(key[0]) && key[0] != '-' {
        match settle_key(key[0]) {
            Some(c) => Some(KeyCode::Char(c)),
            None => None,
        }
    } else {
        None
    }
}

/// Reads what stands between the angle brackets.
fn parse_bracketed(inner: &Vec<char>) -> (key: Option<(KeyCode, KeyModifiers)>)
    ensures
        key == parse_bracketed_spec(inner@),
{
    let len: usize = inner.len();
    assert(inner@.subrange(0, len as int) == inner@);
    if is_blank(inner, 0, len) {
        return None;
    }
    if len == 1 && inner[0] == '-' {
        assert(inner@ == seq!['-']);
        return Some((KeyCode::Char('-'), KeyModifiers::none()));
    }
    assert(inner@ != seq!['-']) by {
        if inner@ == seq!['-'] {
            assert(inner@.len() == 1);
            assert(inner@[0] == seq!['-'][0]);
        }
    }
    let dash = rfind_dash(inner);
    let mods_end: usize = match dash {
        Some(p) => p,
        None => 0,
    };
    let key_start: usize = match dash {
        Some(p) => p + 1,
        None => 0,
    };
    if is_blank(inner, key_start, len) {
        return None;
    }
    let key_text = slice_chars(inner, key_start, len);
    let mods_text = slice_chars(inner, 0, mods_end);
    assert(mods_text@ == if last_dash(inner@) >= 0 {
        inner@.subrange(0, last_dash(inner@))
    } else {
        Seq::<char>::empty()
    });
    let key = lowercase(&key_text);
    match parse_modifiers(&mods_text) {
        None => None,
        Some(bits) => match key_code_of(&key) {
            None => None,
            Some(code) => Some((code, KeyModifiers::from_bits(bits))),
        },
    }
}

/// Reads a key combination. A malformed text gives `None`: an empty key
/// part, an unknown modifier, a function key outside `f1`..`f12`, or
/// anything that is neither one character nor a bracketed token.
pub fn parse_key_string(keymap: &str) -> (key: Option<(KeyCode, KeyModifiers)>)
    ensures
        key == parse_key_spec(keymap@),
{
    let chars = to_chars(keymap);
    let len: usize = chars.len();
    if len >= 2 && chars[0] == '<' && chars[len - 1] == '>' {
        let inner = slice_chars(&chars, 1, len - 1);
        parse_bracketed(&inner)
    } else if len == 1 {
        Some((KeyCode::Char(chars[0]), KeyModifiers::none()))
    } else {
        None
    }
}

/// Appends the lower-case name of a key.
fn push_key_text(out: &mut Vec<char>, code: KeyCode)
    ensures
        final(out)@ == old(out)@ + key_text(code),
{
    match code {
        KeyCode::Char(c) => {
            let lowered = char_lowercase(c);
            push_chars(out, &lowered);
        },
        KeyCode::Enter => push_str(out, "enter"),
        KeyCode::Tab => push_str(out, "tab"),
        KeyCode::Backspace => push_str(out, "backspace"),
        KeyCode::Esc => push_str(out, "esc"),
        KeyCode::Left => push_str(out, "left"),
        KeyCode::Right => push_str(out, "right"),
        KeyCode::Up => push_str(out, "up"),
        KeyCode::Down => push_str(out, "down"),
        KeyCode::Home => push_str(out, "home"),
        KeyCode::End => push_str(out, "end"),
        KeyCode::PageUp => push_str(out, "pageup"),
        KeyCode::PageDown => push_str(out, "pagedown"),
        KeyCode::Delete => push_str(out, "delete"),
        KeyCode::Insert => push_str(out, "insert"),
        KeyCode::F(n) => {
            out.push('f');
            push_decimal(out, n as u64);
            assert(out@ == old(out)@ + (seq!['f'] + decimal_text(n as nat)));
        },
        _ => push_str(out, "unknown"),
    }
}

/// Writes a key combination in its canonical form.
pub fn format_key_string(code: KeyCode, modifiers: KeyModifiers) -> (text: String)
    ensures
        text@ == format_key_spec(code, modifiers),
{
    let mut out: Vec<char> = Vec::new();
    if modifiers.is_empty() {
        if let KeyCode::Char(c) = code {
            out.push(c);
            assert(out@ == seq![c]);
            return string_from_chars(&out);
        }
    }
    out.push('<');
    if modifiers.contains(KeyModifiers::control()) {
        out.push('c');
        out.push('-');
    }
    if modifiers.contains(KeyModifiers::alt()) {
        out.push('a');
        out.push('-');
    }
    if modifiers.contains(KeyModifiers::shift()) {
        out.push('s');
        out.push('-');
    }
    assert(out@ == seq!['<'] + modifiers_text(modifiers.bits));
    push_key_text(&mut out, code);
    out.push('>');
    string_from_chars(&out)
}

} // verus!
