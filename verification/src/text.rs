//! Characters and short texts: case folding, blank detection and decimal
//! numbers, stated over sequences of characters.
//!
//! ASCII text is handled here, character by character. Text with other
//! characters goes to the standard library, whose results are left
//! uninterpreted: nothing is known of them but that they depend on the text
//! alone.

use vstd::prelude::*;

verus! {

/// A character of the ASCII range.
pub open spec fn is_ascii_char(c: char) -> bool {
    (c as u32) < 128
}

/// A text made of ASCII characters only.
pub open spec fn is_ascii_text(text: Seq<char>) -> bool {
    forall|i: int| 0 <= i < text.len() ==> is_ascii_char(#[trigger] text[i])
}

/// `A`..`Z` go to `a`..`z`; every other character stays.
pub open spec fn ascii_lower(c: char) -> char {
    if 'A' <= c && c <= 'Z' {
        ((c as u8) + 32) as char
    } else {
        c
    }
}

/// `ascii_lower` on each character.
pub open spec fn ascii_lower_text(text: Seq<char>) -> Seq<char> {
    Seq::new(text.len(), |i: int| ascii_lower(text[i]))
}

/// What `str::to_lowercase` returns for a text.
pub uninterp spec fn unicode_lowercase(text: Seq<char>) -> Seq<char>;

/// What `char::to_lowercase` yields for a character.
pub uninterp spec fn unicode_char_lowercase(c: char) -> Seq<char>;

/// The characters outside ASCII that Unicode gives the property
/// White_Space: the next-line control, the no-break spaces, the spaces of
/// fixed width, the line and paragraph separators and the ideographic space.
pub open spec fn unicode_whitespace(c: char) -> bool {
    ||| c == '\u{85}'
    ||| c == '\u{A0}'
    ||| c == '\u{1680}'
    ||| ('\u{2000}' <= c && c <= '\u{200A}')
    ||| c == '\u{2028}'
    ||| c == '\u{2029}'
    ||| c == '\u{202F}'
    ||| c == '\u{205F}'
    ||| c == '\u{3000}'
}

/// The lower-case form of a text.
pub open spec fn lowercase_spec(text: Seq<char>) -> Seq<char> {
    if is_ascii_text(text) {
        ascii_lower_text(text)
    } else {
        unicode_lowercase(text)
    }
}

/// The lower-case form of one character, which may be several characters.
pub open spec fn char_lowercase_spec(c: char) -> Seq<char> {
    if is_ascii_char(c) {
        seq![ascii_lower(c)]
    } else {
        unicode_char_lowercase(c)
    }
}

/// White space: the space, the ASCII controls from tab to carriage return,
/// and the characters outside ASCII with the Unicode property White_Space.
pub open spec fn is_whitespace_spec(c: char) -> bool {
    if is_ascii_char(c) {
        c == ' ' || ('\t' <= c && c <= '\r')
    } else {
        unicode_whitespace(c)
    }
}

/// A text with nothing but white space in it; the empty text is blank.
pub open spec fn is_blank_spec(text: Seq<char>) -> bool {
    forall|i: int| 0 <= i < text.len() ==> is_whitespace_spec(#[trigger] text[i])
}

/// The character of a decimal digit.
pub open spec fn digit_char(d: nat) -> char {
    (48 + d) as char
}

/// A character that is a decimal digit.
pub open spec fn is_digit(c: char) -> bool {
    '0' <= c && c <= '9'
}

/// The value of a decimal digit.
pub open spec fn digit_value(c: char) -> nat {
    (c as nat - 48) as nat
}

/// A number in decimal, without sign or leading zeros.
pub open spec fn decimal_text(n: nat) -> Seq<char>
    decreases n,
{
    if n < 10 {
        seq![digit_char(n)]
    } else {
        decimal_text(n / 10).push(digit_char(n % 10))
    }
}

/// A number in decimal, filled with zeros on the left up to two characters.
pub open spec fn two_digit_text(n: nat) -> Seq<char> {
    if n < 10 {
        seq!['0', digit_char(n)]
    } else {
        decimal_text(n)
    }
}

/// A text made of decimal digits only.
pub open spec fn all_digits(text: Seq<char>) -> bool {
    forall|i: int| 0 <= i < text.len() ==> is_digit(#[trigger] text[i])
}

/// The number that a text of decimal digits denotes; leading zeros count
/// for nothing.
pub open spec fn digits_value(text: Seq<char>) -> nat
    decreases text.len(),
{
    if text.len() == 0 {
        0
    } else {
        digits_value(text.drop_last()) * 10 + digit_value(text.last())
    }
}

/// A byte written in decimal: an optional `+`, then one digit or more, the
/// value no larger than 255. Anything else denotes nothing.
pub open spec fn decimal_u8_spec(text: Seq<char>) -> Option<u8> {
    let digits = if text.len() > 0 && text[0] == '+' {
        text.subrange(1, text.len() as int)
    } else {
        text
    };
    if digits.len() > 0 && all_digits(digits) && digits_value(digits) <= 255 {
        Some(digits_value(digits) as u8)
    } else {
        None
    }
}

/// `str::chars`, gathered: the characters of a string, in order.
pub fn to_chars(s: &str) -> (chars: Vec<char>)
    ensures
        chars@ == s@,
{
    let mut chars: Vec<char> = Vec::new();
    for c in it: s.chars()
        invariant
            chars@ == it.seq().take(it.index()),
            it.seq() == s@,
    {
        chars.push(c);
    }
    chars
}

/// `String::from_iter` on the characters of a vector: the string that holds
/// exactly these characters, in this order.
#[verifier::external_body]
pub(crate) fn string_from_chars(chars: &Vec<char>) -> (s: String)
    ensures
        s@ == chars@,
{
    chars.iter().collect()
}

/// `str::to_lowercase`, called on text that is not all ASCII. Nothing is
/// claimed of its result but that it is the lower-case form that the
/// standard library gives this text.
#[verifier::external_body]
fn unicode_lowercase_of(text: &Vec<char>) -> (lowered: Vec<char>)
    ensures
        lowered@ == unicode_lowercase(text@),
{
    let owned: String = text.iter().collect();
    owned.to_lowercase().chars().collect()
}

/// `char::to_lowercase`, called on a character outside ASCII. Nothing is
/// claimed of its result but that it is the lower-case form that the
/// standard library gives this character.
#[verifier::external_body]
fn unicode_char_lowercase_of(c: char) -> (lowered: Vec<char>)
    ensures
        lowered@ == unicode_char_lowercase(c),
{
    c.to_lowercase().collect()
}

/// `char::is_whitespace`, which answers whether a character has the
/// Unicode property White_Space. The claim is that those characters are the
/// ones listed in `is_whitespace_spec`.
#[verifier::external_body]
fn unicode_whitespace_of(c: char) -> (white: bool)
    ensures
        white == is_whitespace_spec(c),
{
    c.is_whitespace()
}

/// Appends the characters of `s`.
pub fn push_str(out: &mut Vec<char>, s: &str)
    ensures
        final(out)@ == old(out)@ + s@,
{
    for c in it: s.chars()
        invariant
            out@ == old(out)@ + it.seq().take(it.index()),
            it.seq() == s@,
    {
        out.push(c);
    }
}

/// Appends the elements of `more`.
pub fn push_chars(out: &mut Vec<char>, more: &Vec<char>)
    ensures
        final(out)@ == old(out)@ + more@,
{
    let mut i: usize = 0;
    while i < more.len()
        invariant
            i <= more.len(),
            out@ == old(out)@ + more@.take(i as int),
        decreases more.len() - i,
    {
        out.push(more[i]);
        i += 1;
    }
}

/// Whether `chars` spells exactly the text `s`.
pub fn chars_eq_str(chars: &Vec<char>, s: &str) -> (same: bool)
    ensures
        same == (chars@ == s@),
{
    let other = to_chars(s);
    if chars.len() != other.len() {
        return false;
    }
    let mut i: usize = 0;
    while i < chars.len()
        invariant
            i <= chars.len(),
            chars.len() == other.len(),
            other@ == s@,
            chars@.take(i as int) == other@.take(i as int),
        decreases chars.len() - i,
    {
        if chars[i] != other[i] {
            assert(chars@[i as int] != s@[i as int]);
            return false;
        }
        i += 1;
        assert(chars@.take(i as int) == chars@.take(i - 1).push(chars@[i - 1]));
        assert(other@.take(i as int) == other@.take(i - 1).push(other@[i - 1]));
    }
    assert(chars@ == chars@.take(chars.len() as int));
    assert(other@ == other@.take(other.len() as int));
    true
}

/// A copy of the characters from `from` up to, not including, `to`.
pub fn slice_chars(chars: &Vec<char>, from: usize, to: usize) -> (part: Vec<char>)
    requires
        from <= to <= chars.len(),
    ensures
        part@ == chars@.subrange(from as int, to as int),
{
    let mut part: Vec<char> = Vec::new();
    let mut i: usize = from;
    while i < to
        invariant
            from <= i <= to <= chars.len(),
            part@ == chars@.subrange(from as int, i as int),
        decreases to - i,
    {
        part.push(chars[i]);
        i += 1;
    }
    part
}

/// Whether a character lies in the ASCII range.
pub fn char_is_ascii(c: char) -> (ascii: bool)
    ensures
        ascii == is_ascii_char(c),
{
    (c as u32) < 128
}

/// The lower-case form of an ASCII letter; other characters come back as
/// they are.
pub fn char_ascii_lower(c: char) -> (lowered: char)
    ensures
        lowered == ascii_lower(c),
{
    if c >= 'A' && c <= 'Z' {
        ((c as u8) + 32) as char
    } else {
        c
    }
}

/// The lower-case form of a text. ASCII text is folded here; any other text
/// is handed to `str::to_lowercase`.
pub fn lowercase(text: &Vec<char>) -> (lowered: Vec<char>)
    ensures
        lowered@ == lowercase_spec(text@),
{
    let mut folded: Vec<char> = Vec::new();
    let mut i: usize = 0;
    while i < text.len()
        invariant
            i <= text.len(),
            is_ascii_text(text@.take(i as int)),
            folded@ == ascii_lower_text(text@.take(i as int)),
        decreases text.len() - i,
    {
        let c = text[i];
        if !char_is_ascii(c) {
            return unicode_lowercase_of(text);
        }
        folded.push(char_ascii_lower(c));
        i += 1;
    }
    assert(text@ == text@.take(text.len() as int));
    folded
}

/// The lower-case form of one character. An ASCII character is folded here;
/// any other is handed to `char::to_lowercase`.
pub fn char_lowercase(c: char) -> (lowered: Vec<char>)
    ensures
        lowered@ == char_lowercase_spec(c),
{
    if char_is_ascii(c) {
        let mut lowered: Vec<char> = Vec::new();
        lowered.push(char_ascii_lower(c));
        lowered
    } else {
        unicode_char_lowercase_of(c)
    }
}

/// Whether a character is white space.
pub fn is_whitespace(c: char) -> (white: bool)
    ensures
        white == is_whitespace_spec(c),
{
    if char_is_ascii(c) {
        c == ' ' || (c >= '\t' && c <= '\r')
    } else {
        unicode_whitespace_of(c)
    }
}

/// Whether the characters from `from` up to `to` are all white space.
pub fn is_blank(chars: &Vec<char>, from: usize, to: usize) -> (blank: bool)
    requires
        from <= to <= chars.len(),
    ensures
        blank == is_blank_spec(chars@.subrange(from as int, to as int)),
{
    let ghost part = chars@.subrange(from as int, to as int);
    let mut i: usize = from;
    while i < to
        invariant
            from <= i <= to <= chars.len(),
            part == chars@.subrange(from as int, to as int),
            forall|j: int| 0 <= j < i - from ==> is_whitespace_spec(#[trigger] part[j]),
        decreases to - i,
    {
        if !is_whitespace(chars[i]) {
            assert(part[i - from] == chars@[i as int]);
            return false;
        }
        assert(part[i - from] == chars@[i as int]);
        i += 1;
    }
    true
}

/// Appends `n` in decimal.
pub fn push_decimal(out: &mut Vec<char>, n: u64)
    ensures
        final(out)@ == old(out)@ + decimal_text(n as nat),
    decreases n,
{
    if n >= 10 {
        push_decimal(out, n / 10);
    }
    let d: u8 = (n % 10) as u8;
    out.push((48 + d) as char);
}

/// Appends `n` in decimal, with a zero in front where it has one digit.
pub fn push_two_digits(out: &mut Vec<char>, n: u64)
    ensures
        final(out)@ == old(out)@ + two_digit_text(n as nat),
{
    if n < 10 {
        out.push('0');
    }
    push_decimal(out, n);
}

/// Reads a byte written in decimal from the characters at `from` and after.
pub fn parse_decimal_u8(chars: &Vec<char>, from: usize) -> (value: Option<u8>)
    requires
        from <= chars.len(),
    ensures
        value == decimal_u8_spec(chars@.subrange(from as int, chars.len() as int)),
{
    let ghost text = chars@.subrange(from as int, chars.len() as int);
    let start: usize = if from < chars.len() && chars[from] == '+' {
        from + 1
    } else {
        from
    };
    let ghost digits = chars@.subrange(start as int, chars.len() as int);
    assert(digits == if text.len() > 0 && text[0] == '+' {
        text.subrange(1, text.len() as int)
    } else {
        text
    });
    if start == chars.len() {
        return None;
    }
    let mut acc: u16 = 0;
    let mut over: bool = false;
    let mut i: usize = start;
    while i < chars.len()
        invariant
            from <= start <= i <= chars.len(),
            text == chars@.subrange(from as int, chars.len() as int),
            digits == chars@.subrange(start as int, chars.len() as int),
            digits == if text.len() > 0 && text[0] == '+' {
                text.subrange(1, text.len() as int)
            } else {
                text
            },
            all_digits(digits.take(i - start)),
            over ==> digits_value(digits.take(i - start)) > 255,
            !over ==> acc == digits_value(digits.take(i - start)) && acc <= 255,
        decreases chars.len() - i,
    {
        let c = chars[i];
        assert(digits[i - start] == c);
        if !(c >= '0' && c <= '9') {
            return None;
        }
        let d: u16 = ((c as u8) - 48) as u16;
        let ghost before = digits.take(i - start);
        let ghost after = digits.take(i - start + 1);
        assert(after.drop_last() == before);
        assert(after.last() == c);
        assert(digits_value(after) == digits_value(before) * 10 + digit_value(c));
        if !over {
            acc = acc * 10 + d;
            if acc > 255 {
                over = true;
            }
        }
        i += 1;
    }
    assert(digits == digits.take(digits.len() as int));
    if over {
        None
    } else {
        Some(acc as u8)
    }
}

} // verus!
