//! Character-level helpers: conversions between strings and character
//! vectors, substring search, and decimal / hexadecimal rendering.

use vstd::prelude::*;
use vstd::string::*;

verus! {

/// What `str::to_lowercase` returns for a text that holds a character
/// outside ASCII, as a function of the text.
pub uninterp spec fn lowercase(text: Seq<char>) -> Seq<char>;

/// Whether every character of a text is an ASCII character.
pub open spec fn is_ascii_text(text: Seq<char>) -> bool {
    forall|i: int| 0 <= i < text.len() ==> (#[trigger] text[i]) as int <= 127
}

/// The lower-case form of an ASCII character: `A` to `Z` become `a` to `z`,
/// all else stays.
pub open spec fn ascii_lowered(c: char) -> char {
    if 'A' <= c <= 'Z' {
        ((c as int) + 32) as char
    } else {
        c
    }
}

/// The lower-case form of a text: that of each of its characters where all
/// are ASCII characters, and what `str::to_lowercase` returns where not.
pub open spec fn lower(text: Seq<char>) -> Seq<char> {
    if is_ascii_text(text) {
        Seq::new(text.len(), |i: int| ascii_lowered(text[i]))
    } else {
        lowercase(text)
    }
}

/// Whether a character is white space, by the Unicode property of that name.
pub open spec fn is_white_space(c: char) -> bool {
    ||| c == ' '
    ||| '\u{9}' <= c <= '\u{d}'
    ||| c == '\u{85}'
    ||| c == '\u{a0}'
    ||| c == '\u{1680}'
    ||| '\u{2000}' <= c <= '\u{200a}'
    ||| c == '\u{2028}'
    ||| c == '\u{2029}'
    ||| c == '\u{202f}'
    ||| c == '\u{205f}'
    ||| c == '\u{3000}'
}

/// A text without the white space at its start.
pub open spec fn trimmed_start(text: Seq<char>) -> Seq<char>
    decreases text.len(),
{
    if text.len() > 0 && is_white_space(text[0]) {
        trimmed_start(text.drop_first())
    } else {
        text
    }
}

/// A text without the white space at its end.
pub open spec fn trimmed_end(text: Seq<char>) -> Seq<char>
    decreases text.len(),
{
    if text.len() > 0 && is_white_space(text.last()) {
        trimmed_end(text.drop_last())
    } else {
        text
    }
}

/// A text without the white space at its two ends.
pub open spec fn trimmed(text: Seq<char>) -> Seq<char> {
    trimmed_end(trimmed_start(text))
}

/// `str::trim` gives the text without the white space at its two ends,
/// where white space is what the Unicode property of that name says.
pub assume_specification<'a>[ str::trim ](s: &'a str) -> (inner: &'a str)
    ensures
        inner@ == trimmed(s@),
;

/// `String::push` appends exactly one character to the end of the string.
pub assume_specification[ String::push ](s: &mut String, c: char)
    ensures
        final(s)@ == old(s)@.push(c),
;

/// `str::to_lowercase` maps a text to its Unicode lowercase form, which
/// depends on the text alone. Of ASCII characters it changes `A` to `Z`
/// into `a` to `z` and keeps all else; for a text that holds other
/// characters the result is referred to as `lowercase`.
pub assume_specification[ str::to_lowercase ](s: &str) -> (lowered: String)
    ensures
        lowered@ == lower(s@),
        !is_ascii_text(s@) ==> lowered@ == lowercase(s@),
;

/// The texts that a vector of strings holds.
pub open spec fn texts(strings: Seq<String>) -> Seq<Seq<char>> {
    Seq::new(strings.len(), |i: int| strings[i]@)
}

/// The lowercase forms of the texts that a vector of strings holds.
pub open spec fn lowered_texts(strings: Seq<String>) -> Seq<Seq<char>> {
    Seq::new(strings.len(), |i: int| lower(strings[i]@))
}

/// `needle` occurs in `haystack` starting at `offset`.
pub open spec fn occurs_at(haystack: Seq<char>, needle: Seq<char>, offset: int) -> bool {
    &&& 0 <= offset
    &&& offset + needle.len() <= haystack.len()
    &&& haystack.subrange(offset, offset + needle.len()) == needle
}

/// `needle` occurs somewhere in `haystack`.
pub open spec fn is_substring(haystack: Seq<char>, needle: Seq<char>) -> bool {
    exists|offset: int| occurs_at(haystack, needle, offset)
}

/// `prefix` stands at the start of `text`.
pub open spec fn is_prefix(text: Seq<char>, prefix: Seq<char>) -> bool {
    occurs_at(text, prefix, 0)
}

/// `suffix` stands at the end of `text`.
pub open spec fn is_suffix(text: Seq<char>, suffix: Seq<char>) -> bool {
    occurs_at(text, suffix, text.len() - suffix.len())
}

/// The text `first` followed by `second`.
pub fn concat2(first: &str, second: &str) -> (joined: String)
    ensures
        joined@ == first@ + second@,
{
    let mut joined = first.to_owned();
    joined.append(second);
    joined
}

/// The texts `first`, `second` and `third` in a row.
pub fn concat3(first: &str, second: &str, third: &str) -> (joined: String)
    ensures
        joined@ == first@ + second@ + third@,
{
    let mut joined = first.to_owned();
    joined.append(second);
    joined.append(third);
    joined
}

/// The characters of a string, in order.
pub fn chars_of(s: &str) -> (chars: Vec<char>)
    ensures
        chars@ == s@,
{
    let mut chars: Vec<char> = Vec::new();
    for c in it: s.chars()
        invariant
            chars@ == it.seq().take(it.index() as int),
            it.seq() == s@,
    {
        chars.push(c);
    }
    chars
}

/// Whether `needle` stands in `haystack` at `offset`.
pub fn matches_at(haystack: &Vec<char>, needle: &Vec<char>, offset: usize) -> (found: bool)
    ensures
        found == occurs_at(haystack@, needle@, offset as int),
{
    if needle.len() > haystack.len() || offset > haystack.len() - needle.len() {
        return false;
    }
    let mut i: usize = 0;
    while i < needle.len()
        invariant
            i <= needle.len(),
            offset + needle.len() <= haystack.len(),
            haystack@.subrange(offset as int, offset + i) == needle@.take(i as int),
        decreases needle.len() - i,
    {
        if haystack[offset + i] != needle[i] {
            assert(haystack@.subrange(offset as int, offset + needle.len())[i as int]
                != needle@[i as int]);
            return false;
        }
        assert(haystack@.subrange(offset as int, offset + i + 1) == haystack@.subrange(
            offset as int,
            offset + i,
        ).push(haystack@[offset + i]));
        assert(needle@.take(i + 1) == needle@.take(i as int).push(needle@[i as int]));
        i += 1;
    }
    assert(needle@.take(needle.len() as int) == needle@);
    true
}

/// Whether `needle` occurs anywhere in `haystack`.
pub fn contains_chars(haystack: &Vec<char>, needle: &Vec<char>) -> (found: bool)
    ensures
        found == is_substring(haystack@, needle@),
{
    if needle.len() > haystack.len() {
        return false;
    }
    let last: usize = haystack.len() - needle.len();
    let mut offset: usize = 0;
    loop
        invariant
            offset <= last,
            last == haystack.len() - needle.len(),
            needle.len() <= haystack.len(),
            forall|k: int| 0 <= k < offset ==> !occurs_at(haystack@, needle@, k),
        decreases last - offset,
    {
        if matches_at(haystack, needle, offset) {
            return true;
        }
        if offset == last {
            return false;
        }
        offset += 1;
    }
}

/// Whether two texts hold the same characters.
pub fn same_text(first: &str, second: &str) -> (same: bool)
    ensures
        same == (first@ == second@),
{
    let a = chars_of(first);
    let b = chars_of(second);
    if a.len() != b.len() {
        return false;
    }
    let same = matches_at(&a, &b, 0);
    assert(a@.subrange(0, b@.len() as int) == a@);
    same
}

/// Whether `needle` occurs anywhere in `haystack`.
pub fn contains_text(haystack: &str, needle: &str) -> (found: bool)
    ensures
        found == is_substring(haystack@, needle@),
{
    let h = chars_of(haystack);
    let n = chars_of(needle);
    contains_chars(&h, &n)
}

/// Whether `text` begins with `prefix`.
pub fn starts_with_text(text: &str, prefix: &str) -> (found: bool)
    ensures
        found == is_prefix(text@, prefix@),
{
    let t = chars_of(text);
    let p = chars_of(prefix);
    if p.len() > t.len() {
        return false;
    }
    matches_at(&t, &p, 0)
}

/// Whether `text` ends with `suffix`.
pub fn ends_with_text(text: &str, suffix: &str) -> (found: bool)
    ensures
        found == is_suffix(text@, suffix@),
{
    let t = chars_of(text);
    let s = chars_of(suffix);
    if s.len() > t.len() {
        return false;
    }
    matches_at(&t, &s, t.len() - s.len())
}

/// The character that stands for a decimal or hexadecimal digit value below 16.
pub open spec fn digit_char(value: int, uppercase: bool) -> char {
    if value < 10 {
        (48 + value) as char
    } else if uppercase {
        (55 + value) as char
    } else {
        (87 + value) as char
    }
}

/// Whether a character is a hexadecimal digit of the given letter case.
pub open spec fn is_hex_char(c: char, uppercase: bool) -> bool {
    ||| '0' <= c <= '9'
    ||| (uppercase && 'A' <= c <= 'F')
    ||| (!uppercase && 'a' <= c <= 'f')
}

/// Whether a text consists of exactly `length` hexadecimal digits of the given
/// letter case.
pub open spec fn is_hex_text(text: Seq<char>, length: nat, uppercase: bool) -> bool {
    &&& text.len() == length
    &&& forall|i: int| 0 <= i < text.len() ==> is_hex_char(#[trigger] text[i], uppercase)
}

/// The decimal digits of a number, most significant first, without padding.
pub open spec fn decimal_digits(value: nat) -> Seq<char>
    decreases value,
{
    if value < 10 {
        seq![digit_char(value as int, false)]
    } else {
        decimal_digits(value / 10).push(digit_char((value % 10) as int, false))
    }
}

/// The decimal text of an integer, with a leading minus sign if it is negative.
pub open spec fn signed_decimal(value: int) -> Seq<char> {
    if value < 0 {
        seq!['-'] + decimal_digits((-value) as nat)
    } else {
        decimal_digits(value as nat)
    }
}

/// The lowest `width` hexadecimal digits of a number in lower case, most
/// significant first, padded with zeros.
pub open spec fn hex_digits(value: nat, width: nat) -> Seq<char>
    decreases width,
{
    if width == 0 {
        Seq::empty()
    } else {
        hex_digits(value / 16, (width - 1) as nat).push(digit_char((value % 16) as int, false))
    }
}

/// Fixed-width hexadecimal text has the width asked for and holds lower-case
/// hexadecimal digits only.
pub proof fn lemma_hex_digits_shape(value: nat, width: nat)
    ensures
        is_hex_text(hex_digits(value, width), width, false),
    decreases width,
{
    if width > 0 {
        lemma_hex_digits_shape(value / 16, (width - 1) as nat);
    }
}

/// Decimal text is never empty.
pub proof fn lemma_decimal_digits_nonempty(value: nat)
    ensures
        decimal_digits(value).len() > 0,
    decreases value,
{
    if value >= 10 {
        lemma_decimal_digits_nonempty(value / 10);
    }
}

/// The character for a digit value below 16.
pub fn hex_char(value: u8, uppercase: bool) -> (c: char)
    requires
        value < 16,
    ensures
        c == digit_char(value as int, uppercase),
        is_hex_char(c, uppercase),
{
    if value < 10 {
        (48u8 + value) as char
    } else if uppercase {
        (55u8 + value) as char
    } else {
        (87u8 + value) as char
    }
}

/// Appends the decimal digits of `value` to `out`.
pub fn push_decimal(out: &mut String, value: u64)
    ensures
        final(out)@ == old(out)@ + decimal_digits(value as nat),
    decreases value,
{
    if value >= 10 {
        push_decimal(out, value / 10);
    }
    out.push(hex_char((value % 10) as u8, false));
}

/// Appends the decimal text of `value` to `out`, with a minus sign if it is negative.
pub fn push_signed_decimal(out: &mut String, value: i64)
    ensures
        final(out)@ == old(out)@ + signed_decimal(value as int),
{
    if value < 0 {
        out.push('-');
        let magnitude: u64 = ((-(value + 1)) as u64) + 1;
        push_decimal(out, magnitude);
    } else {
        push_decimal(out, value as u64);
    }
}

/// Appends the lowest `width` hexadecimal digits of `value` to `out`, in lower case.
pub fn push_hex(out: &mut String, value: u64, width: usize)
    ensures
        final(out)@ == old(out)@ + hex_digits(value as nat, width as nat),
    decreases width,
{
    if width > 0 {
        push_hex(out, value / 16, width - 1);
        out.push(hex_char((value % 16) as u8, false));
    }
}

/// Different numbers have different decimal digits.
pub proof fn lemma_decimal_digits_differ(first: nat, second: nat)
    requires
        decimal_digits(first) == decimal_digits(second),
    ensures
        first == second,
    decreases first,
{
    lemma_decimal_digits_nonempty(first / 10);
    lemma_decimal_digits_nonempty(second / 10);
    if first < 10 && second < 10 {
        assert(decimal_digits(first)[0] == digit_char(first as int, false));
        assert(decimal_digits(second)[0] == digit_char(second as int, false));
    } else if first >= 10 && second >= 10 {
        let a = decimal_digits(first / 10);
        let b = decimal_digits(second / 10);
        let x = digit_char((first % 10) as int, false);
        let y = digit_char((second % 10) as int, false);
        assert(a.push(x).drop_last() == a);
        assert(b.push(y).drop_last() == b);
        assert(a.push(x).last() == x);
        assert(b.push(y).last() == y);
        lemma_decimal_digits_differ(first / 10, second / 10);
    } else if first < 10 {
        assert(decimal_digits(first).len() == 1);
        assert(decimal_digits(second).len() == decimal_digits(second / 10).len() + 1);
    } else {
        assert(decimal_digits(second).len() == 1);
        assert(decimal_digits(first).len() == decimal_digits(first / 10).len() + 1);
    }
}

/// The place of the first of the strings that holds the text, if one does.
pub fn index_of_text(strings: &Vec<String>, text: &str) -> (place: Option<usize>)
    ensures
        match place {
            Some(j) => j < strings@.len() && strings@[j as int]@ == text@ && forall|m: int|
                0 <= m < j ==> (#[trigger] strings@[m])@ != text@,
            None => forall|m: int| 0 <= m < strings@.len() ==> (#[trigger] strings@[m])@ != text@,
        },
{
    let mut j: usize = 0;
    while j < strings.len()
        invariant
            j <= strings.len(),
            forall|m: int| 0 <= m < j ==> (#[trigger] strings@[m])@ != text@,
        decreases strings.len() - j,
    {
        if same_text(strings[j].as_str(), text) {
            return Some(j);
        }
        j += 1;
    }
    None
}

} // verus!
