//! Text scanning and building over the characters of a string.

use vstd::prelude::*;
use vstd::string::StringExecFns;
use vstd::string::StrSliceExecFns;

verus! {

/// `part` stands in `text` at position `at`.
pub open spec fn occurs_at(text: Seq<char>, part: Seq<char>, at: int) -> bool {
    &&& 0 <= at
    &&& at + part.len() <= text.len()
    &&& text.subrange(at, at + part.len()) == part
}

/// `part` stands somewhere in `text`.
pub open spec fn occurs_in(text: Seq<char>, part: Seq<char>) -> bool {
    exists|at: int| occurs_at(text, part, at)
}

/// `c` with an ASCII capital turned into the small letter.
pub open spec fn ascii_lower(c: char) -> char {
    if 'A' <= c <= 'Z' {
        ((c as u32 + 32) as u32) as char
    } else {
        c
    }
}

/// `text` with every ASCII capital turned into the small letter.
pub open spec fn ascii_lowercase(text: Seq<char>) -> Seq<char> {
    text.map_values(|c: char| ascii_lower(c))
}

/// The characters with the Unicode property White_Space.
pub open spec fn is_white_space(c: char) -> bool {
    let u = c as u32;
    ||| 0x09 <= u <= 0x0d
    ||| u == 0x20
    ||| u == 0x85
    ||| u == 0xa0
    ||| u == 0x1680
    ||| 0x2000 <= u <= 0x200a
    ||| u == 0x2028
    ||| u == 0x2029
    ||| u == 0x202f
    ||| u == 0x205f
    ||| u == 0x3000
}

/// The part of `text` between the leading and the trailing white space.
pub open spec fn trimmed(text: Seq<char>) -> Seq<char>
    decreases text.len(),
{
    if text.len() == 0 {
        text
    } else if is_white_space(text.first()) {
        trimmed(text.drop_first())
    } else if is_white_space(text.last()) {
        trimmed(text.drop_last())
    } else {
        text
    }
}

/// `text` without the `c`s at its end.
pub open spec fn without_trailing(text: Seq<char>, c: char) -> Seq<char>
    decreases text.len(),
{
    if text.len() > 0 && text.last() == c {
        without_trailing(text.drop_last(), c)
    } else {
        text
    }
}

/// The characters of `text`.
pub fn chars_of(text: &str) -> (chars: Vec<char>)
    ensures
        chars@ == text@,
{
    let mut chars: Vec<char> = Vec::new();
    for c in iter: text.chars()
        invariant
            iter.seq() == text@,
            chars@ == text@.take(iter.index()),
    {
        assert(text@.take(iter.index() + 1) == text@.take(iter.index()).push(c));
        chars.push(c);
    }
    assert(text@.take(text@.len() as int) == text@);
    chars
}

/// `c` with an ASCII capital turned into the small letter.
pub fn lower_char(c: char) -> (lower: char)
    ensures
        lower == ascii_lower(c),
{
    if 'A' <= c && c <= 'Z' {
        ((c as u8) + 32) as char
    } else {
        c
    }
}

/// Whether the characters of `part` stand in `text` at position `at`.
fn chars_at(text: &Vec<char>, part: &Vec<char>, at: usize) -> (found: bool)
    requires
        at + part@.len() <= text@.len(),
    ensures
        found == occurs_at(text@, part@, at as int),
{
    let mut i: usize = 0;
    while i < part.len()
        invariant
            i <= part@.len(),
            at + part@.len() <= text@.len(),
            text@.len() == text.len(),
            forall|j: int| 0 <= j < i ==> text@[at + j] == part@[j],
        decreases part@.len() - i,
    {
        if text[at + i] != part[i] {
            assert(text@.subrange(at as int, at + part@.len())[i as int] != part@[i as int]);
            return false;
        }
        i = i + 1;
    }
    assert(text@.subrange(at as int, at + part@.len()) =~= part@);
    true
}

/// Whether the characters of `part` stand somewhere in `text`.
fn chars_contain(text: &Vec<char>, part: &Vec<char>) -> (found: bool)
    ensures
        found == occurs_in(text@, part@),
{
    if part.len() > text.len() {
        return false;
    }
    let last: usize = text.len() - part.len();
    let mut at: usize = 0;
    while at <= last
        invariant
            part@.len() <= text@.len(),
            last == text@.len() - part@.len(),
            at <= last + 1,
            forall|i: int| 0 <= i < at ==> !occurs_at(text@, part@, i),
        decreases last + 1 - at,
    {
        if chars_at(text, part, at) {
            return true;
        }
        if at == last {
            return false;
        }
        at = at + 1;
    }
    false
}

/// Whether `part` stands somewhere in `text`.
pub fn contains(text: &str, part: &str) -> (found: bool)
    ensures
        found == occurs_in(text@, part@),
{
    chars_contain(&chars_of(text), &chars_of(part))
}

/// Whether `part` stands somewhere in `text` once the ASCII capitals of
/// `text` are small letters.
pub fn contains_lowercase(text: &str, part: &str) -> (found: bool)
    ensures
        found == occurs_in(ascii_lowercase(text@), part@),
{
    let chars = chars_of(text);
    let mut lower: Vec<char> = Vec::new();
    let mut i: usize = 0;
    while i < chars.len()
        invariant
            i <= chars@.len(),
            lower@.len() == i,
            forall|j: int| 0 <= j < i ==> lower@[j] == ascii_lower(chars@[j]),
        decreases chars@.len() - i,
    {
        lower.push(lower_char(chars[i]));
        i = i + 1;
    }
    assert(lower@ =~= ascii_lowercase(text@));
    chars_contain(&lower, &chars_of(part))
}

/// `first` with `second` behind it.
pub fn joined_text(first: &str, second: &str) -> (text: String)
    ensures
        text@ == first@ + second@,
{
    let mut text: String = first.to_string();
    text.append(second);
    text
}

/// Whether two texts are the same.
pub fn equals(text: &str, other: &str) -> (same: bool)
    ensures
        same == (text@ == other@),
{
    let a = chars_of(text);
    let b = chars_of(other);
    if a.len() != b.len() {
        return false;
    }
    let same = chars_at(&a, &b, 0);
    assert(a@.subrange(0, a@.len() as int) =~= a@);
    same
}

/// Whether `text` begins with `part`.
pub fn starts_with(text: &str, part: &str) -> (found: bool)
    ensures
        found == part@.is_prefix_of(text@),
{
    let a = chars_of(text);
    let b = chars_of(part);
    if b.len() > a.len() {
        return false;
    }
    chars_at(&a, &b, 0)
}

/// Whether `text` ends with `part`.
pub fn ends_with(text: &str, part: &str) -> (found: bool)
    ensures
        found == part@.is_suffix_of(text@),
{
    let a = chars_of(text);
    let b = chars_of(part);
    if b.len() > a.len() {
        return false;
    }
    chars_at(&a, &b, a.len() - b.len())
}

/// Whether `c` has the Unicode property White_Space.
pub fn white_space(c: char) -> (white: bool)
    ensures
        white == is_white_space(c),
{
    let u: u32 = c as u32;
    (0x09 <= u && u <= 0x0d) || u == 0x20 || u == 0x85 || u == 0xa0 || u == 0x1680 || (0x2000 <= u
        && u <= 0x200a) || u == 0x2028 || u == 0x2029 || u == 0x202f || u == 0x205f || u == 0x3000
}

/// `text` without the white space around it.
pub fn trim(text: &str) -> (inner: &str)
    ensures
        inner@ == trimmed(text@),
{
    let chars = chars_of(text);
    let mut from: usize = 0;
    let mut to: usize = chars.len();
    assert(chars@.subrange(0, chars@.len() as int) =~= chars@);
    while from < to && white_space(chars[from])
        invariant
            from <= to == chars@.len(),
            trimmed(chars@.subrange(from as int, to as int)) == trimmed(chars@),
        decreases to - from,
    {
        assert(chars@.subrange(from as int, to as int).drop_first() =~= chars@.subrange(
            from + 1,
            to as int,
        ));
        from = from + 1;
    }
    while from < to && white_space(chars[to - 1])
        invariant
            from <= to <= chars@.len(),
            from < to ==> !is_white_space(chars@[from as int]),
            trimmed(chars@.subrange(from as int, to as int)) == trimmed(chars@),
        decreases to - from,
    {
        assert(chars@.subrange(from as int, to as int).drop_last() =~= chars@.subrange(
            from as int,
            to - 1,
        ));
        to = to - 1;
    }
    text.substring_char(from, to)
}

/// `text` without the `c`s at its end.
pub fn trim_end_matches(text: &str, c: char) -> (inner: &str)
    ensures
        inner@ == without_trailing(text@, c),
{
    let chars = chars_of(text);
    let mut to: usize = chars.len();
    assert(chars@.subrange(0, chars@.len() as int) =~= chars@);
    while to > 0 && chars[to - 1] == c
        invariant
            to <= chars@.len(),
            without_trailing(chars@.subrange(0, to as int), c) == without_trailing(chars@, c),
        decreases to,
    {
        assert(chars@.subrange(0, to as int).drop_last() =~= chars@.subrange(0, to - 1));
        to = to - 1;
    }
    text.substring_char(0, to)
}

/// The digit that stands for `value`, which is below sixteen.
pub open spec fn digit_char(value: int) -> char {
    if value < 10 {
        (48 + value) as char
    } else {
        (87 + value) as char
    }
}

/// The digit that stands for `value`.
pub fn digit(value: u8) -> (text: &'static str)
    requires
        value < 16,
    ensures
        text@ == seq![digit_char(value as int)],
{
    proof {
        reveal_strlit("0");
        reveal_strlit("1");
        reveal_strlit("2");
        reveal_strlit("3");
        reveal_strlit("4");
        reveal_strlit("5");
        reveal_strlit("6");
        reveal_strlit("7");
        reveal_strlit("8");
        reveal_strlit("9");
        reveal_strlit("a");
        reveal_strlit("b");
        reveal_strlit("c");
        reveal_strlit("d");
        reveal_strlit("e");
        reveal_strlit("f");
    }
    let text = match value {
        0 => "0",
        1 => "1",
        2 => "2",
        3 => "3",
        4 => "4",
        5 => "5",
        6 => "6",
        7 => "7",
        8 => "8",
        9 => "9",
        10 => "a",
        11 => "b",
        12 => "c",
        13 => "d",
        14 => "e",
        _ => "f",
    };
    assert(text@ =~= seq![digit_char(value as int)]);
    text
}

/// The decimal digits of `value`, without leading zeros.
pub open spec fn decimal(value: nat) -> Seq<char>
    decreases value,
{
    if value < 10 {
        seq![digit_char(value as int)]
    } else {
        decimal(value / 10).push(digit_char((value % 10) as int))
    }
}

/// Appends the decimal digits of `value`.
pub fn append_decimal(text: &mut String, value: u64)
    ensures
        final(text)@ == old(text)@ + decimal(value as nat),
    decreases value,
{
    if value >= 10 {
        append_decimal(text, value / 10);
    }
    text.append(digit((value % 10) as u8));
    assert(text@ =~= old(text)@ + decimal(value as nat));
}

/// The two digits of every byte, in base sixteen.
pub open spec fn hex(bytes: Seq<u8>) -> Seq<char> {
    Seq::new(
        bytes.len() * 2,
        |i: int|
            if i % 2 == 0 {
                digit_char(bytes[i / 2] as int / 16)
            } else {
                digit_char(bytes[i / 2] as int % 16)
            },
    )
}

/// The two digits of every byte, in base sixteen.
pub fn to_hex(bytes: &[u8]) -> (text: String)
    ensures
        text@ == hex(bytes@),
{
    let mut text: String = String::new();
    let mut i: usize = 0;
    while i < bytes.len()
        invariant
            i <= bytes@.len(),
            text@ == hex(bytes@.take(i as int)),
        decreases bytes@.len() - i,
    {
        let byte: u8 = bytes[i];
        text.append(digit(byte / 16));
        text.append(digit(byte % 16));
        assert(text@ =~= hex(bytes@.take(i + 1)));
        i = i + 1;
    }
    assert(bytes@.take(bytes@.len() as int) =~= bytes@);
    text
}

/// A part stands in a text exactly where the text is the part with something before and
/// something behind it.
pub proof fn law_part_is_found_wherever_it_stands(
    before: Seq<char>,
    part: Seq<char>,
    behind: Seq<char>,
    text: Seq<char>,
)
    ensures
        occurs_in(before + part + behind, part),
        occurs_in(text, part) ==> exists|at: int|
            0 <= at <= text.len() - part.len() && text == text.take(at) + part + #[trigger] text.skip(
                at + part.len(),
            ),
{
    let whole = before + part + behind;
    let start = before.len() as int;
    assert(whole.subrange(start, start + part.len()) =~= part);
    assert(occurs_at(whole, part, start));
    if occurs_in(text, part) {
        let at = choose|at: int| occurs_at(text, part, at);
        assert(text.subrange(at, at + part.len()) == part);
        assert(text =~= text.take(at) + text.subrange(at, at + part.len()) + text.skip(
            at + part.len(),
        ));
        assert(0 <= at <= text.len() - part.len() && text == text.take(at) + part + text.skip(
            at + part.len(),
        ));
    }
}

/// Of the characters only the capitals from A to Z change, each into the letter 32 places
/// behind it, and each stays in its place.
pub proof fn law_only_capitals_change(text: Seq<char>, i: int)
    requires
        0 <= i < text.len(),
    ensures
        ascii_lowercase(text).len() == text.len(),
        65 <= text[i] as u32 <= 90 ==> ascii_lowercase(text)[i] as u32 == text[i] as u32 + 32,
        !(65 <= text[i] as u32 <= 90) ==> ascii_lowercase(text)[i] == text[i],
{
}

/// Trimming takes white space off both ends and nothing else: what was around the text is
/// white space, and what is left neither begins nor ends with it.
pub proof fn law_trim_takes_white_space_off_the_ends(text: Seq<char>) -> (from: int)
    ensures
        ({
            let inner = trimmed(text);
            let to = from + inner.len();
            &&& 0 <= from <= to <= text.len()
            &&& inner == text.subrange(from, to)
            &&& forall|i: int| 0 <= i < from ==> is_white_space(#[trigger] text[i])
            &&& forall|i: int| to <= i < text.len() ==> is_white_space(#[trigger] text[i])
            &&& inner.len() > 0 ==> !is_white_space(inner[0]) && !is_white_space(
                inner[inner.len() - 1],
            )
        }),
    decreases text.len(),
{
    if text.len() == 0 {
        assert(text.subrange(0, 0) =~= text);
        0
    } else if is_white_space(text.first()) {
        let shorter = text.drop_first();
        let from = law_trim_takes_white_space_off_the_ends(shorter);
        let inner = trimmed(text);
        assert(shorter.subrange(from, from + inner.len()) =~= text.subrange(
            from + 1,
            from + 1 + inner.len(),
        ));
        assert forall|i: int| 0 <= i < from + 1 implies is_white_space(#[trigger] text[i]) by {
            if i > 0 {
                assert(shorter[i - 1] == text[i]);
            }
        }
        assert forall|i: int| from + 1 + inner.len() <= i < text.len() implies is_white_space(
            #[trigger] text[i],
        ) by {
            assert(shorter[i - 1] == text[i]);
        }
        from + 1
    } else if is_white_space(text.last()) {
        let shorter = text.drop_last();
        let from = law_trim_takes_white_space_off_the_ends(shorter);
        let inner = trimmed(text);
        assert(shorter.subrange(from, from + inner.len()) =~= text.subrange(
            from,
            from + inner.len(),
        ));
        assert forall|i: int| 0 <= i < from implies is_white_space(#[trigger] text[i]) by {
            assert(shorter[i] == text[i]);
        }
        assert forall|i: int| from + inner.len() <= i < text.len() implies is_white_space(
            #[trigger] text[i],
        ) by {
            if i < shorter.len() {
                assert(shorter[i] == text[i]);
            }
        }
        from
    } else {
        assert(text.subrange(0, text.len() as int) =~= text);
        0
    }
}

/// White space are the control characters from tab to carriage return, the next line, and
/// the spaces and separators of Unicode.
pub proof fn law_white_space_is_that_of_unicode(c: char)
    ensures
        is_white_space(c) <==> (c == '\u{9}' || c == '\u{a}' || c == '\u{b}' || c == '\u{c}' || c
            == '\u{d}' || c == ' ' || c == '\u{85}' || c == '\u{a0}' || c == '\u{1680}' || '\u{2000}'
            <= c <= '\u{200a}' || c == '\u{2028}' || c == '\u{2029}' || c == '\u{202f}' || c
            == '\u{205f}' || c == '\u{3000}'),
{
}

/// Only what is to go at the end goes: what is left does not end with it, and is the
/// beginning of the text.
pub proof fn law_only_the_end_is_taken_off(text: Seq<char>, c: char)
    ensures
        ({
            let kept = without_trailing(text, c);
            &&& kept.len() <= text.len()
            &&& kept == text.take(kept.len() as int)
            &&& kept.len() > 0 ==> kept[kept.len() - 1] != c
            &&& forall|i: int| kept.len() <= i < text.len() ==> #[trigger] text[i] == c
        }),
    decreases text.len(),
{
    if text.len() > 0 && text.last() == c {
        let shorter = text.drop_last();
        law_only_the_end_is_taken_off(shorter, c);
        let kept = without_trailing(text, c);
        assert(shorter.take(kept.len() as int) =~= text.take(kept.len() as int));
        assert forall|i: int| kept.len() <= i < text.len() implies #[trigger] text[i] == c by {
            if i < shorter.len() {
                assert(shorter[i] == text[i]);
            }
        }
    } else {
        assert(text.take(text.len() as int) =~= text);
    }
}

/// The sixteen digits.
pub proof fn law_digits(value: int)
    requires
        0 <= value < 16,
    ensures
        digit_char(value) == seq![
            '0',
            '1',
            '2',
            '3',
            '4',
            '5',
            '6',
            '7',
            '8',
            '9',
            'a',
            'b',
            'c',
            'd',
            'e',
            'f',
        ][value],
{
}

/// A number is written with the digits of its tens in front of the digit of its ones, and
/// without a zero in front.
pub proof fn law_decimal_digits(value: nat)
    ensures
        value < 10 ==> decimal(value) == seq![(48 + value) as char],
        value >= 10 ==> decimal(value) == decimal(value / 10) + seq![(48 + value % 10) as char],
        decimal(value).len() > 1 ==> decimal(value)[0] != '0',
        decimal(value).len() >= 1,
        value > 0 ==> decimal(value)[0] != '0',
    decreases value,
{
    if value >= 10 {
        law_decimal_digits(value / 10);
        assert(decimal(value) =~= decimal(value / 10) + seq![(48 + value % 10) as char]);
        assert(decimal(value)[0] == decimal(value / 10)[0]);
    }
}

/// Every byte is written with two digits of base sixteen, the higher one first.
pub proof fn law_bytes_take_two_digits(bytes: Seq<u8>, i: int, high: int, low: int)
    requires
        0 <= i < bytes.len(),
        0 <= high < 16,
        0 <= low < 16,
        bytes[i] == 16 * high + low,
    ensures
        hex(bytes).len() == 2 * bytes.len(),
        hex(bytes)[2 * i] == digit_char(high),
        hex(bytes)[2 * i + 1] == digit_char(low),
{
    assert((2 * i) / 2 == i && (2 * i + 1) / 2 == i);
    assert(bytes[i] as int / 16 == high && bytes[i] as int % 16 == low);
}

} // verus!
