//! Text helpers: comparison, building and padding of strings.

use vstd::prelude::*;

verus! {


/// The position of the first line feed at or after `from`, else the text's length.
pub open spec fn first_line_feed(text: Seq<char>, from: int) -> int
    decreases text.len() - from,
{
    if from < 0 || from >= text.len() {
        text.len() as int
    } else if text[from] == '\n' {
        from
    } else {
        first_line_feed(text, from + 1)
    }
}

/// A line without a carriage return at its end.
pub open spec fn without_carriage_return(line: Seq<char>) -> Seq<char> {
    if line.len() > 0 && line.last() == '\r' {
        line.drop_last()
    } else {
        line
    }
}

/// The lines of a text from position `start` on, as `str::lines` gives them: split at each
/// line feed, without the line feed and a carriage return just before it, and with no empty
/// line after a final line feed.
pub open spec fn lines_from(text: Seq<char>, start: int) -> Seq<Seq<char>>
    decreases text.len() - start,
{
    if start < 0 || start >= text.len() {
        Seq::empty()
    } else {
        let end = first_line_feed(text, start);
        if end < start || end >= text.len() {
            seq![text.subrange(start, text.len() as int)]
        } else {
            seq![without_carriage_return(text.subrange(start, end))] + lines_from(text, end + 1)
        }
    }
}

/// The lines that `str::lines` gives of a text.
#[verifier::opaque]
pub open spec fn std_lines(text: Seq<char>) -> Seq<Seq<char>> {
    lines_from(text, 0)
}

/// Splits a text into lines with `str::lines`: at each `\n`, without the line ending (and
/// a `\r` before it), and without a last empty line after a final line ending.
#[verifier::external_body]
pub(crate) fn text_lines(text: &str) -> (result: Vec<String>)
    ensures
        result@.len() == std_lines(text@).len(),
        forall|index: int| 0 <= index < result@.len() ==> (#[trigger] result@[index])@ == std_lines(text@)[index],
{
    text.lines().map(|line| line.to_owned()).collect()
}

/// Compares two texts with `<str as PartialEq>::eq`, which holds exactly when they have
/// the same characters.
#[verifier::external_body]
pub(crate) fn text_equals(left: &str, right: &str) -> (result: bool)
    ensures
        result == (left@ == right@),
{
    left == right
}

/// Appends one character with `String::push`.
#[verifier::external_body]
pub(crate) fn push_char(text: &mut String, character: char)
    ensures
        final(text)@ == old(text)@.push(character),
{
    text.push(character)
}

/// Whether a character has the Unicode `White_Space` property, as `char::is_whitespace`
/// decides: tab, line feed, vertical tab, form feed, carriage return, space, next line,
/// no-break space, ogham space mark, the spaces from en quad to hair space, line and
/// paragraph separators, narrow no-break space, medium mathematical space and ideographic
/// space.
pub open spec fn is_white_space(character: char) -> bool {
    let code = character as u32;
    ||| 0x9 <= code <= 0xD
    ||| code == 0x20
    ||| code == 0x85
    ||| code == 0xA0
    ||| code == 0x1680
    ||| 0x2000 <= code <= 0x200A
    ||| code == 0x2028
    ||| code == 0x2029
    ||| code == 0x202F
    ||| code == 0x205F
    ||| code == 0x3000
}

/// A text without its leading white space.
pub open spec fn trimmed_start(text: Seq<char>) -> Seq<char>
    decreases text.len(),
{
    if text.len() > 0 && is_white_space(text[0]) {
        trimmed_start(text.drop_first())
    } else {
        text
    }
}

/// A text without its trailing white space.
pub open spec fn trimmed_end(text: Seq<char>) -> Seq<char>
    decreases text.len(),
{
    if text.len() > 0 && is_white_space(text.last()) {
        trimmed_end(text.drop_last())
    } else {
        text
    }
}

/// A text without leading and trailing white space, as `str::trim` leaves it.
pub open spec fn trimmed(text: Seq<char>) -> Seq<char> {
    trimmed_end(trimmed_start(text))
}

/// Whether a character has the Unicode `White_Space` property.
pub fn white_space(character: char) -> (result: bool)
    ensures
        result == is_white_space(character),
{
    let code = character as u32;
    (0x9 <= code && code <= 0xD) || code == 0x20 || code == 0x85 || code == 0xA0 || code == 0x1680 || (0x2000
        <= code && code <= 0x200A) || code == 0x2028 || code == 0x2029 || code == 0x202F || code == 0x205F || code
        == 0x3000
}

/// Trims leading and trailing white space, as `str::trim` does.
pub fn trim_text(text: &str) -> (result: String)
    ensures
        result@ == trimmed(text@),
{
    let length = text.unicode_len();
    let mut start: usize = 0;
    proof {
        assert(text@.subrange(0, length as int) =~= text@);
    }
    while start < length && white_space(text.get_char(start))
        invariant
            length == text@.len(),
            start <= length,
            trimmed_start(text@) == trimmed_start(text@.subrange(start as int, length as int)),
        decreases length - start,
    {
        proof {
            let rest = text@.subrange(start as int, length as int);
            assert(rest.drop_first() =~= text@.subrange(start + 1, length as int));
            assert(rest[0] == text@[start as int]);
        }
        start = start + 1;
    }
    let ghost kept = text@.subrange(start as int, length as int);
    let mut end: usize = length;
    while end > start && white_space(text.get_char(end - 1))
        invariant
            length == text@.len(),
            start <= end <= length,
            kept == text@.subrange(start as int, length as int),
            trimmed_end(kept) == trimmed_end(text@.subrange(start as int, end as int)),
        decreases end - start,
    {
        proof {
            let rest = text@.subrange(start as int, end as int);
            assert(rest.drop_last() =~= text@.subrange(start as int, end - 1));
            assert(rest.last() == text@[end - 1]);
        }
        end = end - 1;
    }
    proof {
        let rest = text@.subrange(start as int, length as int);
        if start < length {
            assert(rest[0] == text@[start as int]);
        }
        assert(trimmed_start(rest) == rest);
        let middle = text@.subrange(start as int, end as int);
        if end > start {
            assert(middle.last() == text@[end - 1]);
        }
        assert(trimmed_end(middle) == middle);
    }
    String::from_str(text.substring_char(start, end))
}

/// Copies a text into a new `String`.
pub fn owned(text: &str) -> (result: String)
    ensures
        result@ == text@,
{
    String::from_str(text)
}

/// Joins two texts.
pub fn joined(left: &str, right: &str) -> (result: String)
    ensures
        result@ == left@ + right@,
{
    let mut result = String::from_str(left);
    result.append(right);
    result
}

/// A run of `count` copies of a character.
pub open spec fn repeated(character: char, count: nat) -> Seq<char>
    decreases count,
{
    if count == 0 {
        Seq::empty()
    } else {
        repeated(character, (count - 1) as nat).push(character)
    }
}

/// A text padded with spaces on the right to at least `width` characters, as the `{:<w}`
/// format writes it.
pub open spec fn padded_right(text: Seq<char>, width: nat) -> Seq<char> {
    if text.len() >= width {
        text
    } else {
        text + repeated(' ', (width - text.len()) as nat)
    }
}

/// A text padded with spaces on the left to at least `width` characters, as the `{:>w}`
/// format writes it.
pub open spec fn padded_left(text: Seq<char>, width: nat) -> Seq<char> {
    if text.len() >= width {
        text
    } else {
        repeated(' ', (width - text.len()) as nat) + text
    }
}

/// Number of characters of a text.
pub fn character_count(text: &str) -> (result: usize)
    ensures
        result as nat == text@.len(),
{
    text.unicode_len()
}

/// A run of spaces.
pub fn spaces(count: usize) -> (result: String)
    ensures
        result@ == repeated(' ', count as nat),
{
    let mut result = String::new();
    let mut index: usize = 0;
    while index < count
        invariant
            index <= count,
            result@ == repeated(' ', index as nat),
        decreases count - index,
    {
        push_char(&mut result, ' ');
        index = index + 1;
    }
    result
}

/// Pads a text with spaces on the right to at least `width` characters.
pub fn pad_right(text: &str, width: usize) -> (result: String)
    ensures
        result@ == padded_right(text@, width as nat),
{
    let length = character_count(text);
    if length >= width {
        owned(text)
    } else {
        let padding = spaces(width - length);
        joined(text, padding.as_str())
    }
}

/// Pads a text with spaces on the left to at least `width` characters.
pub fn pad_left(text: &str, width: usize) -> (result: String)
    ensures
        result@ == padded_left(text@, width as nat),
{
    let length = character_count(text);
    if length >= width {
        owned(text)
    } else {
        let padding = spaces(width - length);
        joined(padding.as_str(), text)
    }
}

/// The decimal digits of a number, as the `Display` of an unsigned integer writes them.
pub open spec fn decimal_digits(value: nat) -> Seq<char>
    decreases value,
{
    if value < 10 {
        seq![digit_char(value)]
    } else {
        decimal_digits(value / 10).push(digit_char(value % 10))
    }
}

/// The character of a decimal digit.
pub open spec fn digit_char(digit: nat) -> char {
    if digit == 0 {
        '0'
    } else if digit == 1 {
        '1'
    } else if digit == 2 {
        '2'
    } else if digit == 3 {
        '3'
    } else if digit == 4 {
        '4'
    } else if digit == 5 {
        '5'
    } else if digit == 6 {
        '6'
    } else if digit == 7 {
        '7'
    } else if digit == 8 {
        '8'
    } else {
        '9'
    }
}

pub(crate) fn digit_character(digit: usize) -> (result: char)
    requires
        digit < 10,
    ensures
        result == digit_char(digit as nat),
{
    if digit == 0 {
        '0'
    } else if digit == 1 {
        '1'
    } else if digit == 2 {
        '2'
    } else if digit == 3 {
        '3'
    } else if digit == 4 {
        '4'
    } else if digit == 5 {
        '5'
    } else if digit == 6 {
        '6'
    } else if digit == 7 {
        '7'
    } else if digit == 8 {
        '8'
    } else {
        '9'
    }
}

/// Writes a count in decimal, as `usize`'s `Display` does.
pub fn number_text(value: usize) -> (result: String)
    ensures
        result@ == decimal_digits(value as nat),
    decreases value,
{
    if value < 10 {
        let mut result = String::new();
        push_char(&mut result, digit_character(value));
        proof {
            assert(result@ =~= seq![digit_char(value as nat)]);
        }
        result
    } else {
        let mut result = number_text(value / 10);
        push_char(&mut result, digit_character(value % 10));
        result
    }
}

/// Whether a text begins with a prefix.
pub fn text_starts_with(text: &str, prefix: &str) -> (result: bool)
    ensures
        result == prefix@.is_prefix_of(text@),
{
    let text_length = text.unicode_len();
    let prefix_length = prefix.unicode_len();
    if prefix_length > text_length {
        return false;
    }
    let mut index: usize = 0;
    while index < prefix_length
        invariant
            prefix_length == prefix@.len(),
            text_length == text@.len(),
            prefix_length <= text_length,
            index <= prefix_length,
            forall|position: int| 0 <= position < index ==> prefix@[position] == text@[position],
        decreases prefix_length - index,
    {
        if prefix.get_char(index) != text.get_char(index) {
            return false;
        }
        index = index + 1;
    }
    assert(prefix@ =~= text@.subrange(0, prefix@.len() as int));
    true
}

} // verus!
