//! Small text helpers: joining pieces and writing numbers in decimal.

use vstd::prelude::*;
use vstd::string::*;
use vstd::std_specs::iter::IteratorSpec;

verus! {

/// The text of a string that may be there.
pub open spec fn text_of(found: Option<String>) -> Option<Seq<char>> {
    match found {
        Some(text) => Some(text@),
        None => None,
    }
}

/// The text of a string slice that may be there.
pub open spec fn slice_text(found: Option<&str>) -> Option<Seq<char>> {
    match found {
        Some(text) => Some(text@),
        None => None,
    }
}

/// The character that writes the decimal digit `digit`.
pub open spec fn digit_char(digit: nat) -> char {
    if digit == 0 {
        '0'
    } else if digit == 1 {
        '1'
    } else if digit == 2 {
        '2'
    } else if digit == 3 {
        '3'
    } else if digit == 4 {
        '4'
    } else if digit == 5 {
        '5'
    } else if digit == 6 {
        '6'
    } else if digit == 7 {
        '7'
    } else if digit == 8 {
        '8'
    } else {
        '9'
    }
}

/// A number written in decimal, without sign or leading zeros.
pub open spec fn decimal_text(number: nat) -> Seq<char>
    decreases number,
{
    if number < 10 {
        seq![digit_char(number)]
    } else {
        decimal_text(number / 10).push(digit_char(number % 10))
    }
}

/// The one-character text of a decimal digit.
fn digit_str(digit: u64) -> (text: &'static str)
    requires
        digit < 10,
    ensures
        text@ == seq![digit_char(digit as nat)],
{
    proof {
        reveal_strlit("0");
        reveal_strlit("1");
        reveal_strlit("2");
        reveal_strlit("3");
        reveal_strlit("4");
        reveal_strlit("5");
        reveal_strlit("6");
        reveal_strlit("7");
        reveal_strlit("8");
        reveal_strlit("9");
    }
    let text = if digit == 0 {
        "0"
    } else if digit == 1 {
        "1"
    } else if digit == 2 {
        "2"
    } else if digit == 3 {
        "3"
    } else if digit == 4 {
        "4"
    } else if digit == 5 {
        "5"
    } else if digit == 6 {
        "6"
    } else if digit == 7 {
        "7"
    } else if digit == 8 {
        "8"
    } else {
        "9"
    };
    assert(text@ =~= seq![digit_char(digit as nat)]);
    text
}

/// Appends `number`, written in decimal, to `out`.
pub fn push_decimal(out: &mut String, number: u64)
    ensures
        final(out)@ == old(out)@ + decimal_text(number as nat),
    decreases number,
{
    if number >= 10 {
        push_decimal(out, number / 10);
    }
    out.append(digit_str(number % 10));
}

/// A number written in octal, without sign or leading zeros.
pub open spec fn octal_text(number: nat) -> Seq<char>
    decreases number,
{
    if number < 8 {
        seq![digit_char(number)]
    } else {
        octal_text(number / 8).push(digit_char(number % 8))
    }
}

/// Appends `number`, written in octal, to `out`.
pub fn push_octal(out: &mut String, number: u64)
    ensures
        final(out)@ == old(out)@ + octal_text(number as nat),
    decreases number,
{
    if number >= 8 {
        push_octal(out, number / 8);
    }
    out.append(digit_str(number % 8));
}

/// `number` written in decimal.
pub fn decimal(number: u64) -> (text: String)
    ensures
        text@ == decimal_text(number as nat),
{
    let mut text = String::new();
    push_decimal(&mut text, number);
    text
}

/// Two texts, one after the other.
pub fn concat2(first: &str, second: &str) -> (joined: String)
    ensures
        joined@ == first@ + second@,
{
    let mut joined = String::from_str(first);
    joined.append(second);
    joined
}

/// Three texts, one after the other.
pub fn concat3(first: &str, second: &str, third: &str) -> (joined: String)
    ensures
        joined@ == first@ + second@ + third@,
{
    let mut joined = String::from_str(first);
    joined.append(second);
    joined.append(third);
    joined
}

/// Whether two texts are the same, character by character.
pub fn same_text(first: &str, second: &str) -> (same: bool)
    ensures
        same == (first@ == second@),
{
    let left = String::from_str(first);
    let right = String::from_str(second);
    left == right
}

/// A file's path below a directory: the directory, a `/` unless the
/// directory is empty or ends in one, and the file's name.
pub open spec fn joined_path(directory: Seq<char>, name: Seq<char>) -> Seq<char> {
    if directory.len() == 0 {
        name
    } else if directory.last() == '/' {
        directory + name
    } else {
        directory + seq!['/'] + name
    }
}

/// The path of the file `name` in `directory`.
pub fn join_path(directory: &str, name: &str) -> (path: String)
    ensures
        path@ == joined_path(directory@, name@),
{
    let length = directory.unicode_len();
    if length == 0 {
        String::from_str(name)
    } else if directory.get_char(length - 1) == '/' {
        concat2(directory, name)
    } else {
        proof {
            reveal_strlit("/");
            assert("/"@ =~= seq!['/']);
        }
        concat3(directory, "/", name)
    }
}

/// The characters of a text.
pub fn chars_of(text: &str) -> (chars: Vec<char>)
    ensures
        chars@ == text@,
{
    let mut chars: Vec<char> = Vec::new();
    for c in it: text.chars()
        invariant
            it.seq() == text@,
            chars@ == it.seq().take(it.index() as int),
    {
        chars.push(c);
    }
    chars
}

/// Whether a character is white space, as Unicode has it.
pub open spec fn is_space(c: char) -> bool {
    let code = c as u32;
    (0x09 <= code <= 0x0D) || code == 0x20 || code == 0x85 || code == 0xA0 || code == 0x1680
        || (0x2000 <= code <= 0x200A) || code == 0x2028 || code == 0x2029 || code == 0x202F
        || code == 0x205F || code == 0x3000
}

/// Whether a character is white space.
pub fn is_whitespace(c: char) -> (space: bool)
    ensures
        space == is_space(c),
{
    let code = c as u32;
    (0x09 <= code && code <= 0x0D) || code == 0x20 || code == 0x85 || code == 0xA0 || code
        == 0x1680 || (0x2000 <= code && code <= 0x200A) || code == 0x2028 || code == 0x2029
        || code == 0x202F || code == 0x205F || code == 0x3000
}

/// Where `mark` first stands in `text` at or after `from`; the length of
/// `text` where it does not.
pub open spec fn find_from(text: Seq<char>, mark: char, from: int) -> int
    decreases text.len() - from,
{
    if from < 0 || from >= text.len() {
        text.len() as int
    } else if text[from] == mark {
        from
    } else {
        find_from(text, mark, from + 1)
    }
}

/// What stands before the first `mark`: all of `text` where there is none.
pub open spec fn before_first(text: Seq<char>, mark: char) -> Seq<char> {
    text.subrange(0, find_from(text, mark, 0))
}

/// What stands after the first `mark`; `None` where there is none.
pub open spec fn after_first(text: Seq<char>, mark: char) -> Option<Seq<char>> {
    if find_from(text, mark, 0) < text.len() {
        Some(text.subrange(find_from(text, mark, 0) + 1, text.len() as int))
    } else {
        None
    }
}

/// Where the first character that is no white space stands at or after
/// `from`; the length of `text` where there is none.
pub open spec fn text_start(text: Seq<char>, from: int) -> int
    decreases text.len() - from,
{
    if from < 0 || from >= text.len() {
        text.len() as int
    } else if is_space(text[from]) {
        text_start(text, from + 1)
    } else {
        from
    }
}

/// Where the text between `floor` and `to` ends once the white space at its
/// end is left off.
pub open spec fn text_end(text: Seq<char>, floor: int, to: int) -> int
    decreases to - floor,
{
    if to <= floor || to > text.len() || floor < 0 {
        floor
    } else if is_space(text[to - 1]) {
        text_end(text, floor, to - 1)
    } else {
        to
    }
}

/// A text without the white space at its start and at its end.
pub open spec fn trimmed(text: Seq<char>) -> Seq<char> {
    text.subrange(text_start(text, 0), text_end(text, text_start(text, 0), text.len() as int))
}

/// What `find_from` finds lies between `from` and the end of the text.
pub proof fn lemma_find_from_bounds(text: Seq<char>, mark: char, from: int)
    requires
        0 <= from <= text.len(),
    ensures
        from <= find_from(text, mark, from) <= text.len(),
    decreases text.len() - from,
{
    if from < text.len() && text[from] != mark {
        lemma_find_from_bounds(text, mark, from + 1);
    }
}

/// Splits a text at the first `mark`: what stands before it, and what stands
/// after it, if the mark is there.
pub fn split_first<'a>(text: &'a str, mark: char) -> (parts: (&'a str, Option<&'a str>))
    ensures
        parts.0@ == before_first(text@, mark),
        slice_text(parts.1) == after_first(text@, mark),
{
    let chars = chars_of(text);
    let length = chars.len();
    let mut at: usize = 0;
    while at < length && chars[at] != mark
        invariant
            at <= length,
            length == chars.len(),
            find_from(chars@, mark, 0) == find_from(chars@, mark, at as int),
        decreases length - at,
    {
        at += 1;
    }
    let before = text.substring_char(0, at);
    if at < length {
        (before, Some(text.substring_char(at + 1, length)))
    } else {
        (before, None)
    }
}

/// A text without the white space at its start and at its end.
pub fn trim<'a>(text: &'a str) -> (kept: &'a str)
    ensures
        kept@ == trimmed(text@),
{
    let chars = chars_of(text);
    let length = chars.len();
    let mut start: usize = 0;
    while start < length && is_whitespace(chars[start])
        invariant
            start <= length,
            length == chars.len(),
            text_start(chars@, 0) == text_start(chars@, start as int),
        decreases length - start,
    {
        start += 1;
    }
    let mut end: usize = length;
    while end > start && is_whitespace(chars[end - 1])
        invariant
            start <= end <= length,
            length == chars.len(),
            text_end(chars@, start as int, length as int) == text_end(
                chars@,
                start as int,
                end as int,
            ),
        decreases end - start,
    {
        end -= 1;
    }
    text.substring_char(start, end)
}

} // verus!
