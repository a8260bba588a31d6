//! Texts as sequences of characters: words and the white space between
//! them, and numbers in decimal.

use vstd::prelude::*;

verus! {

/// `String::push`: the character is appended.
pub assume_specification[ String::push ](text: &mut String, c: char)
    ensures
        final(text)@ == old(text)@.push(c),
;

/// Whether `c` is white space: a space, a tab, a line feed, a form feed or a
/// carriage return.
pub open spec fn is_space(c: char) -> bool {
    c == ' ' || c == '\t' || c == '\n' || c == '\x0C' || c == '\r'
}

/// Whether `c` is white space.
pub fn is_white(c: char) -> (white: bool)
    ensures
        white == is_space(c),
{
    c == ' ' || c == '\t' || c == '\n' || c == '\x0C' || c == '\r'
}

/// Whether no character of `text` is white space.
pub open spec fn is_word(text: Seq<char>) -> bool {
    forall|i: int| 0 <= i < text.len() ==> !is_space(#[trigger] text[i])
}

/// Where the word that starts at `from` ends: at the first white space from
/// there on, or where the text ends.
pub open spec fn word_end(text: Seq<char>, from: int) -> int
    decreases text.len() - from,
{
    if from < 0 || from >= text.len() {
        from
    } else if is_space(text[from]) {
        from
    } else {
        word_end(text, from + 1)
    }
}

/// Where the white space that starts at `from` ends: at the first character
/// from there on that is none, or where the text ends.
pub open spec fn run_end(text: Seq<char>, from: int) -> int
    decreases text.len() - from,
{
    if from < 0 || from >= text.len() {
        from
    } else if !is_space(text[from]) {
        from
    } else {
        run_end(text, from + 1)
    }
}

/// A position is where the word from `from` ends exactly if no white space
/// lies before it and white space or the end of the text lies at it.
pub proof fn lemma_word_end(text: Seq<char>, from: int, end: int)
    requires
        0 <= from <= end <= text.len(),
        forall|i: int| from <= i < end ==> !is_space(#[trigger] text[i]),
        end < text.len() ==> is_space(text[end]),
    ensures
        word_end(text, from) == end,
    decreases end - from,
{
    if from < end {
        lemma_word_end(text, from + 1, end);
    }
}

/// The word from `from` ends within the text, on white space or on the end
/// of the text, and holds no white space.
pub proof fn lemma_word_end_found(text: Seq<char>, from: int)
    requires
        0 <= from <= text.len(),
    ensures
        from <= word_end(text, from) <= text.len(),
        forall|i: int| from <= i < word_end(text, from) ==> !is_space(#[trigger] text[i]),
        word_end(text, from) < text.len() ==> is_space(text[word_end(text, from)]),
    decreases text.len() - from,
{
    if from < text.len() && !is_space(text[from]) {
        lemma_word_end_found(text, from + 1);
    }
}

/// A position is where the white space from `from` ends exactly if only
/// white space lies before it and none lies at it.
pub proof fn lemma_run_end(text: Seq<char>, from: int, end: int)
    requires
        0 <= from <= end <= text.len(),
        forall|i: int| from <= i < end ==> is_space(#[trigger] text[i]),
        end < text.len() ==> !is_space(text[end]),
    ensures
        run_end(text, from) == end,
    decreases end - from,
{
    if from < end {
        lemma_run_end(text, from + 1, end);
    }
}

/// The white space from `from` ends within the text, before a character
/// that is none or on the end of the text.
pub proof fn lemma_run_end_found(text: Seq<char>, from: int)
    requires
        0 <= from <= text.len(),
    ensures
        from <= run_end(text, from) <= text.len(),
        forall|i: int| from <= i < run_end(text, from) ==> is_space(#[trigger] text[i]),
        run_end(text, from) < text.len() ==> !is_space(text[run_end(text, from)]),
    decreases text.len() - from,
{
    if from < text.len() && is_space(text[from]) {
        lemma_run_end_found(text, from + 1);
    }
}

/// A text cut at its first run of white space: the word before the run, and
/// what follows the run, where there is a run.
pub open spec fn split(text: Seq<char>) -> (Seq<char>, Option<Seq<char>>) {
    let end = word_end(text, 0);
    if end >= text.len() {
        (text, None)
    } else {
        (text.take(end), Some(text.skip(run_end(text, end))))
    }
}

/// The characters of a text.
pub fn chars_of(text: &str) -> (chars: Vec<char>)
    ensures
        chars@ == text@,
{
    let mut chars: Vec<char> = Vec::new();
    for c in it: text.chars()
        invariant
            chars@ == it.seq().take(it.index() as int),
    {
        chars.push(c);
    }
    chars
}

/// The text made of the characters of `chars` from `from` up to `to`.
pub(crate) fn text_of(chars: &Vec<char>, from: usize, to: usize) -> (text: String)
    requires
        from <= to <= chars.len(),
    ensures
        text@ == chars@.subrange(from as int, to as int),
{
    let mut text = String::new();
    let mut i: usize = from;
    while i < to
        invariant
            from <= i <= to <= chars.len(),
            text@ == chars@.subrange(from as int, i as int),
        decreases to - i,
    {
        text.push(chars[i]);
        i += 1;
    }
    text
}

/// Whether two texts hold the same characters.
pub fn same_text(a: &str, b: &str) -> (same: bool)
    ensures
        same == (a@ == b@),
{
    a.to_owned() == b.to_owned()
}

/// Cuts a text at its first run of white space.
pub fn split_at_space(text: &str) -> (parts: (String, Option<String>))
    ensures
        (parts.0@, parts.1.deep_view()) == split(text@),
{
    let chars = chars_of(text);
    let mut end: usize = 0;
    while end < chars.len() && !is_white(chars[end])
        invariant
            end <= chars.len(),
            forall|i: int| 0 <= i < end ==> !is_space(#[trigger] chars@[i]),
        decreases chars.len() - end,
    {
        end += 1;
    }
    proof {
        lemma_word_end(chars@, 0, end as int);
    }
    if end >= chars.len() {
        let head = text_of(&chars, 0, end);
        assert(head@ =~= text@);
        return (head, None);
    }
    let mut next: usize = end;
    while next < chars.len() && is_white(chars[next])
        invariant
            end <= next <= chars.len(),
            forall|i: int| end <= i < next ==> is_space(#[trigger] chars@[i]),
        decreases chars.len() - next,
    {
        next += 1;
    }
    proof {
        lemma_run_end(chars@, end as int, next as int);
    }
    let head = text_of(&chars, 0, end);
    let tail = text_of(&chars, next, chars.len());
    (head, Some(tail))
}

/// Whether `c` is a decimal digit.
pub open spec fn is_digit(c: char) -> bool {
    '0' <= c && c <= '9'
}

/// Whether every character of `text` is a decimal digit.
pub open spec fn all_digits(text: Seq<char>) -> bool {
    forall|i: int| 0 <= i < text.len() ==> is_digit(#[trigger] text[i])
}

/// The number a decimal digit stands for.
pub open spec fn digit_value(c: char) -> nat {
    (c as u32 - '0' as u32) as nat
}

/// The digit that stands for a number below ten.
pub open spec fn digit_of(n: nat) -> char {
    ((n + '0' as u32) as u8) as char
}

/// The number that a text of decimal digits stands for.
pub open spec fn decimal_value(digits: Seq<char>) -> nat
    decreases digits.len(),
{
    if digits.len() == 0 {
        0
    } else {
        decimal_value(digits.drop_last()) * 10 + digit_value(digits.last())
    }
}

/// The number that a text stands for as an unsigned integer of 64 bits: the
/// text is a plus sign or none, then at least one decimal digit and nothing
/// else, and the number fits.
pub open spec fn decimal_u64(text: Seq<char>) -> Option<u64> {
    let digits = if text.len() > 0 && text[0] == '+' {
        text.skip(1)
    } else {
        text
    };
    if digits.len() > 0 && all_digits(digits) && decimal_value(digits) <= u64::MAX {
        Some(decimal_value(digits) as u64)
    } else {
        None
    }
}

/// A number in decimal, without sign and without leading zero.
pub open spec fn decimal_digits(n: nat) -> Seq<char>
    decreases n,
{
    if n < 10 {
        seq![digit_of(n)]
    } else {
        decimal_digits(n / 10).push(digit_of(n % 10))
    }
}

/// A text of digits stands for no less than any of its beginnings.
pub proof fn lemma_decimal_value_grows(digits: Seq<char>, len: int)
    requires
        0 <= len <= digits.len(),
    ensures
        decimal_value(digits.take(len)) <= decimal_value(digits),
    decreases digits.len() - len,
{
    if len == digits.len() {
        assert(digits.take(len) =~= digits);
    } else {
        lemma_decimal_value_grows(digits, len + 1);
        assert(digits.take(len + 1).drop_last() =~= digits.take(len));
    }
}

/// A number written in decimal is a word of digits that stands for the
/// number.
pub proof fn lemma_decimal_digits(n: nat)
    ensures
        decimal_digits(n).len() > 0,
        all_digits(decimal_digits(n)),
        is_word(decimal_digits(n)),
        decimal_value(decimal_digits(n)) == n,
        decimal_digits(n)[0] != '+',
    decreases n,
{
    if n < 10 {
        let digits = decimal_digits(n);
        assert(digits.drop_last() =~= Seq::<char>::empty());
        assert(decimal_value(digits.drop_last()) == 0);
    } else {
        lemma_decimal_digits(n / 10);
        let digits = decimal_digits(n);
        assert(digits.drop_last() =~= decimal_digits(n / 10));
        assert(digits[0] == decimal_digits(n / 10)[0]);
    }
}

/// Reading back a number written in decimal gives the number.
pub proof fn lemma_decimal_round_trip(n: u64)
    ensures
        decimal_u64(decimal_digits(n as nat)) == Some(n),
{
    lemma_decimal_digits(n as nat);
}

/// Reads a text as an unsigned integer of 64 bits in decimal.
pub fn parse_u64(text: &str) -> (number: Option<u64>)
    ensures
        number == decimal_u64(text@),
{
    let chars = chars_of(text);
    let start: usize = if chars.len() > 0 && chars[0] == '+' {
        1
    } else {
        0
    };
    let ghost digits = chars@.skip(start as int);
    proof {
        assert(chars@.skip(0) =~= chars@);
    }
    if start >= chars.len() {
        return None;
    }
    let mut value: u64 = 0;
    let mut i: usize = start;
    while i < chars.len()
        invariant
            start <= i <= chars.len(),
            start < chars.len(),
            chars@ == text@,
            digits == chars@.skip(start as int),
            digits == if text@.len() > 0 && text@[0] == '+' {
                text@.skip(1)
            } else {
                text@
            },
            all_digits(digits.take(i - start)),
            value == decimal_value(digits.take(i - start)),
        decreases chars.len() - i,
    {
        let c = chars[i];
        if !(c >= '0' && c <= '9') {
            assert(!is_digit(digits[i - start]));
            return None;
        }
        let digit: u64 = (c as u32 - '0' as u32) as u64;
        proof {
            let longer = digits.take(i - start + 1);
            assert(longer.drop_last() =~= digits.take(i - start));
            assert(longer.last() == c);
            assert(decimal_value(longer) == value * 10 + digit);
            lemma_decimal_value_grows(digits, i - start + 1);
            assert forall|k: int| 0 <= k < longer.len() implies is_digit(#[trigger] longer[k]) by {
                if k < i - start {
                    assert(longer[k] == digits.take(i - start)[k]);
                }
            }
        }
        let shifted = match value.checked_mul(10) {
            Some(shifted) => shifted,
            None => {
                return None;
            },
        };
        value = match shifted.checked_add(digit) {
            Some(sum) => sum,
            None => {
                return None;
            },
        };
        i += 1;
    }
    assert(digits.take(i - start) =~= digits);
    Some(value)
}

} // verus!
