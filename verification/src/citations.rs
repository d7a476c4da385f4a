//! The citation count of a result, read from the text of its footer.

use crate::pattern::{captures, regex_captures};
use crate::text::chars_of;
use vstd::prelude::*;

verus! {

/// Whether a character is one of the digits `0` to `9`.
pub open spec fn is_digit(c: char) -> bool {
    '0' <= c <= '9'
}

/// The value of a digit.
pub open spec fn digit_value(c: char) -> nat {
    if is_digit(c) {
        (c as u32 - 0x30) as nat
    } else {
        0
    }
}

/// The number that a sequence of digits denotes in decimal.
pub open spec fn number_value(digits: Seq<char>) -> nat
    decreases digits.len(),
{
    if digits.len() == 0 {
        0
    } else {
        10 * number_value(digits.drop_last()) + digit_value(digits.last())
    }
}

/// Whether a text is a number: one digit or more, and nothing else.
pub open spec fn is_number(text: Seq<char>) -> bool {
    text.len() > 0 && forall|i: int| 0 <= i < text.len() ==> is_digit(#[trigger] text[i])
}

/// The number that a text denotes, where it is a number that fits in 64 bits.
pub open spec fn parsed_number(text: Seq<char>) -> Option<u64> {
    if is_number(text) && number_value(text) <= u64::MAX {
        Some(number_value(text) as u64)
    } else {
        None
    }
}

proof fn lemma_number_value_grows(digits: Seq<char>, n: int)
    requires
        0 <= n <= digits.len(),
    ensures
        number_value(digits.take(n)) <= number_value(digits),
    decreases digits.len() - n,
{
    if n < digits.len() {
        lemma_number_value_grows(digits, n + 1);
        assert(digits.take(n + 1).drop_last() == digits.take(n));
    } else {
        assert(digits.take(n) == digits);
    }
}

/// Reads a number in decimal. A text that holds anything but digits, or no
/// digit, or a number too large for 64 bits, gives `None`.
pub fn parse_number(text: &str) -> (number: Option<u64>)
    ensures
        number == parsed_number(text@),
{
    let digits = chars_of(text);
    if digits.len() == 0 {
        return None;
    }
    let mut value: u64 = 0;
    let mut i: usize = 0;
    while i < digits.len()
        invariant
            i <= digits.len(),
            digits@ == text@,
            forall|j: int| 0 <= j < i ==> is_digit(#[trigger] digits@[j]),
            value == number_value(digits@.take(i as int)),
        decreases digits.len() - i,
    {
        let c = digits[i];
        if c < '0' || c > '9' {
            return None;
        }
        let digit: u64 = (c as u32 - 0x30) as u64;
        proof {
            assert(digits@.take(i + 1).drop_last() == digits@.take(i as int));
            lemma_number_value_grows(digits@, i + 1);
        }
        if value > (u64::MAX - digit) / 10 {
            return None;
        }
        value = value * 10 + digit;
        i += 1;
    }
    proof {
        assert(digits@.take(i as int) == digits@);
    }
    Some(value)
}

/// The regular expression for a citation count: digits followed by a
/// no-break space. Group 1 holds the digits.
pub open spec fn citation_pattern() -> Seq<char> {
    r"(?<citations>\d+)\u{00A0}"@
}

/// The regular expression for a citation count.
pub fn get_citation_pattern() -> (pattern: &'static str)
    ensures
        pattern@ == citation_pattern(),
{
    r"(?<citations>\d+)\u{00A0}"
}

/// The number of groups of the citation pattern, the whole match included.
pub const CITATION_GROUPS: usize = 2;

/// The index of the group that holds the digits.
pub const COUNT_GROUP: usize = 1;

/// The citation count, given what the citation pattern captured in the
/// footer: the number that its digits denote, and `None` where the pattern
/// did not match or the digits are no number that fits in 64 bits.
pub open spec fn citations_of(groups: Option<Seq<Option<Seq<char>>>>) -> Option<u64> {
    match groups {
        Some(g) => if g.len() == CITATION_GROUPS && g[COUNT_GROUP as int] is Some {
            parsed_number(g[COUNT_GROUP as int]->0)
        } else {
            None
        },
        None => None,
    }
}

/// Reads the citation count from what the citation pattern captured.
pub fn citations_from(groups: &Option<Vec<Option<String>>>) -> (count: Option<u64>)
    ensures
        count == citations_of(groups.deep_view()),
{
    match groups {
        Some(found) => {
            if found.len() != CITATION_GROUPS {
                return None;
            }
            match &found[COUNT_GROUP] {
                Some(digits) => parse_number(digits.as_str()),
                None => None,
            }
        },
        None => None,
    }
}

/// Reads the citation count from the text of a footer.
pub fn citation_count(actions: &str) -> (count: Option<u64>)
    ensures
        count == citations_of(regex_captures(citation_pattern(), actions@)),
{
    let groups = captures(get_citation_pattern(), actions);
    citations_from(&groups)
}

} // verus!
