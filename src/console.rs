//! What the console helpers show and how they read the answers they get.
//!
//! Reading from standard input and writing to standard output is left to the
//! caller; these functions build the prompts and interpret the replies.

use vstd::prelude::*;
use crate::text::{has_substring, str_contains};

verus! {

/// A reply counts as yes when, lower-cased, it occurs within one of the
/// words of agreement.
pub open spec fn truthy_text(t: Seq<char>) -> bool {
    ||| has_substring("true"@, t)
    ||| has_substring("1"@, t)
    ||| has_substring("t"@, t)
    ||| has_substring("y"@, t)
    ||| has_substring("yes"@, t)
    ||| has_substring("yeah"@, t)
    ||| has_substring("yup"@, t)
    ||| has_substring("certainly"@, t)
    ||| has_substring("uh-huh"@, t)
}

/// The lower-case form of a text.
pub uninterp spec fn lower_of(s: Seq<char>) -> Seq<char>;

/// Relies on `str::to_lowercase`: the result depends on the characters
/// alone.
#[verifier::external_body]
pub(crate) fn lowercase(s: &str) -> (r: String)
    ensures
        r@ == lower_of(s@),
{
    s.to_lowercase()
}

/// Whether an already lower-cased reply counts as yes.
pub fn is_truthy_lowered(lowered: &str) -> (r: bool)
    ensures
        r == truthy_text(lowered@),
{
    str_contains("true", lowered)
        || str_contains("1", lowered)
        || str_contains("t", lowered)
        || str_contains("y", lowered)
        || str_contains("yes", lowered)
        || str_contains("yeah", lowered)
        || str_contains("yup", lowered)
        || str_contains("certainly", lowered)
        || str_contains("uh-huh", lowered)
}

/// Whether a reply counts as yes, ignoring case.
pub fn is_truthy(data: &str) -> (r: bool)
    ensures
        r == truthy_text(lower_of(data@)),
{
    let lowered = lowercase(data);
    is_truthy_lowered(lowered.as_str())
}

/// `text` after `message`, or `text` alone when the message is empty.
pub open spec fn prompt_text(message: Seq<char>, empty: Seq<char>, suffix: Seq<char>) -> Seq<char> {
    if message.len() == 0 {
        empty
    } else {
        message + suffix
    }
}

fn build_prompt(message: &str, empty: &str, suffix: &str) -> (r: String)
    ensures
        r@ == prompt_text(message@, empty@, suffix@),
{
    if message.unicode_len() == 0 {
        String::from_str(empty)
    } else {
        let mut s = String::from_str(message);
        s.append(suffix);
        s
    }
}

/// The prompt of an alert that waits for the ENTER key.
pub fn alert_prompt(message: &str) -> (r: String)
    ensures
        r@ == prompt_text(message@, "[ENTER]: "@, " [ENTER]: "@),
{
    build_prompt(message, "[ENTER]: ", " [ENTER]: ")
}

/// The prompt of a yes-or-no question.
pub fn confirm_prompt(message: &str) -> (r: String)
    ensures
        r@ == prompt_text(message@, "CONFIRM [y/N]: "@, " CONFIRM [y/N]: "@),
{
    build_prompt(message, "CONFIRM [y/N]: ", " CONFIRM [y/N]: ")
}

/// The prompt of a free-text question.
pub fn input_prompt(message: &str) -> (r: String)
    ensures
        r@ == prompt_text(message@, "PROMPT: "@, ": "@),
{
    build_prompt(message, "PROMPT: ", ": ")
}

/// The prompt of a password question.
pub fn password_prompt(message: &str) -> (r: String)
    ensures
        r@ == prompt_text(message@, "PASSWORD: "@, ": "@),
{
    build_prompt(message, "PASSWORD: ", ": ")
}

/// The title above a menu of choices.
pub fn choose_title(message: &str) -> (r: String)
    ensures
        r@ == prompt_text(message@, "CHOOSE"@, ""@),
{
    build_prompt(message, "CHOOSE", "")
}

pub open spec fn is_digit(c: char) -> bool {
    '0' <= c && c <= '9'
}

/// The number that a run of decimal digits denotes.
pub open spec fn digits_value(s: Seq<char>) -> int
    decreases s.len(),
{
    if s.len() == 0 {
        0
    } else {
        digits_value(s.drop_last()) * 10 + (s.last() as int - '0' as int)
    }
}

/// The digits of a numeral, after an optional leading `+`.
pub open spec fn numeral_digits(s: Seq<char>) -> Seq<char> {
    if s.len() > 0 && s[0] == '+' {
        s.drop_first()
    } else {
        s
    }
}

/// Whether `s` is a numeral of an unsigned 32-bit integer: an optional `+`
/// and at least one decimal digit, with a value that fits.
pub open spec fn is_u32_numeral(s: Seq<char>) -> bool {
    let d = numeral_digits(s);
    &&& d.len() > 0
    &&& forall|i: int| 0 <= i < d.len() ==> is_digit(#[trigger] d[i])
    &&& digits_value(d) <= u32::MAX
}

proof fn lemma_digits_value_grows(s: Seq<char>, k: int)
    requires
        0 <= k <= s.len(),
        forall|i: int| 0 <= i < s.len() ==> is_digit(#[trigger] s[i]),
    ensures
        digits_value(s.subrange(0, k)) <= digits_value(s),
        digits_value(s) >= 0,
    decreases s.len(),
{
    if s.len() > 0 {
        assert(is_digit(s[s.len() - 1]));
        if k == s.len() {
            assert(s.subrange(0, k) =~= s);
            lemma_digits_value_grows(s.drop_last(), 0);
        } else {
            assert(s.drop_last().subrange(0, k) =~= s.subrange(0, k));
            lemma_digits_value_grows(s.drop_last(), k);
        }
    } else {
        assert(s.subrange(0, k) =~= s);
    }
}

/// The number that `s` denotes, where it is an unsigned 32-bit numeral.
pub fn parse_u32(s: &str) -> (r: Option<u32>)
    ensures
        r is Some <==> is_u32_numeral(s@),
        r matches Some(v) ==> v as int == digits_value(numeral_digits(s@)),
{
    let n = s.unicode_len();
    let mut start: usize = 0;
    if n > 0 && s.get_char(0) == '+' {
        start = 1;
    }
    let ghost d = numeral_digits(s@);
    assert(d =~= s@.subrange(start as int, n as int));
    if start >= n {
        return None;
    }
    let mut value: u64 = 0;
    let mut i: usize = start;
    while i < n
        invariant
            start <= i <= n,
            n == s@.len(),
            d == s@.subrange(start as int, n as int),
            d == numeral_digits(s@),
            d.len() == n - start,
            forall|j: int| 0 <= j < i - start ==> is_digit(#[trigger] d[j]),
            value as int == digits_value(d.subrange(0, i - start)),
            value <= u32::MAX,
        decreases n - i,
    {
        let c = s.get_char(i);
        assert(d[i - start] == c);
        if !('0' <= c && c <= '9') {
            assert(!is_digit(d[i - start]));
            return None;
        }
        let digit = (c as u32 - '0' as u32) as u64;
        assert(d.subrange(0, i - start + 1).drop_last() =~= d.subrange(0, i - start));
        assert(d.subrange(0, i - start + 1).last() == c);
        assert(digits_value(d.subrange(0, i - start + 1)) == value * 10 + digit);
        let next = value * 10 + digit;
        if next > u32::MAX as u64 {
            proof {
                if forall|j: int| 0 <= j < d.len() ==> is_digit(#[trigger] d[j]) {
                    lemma_digits_value_grows(d, i - start + 1);
                }
            }
            return None;
        }
        value = next;
        i += 1;
    }
    assert(d.subrange(0, n - start) =~= d);
    Some(value as u32)
}

/// The option picked by a reply to a menu of `count` choices numbered from
/// zero: the reply must be a numeral below `count`.
pub fn choose_selection(reply: &str, count: usize) -> (r: Option<u32>)
    ensures
        r is Some <==> is_u32_numeral(reply@) && digits_value(numeral_digits(reply@)) < count,
        r matches Some(v) ==> v as int == digits_value(numeral_digits(reply@)),
{
    match parse_u32(reply) {
        Some(v) => {
            if (v as usize) < count {
                Some(v)
            } else {
                None
            }
        },
        None => None,
    }
}

} // verus!
