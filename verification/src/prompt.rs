//! The operator prompt: how the one-time code is asked for and how the
//! answer is validated.

use inflector::Inflector;
use vstd::prelude::*;
use vstd::string::StringExecFns;
use vstd::utf8::encode_utf8;

verus! {

/// Why an answer to the prompt was turned down.
#[derive(Debug, Clone, Copy, PartialEq, Eq, Structural)]
pub enum AnswerError {
    /// After trailing whitespace is removed the answer is not six bytes long.
    WrongLength,
    /// The answer has the right length but is not made of decimal digits.
    NotANumber,
}

/// The characters that carry the Unicode property `White_Space`.
pub open spec fn is_whitespace(c: char) -> bool {
    let u = c as u32;
    ||| 0x09 <= u <= 0x0d
    ||| u == 0x20
    ||| u == 0x85
    ||| u == 0xa0
    ||| u == 0x1680
    ||| 0x2000 <= u <= 0x200a
    ||| u == 0x2028
    ||| u == 0x2029
    ||| u == 0x202f
    ||| u == 0x205f
    ||| u == 0x3000
}

/// `s` without its trailing whitespace.
pub open spec fn trim_end(s: Seq<char>) -> Seq<char>
    decreases s.len(),
{
    if s.len() > 0 && is_whitespace(s.last()) {
        trim_end(s.drop_last())
    } else {
        s
    }
}

/// A decimal digit.
pub open spec fn is_digit(c: char) -> bool {
    '0' <= c <= '9'
}

/// Every character of `s` is a decimal digit.
pub open spec fn all_digits(s: Seq<char>) -> bool {
    forall|i: int| 0 <= i < s.len() ==> is_digit(#[trigger] s[i])
}

/// The number that a sequence of decimal digits denotes.
pub open spec fn digits_value(s: Seq<char>) -> nat
    decreases s.len(),
{
    if s.len() == 0 {
        0
    } else {
        digits_value(s.drop_last()) * 10 + (s.last() as u32 - '0' as u32) as nat
    }
}

/// What `check_answer` makes of an answer: with its trailing whitespace
/// removed it must be six bytes long, and those must be six decimal digits.
pub open spec fn answer_value(answer: Seq<char>) -> Result<u32, AnswerError> {
    let code = trim_end(answer);
    if encode_utf8(code).len() != 6 {
        Err(AnswerError::WrongLength)
    } else if all_digits(code) {
        Ok(digits_value(code) as u32)
    } else {
        Err(AnswerError::NotANumber)
    }
}

fn char_is_whitespace(c: char) -> (b: bool)
    ensures
        b == is_whitespace(c),
{
    let u: u32 = c as u32;
    (0x09 <= u && u <= 0x0d) || u == 0x20 || u == 0x85 || u == 0xa0 || u == 0x1680 || (0x2000 <= u
        && u <= 0x200a) || u == 0x2028 || u == 0x2029 || u == 0x202f || u == 0x205f || u == 0x3000
}

/// The number of characters of `s` that are left once its trailing whitespace
/// is removed.
fn trimmed_len(s: &str) -> (n: usize)
    ensures
        n <= s@.len(),
        s@.subrange(0, n as int) == trim_end(s@),
{
    let mut n: usize = s.unicode_len();
    assert(s@.subrange(0, n as int) == s@);
    while n > 0 && char_is_whitespace(s.get_char(n - 1))
        invariant
            n <= s@.len(),
            trim_end(s@.subrange(0, n as int)) == trim_end(s@),
        decreases n,
    {
        assert(s@.subrange(0, n as int).drop_last() == s@.subrange(0, n - 1));
        n = n - 1;
    }
    n
}

fn char_is_digit(c: char) -> (b: bool)
    ensures
        b == is_digit(c),
{
    '0' <= c && c <= '9'
}

/// Ten to the power `n`.
spec fn pow10(n: nat) -> nat
    decreases n,
{
    if n == 0 {
        1
    } else {
        10 * pow10((n - 1) as nat)
    }
}

proof fn lemma_pow10_step(n: nat)
    ensures
        pow10(n + 1) == 10 * pow10(n),
        n <= 6 ==> pow10(n) <= 1_000_000,
{
    reveal_with_fuel(pow10, 8);
}

/// Reads a sequence of at most six decimal digits.
fn digits_number(code: &str) -> (res: Option<u32>)
    requires
        code@.len() <= 6,
    ensures
        res == if all_digits(code@) {
            Some(digits_value(code@) as u32)
        } else {
            None
        },
{
    let count = code.unicode_len();
    let mut value: u32 = 0;
    let mut i: usize = 0;
    while i < count
        invariant
            i <= count <= 6,
            count == code@.len(),
            all_digits(code@.subrange(0, i as int)),
            value == digits_value(code@.subrange(0, i as int)),
            value < pow10(i as nat),
        decreases count - i,
    {
        let c = code.get_char(i);
        if !char_is_digit(c) {
            return None;
        }
        proof {
            let next = code@.subrange(0, i + 1);
            assert(next.drop_last() == code@.subrange(0, i as int));
            assert forall|j: int| 0 <= j < next.len() implies is_digit(#[trigger] next[j]) by {
                if j < i {
                    assert(is_digit(code@.subrange(0, i as int)[j]));
                }
            }
            lemma_pow10_step(i as nat);
            lemma_pow10_step((i + 1) as nat);
        }
        value = value * 10 + (c as u32 - '0' as u32);
        i = i + 1;
    }
    assert(code@.subrange(0, count as int) == code@);
    Some(value)
}

/// The operator's answer without its trailing whitespace: the characters
/// that are validated, and that are sent as the code once they are found
/// valid.
pub fn trim_answer(answer: &str) -> (code: &str)
    ensures
        code@ == trim_end(answer@),
{
    let n = trimmed_len(answer);
    answer.substring_char(0, n)
}

/// Validates the operator's answer to the prompt for the one-time code: with
/// its trailing whitespace removed it must be six decimal digits, whose
/// value is returned.
pub fn check_answer(answer: String) -> (res: Result<u32, AnswerError>)
    ensures
        res == answer_value(answer@),
{
    let code = trim_answer(answer.as_str());
    if code.as_bytes().len() != 6 {
        return Err(AnswerError::WrongLength);
    }
    if code.unicode_len() > 6 {
        proof {
            lemma_digits_are_ascii(code@);
        }
        return Err(AnswerError::NotANumber);
    }
    match digits_number(code) {
        Some(value) => Ok(value),
        None => Err(AnswerError::NotANumber),
    }
}

/// Decimal digits take one byte each.
proof fn lemma_digits_are_ascii(s: Seq<char>)
    ensures
        all_digits(s) ==> encode_utf8(s).len() == s.len(),
{
    if all_digits(s) {
        assert forall|i: int| 0 <= i < s.len() implies '\0' <= #[trigger] s[i] <= '\u{7f}' by {
            assert(is_digit(s[i]));
        }
        vstd::utf8::is_ascii_chars_encode_utf8(s);
    }
}

/// An answer is accepted exactly when, without its trailing whitespace, it
/// is six decimal digits; its value is then the number that the six digits
/// denote, and every other answer is turned down.
pub proof fn law_answer_is_six_digits(answer: Seq<char>)
    ensures
        answer_value(answer) is Ok <==> trim_end(answer).len() == 6 && all_digits(trim_end(answer)),
        answer_value(answer) is Ok ==> answer_value(answer)->Ok_0 == digits_value(trim_end(answer)),
        answer_value(answer) is Ok ==> answer_value(answer)->Ok_0 < 1_000_000,
{
    let code = trim_end(answer);
    lemma_digits_are_ascii(code);
    if answer_value(answer) is Ok {
        lemma_digits_bound(code);
        lemma_pow10_step(6);
    }
}

/// A sequence of digits denotes a number below ten to the power of its
/// length.
proof fn lemma_digits_bound(s: Seq<char>)
    requires
        all_digits(s),
    ensures
        digits_value(s) < pow10(s.len()),
    decreases s.len(),
{
    if s.len() > 0 {
        assert forall|i: int| 0 <= i < s.drop_last().len() implies is_digit(
            #[trigger] s.drop_last()[i],
        ) by {
            assert(is_digit(s[i]));
        }
        lemma_digits_bound(s.drop_last());
        assert(is_digit(s[s.len() - 1]));
        lemma_pow10_step((s.len() - 1) as nat);
    }
}

/// What the operator is asked for.
pub open spec fn code_prompt() -> Seq<char> {
    "enter your mfa"@
}

/// `text` in title case, as the `inflector` crate writes it.
pub uninterp spec fn title_cased(text: Seq<char>) -> Seq<char>;

/// `Inflector::to_title_case` on a string slice. The crate reserves twice
/// the text's length in bytes before it starts, which is more than a string
/// may hold once the text is longer than half of `isize::MAX`.
#[verifier::external_body]
fn title_case(text: &str) -> (res: String)
    requires
        2 * encode_utf8(text@).len() <= isize::MAX,
    ensures
        res@ == title_cased(text@),
{
    text.to_title_case()
}

/// The line that asks the operator for `prompt`: the prompt in title case,
/// a colon and a space.
pub fn prompt_label(prompt: &str) -> (label: String)
    requires
        2 * encode_utf8(prompt@).len() <= isize::MAX,
    ensures
        label@ == title_cased(prompt@) + ": "@,
{
    let mut label = title_case(prompt);
    label.append(": ");
    label
}

} // verus!
