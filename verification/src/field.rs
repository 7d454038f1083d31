//! Typed values read from the text of one cell.

use vstd::prelude::*;
use vstd::string::*;
use crate::text::chars_of;

verus! {

/// An ASCII decimal digit.
pub open spec fn is_digit(c: char) -> bool {
    0x30 <= c as u32 <= 0x39
}

/// The number a digit stands for; 0 for any other character.
pub open spec fn digit_value(c: char) -> nat {
    if is_digit(c) {
        (c as u32 - 0x30) as nat
    } else {
        0
    }
}

/// Every character of `s` is a decimal digit.
pub open spec fn all_digits(s: Seq<char>) -> bool {
    forall|i: int| 0 <= i < s.len() ==> is_digit(#[trigger] s[i])
}

/// The number that the digits of `s` write in base ten.
pub open spec fn decimal_value(s: Seq<char>) -> nat
    decreases s.len(),
{
    if s.len() == 0 {
        0
    } else {
        decimal_value(s.drop_last()) * 10 + digit_value(s.last())
    }
}

/// The number written by `s`: an optional `+`, then one digit or more.
pub open spec fn unsigned_decimal(s: Seq<char>) -> Option<nat> {
    let digits = if s.len() > 0 && s[0] == '+' {
        s.drop_first()
    } else {
        s
    };
    if digits.len() > 0 && all_digits(digits) {
        Some(decimal_value(digits))
    } else {
        None
    }
}

/// The number written by `s`: an optional `+` or `-`, then one digit or more.
pub open spec fn signed_decimal(s: Seq<char>) -> Option<int> {
    if s.len() > 0 && s[0] == '-' {
        let digits = s.drop_first();
        if digits.len() > 0 && all_digits(digits) {
            Some(-(decimal_value(digits) as int))
        } else {
            None
        }
    } else {
        match unsigned_decimal(s) {
            Some(n) => Some(n as int),
            None => None,
        }
    }
}

/// The message for a cell whose text is not a value of the field.
pub open spec fn failure_message(raw: Seq<char>, field: Seq<char>) -> Seq<char> {
    "failed to parse `"@ + raw + "` as `"@ + field + "`"@
}

/// A prefix of a digit string writes no larger a number than the whole.
pub proof fn lemma_decimal_value_prefix(s: Seq<char>, k: int)
    requires
        0 <= k <= s.len(),
    ensures
        decimal_value(s.take(k)) <= decimal_value(s),
    decreases s.len(),
{
    if k == s.len() {
        assert(s.take(k) == s);
    } else {
        assert(s.drop_last().take(k) == s.take(k));
        lemma_decimal_value_prefix(s.drop_last(), k);
    }
}

/// Whether `c` is a decimal digit.
pub fn digit_of(c: char) -> (r: Option<u8>)
    ensures
        r is Some == is_digit(c),
        r matches Some(d) ==> d == digit_value(c),
{
    let code: u32 = c as u32;
    if 0x30 <= code && code <= 0x39 {
        Some((code - 0x30) as u8)
    } else {
        None
    }
}

/// Reads the digits `chars[from..]` as a number no larger than `limit`.
fn digits_from(chars: &Vec<char>, from: usize, limit: u64) -> (r: Option<u64>)
    requires
        from <= chars.len(),
        limit <= 0x1_0000_0000,
    ensures
        r == if from < chars.len() && all_digits(chars@.skip(from as int)) && decimal_value(
            chars@.skip(from as int),
        ) <= limit {
            Some(decimal_value(chars@.skip(from as int)) as u64)
        } else {
            None
        },
{
    let ghost digits = chars@.skip(from as int);
    if from == chars.len() {
        return None;
    }
    let mut value: u64 = 0;
    let mut i: usize = from;
    assert(digits.take(0) =~= Seq::<char>::empty());
    while i < chars.len()
        invariant
            from <= i <= chars.len(),
            limit <= 0x1_0000_0000,
            digits == chars@.skip(from as int),
            all_digits(digits.take(i - from)),
            value == decimal_value(digits.take(i - from)),
            value <= limit,
        decreases chars.len() - i,
    {
        let ghost next = digits.take(i - from + 1);
        assert(next.drop_last() == digits.take(i - from));
        assert(next.last() == chars@[i as int]);
        match digit_of(chars[i]) {
            None => {
                assert(!is_digit(digits[i - from]));
                return None;
            },
            Some(d) => {
                value = value * 10 + d as u64;
                if value > limit {
                    proof {
                        lemma_decimal_value_prefix(digits, i - from + 1);
                    }
                    return None;
                }
            },
        }
        i += 1;
    }
    assert(digits.take(i - from) == digits);
    Some(value)
}

/// A type of value that the text of one cell can hold.
pub trait Field: Sized {
    /// The value that `text` writes, if it writes one.
    spec fn parsed(text: Seq<char>) -> Option<Self>;

    /// Reads a value from `text`.
    fn from_text(text: &str) -> (r: Option<Self>)
        ensures
            r == Self::parsed(text@),
    ;
}

impl Field for u32 {
    open spec fn parsed(text: Seq<char>) -> Option<u32> {
        match unsigned_decimal(text) {
            Some(n) if n <= u32::MAX => Some(n as u32),
            _ => None,
        }
    }

    fn from_text(text: &str) -> (r: Option<u32>) {
        let chars = chars_of(text);
        let from: usize = if chars.len() > 0 && chars[0] == '+' {
            1
        } else {
            0
        };
        assert(chars@.skip(0) == chars@);
        match digits_from(&chars, from, 0xffff_ffff) {
            Some(n) => Some(n as u32),
            None => None,
        }
    }
}

impl Field for i32 {
    open spec fn parsed(text: Seq<char>) -> Option<i32> {
        match signed_decimal(text) {
            Some(n) if i32::MIN <= n <= i32::MAX => Some(n as i32),
            _ => None,
        }
    }

    fn from_text(text: &str) -> (r: Option<i32>) {
        let chars = chars_of(text);
        assert(chars@.skip(0) == chars@);
        if chars.len() > 0 && chars[0] == '-' {
            match digits_from(&chars, 1, 0x8000_0000) {
                Some(n) => Some((0 - n as i64) as i32),
                None => None,
            }
        } else {
            let from: usize = if chars.len() > 0 && chars[0] == '+' {
                1
            } else {
                0
            };
            match digits_from(&chars, from, 0x7fff_ffff) {
                Some(n) => Some(n as i32),
                None => None,
            }
        }
    }
}

/// Reads the value of the field named `name` from the text of its cell.
pub fn parse<T: Field>(s: &str, name: &str) -> (r: Result<T, String>)
    ensures
        match r {
            Ok(value) => T::parsed(s@) == Some(value),
            Err(message) => T::parsed(s@) is None && message@ == failure_message(s@, name@),
        },
{
    match T::from_text(s) {
        Some(value) => Ok(value),
        None => {
            let mut message = String::from_str("failed to parse `");
            message.append(s);
            message.append("` as `");
            message.append(name);
            message.append("`");
            Err(message)
        },
    }
}

/// `part` stands in `whole` from index `at` on.
pub open spec fn occurs_at(whole: Seq<char>, part: Seq<char>, at: int) -> bool {
    0 <= at && at + part.len() <= whole.len() && whole.subrange(at, at + part.len()) == part
}

/// `part` stands somewhere in `whole`, in one piece.
pub open spec fn contains_text(whole: Seq<char>, part: Seq<char>) -> bool {
    exists|at: int| occurs_at(whole, part, at)
}

/// The message of a failed `parse` holds the raw text and the field's name,
/// each in one piece.
pub proof fn lemma_failure_message_names_both(raw: Seq<char>, field: Seq<char>)
    ensures
        contains_text(failure_message(raw, field), raw),
        contains_text(failure_message(raw, field), field),
{
    let message = failure_message(raw, field);
    let first = "failed to parse `"@.len() as int;
    let second = first + raw.len() + "` as `"@.len();
    assert(message.subrange(first, first + raw.len()) == raw);
    assert(occurs_at(message, raw, first));
    assert(message.subrange(second, second + field.len()) == field);
    assert(occurs_at(message, field, second));
}

} // verus!
