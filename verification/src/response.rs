//! What a reply of the service amounts to.
//!
//! A caller that has sent a call holds one of three things: an error of the
//! transport, which [`ElevenLabsTTVError::from`] classifies; a response
//! whose status reports failure, which [`response_failure`] classifies; or a
//! response whose status reports success, whose body it decodes and hands to
//! [`decoded`]. [`is_success`] tells the last two apart.

use crate::error::{failure_for_status, ElevenLabsTTVError, Failure};
use vstd::prelude::*;

verus! {

/// The name of the header by which the service says how long to wait.
pub const RETRY_AFTER_HEADER: &'static str = "retry-after";

/// Whether a status reports success: the statuses from 200 to 299 do.
pub open spec fn is_success_status(status: u16) -> bool {
    200 <= status <= 299
}

/// Whether a status reports success.
#[verifier::when_used_as_spec(is_success_status)]
pub fn is_success(status: u16) -> (r: bool)
    ensures
        r == is_success_status(status),
{
    200 <= status && status <= 299
}

/// Whether a character is one of the ten decimal digits.
pub open spec fn is_digit(c: char) -> bool {
    '0' <= c <= '9'
}

/// The number that a decimal digit stands for.
pub open spec fn digit_value(c: char) -> nat {
    (c as u32 - '0' as u32) as nat
}

/// Whether a text is a decimal number: one digit or more, and nothing else.
pub open spec fn is_decimal(s: Seq<char>) -> bool {
    s.len() > 0 && forall|i: int| 0 <= i < s.len() ==> is_digit(#[trigger] s[i])
}

/// The number that a sequence of digits stands for, most significant first.
pub open spec fn decimal_value(s: Seq<char>) -> nat
    decreases s.len(),
{
    if s.len() == 0 {
        0
    } else {
        decimal_value(s.drop_last()) * 10 + digit_value(s.last())
    }
}

/// The delay in seconds that the value of a `Retry-After` header names: the
/// number that it spells, where it is a decimal number that fits 64 bits. A
/// value of any other form, such as a date, names no delay.
pub open spec fn retry_after_seconds(value: Seq<char>) -> Option<u64> {
    if is_decimal(value) && decimal_value(value) <= u64::MAX {
        Some(decimal_value(value) as u64)
    } else {
        None
    }
}

/// A sequence of digits stands for no less than any of its prefixes.
proof fn lemma_decimal_value_grows(s: Seq<char>, n: int)
    requires
        0 <= n <= s.len(),
    ensures
        decimal_value(s.take(n)) <= decimal_value(s),
    decreases s.len(),
{
    if n == s.len() {
        assert(s.take(n) =~= s);
    } else {
        lemma_decimal_value_grows(s.drop_last(), n);
        assert(s.drop_last().take(n) =~= s.take(n));
    }
}

/// The delay in seconds that the value of a `Retry-After` header names.
pub fn parse_retry_after(value: &str) -> (r: Option<u64>)
    ensures
        r == retry_after_seconds(value@),
{
    let mut seconds: u64 = 0;
    let mut valid = true;
    let mut nonempty = false;
    let ghost all = value@;
    for c in iter: value.chars()
        invariant
            iter.seq() == all,
            nonempty == (iter.index() > 0),
            valid ==> seconds == decimal_value(all.take(iter.index())),
            valid ==> forall|i: int| 0 <= i < iter.index() ==> is_digit(#[trigger] all[i]),
            !valid ==> (exists|i: int| 0 <= i < iter.index() && !is_digit(#[trigger] all[i]))
                || (exists|n: int|
                0 <= n <= iter.index() && #[trigger] decimal_value(all.take(n)) > u64::MAX),
    {
        nonempty = true;
        if valid {
            assert(all.take(iter.index() + 1).drop_last() =~= all.take(iter.index() as int));
            if '0' <= c && c <= '9' {
                let digit: u64 = (c as u32 - '0' as u32) as u64;
                let next = match seconds.checked_mul(10) {
                    Some(tens) => tens.checked_add(digit),
                    None => None,
                };
                match next {
                    Some(n) => seconds = n,
                    None => valid = false,
                }
            } else {
                valid = false;
            }
        }
    }
    proof {
        assert(all.take(all.len() as int) =~= all);
        if !valid {
            if exists|n: int| 0 <= n <= all.len() && #[trigger] decimal_value(all.take(n)) > u64::MAX {
                let n = choose|n: int|
                    0 <= n <= all.len() && #[trigger] decimal_value(all.take(n)) > u64::MAX;
                lemma_decimal_value_grows(all, n);
            }
        }
    }
    if valid && nonempty {
        Some(seconds)
    } else {
        None
    }
}

/// The delay that a response names, if it names one.
pub open spec fn named_delay(retry_after: Option<&str>) -> Option<u64> {
    match retry_after {
        Some(value) => retry_after_seconds(value@),
        None => None,
    }
}

/// The text of a body: what was read, and nothing where reading failed.
pub open spec fn body_text(body: Result<String, reqwest::Error>) -> Seq<char> {
    match body {
        Ok(text) => text@,
        Err(_) => Seq::empty(),
    }
}

/// The error for a response whose status reports failure, from the status,
/// the value of the `Retry-After` header if there is one, and the body as far
/// as it could be read.
pub fn response_failure(
    status: u16,
    retry_after: Option<&str>,
    body: Result<String, reqwest::Error>,
) -> (r: ElevenLabsTTVError)
    ensures
        r@ == failure_for_status(status, named_delay(retry_after), body_text(body)),
{
    let delay = match retry_after {
        Some(value) => parse_retry_after(value),
        None => None,
    };
    let text = match body {
        Ok(text) => text,
        Err(_) => String::new(),
    };
    ElevenLabsTTVError::from_status(status, delay, text)
}

/// The result of a call whose response reported success, from what decoding
/// its body gave: the decoded value, or a parse failure around the error of
/// the decoder. No value is made up for a body that does not decode.
pub fn decoded<T>(body: Result<T, reqwest::Error>) -> (r: Result<T, ElevenLabsTTVError>)
    ensures
        body matches Ok(value) ==> r == Ok::<T, ElevenLabsTTVError>(value),
        body matches Err(cause) ==> r matches Err(error) && error@ == Failure::Parse(cause),
{
    match body {
        Ok(value) => Ok(value),
        Err(cause) => Err(ElevenLabsTTVError::ParseError(cause)),
    }
}

} // verus!
