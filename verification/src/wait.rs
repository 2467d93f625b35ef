//! The wait before a block is published.
//!
//! Two settings of the network bound the wait, in whole seconds. Where both
//! are readable and the minimum lies below the maximum, the wait is drawn at
//! random from the half-open interval between them. In every other case the
//! wait is the default: none.

use rand::Rng;
use vstd::prelude::*;
use vstd::string::is_ascii_spec_bytes;
use vstd::utf8::is_ascii_chars_encode_utf8;

verus! {

/// The wait, in seconds, where the settings give no interval to draw from.
pub const DEFAULT_WAIT_TIME: u64 = 0;

/// The name of the setting that holds the minimum wait in seconds.
pub open spec fn min_wait_time_key() -> Seq<char> {
    "sawtooth.consensus.min_wait_time"@
}

/// The name of the setting that holds the maximum wait in seconds.
pub open spec fn max_wait_time_key() -> Seq<char> {
    "sawtooth.consensus.max_wait_time"@
}

/// The names of the two settings, minimum first: the order in which their
/// values are expected back.
pub fn wait_time_keys() -> (keys: Vec<String>)
    ensures
        keys@.len() == 2,
        keys@[0]@ == min_wait_time_key(),
        keys@[1]@ == max_wait_time_key(),
{
    let mut keys: Vec<String> = Vec::new();
    keys.push(String::from_str("sawtooth.consensus.min_wait_time"));
    keys.push(String::from_str("sawtooth.consensus.max_wait_time"));
    keys
}

/// Whether `c` is one of the ten decimal digits.
pub open spec fn is_digit(c: char) -> bool {
    '0' <= c <= '9'
}

/// The number that a decimal digit stands for.
pub open spec fn digit_value(c: char) -> nat {
    if is_digit(c) {
        (c as int - '0' as int) as nat
    } else {
        0
    }
}

/// Whether every character of `s` is a decimal digit.
pub open spec fn all_digits(s: Seq<char>) -> bool {
    forall|i: int| 0 <= i < s.len() ==> is_digit(#[trigger] s[i])
}

/// The number that a string of decimal digits stands for.
pub open spec fn digits_value(s: Seq<char>) -> nat
    decreases s.len(),
{
    if s.len() == 0 {
        0
    } else {
        digits_value(s.drop_last()) * 10 + digit_value(s.last())
    }
}

/// The digits of a setting's value: the value without its leading plus
/// sign, if it has one.
pub open spec fn unsigned_part(s: Seq<char>) -> Seq<char> {
    if s.len() > 0 && s[0] == '+' {
        s.drop_first()
    } else {
        s
    }
}

/// The number of seconds that a setting's value stands for: one or more
/// decimal digits, after an optional plus sign, that name a number of at
/// most 64 bits. Any other text stands for none.
pub open spec fn seconds_of(s: Seq<char>) -> Option<u64> {
    let digits = unsigned_part(s);
    if digits.len() > 0 && all_digits(digits) && digits_value(digits) <= u64::MAX {
        Some(digits_value(digits) as u64)
    } else {
        None
    }
}

/// The value of the digits read so far never exceeds that of all of them.
proof fn lemma_prefix_value(s: Seq<char>, k: int)
    requires
        0 <= k <= s.len(),
    ensures
        digits_value(s.take(k)) <= digits_value(s),
    decreases s.len() - k,
{
    if k == s.len() {
        assert(s.take(k) =~= s);
    } else {
        lemma_prefix_value(s, k + 1);
        assert(s.take(k + 1).drop_last() =~= s.take(k));
    }
}

/// Reads a setting's value as a number of seconds.
pub fn parse_seconds(s: &str) -> (seconds: Option<u64>)
    ensures
        seconds == seconds_of(s@),
{
    broadcast use is_ascii_spec_bytes, is_ascii_chars_encode_utf8;

    if !s.is_ascii() {
        proof {
            let j = choose|j: int| 0 <= j < s@.len() && !('\0' <= #[trigger] s@[j] <= '\u{7f}');
            if s@[0] == '+' {
                assert(unsigned_part(s@)[j - 1] == s@[j]);
            }
        }
        return None;
    }
    let bytes = s.as_bytes();
    let n = bytes.len();
    let mut i: usize = 0;
    if n > 0 && bytes[0] == 43u8 {
        i = 1;
    }
    let ghost digits = unsigned_part(s@);
    let first = i;
    if i == n {
        return None;
    }
    let mut total: u64 = 0;
    while i < n
        invariant
            first <= i <= n,
            n == s@.len(),
            n == bytes@.len(),
            s.is_ascii(),
            forall|j: int| 0 <= j < n ==> bytes@[j] == s@[j] as u8,
            digits == s@.subrange(first as int, n as int),
            digits == unsigned_part(s@),
            all_digits(digits.take(i - first)),
            total == digits_value(digits.take(i - first)),
        decreases n - i,
    {
        let b = bytes[i];
        if b < 48u8 || b > 57u8 {
            assert(!is_digit(digits[i - first]));
            return None;
        }
        let d: u64 = (b - 48u8) as u64;
        proof {
            assert(digits.take(i - first + 1).drop_last() =~= digits.take(i - first));
            lemma_prefix_value(digits, i - first + 1);
        }
        if total > (u64::MAX - d) / 10 {
            return None;
        }
        total = total * 10 + d;
        i += 1;
    }
    assert(digits.take(i - first) =~= digits);
    Some(total)
}

/// The values of the two settings as text, where the service had them.
pub open spec fn setting_values(values: Seq<Option<String>>) -> Seq<Option<Seq<char>>> {
    Seq::new(
        values.len(),
        |i: int|
            match values[i] {
                Some(text) => Some(text@),
                None => None,
            },
    )
}

/// The interval that the settings give to draw the wait from: the minimum
/// and the maximum, where both values are there, both stand for a number of
/// seconds and the minimum is the smaller.
pub open spec fn wait_range(values: Seq<Option<Seq<char>>>) -> Option<(u64, u64)> {
    if values.len() == 2 && values[0] is Some && values[1] is Some {
        match (seconds_of(values[0]->0), seconds_of(values[1]->0)) {
            (Some(min), Some(max)) => if min < max {
                Some((min, max))
            } else {
                None
            },
            _ => None,
        }
    } else {
        None
    }
}

/// Whether `seconds` is a wait that the interval allows: a number from the
/// minimum up to, and not including, the maximum, or the default where
/// there is no interval or an empty one.
pub open spec fn is_wait_time(range: Option<(u64, u64)>, seconds: u64) -> bool {
    match range {
        Some((min, max)) => if min < max {
            min <= seconds < max
        } else {
            seconds == DEFAULT_WAIT_TIME
        },
        None => seconds == DEFAULT_WAIT_TIME,
    }
}

/// With two well-formed values and the minimum below the maximum, a wait
/// that the settings allow lies in the half-open interval between them.
pub proof fn lemma_wait_within_settings(
    min_text: Seq<char>,
    max_text: Seq<char>,
    min: u64,
    max: u64,
    seconds: u64,
)
    requires
        seconds_of(min_text) == Some(min),
        seconds_of(max_text) == Some(max),
        min < max,
        is_wait_time(wait_range(seq![Some(min_text), Some(max_text)]), seconds),
    ensures
        min <= seconds < max,
{
}

/// With a value missing or malformed, or a minimum that is not below the
/// maximum, the only wait that the settings allow is the default.
pub proof fn lemma_wait_defaults(values: Seq<Option<Seq<char>>>, seconds: u64)
    requires
        is_wait_time(wait_range(values), seconds),
        values.len() != 2 || values[0] is None || values[1] is None || seconds_of(values[0]->0)
            is None || seconds_of(values[1]->0) is None || seconds_of(values[0]->0)->0
            >= seconds_of(values[1]->0)->0,
    ensures
        seconds == DEFAULT_WAIT_TIME,
{
}

/// Works out the interval to draw the wait from. `values` holds the values
/// of the minimum and the maximum setting, in that order.
pub fn wait_time_range(values: &Vec<Option<String>>) -> (range: Option<(u64, u64)>)
    ensures
        range == wait_range(setting_values(values@)),
{
    if values.len() != 2 {
        return None;
    }
    let min = match &values[0] {
        Some(text) => parse_seconds(text.as_str()),
        None => None,
    };
    let max = match &values[1] {
        Some(text) => parse_seconds(text.as_str()),
        None => None,
    };
    match (min, max) {
        (Some(min), Some(max)) => if min < max {
            Some((min, max))
        } else {
            None
        },
        _ => None,
    }
}

/// A number drawn by `rand::Rng::gen_range` from the thread's generator,
/// `rand::thread_rng()`. The draw panics unless `low` lies below `high`, and
/// returns a number that is at least `low` and below `high`; which one
/// differs from call to call. Nothing here claims that the draw is uniform.
/// The generator is seeded from the operating system the first time a
/// thread uses it, and panics if the system has no entropy to give.
#[verifier::external_body]
fn random_between(low: u64, high: u64) -> (drawn: u64)
    requires
        low < high,
    ensures
        low <= drawn < high,
{
    rand::thread_rng().gen_range(low, high)
}

/// Picks the wait for an interval: a random number of seconds from it, or
/// the default where there is none.
pub fn pick_wait_time(range: Option<(u64, u64)>) -> (seconds: u64)
    ensures
        is_wait_time(range, seconds),
{
    match range {
        Some((min, max)) => if min < max {
            random_between(min, max)
        } else {
            DEFAULT_WAIT_TIME
        },
        None => DEFAULT_WAIT_TIME,
    }
}

/// The text values that a read of the settings gave, or none where the
/// read failed.
pub open spec fn read_values(settings: Option<&Vec<Option<String>>>) -> Option<Seq<Option<Seq<char>>>> {
    match settings {
        Some(values) => Some(setting_values(values@)),
        None => None,
    }
}

/// The interval that a read of the settings gives: none where the read
/// failed.
pub open spec fn range_of_read(read: Option<Seq<Option<Seq<char>>>>) -> Option<(u64, u64)> {
    match read {
        Some(values) => wait_range(values),
        None => None,
    }
}

/// Calculates the time to wait before publishing, in seconds. `settings`
/// holds what the read of the minimum and the maximum wait gave, or nothing
/// where it failed. With a minimum below the maximum the wait is a random
/// number of seconds from the minimum up to, and not including, the
/// maximum. A failed read, a missing or malformed value, or a minimum that
/// is not below the maximum all give the default.
pub fn calculate_wait_time(settings: Option<&Vec<Option<String>>>) -> (seconds: u64)
    ensures
        is_wait_time(range_of_read(read_values(settings)), seconds),
{
    let range = match settings {
        Some(values) => wait_time_range(values),
        None => None,
    };
    pick_wait_time(range)
}

} // verus!
