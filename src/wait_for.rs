use vstd::prelude::*;
use crate::duration::Duration;

verus! {

/// A condition that must hold before a started container counts as ready.
#[derive(Debug, PartialEq, Eq)]
pub enum WaitFor {
    /// Holds at once. Useful as a default or a fallback.
    Nothing,
    /// Holds once `message` appears in the container's standard output.
    StdOutMessage { message: String },
    /// Holds once `message` appears in the container's standard error.
    StdErrMessage { message: String },
    /// Holds once the runner has waited `length`.
    Duration { length: Duration },
    /// Holds once the engine reports the container as healthy.
    Healthcheck,
}

impl Clone for WaitFor {
    fn clone(&self) -> (r: WaitFor)
        ensures
            r == *self,
    {
        match self {
            WaitFor::Nothing => WaitFor::Nothing,
            WaitFor::StdOutMessage { message } => WaitFor::StdOutMessage { message: message.clone() },
            WaitFor::StdErrMessage { message } => WaitFor::StdErrMessage { message: message.clone() },
            WaitFor::Duration { length } => WaitFor::Duration { length: *length },
            WaitFor::Healthcheck => WaitFor::Healthcheck,
        }
    }
}

pub open spec fn is_decimal_digit(c: char) -> bool {
    '0' <= c && c <= '9'
}

pub open spec fn all_decimal_digits(s: Seq<char>) -> bool {
    forall|i: int| 0 <= i < s.len() ==> is_decimal_digit(#[trigger] s[i])
}

/// The number that a string of decimal digits spells, most significant first.
pub open spec fn decimal_value(s: Seq<char>) -> int
    decreases s.len(),
{
    if s.len() == 0 {
        0
    } else {
        decimal_value(s.drop_last()) * 10 + (s.last() as u32 - '0' as u32)
    }
}

/// The digits of an unsigned number, after one optional leading `+`.
pub open spec fn unsigned_digits(s: Seq<char>) -> Seq<char> {
    if s.len() > 0 && s[0] == '+' {
        s.drop_first()
    } else {
        s
    }
}

/// The unsigned 64-bit number that `s` spells in decimal: an optional `+`
/// followed by at least one digit, with a value that fits; `None` otherwise.
pub open spec fn parse_u64_spec(s: Seq<char>) -> Option<u64> {
    let d = unsigned_digits(s);
    if d.len() > 0 && all_decimal_digits(d) && decimal_value(d) <= u64::MAX {
        Some(decimal_value(d) as u64)
    } else {
        None
    }
}

proof fn lemma_decimal_value_nonneg(s: Seq<char>)
    requires
        all_decimal_digits(s),
    ensures
        decimal_value(s) >= 0,
    decreases s.len(),
{
    if s.len() > 0 {
        lemma_decimal_value_nonneg(s.drop_last());
    }
}

/// Appending digits never makes the value smaller.
proof fn lemma_decimal_value_prefix(s: Seq<char>, k: int)
    requires
        all_decimal_digits(s),
        0 <= k <= s.len(),
    ensures
        decimal_value(s.subrange(0, k)) <= decimal_value(s),
    decreases s.len(),
{
    if k < s.len() {
        assert(s.drop_last().subrange(0, k) =~= s.subrange(0, k));
        lemma_decimal_value_prefix(s.drop_last(), k);
        lemma_decimal_value_nonneg(s.drop_last());
    } else {
        assert(s.subrange(0, k) =~= s);
    }
}

/// Reads an unsigned 64-bit number written in decimal, as `str::parse` does.
pub fn parse_u64(s: &str) -> (r: Option<u64>)
    ensures
        r == parse_u64_spec(s@),
{
    let len = s.unicode_len();
    let mut start: usize = 0;
    if len > 0 && s.get_char(0) == '+' {
        start = 1;
    }
    let ghost d = unsigned_digits(s@);
    assert(d =~= s@.subrange(start as int, len as int));
    if start == len {
        return None;
    }
    let mut acc: u64 = 0;
    let mut i: usize = start;
    while i < len
        invariant
            start <= i <= len,
            len == s@.len(),
            d == unsigned_digits(s@),
            d =~= s@.subrange(start as int, len as int),
            all_decimal_digits(d.subrange(0, i - start)),
            acc == decimal_value(d.subrange(0, i - start)),
        decreases len - i,
    {
        let c = s.get_char(i);
        if !('0' <= c && c <= '9') {
            assert(d[i - start] == c);
            assert(!all_decimal_digits(d));
            return None;
        }
        let digit = (c as u32 - '0' as u32) as u64;
        let ghost next = d.subrange(0, i + 1 - start);
        assert(next.drop_last() =~= d.subrange(0, i - start));
        assert(next.last() == c);
        assert(decimal_value(next) == acc * 10 + digit);
        let scaled = acc.checked_mul(10);
        if scaled.is_none() {
            proof {
                if all_decimal_digits(d) {
                    lemma_decimal_value_prefix(d, i + 1 - start);
                    assert(decimal_value(d) > u64::MAX);
                }
            }
            return None;
        }
        let sum = scaled.unwrap().checked_add(digit);
        if sum.is_none() {
            proof {
                if all_decimal_digits(d) {
                    lemma_decimal_value_prefix(d, i + 1 - start);
                }
            }
            return None;
        }
        acc = sum.unwrap();
        i = i + 1;
    }
    assert(d.subrange(0, len - start) =~= d);
    Some(acc)
}

/// Waiting `n` seconds is waiting `1000 * n` milliseconds.
pub proof fn seconds_are_thousand_millis(n: u64)
    requires
        n * 1000 <= u64::MAX,
    ensures
        (WaitFor::Duration { length: Duration::spec_from_secs(n) }) == (WaitFor::Duration {
            length: Duration::spec_from_millis((n * 1000) as u64),
        }),
{
    crate::duration::lemma_seconds_are_thousand_millis(n);
}

impl WaitFor {
    /// Waits for `message` on the container's standard output.
    pub fn message_on_stdout(message: &str) -> (r: WaitFor)
        ensures
            r matches WaitFor::StdOutMessage { message: m } && m@ == message@,
    {
        WaitFor::StdOutMessage { message: message.to_owned() }
    }

    /// Waits for `message` on the container's standard error.
    pub fn message_on_stderr(message: &str) -> (r: WaitFor)
        ensures
            r matches WaitFor::StdErrMessage { message: m } && m@ == message@,
    {
        WaitFor::StdErrMessage { message: message.to_owned() }
    }

    /// Waits `length` seconds.
    pub fn seconds(length: u64) -> (r: WaitFor)
        ensures
            r == (WaitFor::Duration { length: Duration::spec_from_secs(length) }),
            r->length.wf(),
            r->length.total_millis() == length * 1000,
    {
        WaitFor::Duration { length: Duration::from_secs(length) }
    }

    /// Waits `length` milliseconds.
    pub fn millis(length: u64) -> (r: WaitFor)
        ensures
            r == (WaitFor::Duration { length: Duration::spec_from_millis(length) }),
            r->length.wf(),
            r->length.total_millis() == length,
    {
        WaitFor::Duration { length: Duration::from_millis(length) }
    }

    /// Waits the number of milliseconds that an environment variable holds.
    /// `value` is what the environment holds under the variable's name, if
    /// anything. A missing value, or one that is no unsigned decimal number,
    /// gives `Nothing`.
    pub fn millis_in_env_var(value: Option<&str>) -> (r: WaitFor)
        ensures
            match value {
                Some(v) => match parse_u64_spec(v@) {
                    Some(n) => r == (WaitFor::Duration { length: Duration::spec_from_millis(n) })
                        && r->length.total_millis() == n,
                    None => r == WaitFor::Nothing,
                },
                None => r == WaitFor::Nothing,
            },
    {
        match value {
            Some(v) => match parse_u64(v) {
                Some(n) => WaitFor::millis(n),
                None => WaitFor::Nothing,
            },
            None => WaitFor::Nothing,
        }
    }
}

} // verus!
