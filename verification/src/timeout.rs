//! Parsing of the timeout argument.
//!
//! The accepted syntax is one or more decimal digits followed by the
//! letter `s`; the digits give the number of seconds. Any other string
//! is rejected, in which case the caller warns and a default of ten
//! seconds is used instead; a bad timeout string never aborts.

use vstd::prelude::*;

verus! {

/// Seconds used when the timeout string is rejected.
pub const DEFAULT_TIMEOUT_SECS: u64 = 10;

/// Whether `c` is a decimal digit.
pub open spec fn is_digit(c: char) -> bool {
    '0' as u32 <= c as u32 && c as u32 <= '9' as u32
}

/// The numeric value of the digit `c`.
pub open spec fn digit_value(c: char) -> int {
    c as u32 - '0' as u32
}

/// Whether every character of `s` is a decimal digit.
pub open spec fn all_digits(s: Seq<char>) -> bool {
    forall|i: int| 0 <= i < s.len() ==> is_digit(#[trigger] s[i])
}

/// The number a sequence of decimal digits denotes, most significant first.
pub open spec fn digits_value(s: Seq<char>) -> int
    decreases s.len(),
{
    if s.len() == 0 {
        0
    } else {
        10 * digits_value(s.drop_last()) + digit_value(s.last())
    }
}

/// Whether `s` has the accepted timeout syntax: at least one decimal
/// digit, followed by a final `s`.
pub open spec fn timeout_form_ok(s: Seq<char>) -> bool {
    &&& s.len() >= 2
    &&& s.last() == 's'
    &&& all_digits(s.drop_last())
}

/// Whether `s` is accepted as a timeout: the syntax is right and the
/// denoted number of seconds is representable.
pub open spec fn timeout_accepted(s: Seq<char>) -> bool {
    timeout_form_ok(s) && digits_value(s.drop_last()) <= u64::MAX
}

/// The seconds a timeout string yields: its digit value when accepted,
/// the default otherwise.
pub open spec fn timeout_secs_of(s: Seq<char>) -> int {
    if timeout_accepted(s) {
        digits_value(s.drop_last())
    } else {
        DEFAULT_TIMEOUT_SECS as int
    }
}

/// The outcome of reading a timeout argument: the seconds to use, and
/// whether the given string was accepted. When `accepted` is false the
/// seconds are the default and the caller is expected to warn.
pub struct TimeoutChoice {
    pub secs: u64,
    pub accepted: bool,
}

proof fn lemma_digits_value_nonneg(s: Seq<char>)
    requires
        all_digits(s),
    ensures
        digits_value(s) >= 0,
    decreases s.len(),
{
    if s.len() > 0 {
        assert(all_digits(s.drop_last()));
        lemma_digits_value_nonneg(s.drop_last());
    }
}

/// A digit string denotes at least as much as any of its prefixes.
proof fn lemma_digits_prefix_le(s: Seq<char>, j: int)
    requires
        all_digits(s),
        0 <= j <= s.len(),
    ensures
        digits_value(s.subrange(0, j)) <= digits_value(s),
    decreases s.len() - j,
{
    if j == s.len() {
        assert(s.subrange(0, j) =~= s);
    } else {
        let t = s.subrange(0, j + 1);
        assert(t.drop_last() =~= s.subrange(0, j));
        assert(all_digits(t.drop_last()));
        lemma_digits_value_nonneg(t.drop_last());
        assert(digits_value(t) == 10 * digits_value(s.subrange(0, j)) + digit_value(t.last()));
        lemma_digits_prefix_le(s, j + 1);
    }
}

/// Parse a timeout argument. The seconds equal the digit value exactly
/// for every accepted string; every other string yields the default.
pub fn parse_timeout(timeout: &str) -> (r: TimeoutChoice)
    ensures
        r.accepted == timeout_accepted(timeout@),
        r.secs == timeout_secs_of(timeout@),
{
    let n: usize = timeout.unicode_len();
    if n < 2 || timeout.get_char(n - 1) != 's' {
        return TimeoutChoice { secs: DEFAULT_TIMEOUT_SECS, accepted: false };
    }
    let ghost digits: Seq<char> = timeout@.drop_last();
    assert(digits =~= timeout@.subrange(0, n - 1));
    let mut value: u64 = 0;
    let mut i: usize = 0;
    while i < n - 1
        invariant
            2 <= n == timeout@.len(),
            0 <= i <= n - 1,
            digits =~= timeout@.subrange(0, n - 1),
            all_digits(digits.subrange(0, i as int)),
            value == digits_value(digits.subrange(0, i as int)),
        decreases n - 1 - i,
    {
        let c = timeout.get_char(i);
        let cu: u32 = c as u32;
        if cu < '0' as u32 || cu > '9' as u32 {
            assert(!is_digit(digits[i as int]));
            return TimeoutChoice { secs: DEFAULT_TIMEOUT_SECS, accepted: false };
        }
        let d: u64 = (cu - '0' as u32) as u64;
        let ghost prefix = digits.subrange(0, i as int);
        let ghost extended = digits.subrange(0, i + 1);
        assert(extended.drop_last() =~= prefix);
        assert(digits_value(extended) == 10 * digits_value(prefix) + digit_value(digits[i as int]));
        if value > u64::MAX / 10 || 10 * value > u64::MAX - d {
            proof {
                if timeout_form_ok(timeout@) {
                    lemma_digits_prefix_le(digits, i + 1);
                }
            }
            return TimeoutChoice { secs: DEFAULT_TIMEOUT_SECS, accepted: false };
        }
        value = 10 * value + d;
        i = i + 1;
    }
    assert(digits.subrange(0, n - 1) =~= digits);
    TimeoutChoice { secs: value, accepted: true }
}

} // verus!
