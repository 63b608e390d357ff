//! Token lifetimes: the decimal text of `expires_in` and the decision
//! whether a token is due for renewal.
use vstd::prelude::*;

verus! {

/// `c` is an ASCII decimal digit.
pub open spec fn is_digit(c: char) -> bool {
    '0' <= c && c <= '9'
}

/// The value of the decimal digit `c`.
pub open spec fn digit_value(c: char) -> nat {
    (c as int - '0' as int) as nat
}

/// `s` is a non-empty run of decimal digits.
pub open spec fn is_decimal(s: Seq<char>) -> bool {
    s.len() > 0 && forall|i: int| 0 <= i < s.len() ==> is_digit(#[trigger] s[i])
}

/// The number that the digits of `s` denote, most significant first.
pub open spec fn decimal_value(s: Seq<char>) -> nat
    decreases s.len(),
{
    if s.len() == 0 {
        0
    } else {
        decimal_value(s.drop_last()) * 10 + digit_value(s.last())
    }
}

/// The number of seconds that the text `s` states, where it states one that
/// fits in a `u64`.
pub open spec fn seconds_of(s: Seq<char>) -> Option<nat> {
    if is_decimal(s) && decimal_value(s) <= u64::MAX {
        Some(decimal_value(s))
    } else {
        None
    }
}

/// Seconds from `since` to `now` on a monotonic clock; zero where `now`
/// lies before `since`.
pub open spec fn elapsed(since: u64, now: u64) -> nat {
    if now >= since {
        (now - since) as nat
    } else {
        0
    }
}

/// Whether a token whose lifetime reads `expires_in`, obtained at `since`,
/// is due for renewal at `now`: due once the elapsed seconds reach the
/// lifetime. A lifetime that is not a decimal number of seconds is reported.
pub open spec fn renewal_due_of(expires_in: Seq<char>, since: u64, now: u64) -> Result<bool, DataError> {
    match seconds_of(expires_in) {
        Some(n) => Ok(elapsed(since, now) >= n),
        None => Err(DataError::InvalidExpiresIn),
    }
}

/// The token's `expires_in` text is not a number of seconds.
#[derive(Debug, Clone, Copy, PartialEq, Eq, Structural)]
pub enum DataError {
    InvalidExpiresIn,
}

proof fn lemma_prefix_value_le(s: Seq<char>, k: int)
    requires
        0 <= k <= s.len(),
    ensures
        decimal_value(s.subrange(0, k)) <= decimal_value(s),
    decreases s.len(),
{
    if k < s.len() {
        lemma_prefix_value_le(s.drop_last(), k);
        assert(s.drop_last().subrange(0, k) =~= s.subrange(0, k));
    } else {
        assert(s.subrange(0, k) =~= s);
    }
}

/// Reads a decimal number of seconds: `None` for text that is empty, holds
/// anything but the digits `0` to `9`, or names more than `u64::MAX`.
pub fn parse_seconds(s: &str) -> (r: Option<u64>)
    ensures
        match r {
            Some(v) => seconds_of(s@) == Some(v as nat),
            None => seconds_of(s@) is None,
        },
{
    let n = s.unicode_len();
    if n == 0 {
        return None;
    }
    let mut acc: u64 = 0;
    let mut i: usize = 0;
    while i < n
        invariant
            n == s@.len(),
            i <= n,
            acc as nat == decimal_value(s@.subrange(0, i as int)),
            forall|j: int| 0 <= j < i ==> is_digit(#[trigger] s@[j]),
        decreases n - i,
    {
        let c = s.get_char(i);
        if c < '0' || c > '9' {
            return None;
        }
        let d: u64 = (c as u64) - ('0' as u64);
        proof {
            let p = s@.subrange(0, i as int + 1);
            assert(p.drop_last() =~= s@.subrange(0, i as int));
            assert(p.last() == c);
            assert(decimal_value(p) == acc * 10 + d);
        }
        let next = match acc.checked_mul(10) {
            Some(m) => m.checked_add(d),
            None => None,
        };
        match next {
            Some(v) => {
                acc = v;
            },
            None => {
                proof {
                    lemma_prefix_value_le(s@, i as int + 1);
                }
                return None;
            },
        }
        i = i + 1;
    }
    proof {
        assert(s@.subrange(0, n as int) =~= s@);
    }
    Some(acc)
}

/// Whether a token with lifetime `expires_in`, obtained at `since`, is due
/// for renewal at `now` (seconds on one monotonic clock). It is due once the
/// elapsed seconds reach the lifetime, the boundary included. Text that is
/// not a number of seconds gives `Err(DataError::InvalidExpiresIn)`.
pub fn renewal_due(expires_in: &str, since: u64, now: u64) -> (r: Result<bool, DataError>)
    ensures
        r == renewal_due_of(expires_in@, since, now),
{
    match parse_seconds(expires_in) {
        Some(lifetime) => {
            let passed: u64 = if now >= since {
                now - since
            } else {
                0
            };
            Ok(passed >= lifetime)
        },
        None => Err(DataError::InvalidExpiresIn),
    }
}

/// A token is due for renewal exactly when the elapsed seconds reach its
/// lifetime; in particular it is due when they equal it.
pub proof fn renewal_due_at_lifetime(expires_in: Seq<char>, since: u64, now: u64)
    requires
        seconds_of(expires_in) is Some,
    ensures
        renewal_due_of(expires_in, since, now) == Ok::<bool, DataError>(
            elapsed(since, now) >= seconds_of(expires_in)->Some_0,
        ),
        elapsed(since, now) == seconds_of(expires_in)->Some_0 ==> renewal_due_of(
            expires_in,
            since,
            now,
        ) == Ok::<bool, DataError>(true),
{
}

} // verus!
