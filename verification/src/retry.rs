//! Retry policy of the transport: which responses are retried, how long to
//! wait, and when to give up.

use vstd::prelude::*;
use crate::text::{chars_of, parse_u64_chars, spec_parse_u64, str_eq, digits_value, unsigned_digits, is_digit, lemma_digits_value_nonneg};

verus! {

/// `2` to the power `n`.
pub open spec fn pow2(n: nat) -> nat
    decreases n,
{
    if n == 0 {
        1
    } else {
        2 * pow2((n - 1) as nat)
    }
}

/// A status that the transport retries: 408, 409, 429 or any 5xx.
pub open spec fn is_retryable_status(status: u16) -> bool {
    status == 408 || status == 409 || status == 429 || (500 <= status <= 599)
}

/// Whether a response is retried: an `x-should-retry` header of `true` or
/// `false` decides; otherwise the status does.
pub open spec fn spec_should_retry(status: u16, should_retry_header: Option<Seq<char>>) -> bool {
    match should_retry_header {
        Some(h) => if h == "true"@ {
            true
        } else if h == "false"@ {
            false
        } else {
            is_retryable_status(status)
        },
        None => is_retryable_status(status),
    }
}

/// Whether a response with `status` and the given `x-should-retry` header
/// value should be retried.
pub fn should_retry(status: u16, should_retry_header: Option<&str>) -> (r: bool)
    ensures
        r == spec_should_retry(
            status,
            match should_retry_header {
                Some(h) => Some(h@),
                None => None,
            },
        ),
{
    match should_retry_header {
        Some(h) => {
            if str_eq(h, "true") {
                return true;
            }
            if str_eq(h, "false") {
                return false;
            }
        },
        None => {},
    }
    status == 408 || status == 409 || status == 429 || (500 <= status && status <= 599)
}

/// The exponential backoff in milliseconds: 500 ms doubled per attempt (at
/// most ten doublings), capped at 8 s.
pub open spec fn backoff_ms(attempt: u32) -> int {
    let e = if attempt < 10 {
        attempt as nat
    } else {
        10nat
    };
    let d: int = 500 * (pow2(e) as int);
    if d < 8000 {
        d
    } else {
        8000
    }
}

/// The wait before the next attempt: the server's delay when it is more than
/// zero and at most 60 s, otherwise the exponential backoff.
pub open spec fn spec_retry_delay_ms(attempt: u32, server_delay_ms: Option<u128>) -> int {
    match server_delay_ms {
        Some(d) => if 0 < d <= 60000 {
            d as int
        } else {
            backoff_ms(attempt)
        },
        None => backoff_ms(attempt),
    }
}

/// Computes the wait in milliseconds before retrying after `attempt`
/// attempts, given the delay the server asked for.
pub fn retry_delay_ms(attempt: u32, server_delay_ms: Option<u128>) -> (ms: u64)
    ensures
        ms == spec_retry_delay_ms(attempt, server_delay_ms),
{
    if let Some(d) = server_delay_ms {
        if 0 < d && d <= 60000 {
            return d as u64;
        }
    }
    let e: u32 = if attempt < 10 { attempt } else { 10 };
    let mut factor: u64 = 1;
    let mut k: u32 = 0;
    while k < e
        invariant
            k <= e <= 10,
            factor == pow2(k as nat),
            factor <= 1024,
        decreases e - k,
    {
        proof {
            lemma_pow2_le_1024(k as nat + 1);
        }
        factor = factor * 2;
        k = k + 1;
    }
    let d = 500 * factor;
    if d < 8000 {
        d
    } else {
        8000
    }
}

proof fn lemma_pow2_le_1024(n: nat)
    requires
        n <= 10,
    ensures
        pow2(n) <= 1024,
        pow2(n) >= 1,
{
    reveal_with_fuel(pow2, 11);
    assert(pow2(10) == 1024);
    lemma_pow2_mono(n, 10);
    lemma_pow2_mono(0, n);
}

/// The delay a response asks for: `retry-after-ms` in milliseconds when it
/// parses as an integer, else `retry-after` in whole seconds.
pub open spec fn spec_parse_retry_after(retry_after_ms: Option<Seq<char>>, retry_after: Option<Seq<char>>) -> Option<u128> {
    let ms = match retry_after_ms {
        Some(h) => spec_parse_u64(h),
        None => None,
    };
    match ms {
        Some(v) => Some(v as u128),
        None => match retry_after {
            Some(h) => match spec_parse_u64(h) {
                Some(s) => Some((s * 1000) as u128),
                None => None,
            },
            None => None,
        },
    }
}

/// Reads the server's retry delay, in milliseconds, from the values of the
/// `retry-after-ms` and `retry-after` headers.
pub fn parse_retry_after(retry_after_ms: Option<&str>, retry_after: Option<&str>) -> (r: Option<u128>)
    ensures
        r == spec_parse_retry_after(
            match retry_after_ms {
                Some(h) => Some(h@),
                None => None,
            },
            match retry_after {
                Some(h) => Some(h@),
                None => None,
            },
        ),
{
    let ms = match retry_after_ms {
        Some(h) => parse_u64_chars(&chars_of(h)),
        None => None,
    };
    match ms {
        Some(v) => Some(v as u128),
        None => match retry_after {
            Some(h) => match parse_u64_chars(&chars_of(h)) {
                Some(s) => Some(s as u128 * 1000),
                None => None,
            },
            None => None,
        },
    }
}

/// How one attempt of a request ended.
#[derive(Debug, Clone, PartialEq, Eq)]
pub enum AttemptOutcome {
    /// A response arrived, with the headers that steer retrying.
    Response {
        status: u16,
        should_retry_header: Option<String>,
        retry_after_ms: Option<String>,
        retry_after: Option<String>,
    },
    /// The request failed before a response; `retryable` when it timed out
    /// or could not connect.
    Failed { retryable: bool },
}

/// What the transport does after an attempt.
#[derive(Debug, Clone, PartialEq, Eq)]
pub enum RetryAction {
    /// Wait `delay_ms`, then make attempt number `next_attempt`.
    Retry { delay_ms: u64, next_attempt: u32 },
    /// Hand the outcome to the caller.
    Finish,
}

/// The transport's decision after attempt `attempt` (counted from 0) ended
/// with `outcome`, while retries are left: a response whose
/// `x-should-retry` header is `true` is retried at once; another retried
/// response (see `spec_should_retry`) after the server's delay or the
/// backoff; a timeout or connection failure after the backoff.
pub open spec fn spec_next_action(attempt: u32, max_retries: u32, outcome: AttemptOutcome) -> RetryAction {
    if attempt >= max_retries {
        RetryAction::Finish
    } else {
        match outcome {
            AttemptOutcome::Response { status, should_retry_header, retry_after_ms, retry_after } => {
                if crate::text::opt_chars(should_retry_header) == Some("true"@) {
                    RetryAction::Retry { delay_ms: 0, next_attempt: (attempt + 1) as u32 }
                } else if spec_should_retry(status, crate::text::opt_chars(should_retry_header)) {
                    RetryAction::Retry {
                        delay_ms: spec_retry_delay_ms(
                            attempt,
                            spec_parse_retry_after(
                                crate::text::opt_chars(retry_after_ms),
                                crate::text::opt_chars(retry_after),
                            ),
                        ) as u64,
                        next_attempt: (attempt + 1) as u32,
                    }
                } else {
                    RetryAction::Finish
                }
            },
            AttemptOutcome::Failed { retryable } => if retryable {
                RetryAction::Retry {
                    delay_ms: backoff_ms(attempt) as u64,
                    next_attempt: (attempt + 1) as u32,
                }
            } else {
                RetryAction::Finish
            },
        }
    }
}

fn opt_str(o: &Option<String>) -> (r: Option<&str>)
    ensures
        match r {
            Some(s) => o matches Some(x) && x@ == s@,
            None => o is None,
        },
{
    match o {
        Some(s) => Some(s.as_str()),
        None => None,
    }
}

/// Decides, after attempt `attempt` ended with `outcome`, whether to retry
/// (and after what delay) or to finish.
pub fn next_action(attempt: u32, max_retries: u32, outcome: &AttemptOutcome) -> (a: RetryAction)
    ensures
        a == spec_next_action(attempt, max_retries, *outcome),
{
    if attempt >= max_retries {
        return RetryAction::Finish;
    }
    match outcome {
        AttemptOutcome::Response { status, should_retry_header, retry_after_ms, retry_after } => {
            let header = opt_str(should_retry_header);
            let asked = match header {
                Some(h) => str_eq(h, "true"),
                None => false,
            };
            if asked {
                RetryAction::Retry { delay_ms: 0, next_attempt: attempt + 1 }
            } else if should_retry(*status, header) {
                let server = parse_retry_after(opt_str(retry_after_ms), opt_str(retry_after));
                RetryAction::Retry {
                    delay_ms: retry_delay_ms(attempt, server),
                    next_attempt: attempt + 1,
                }
            } else {
                RetryAction::Finish
            }
        },
        AttemptOutcome::Failed { retryable } => {
            if *retryable {
                RetryAction::Retry { delay_ms: retry_delay_ms(attempt, None), next_attempt: attempt + 1 }
            } else {
                RetryAction::Finish
            }
        },
    }
}

proof fn lemma_pow2_mono(a: nat, b: nat)
    requires
        a <= b,
    ensures
        pow2(a) <= pow2(b),
    decreases b,
{
    if a < b {
        lemma_pow2_mono(a, (b - 1) as nat);
    }
}

/// The backoff grows with the attempt number, starts at 500 ms and never
/// exceeds 8 s.
pub proof fn law_backoff_bounded_monotone(a: u32, b: u32)
    requires
        a <= b,
    ensures
        500 <= backoff_ms(a) <= backoff_ms(b) <= 8000,
{
    let ea: nat = if a < 10 { a as nat } else { 10nat };
    let eb: nat = if b < 10 { b as nat } else { 10nat };
    lemma_pow2_mono(ea, eb);
    lemma_pow2_le_1024(ea);
}

/// Every wait taken from the server's delay or the backoff lies between
/// 1 ms and 60 s.
pub proof fn law_retry_delay_bounded(attempt: u32, server_delay_ms: Option<u128>)
    ensures
        1 <= spec_retry_delay_ms(attempt, server_delay_ms) <= 60000,
{
    law_backoff_bounded_monotone(attempt, attempt);
}

/// A request is sent at most `max_retries + 1` times: a retry is only
/// decided while the attempt number is below `max_retries`, and it moves to
/// the next attempt number.
pub proof fn law_retries_bounded(attempt: u32, max_retries: u32, outcome: AttemptOutcome)
    ensures
        spec_next_action(attempt, max_retries, outcome) matches RetryAction::Retry {
            next_attempt,
            ..
        } ==> attempt < max_retries && next_attempt == attempt + 1 && next_attempt <= max_retries,
{
}

/// A status the older HTTP core retries: 408, 429 or any 5xx.
pub open spec fn is_core_retryable_status(status: u16) -> bool {
    status == 408 || status == 429 || (500 <= status <= 599)
}

/// Whether the older HTTP core retries a response with `status`.
pub fn core_should_retry(status: u16) -> (r: bool)
    ensures
        r == is_core_retryable_status(status),
{
    status == 408 || status == 429 || (500 <= status && status <= 599)
}

/// The older HTTP core's wait before retry number `attempt`:
/// `100 ms * 2^(attempt - 1)`, saturating at `u64::MAX`.
pub open spec fn spec_core_retry_delay_ms(attempt: u32) -> int {
    let e: nat = if attempt == 0 {
        0
    } else {
        (attempt - 1) as nat
    };
    let d: int = 100 * (pow2(e) as int);
    if d <= u64::MAX {
        d
    } else {
        u64::MAX as int
    }
}

/// Computes the older HTTP core's retry wait in milliseconds.
pub fn core_retry_delay_ms(attempt: u32) -> (ms: u64)
    ensures
        ms == spec_core_retry_delay_ms(attempt),
{
    let e: u32 = if attempt == 0 { 0 } else { attempt - 1 };
    let mut p: u64 = 1;
    let mut k: u32 = 0;
    let mut saturated = false;
    while k < e
        invariant
            k <= e,
            !saturated ==> p == pow2(k as nat),
            saturated ==> pow2(k as nat) > u64::MAX && p == u64::MAX,
        decreases e - k,
    {
        if saturated || p > u64::MAX / 2 {
            proof {
                lemma_pow2_mono(k as nat, k as nat + 1);
            }
            saturated = true;
            p = u64::MAX;
        } else {
            p = p * 2;
        }
        k = k + 1;
    }
    if saturated || p > u64::MAX / 100 {
        proof {
            if !saturated {
                assert(100 * pow2(e as nat) > u64::MAX);
            }
        }
        u64::MAX
    } else {
        100 * p
    }
}


/// The older HTTP core's decision after attempt `attempt` (counted from 0)
/// ended with `outcome`: a retryable status (408, 429, 5xx) or a timeout or
/// connection failure is retried while fewer than `max_retries` retries were
/// made, after the wait of the next attempt; anything else is handed back.
/// Retry headers play no part here.
pub open spec fn spec_core_next_action(attempt: u32, max_retries: u32, outcome: AttemptOutcome) -> RetryAction {
    let retryable = match outcome {
        AttemptOutcome::Response { status, .. } => is_core_retryable_status(status),
        AttemptOutcome::Failed { retryable } => retryable,
    };
    if retryable && attempt < max_retries {
        RetryAction::Retry {
            delay_ms: spec_core_retry_delay_ms((attempt + 1) as u32) as u64,
            next_attempt: (attempt + 1) as u32,
        }
    } else {
        RetryAction::Finish
    }
}

/// Decides, for the older HTTP core, whether to retry after attempt
/// `attempt` ended with `outcome`.
pub fn core_next_action(attempt: u32, max_retries: u32, outcome: &AttemptOutcome) -> (a: RetryAction)
    ensures
        a == spec_core_next_action(attempt, max_retries, *outcome),
{
    let retryable = match outcome {
        AttemptOutcome::Response { status, .. } => core_should_retry(*status),
        AttemptOutcome::Failed { retryable } => *retryable,
    };
    if retryable && attempt < max_retries {
        let next: u32 = attempt + 1;
        RetryAction::Retry { delay_ms: core_retry_delay_ms(next), next_attempt: next }
    } else {
        RetryAction::Finish
    }
}

/// The older HTTP core also sends a request at most `max_retries + 1`
/// times: it retries only below `max_retries`, moving to the next attempt.
pub proof fn law_core_retries_bounded(attempt: u32, max_retries: u32, outcome: AttemptOutcome)
    ensures
        spec_core_next_action(attempt, max_retries, outcome) matches RetryAction::Retry {
            next_attempt,
            ..
        } ==> attempt < max_retries && next_attempt == attempt + 1 && next_attempt <= max_retries,
{
}

proof fn lemma_digits_times_thousand(d: Seq<char>)
    ensures
        d + "000"@ == d.push('0').push('0').push('0'),
        digits_value(d + "000"@) == 1000 * digits_value(d),
{
    reveal_strlit("000");
    let z1 = d.push('0');
    let z2 = z1.push('0');
    let z3 = z2.push('0');
    assert(d + "000"@ =~= z3);
    assert(z1.drop_last() =~= d);
    assert(z2.drop_last() =~= z1);
    assert(z3.drop_last() =~= z2);
    assert(z1.last() == '0');
    assert(z2.last() == '0');
    assert(z3.last() == '0');
    assert(digits_value(z1) == digits_value(d) * 10);
    assert(digits_value(z2) == digits_value(z1) * 10);
    assert(digits_value(z3) == digits_value(z2) * 10);
}

/// `retry-after` counts whole seconds: without `retry-after-ms`, a value
/// that reads as `s` asks for `s * 1000` ms, the same delay as a
/// `retry-after-ms` of the same digits followed by three zeros.
pub proof fn law_retry_after_is_seconds(h: Seq<char>)
    requires
        spec_parse_u64(h) is Some,
        spec_parse_u64(h)->0 * 1000 <= u64::MAX,
    ensures
        spec_parse_retry_after(None, Some(h)) == Some((spec_parse_u64(h)->0 * 1000) as u128),
        spec_parse_retry_after(None, Some(h)) == spec_parse_retry_after(Some(h + "000"@), None),
{
    reveal_strlit("000");
    let d = unsigned_digits(h);
    let h3 = h + "000"@;
    lemma_digits_times_thousand(d);
    lemma_digits_value_nonneg(d);
    assert(spec_parse_u64(h)->0 == digits_value(d));
    assert(d.len() > 0);
    assert(h.len() > 0);
    assert(h3[0] == h[0]);
    if h[0] == '+' {
        assert(h3.skip(1) =~= h.skip(1) + "000"@);
    }
    assert(unsigned_digits(h3) == d + "000"@);
    let d3 = d + "000"@;
    assert forall|i: int| 0 <= i < d3.len() implies is_digit(#[trigger] d3[i]) by {
        if i >= d.len() {
            assert(d3[i] == "000"@[i - d.len()]);
        } else {
            assert(d3[i] == d[i]);
        }
    }
    assert(digits_value(d3) == 1000 * digits_value(d));
    assert(spec_parse_u64(h3) == Some((1000 * digits_value(d)) as u64));
}

/// A retryable response whose `retry-after` reads as `s` seconds, for `s`
/// from 1 to 60, is retried after `s * 1000` ms.
pub proof fn law_retry_after_wait(attempt: u32, max_retries: u32, status: u16, h: String)
    requires
        attempt < max_retries,
        is_retryable_status(status),
        spec_parse_u64(h@) matches Some(s) && 1 <= s <= 60,
    ensures
        spec_next_action(
            attempt,
            max_retries,
            AttemptOutcome::Response {
                status,
                should_retry_header: None,
                retry_after_ms: None,
                retry_after: Some(h),
            },
        ) == (RetryAction::Retry {
            delay_ms: (spec_parse_u64(h@)->0 * 1000) as u64,
            next_attempt: (attempt + 1) as u32,
        }),
{
    law_retry_after_is_seconds(h@);
}

/// The backoff starts at 500 ms and doubles with each attempt until it
/// reaches 8 s, where it stays.
pub proof fn law_backoff_doubles(attempt: u32)
    ensures
        backoff_ms(0) == 500,
        attempt < u32::MAX ==> backoff_ms((attempt + 1) as u32) == if 2 * backoff_ms(attempt) < 8000 {
            2 * backoff_ms(attempt)
        } else {
            8000
        },
{
    reveal_with_fuel(pow2, 11);
    lemma_pow2_le_1024(0);
    if attempt < u32::MAX {
        let next = (attempt + 1) as u32;
        if attempt < 10 {
            assert(pow2((attempt + 1) as nat) == 2 * pow2(attempt as nat));
            lemma_pow2_le_1024(attempt as nat);
            if attempt >= 4 {
                lemma_pow2_mono(4, attempt as nat);
                assert(pow2(4) == 16);
            } else if attempt == 3 {
                assert(pow2(3) == 8);
                assert(pow2(4) == 16);
            }
        } else {
            lemma_pow2_mono(4, 10);
            assert(pow2(4) == 16);
        }
    }
}

/// Which responses are retried: an `x-should-retry` header of `true` always,
/// one of `false` never; otherwise exactly the statuses 408, 409, 429 and
/// 500 to 599.
pub proof fn law_retried_statuses(status: u16, header: Option<Seq<char>>)
    ensures
        header == Some("true"@) ==> spec_should_retry(status, header),
        header == Some("false"@) ==> !spec_should_retry(status, header),
        header is None ==> (spec_should_retry(status, header) <==> (status == 408 || status == 409
            || status == 429 || (500 <= status && status < 600))),
{
    reveal_strlit("true");
    reveal_strlit("false");
    assert("true"@.len() != "false"@.len());
}

/// A server delay of more than zero and at most 60 s is waited as it is;
/// any other falls back to the backoff of the attempt.
pub proof fn law_server_delay_honoured(attempt: u32, server_delay_ms: u128)
    ensures
        0 < server_delay_ms <= 60000 ==> spec_retry_delay_ms(attempt, Some(server_delay_ms)) == server_delay_ms,
        !(0 < server_delay_ms <= 60000) ==> spec_retry_delay_ms(attempt, Some(server_delay_ms)) == spec_retry_delay_ms(
            attempt,
            None,
        ),
        spec_retry_delay_ms(attempt, None) == backoff_ms(attempt),
{
}

/// The older HTTP core waits 100 ms before its first retry and twice as long
/// before each further one, up to the largest `u64`.
pub proof fn law_core_delay_doubles(attempt: u32)
    ensures
        spec_core_retry_delay_ms(1) == 100,
        1 <= attempt < u32::MAX ==> spec_core_retry_delay_ms((attempt + 1) as u32) == if 2
            * spec_core_retry_delay_ms(attempt) <= u64::MAX {
            2 * spec_core_retry_delay_ms(attempt)
        } else {
            u64::MAX as int
        },
{
    reveal_with_fuel(pow2, 2);
    if 1 <= attempt < u32::MAX {
        let e = (attempt - 1) as nat;
        assert(pow2(e + 1) == 2 * pow2(e));
        let d = 100 * (pow2(e) as int);
        if d > u64::MAX {
            assert(2 * d > u64::MAX);
        }
    }
}

/// While retries are left, a response whose `x-should-retry` header is
/// `true` is retried at once, whatever its status and delay headers; one
/// whose header is `false` is handed back.
pub proof fn law_should_retry_header(
    attempt: u32,
    max_retries: u32,
    status: u16,
    header: String,
    retry_after_ms: Option<String>,
    retry_after: Option<String>,
)
    requires
        attempt < max_retries,
    ensures
        header@ == "true"@ ==> spec_next_action(
            attempt,
            max_retries,
            AttemptOutcome::Response { status, should_retry_header: Some(header), retry_after_ms, retry_after },
        ) == (RetryAction::Retry { delay_ms: 0, next_attempt: (attempt + 1) as u32 }),
        header@ == "false"@ ==> spec_next_action(
            attempt,
            max_retries,
            AttemptOutcome::Response { status, should_retry_header: Some(header), retry_after_ms, retry_after },
        ) == RetryAction::Finish,
{
    reveal_strlit("true");
    reveal_strlit("false");
    assert("true"@.len() != "false"@.len());
}

} // verus!
