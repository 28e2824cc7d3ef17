//! Exponential backoff for failed jobs: ten seconds, doubled per attempt,
//! plus up to a quarter of that as random jitter, never more than one hour.

use vstd::prelude::*;
use vstd::arithmetic::power2::{pow2, lemma_pow2_unfold, lemma_pow2_pos, lemma_pow2_strictly_increases, lemma2_to64};
use crate::time::{Timestamp, clock_reading, later_by, last_instant, lemma_instant_at, lemma_instant_at_total, chrono_delay, now};

verus! {

/// The smaller of two integers.
pub open spec fn min_int(a: int, b: int) -> int {
    if a <= b { a } else { b }
}

/// Backoff before the retry that follows `attempts` failed attempts, in
/// seconds: `10 * 2^attempts`, capped at 3600.
pub open spec fn backoff_spec(attempts: nat) -> int {
    min_int(10 * pow2(attempts) as int, 3600)
}

/// The retry delay in seconds: the backoff plus `random` reduced modulo a
/// quarter of the backoff plus one, at most one hour.
pub open spec fn retry_delay_spec(attempts: nat, random: u64) -> int {
    min_int(backoff_spec(attempts) + random % (backoff_spec(attempts) / 4 + 1) as u64, 3600)
}

/// When a job that has failed `attempts` times is retried, given the clock
/// reading `now` and the random draw `random`.
pub open spec fn retry_at_spec(now: Timestamp, attempts: nat, random: u64) -> Timestamp {
    later_by(now, retry_delay_spec(attempts, random) * 1_000_000_000)
}

/// The backoff in seconds before the next retry of a job that has failed
/// `attempts` times.
pub fn backoff_secs(attempts: u32) -> (b: u64)
    ensures
        b == backoff_spec(attempts as nat),
{
    let mut b: u64 = 10;
    let mut i: u32 = 0;
    proof {
        lemma2_to64();
    }
    while i < attempts && b < 3600
        invariant
            i <= attempts,
            b == 10 * pow2(i as nat),
            b < 7200,
        decreases attempts - i,
    {
        proof {
            lemma_pow2_unfold((i + 1) as nat);
        }
        b = b * 2;
        i = i + 1;
    }
    proof {
        if i < attempts {
            lemma_pow2_strictly_increases(i as nat, attempts as nat);
        }
    }
    if b > 3600 {
        3600
    } else {
        b
    }
}

/// The retry delay in seconds for a job that has failed `attempts` times,
/// with `random` as the source of jitter.
pub fn retry_delay_secs(attempts: u32, random: u64) -> (d: u64)
    ensures
        d == retry_delay_spec(attempts as nat, random),
        10 <= d <= 3600,
{
    let backoff = backoff_secs(attempts);
    proof {
        lemma_backoff_shape(attempts as nat);
    }
    let jitter = random % (backoff / 4 + 1);
    let d = backoff + jitter;
    if d > 3600 {
        3600
    } else {
        d
    }
}

/// When to retry a job that has failed `attempts` times, from the clock
/// reading `now` and the random draw `random`.
pub fn next_retry_at_from(now: Timestamp, attempts: u32, random: u64) -> (t: Timestamp)
    ensures
        t == retry_at_spec(now, attempts as nat, random),
{
    let delay = retry_delay_secs(attempts, random);
    match chrono_delay(delay, 0) {
        Some((s, n)) => now.plus(s, n),
        None => now,
    }
}

/// A random `u64` from the thread-local generator.
///
/// Calls `rand::random::<u64>()`. Nothing is promised of the value.
#[verifier::external_body]
fn random_u64() -> (r: u64) {
    rand::random::<u64>()
}

/// When to retry a job that has failed `attempts` times: now plus the
/// backoff and a random jitter. The clock reading and the draw are not known
/// to the caller; the result is the retry time for some pair of them.
pub fn next_retry_at(attempts: u32) -> (t: Timestamp)
    ensures
        exists|n: Timestamp, r: u64| clock_reading(n) && #[trigger] retry_at_spec(n, attempts as nat, r) == t,
{
    let random = random_u64();
    let n = now();
    next_retry_at_from(n, attempts, random)
}

/// The backoff never shrinks as attempts accumulate.
pub proof fn lemma_backoff_monotone(a: nat, b: nat)
    requires
        a <= b,
    ensures
        backoff_spec(a) <= backoff_spec(b),
{
    if a < b {
        lemma_pow2_strictly_increases(a, b);
    }
}

/// The backoff is exactly `10 * 2^attempts` seconds through eight attempts
/// and one hour from the ninth on.
pub proof fn lemma_backoff_shape(a: nat)
    ensures
        a <= 8 ==> backoff_spec(a) == 10 * pow2(a),
        a >= 9 ==> backoff_spec(a) == 3600,
        backoff_spec(a) >= 10,
        backoff_spec(a) <= 3600,
{
    lemma2_to64();
    lemma_pow2_pos(a);
    if a < 8 {
        lemma_pow2_strictly_increases(a, 8);
    } else if a > 9 {
        lemma_pow2_strictly_increases(9, a);
    }
}

/// The delay is the backoff plus at most a quarter of it, and never more
/// than an hour.
pub proof fn lemma_delay_bounds(a: nat, r: u64)
    ensures
        backoff_spec(a) <= retry_delay_spec(a, r) <= backoff_spec(a) + backoff_spec(a) / 4,
        retry_delay_spec(a, r) <= 3600,
{
    lemma_backoff_shape(a);
}

/// Through the ninth attempt, every retry of a later attempt comes strictly
/// after every retry of the attempt before it (for one and the same clock
/// reading, away from the end of the time range).
pub proof fn lemma_later_attempt_retries_later(now: Timestamp, a: nat, r1: u64, r2: u64)
    requires
        a <= 8,
        now.total_nanos() + 3_600_000_000_000 <= last_instant().total_nanos(),
    ensures
        retry_at_spec(now, a, r1).total_nanos() < retry_at_spec(now, a + 1, r2).total_nanos(),
{
    lemma2_to64();
    lemma_backoff_shape(a);
    lemma_backoff_shape(a + 1);
    lemma_pow2_unfold(a + 1);
    lemma_delay_bounds(a, r1);
    lemma_delay_bounds(a + 1, r2);
    let d1 = retry_delay_spec(a, r1);
    let d2 = retry_delay_spec(a + 1, r2);
    assert(d1 < d2);
    lemma_instant_at_total(now.total_nanos() + d1 * 1_000_000_000);
    lemma_instant_at_total(now.total_nanos() + d2 * 1_000_000_000);
}

/// A retry is scheduled between ten seconds and one hour after the clock
/// reading it was computed from (away from the end of the time range).
pub proof fn lemma_retry_in_the_future(now: Timestamp, a: nat, r: u64)
    requires
        now.total_nanos() + 3_600_000_000_000 <= last_instant().total_nanos(),
    ensures
        now.total_nanos() + 10_000_000_000 <= retry_at_spec(now, a, r).total_nanos()
            <= now.total_nanos() + 3_600_000_000_000,
        now.nanos < 1_000_000_000 ==> retry_at_spec(now, a, r).nanos == now.nanos,
{
    lemma_backoff_shape(a);
    lemma_delay_bounds(a, r);
    lemma_instant_at_total(now.total_nanos() + retry_delay_spec(a, r) * 1_000_000_000);
    if now.nanos < 1_000_000_000 {
        lemma_instant_at(now.secs + retry_delay_spec(a, r), now.nanos as int);
    }
}

/// From any reading of the clock, a retry of a job that has failed
/// `attempts` times is scheduled after exactly its delay: at least the
/// backoff, at most the backoff and a quarter of it, never more than an
/// hour, keeping the reading's nanoseconds.
pub proof fn lemma_retry_from_a_clock_reading(now: Timestamp, attempts: nat, r: u64)
    requires
        clock_reading(now),
    ensures
        retry_at_spec(now, attempts, r).total_nanos() == now.total_nanos() + retry_delay_spec(attempts, r) * 1_000_000_000,
        now.total_nanos() + backoff_spec(attempts) * 1_000_000_000 <= retry_at_spec(now, attempts, r).total_nanos(),
        retry_at_spec(now, attempts, r).total_nanos()
            <= now.total_nanos() + (backoff_spec(attempts) + backoff_spec(attempts) / 4) * 1_000_000_000,
        retry_at_spec(now, attempts, r).total_nanos() <= now.total_nanos() + 3_600_000_000_000,
        retry_at_spec(now, attempts, r).nanos == now.nanos,
{
    lemma_retry_in_the_future(now, attempts, r);
    lemma_delay_bounds(attempts, r);
    lemma_instant_at_total(now.total_nanos() + retry_delay_spec(attempts, r) * 1_000_000_000);
}

/// Through the ninth attempt, a retry of the next attempt computed from a
/// clock reading no earlier than the one a retry of this attempt was
/// computed from comes strictly later than it, and both come after the
/// first reading (away from the end of the time range). So successive
/// calls of `next_retry_at` for attempts 0, 1, 2, ... give strictly later
/// times as long as the clock does not go back.
pub proof fn lemma_later_call_retries_later(n1: Timestamp, n2: Timestamp, a: nat, r1: u64, r2: u64)
    requires
        a <= 8,
        n1.total_nanos() <= n2.total_nanos(),
        n2.total_nanos() + 3_600_000_000_000 <= last_instant().total_nanos(),
    ensures
        n1.total_nanos() < retry_at_spec(n1, a, r1).total_nanos(),
        retry_at_spec(n1, a, r1).total_nanos() < retry_at_spec(n2, a + 1, r2).total_nanos(),
{
    lemma2_to64();
    lemma_backoff_shape(a);
    lemma_backoff_shape(a + 1);
    lemma_pow2_unfold(a + 1);
    lemma_delay_bounds(a, r1);
    lemma_delay_bounds(a + 1, r2);
    let d1 = retry_delay_spec(a, r1);
    let d2 = retry_delay_spec(a + 1, r2);
    assert(d1 < d2);
    lemma_instant_at_total(n1.total_nanos() + d1 * 1_000_000_000);
    lemma_instant_at_total(n2.total_nanos() + d2 * 1_000_000_000);
}

/// Once the backoff is capped, two retries lie exactly as far apart as the
/// clock readings they were computed from (away from the end of the time
/// range); so retries computed from readings less than an hour apart are
/// less than an hour apart.
pub proof fn lemma_capped_retries_keep_the_clock_gap(n1: Timestamp, n2: Timestamp, a1: nat, a2: nat, r1: u64, r2: u64)
    requires
        a1 >= 9,
        a2 >= 9,
        n1.total_nanos() + 3_600_000_000_000 <= last_instant().total_nanos(),
        n2.total_nanos() + 3_600_000_000_000 <= last_instant().total_nanos(),
    ensures
        retry_at_spec(n2, a2, r2).total_nanos() - retry_at_spec(n1, a1, r1).total_nanos()
            == n2.total_nanos() - n1.total_nanos(),
        -3_600_000_000_000 < n2.total_nanos() - n1.total_nanos() < 3_600_000_000_000 ==>
            -3_600_000_000_000 < retry_at_spec(n2, a2, r2).total_nanos() - retry_at_spec(n1, a1, r1).total_nanos()
                < 3_600_000_000_000,
{
    lemma_capped_delay_is_an_hour(a1, r1);
    lemma_capped_delay_is_an_hour(a2, r2);
    lemma_instant_at_total(n1.total_nanos() + 3_600_000_000_000);
    lemma_instant_at_total(n2.total_nanos() + 3_600_000_000_000);
}

/// Once the backoff is capped, every retry waits exactly one hour.
pub proof fn lemma_capped_delay_is_an_hour(a: nat, r: u64)
    requires
        a >= 9,
    ensures
        retry_delay_spec(a, r) == 3600,
{
    lemma_backoff_shape(a);
    lemma_delay_bounds(a, r);
}

/// Once the backoff is capped, all retry delays are equal.
pub proof fn lemma_capped_delays_close(a1: nat, a2: nat, r1: u64, r2: u64)
    requires
        a1 >= 9,
        a2 >= 9,
    ensures
        retry_delay_spec(a1, r1) == retry_delay_spec(a2, r2),
{
    lemma_backoff_shape(a1);
    lemma_backoff_shape(a2);
    lemma_delay_bounds(a1, r1);
    lemma_delay_bounds(a2, r2);
}

} // verus!
