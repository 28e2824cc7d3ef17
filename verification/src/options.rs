//! Per-job enqueue options.

use vstd::prelude::*;
use crate::time::{Timestamp, Delay, later_by, chrono_span, chrono_delay, now, clock_reading, span_nanos, lemma_instant_at_total};

verus! {

/// How a job is enqueued: on which queue, when, with how many retries and
/// at what priority.
#[derive(Clone, Debug)]
pub struct JobOptions {
    pub queue: String,
    pub delay: Option<Delay>,
    pub at: Option<Timestamp>,
    pub max_retries: u32,
    pub priority: i32,
}

/// The nanoseconds `chrono` adds for a delay: the delay itself, or nothing
/// when it does not fit.
pub open spec fn delay_added_nanos(d: Delay) -> int {
    match chrono_span(d.secs, d.nanos) {
        Some((s, n)) => s * 1_000_000_000 + n,
        None => 0,
    }
}

impl Default for JobOptions {
    /// The defaults: queue `default`, run at once, three retries, priority 0.
    fn default() -> (o: JobOptions)
        ensures
            o.queue@ == "default"@,
            o.delay is None,
            o.at is None,
            o.max_retries == 3,
            o.priority == 0,
    {
        JobOptions { queue: String::from_str("default"), delay: None, at: None, max_retries: 3, priority: 0 }
    }
}

impl JobOptions {
    /// The options are well formed when a delay, if any, is.
    pub open spec fn wf(self) -> bool {
        self.delay matches Some(d) ==> d.wf()
    }

    /// When a job enqueued with these options runs, for the clock reading
    /// `now`: at the fixed time if one is set, else `now` plus the delay,
    /// else `now`.
    pub open spec fn scheduled_at_spec(self, now: Timestamp) -> Timestamp {
        match self.at {
            Some(a) => a,
            None => match self.delay {
                Some(d) => later_by(now, delay_added_nanos(d)),
                None => now,
            },
        }
    }

    /// These options with the queue replaced.
    pub fn queue(self, q: String) -> (o: JobOptions)
        ensures
            o == (JobOptions { queue: q, ..self }),
    {
        JobOptions { queue: q, ..self }
    }

    /// These options with the delay replaced.
    pub fn delay(self, d: Delay) -> (o: JobOptions)
        ensures
            o == (JobOptions { delay: Some(d), ..self }),
    {
        JobOptions { delay: Some(d), ..self }
    }

    /// These options with the fixed run time replaced.
    pub fn at(self, t: Timestamp) -> (o: JobOptions)
        ensures
            o == (JobOptions { at: Some(t), ..self }),
    {
        JobOptions { at: Some(t), ..self }
    }

    /// These options with the retry limit replaced.
    pub fn max_retries(self, n: u32) -> (o: JobOptions)
        ensures
            o == (JobOptions { max_retries: n, ..self }),
    {
        JobOptions { max_retries: n, ..self }
    }

    /// These options with the priority replaced.
    pub fn priority(self, p: i32) -> (o: JobOptions)
        ensures
            o == (JobOptions { priority: p, ..self }),
    {
        JobOptions { priority: p, ..self }
    }

    /// When a job enqueued with these options runs, for the clock reading
    /// `now`.
    pub fn scheduled_at_from(&self, now: Timestamp) -> (t: Timestamp)
        requires
            self.wf(),
        ensures
            t == self.scheduled_at_spec(now),
    {
        if let Some(at) = self.at {
            return at;
        }
        if let Some(d) = self.delay {
            return match chrono_delay(d.secs, d.nanos) {
                Some((s, n)) => now.plus(s, n),
                None => now.plus(0, 0),
            };
        }
        now
    }

    /// When a job enqueued with these options runs: the fixed time if one
    /// is set; otherwise the clock is read and the delay, if any, added.
    pub fn scheduled_at(&self) -> (t: Timestamp)
        requires
            self.wf(),
        ensures
            self.at matches Some(a) ==> t == a,
            exists|n: Timestamp| clock_reading(n) && #[trigger] self.scheduled_at_spec(n) == t,
    {
        if let Some(at) = self.at {
            let ghost epoch = Timestamp { secs: 0, nanos: 0 };
            assert(clock_reading(epoch) && self.scheduled_at_spec(epoch) == at);
            return at;
        }
        let n = now();
        self.scheduled_at_from(n)
    }
}

/// From any reading of the clock, a job enqueued with a delay that chrono
/// holds and no fixed time is scheduled exactly that delay after the
/// reading; without a delay, at the reading itself.
pub proof fn lemma_delay_from_a_clock_reading(o: JobOptions, now: Timestamp)
    requires
        o.wf(),
        o.at is None,
        clock_reading(now),
    ensures
        o.delay is Some && chrono_span(o.delay.unwrap().secs, o.delay.unwrap().nanos) is Some ==>
            o.scheduled_at_spec(now).total_nanos() == now.total_nanos() + span_nanos(o.delay.unwrap().secs, o.delay.unwrap().nanos),
        o.delay is None ==> o.scheduled_at_spec(now) == now,
{
    if let Some(d) = o.delay {
        if chrono_span(d.secs, d.nanos) is Some {
            lemma_instant_at_total(now.total_nanos() + span_nanos(d.secs, d.nanos));
        }
    }
}

} // verus!
