//! The decisions of the worker pool: how many workers and what channel, what
//! a fetcher does with what it popped, and how a worker settles each job.
//! The pool's tasks perform the actions and report the events.

use vstd::prelude::*;
use crate::time::{Timestamp, Delay, clock_reading};
use crate::job::{JobId, RawJob};
use crate::error::BackyardError;
use crate::retry::{retry_at_spec, next_retry_at_from, next_retry_at};
use crate::text::{decimal, decimal_text, digit_char};

verus! {

/// How a worker pool runs: which queues it polls (in order), how many jobs
/// run at once, and how long the fetcher waits when there is nothing to do.
#[derive(Clone, Debug)]
pub struct WorkerConfig {
    pub queues: Vec<String>,
    pub concurrency: usize,
    pub poll_interval: Delay,
}

impl Default for WorkerConfig {
    /// The defaults: the queue `default`, ten workers, half a second between
    /// polls of an empty queue.
    fn default() -> (c: WorkerConfig)
        ensures
            c.queues@.len() == 1,
            c.queues@[0]@ == "default"@,
            c.concurrency == 10,
            c.poll_interval == (Delay { secs: 0, nanos: 500_000_000 }),
    {
        let mut queues: Vec<String> = Vec::new();
        queues.push(String::from_str("default"));
        WorkerConfig { queues, concurrency: 10, poll_interval: Delay::from_millis(500) }
    }
}

/// How a job's run ended.
#[derive(Clone, Debug)]
pub enum Execution {
    /// No handler is registered for the job's type.
    NoHandler,
    /// The handler returned success.
    Succeeded,
    /// The handler returned this error.
    Failed(BackyardError),
}

/// What the queue is told about a job once it has run.
#[derive(Clone, Debug)]
pub enum Settlement {
    /// Done: remove the job.
    Ack(JobId),
    /// Dead: keep the job, out of the running, with this error text.
    Fail(JobId, String),
    /// Put the job back, to run again at this time.
    Retry(JobId, Timestamp),
}

/// The error text recorded for a job whose type has no handler.
pub open spec fn no_handler_text() -> Seq<char> {
    "no handler registered"@
}

/// The retry time carried by a settlement (the epoch for the others).
pub open spec fn retry_time_of(s: Settlement) -> Timestamp {
    match s {
        Settlement::Retry(_, t) => t,
        _ => Timestamp { secs: 0, nanos: 0 },
    }
}

/// `s` is how `job` is settled after `exec`, with `retry_at` as the retry
/// time: success acknowledges it; a missing handler kills it; a failure
/// kills it with the error's text once its attempts have reached its retry
/// limit, and retries it otherwise.
pub open spec fn settles_as(job: RawJob, exec: Execution, retry_at: Timestamp, s: Settlement) -> bool {
    match exec {
        Execution::NoHandler => s matches Settlement::Fail(id, m) && id == job.id && m@ == no_handler_text(),
        Execution::Succeeded => s == Settlement::Ack(job.id),
        Execution::Failed(e) => if job.attempts >= job.max_retries {
            s matches Settlement::Fail(id, m) && id == job.id && m@ == e.message_spec()
        } else {
            s == Settlement::Retry(job.id, retry_at)
        },
    }
}

/// How `job` is settled after `exec`, for the clock reading `now` and the
/// random draw `random` (which only a retry uses).
pub fn settle_with(job: &RawJob, exec: Execution, now: Timestamp, random: u64) -> (s: Settlement)
    ensures
        settles_as(*job, exec, retry_at_spec(now, job.attempts as nat, random), s),
{
    match exec {
        Execution::NoHandler => Settlement::Fail(job.id, String::from_str("no handler registered")),
        Execution::Succeeded => Settlement::Ack(job.id),
        Execution::Failed(e) => {
            if job.attempts >= job.max_retries {
                Settlement::Fail(job.id, e.message())
            } else {
                Settlement::Retry(job.id, next_retry_at_from(now, job.attempts, random))
            }
        },
    }
}

/// How `job` is settled after `exec`; a retry is scheduled from the clock
/// and a random draw, both unknown to the caller.
pub fn settle(job: &RawJob, exec: Execution) -> (s: Settlement)
    ensures
        settles_as(*job, exec, retry_time_of(s), s),
        s is Retry ==> exists|n: Timestamp, r: u64| clock_reading(n) && #[trigger] retry_at_spec(n, job.attempts as nat, r) == retry_time_of(s),
{
    match exec {
        Execution::NoHandler => Settlement::Fail(job.id, String::from_str("no handler registered")),
        Execution::Succeeded => Settlement::Ack(job.id),
        Execution::Failed(e) => {
            if job.attempts >= job.max_retries {
                Settlement::Fail(job.id, e.message())
            } else {
                Settlement::Retry(job.id, next_retry_at(job.attempts))
            }
        },
    }
}

/// Where a worker is in its loop.
#[derive(Clone, Debug)]
pub enum WorkerState {
    /// Waiting for the next job from the fetcher.
    Receiving,
    /// Running this job's handler.
    Running(RawJob),
    /// Waiting for the queue to take the settlement of the last job.
    Settling,
    /// Done for good.
    Stopped,
}

/// What happened since the worker's last action.
#[derive(Debug)]
pub enum WorkerEvent {
    /// Shutdown was requested while waiting for a job.
    Cancelled,
    /// The channel from the fetcher is closed.
    Closed,
    /// A job arrived; whether a handler is registered for its type.
    Received(RawJob, bool),
    /// The running handler finished with this result.
    Finished(std::result::Result<(), BackyardError>),
    /// The queue answered the settlement (its answer is not used).
    Settled,
}

/// What the worker does next.
#[derive(Clone, Debug)]
pub enum WorkerAction {
    /// Wait for the next job (or for shutdown).
    Receive,
    /// Run the handler of the job the worker now holds.
    Run,
    /// Tell the queue how this job ended.
    Settle(Settlement),
    /// Leave the loop.
    Stop,
    /// The event does not belong to this state; nothing to do.
    Ignore,
}

/// The execution that a handler's result stands for.
pub open spec fn execution_of(r: std::result::Result<(), BackyardError>) -> Execution {
    match r {
        Ok(()) => Execution::Succeeded,
        Err(e) => Execution::Failed(e),
    }
}

/// One step of a worker: from its state and what happened, its next state
/// and action, for the retry time `retry_at` should the step schedule one.
pub open spec fn worker_step_spec(
    state: WorkerState,
    event: WorkerEvent,
    retry_at: Timestamp,
    next: WorkerState,
    action: WorkerAction,
) -> bool {
    match (state, event) {
        (WorkerState::Receiving, WorkerEvent::Cancelled) => next is Stopped && action is Stop,
        (WorkerState::Receiving, WorkerEvent::Closed) => next is Stopped && action is Stop,
        (WorkerState::Receiving, WorkerEvent::Received(job, registered)) => if registered {
            next == WorkerState::Running(job) && action is Run
        } else {
            next is Settling && (action matches WorkerAction::Settle(s) && settles_as(job, Execution::NoHandler, retry_at, s))
        },
        (WorkerState::Running(job), WorkerEvent::Finished(r)) =>
            next is Settling && (action matches WorkerAction::Settle(s) && settles_as(job, execution_of(r), retry_at, s)),
        (WorkerState::Settling, WorkerEvent::Settled) => next is Receiving && action is Receive,
        (WorkerState::Stopped, _) => next is Stopped && action is Stop,
        (s, _) => next == s && action is Ignore,
    }
}

/// The retry time carried by an action (the epoch for the others).
pub open spec fn action_retry_time(a: WorkerAction) -> Timestamp {
    match a {
        WorkerAction::Settle(s) => retry_time_of(s),
        _ => Timestamp { secs: 0, nanos: 0 },
    }
}

/// One step of a worker, for the clock reading `now` and the random draw
/// `random` used should it schedule a retry.
pub fn worker_step_with(state: WorkerState, event: WorkerEvent, now: Timestamp, random: u64) -> (r: (WorkerState, WorkerAction))
    ensures
        worker_step_spec(state, event, retry_time_of_step(state, event, now, random), r.0, r.1),
{
    match (state, event) {
        (WorkerState::Receiving, WorkerEvent::Cancelled) => (WorkerState::Stopped, WorkerAction::Stop),
        (WorkerState::Receiving, WorkerEvent::Closed) => (WorkerState::Stopped, WorkerAction::Stop),
        (WorkerState::Receiving, WorkerEvent::Received(job, registered)) => {
            if registered {
                (WorkerState::Running(job), WorkerAction::Run)
            } else {
                let s = settle_with(&job, Execution::NoHandler, now, random);
                (WorkerState::Settling, WorkerAction::Settle(s))
            }
        },
        (WorkerState::Running(job), WorkerEvent::Finished(r)) => {
            let exec = match r {
                Ok(()) => Execution::Succeeded,
                Err(e) => Execution::Failed(e),
            };
            let s = settle_with(&job, exec, now, random);
            (WorkerState::Settling, WorkerAction::Settle(s))
        },
        (WorkerState::Settling, WorkerEvent::Settled) => (WorkerState::Receiving, WorkerAction::Receive),
        (WorkerState::Stopped, _) => (WorkerState::Stopped, WorkerAction::Stop),
        (s, _) => (s, WorkerAction::Ignore),
    }
}

/// One step of a worker; should it schedule a retry, the time comes from
/// the clock and a random draw, both unknown to the caller.
pub fn worker_step(state: WorkerState, event: WorkerEvent) -> (r: (WorkerState, WorkerAction))
    ensures
        worker_step_spec(state, event, action_retry_time(r.1), r.0, r.1),
        r.1 matches WorkerAction::Settle(s) && s is Retry ==> exists|n: Timestamp, k: u64|
            clock_reading(n) && #[trigger] retry_at_spec(n, retry_attempts_of_step(state, event), k) == action_retry_time(r.1),
{
    let ghost attempts = retry_attempts_of_step(state, event);
    match (state, event) {
        (WorkerState::Receiving, WorkerEvent::Cancelled) => (WorkerState::Stopped, WorkerAction::Stop),
        (WorkerState::Receiving, WorkerEvent::Closed) => (WorkerState::Stopped, WorkerAction::Stop),
        (WorkerState::Receiving, WorkerEvent::Received(job, registered)) => {
            if registered {
                (WorkerState::Running(job), WorkerAction::Run)
            } else {
                let s = settle(&job, Execution::NoHandler);
                (WorkerState::Settling, WorkerAction::Settle(s))
            }
        },
        (WorkerState::Running(job), WorkerEvent::Finished(r)) => {
            let exec = match r {
                Ok(()) => Execution::Succeeded,
                Err(e) => Execution::Failed(e),
            };
            assert(attempts == job.attempts as nat);
            let s = settle(&job, exec);
            (WorkerState::Settling, WorkerAction::Settle(s))
        },
        (WorkerState::Settling, WorkerEvent::Settled) => (WorkerState::Receiving, WorkerAction::Receive),
        (WorkerState::Stopped, _) => (WorkerState::Stopped, WorkerAction::Stop),
        (s, _) => (s, WorkerAction::Ignore),
    }
}

/// The attempts of the job a step settles (zero for other steps).
pub open spec fn retry_attempts_of_step(state: WorkerState, event: WorkerEvent) -> nat {
    match (state, event) {
        (WorkerState::Running(job), WorkerEvent::Finished(_)) => job.attempts as nat,
        (WorkerState::Receiving, WorkerEvent::Received(job, _)) => job.attempts as nat,
        _ => 0,
    }
}

/// The retry time a step would schedule, for the clock reading `now` and
/// the random draw `random`.
pub open spec fn retry_time_of_step(state: WorkerState, event: WorkerEvent, now: Timestamp, random: u64) -> Timestamp {
    match (state, event) {
        (WorkerState::Running(job), WorkerEvent::Finished(_)) => retry_at_spec(now, job.attempts as nat, random),
        (WorkerState::Receiving, WorkerEvent::Received(job, _)) => retry_at_spec(now, job.attempts as nat, random),
        _ => Timestamp { secs: 0, nanos: 0 },
    }
}

/// The job a settlement is about.
pub open spec fn settled_id(s: Settlement) -> JobId {
    match s {
        Settlement::Ack(id) => id,
        Settlement::Fail(id, _) => id,
        Settlement::Retry(id, _) => id,
    }
}

/// Every settlement is about the job that ran: no job is settled in the
/// place of another.
pub proof fn lemma_settlement_names_the_job(job: RawJob, exec: Execution, t: Timestamp, s: Settlement)
    requires
        settles_as(job, exec, t, s),
    ensures
        settled_id(s) == job.id,
{
}

/// A failed job is retried exactly while its attempts are below its retry
/// limit, and goes to the dead letter queue (failed, with the error's text)
/// once they reach it.
pub proof fn lemma_retry_until_limit(job: RawJob, e: BackyardError, t: Timestamp, s: Settlement)
    requires
        settles_as(job, Execution::Failed(e), t, s),
    ensures
        s is Retry <==> job.attempts < job.max_retries,
        s is Fail <==> job.attempts >= job.max_retries,
        s is Fail ==> (s matches Settlement::Fail(_, m) && m@ == e.message_spec()),
        !(s is Ack),
{
}

/// A worker's cycle: a job with a handler is run; when the handler
/// finishes, exactly one settlement of that job follows; once the queue has
/// it, the worker waits for the next job.
pub proof fn lemma_worker_cycle(
    job: RawJob,
    r: std::result::Result<(), BackyardError>,
    t: Timestamp,
    s1: WorkerState, a1: WorkerAction,
    s2: WorkerState, a2: WorkerAction,
    s3: WorkerState, a3: WorkerAction,
)
    requires
        worker_step_spec(WorkerState::Receiving, WorkerEvent::Received(job, true), t, s1, a1),
        worker_step_spec(s1, WorkerEvent::Finished(r), t, s2, a2),
        worker_step_spec(s2, WorkerEvent::Settled, t, s3, a3),
    ensures
        a1 is Run,
        a2 matches WorkerAction::Settle(s) && settled_id(s) == job.id && settles_as(job, execution_of(r), t, s),
        s3 is Receiving,
        a3 is Receive,
{
}

/// A job whose type has no handler is failed at once, with the text
/// `no handler registered`, and the worker goes on to the next job.
pub proof fn lemma_unregistered_job_fails(
    job: RawJob,
    t: Timestamp,
    s1: WorkerState, a1: WorkerAction,
    s2: WorkerState, a2: WorkerAction,
)
    requires
        worker_step_spec(WorkerState::Receiving, WorkerEvent::Received(job, false), t, s1, a1),
        worker_step_spec(s1, WorkerEvent::Settled, t, s2, a2),
    ensures
        a1 matches WorkerAction::Settle(s) && s matches Settlement::Fail(id, m) && id == job.id && m@ == no_handler_text(),
        s2 is Receiving,
        a2 is Receive,
{
}

/// A stopped worker stays stopped, whatever happens.
pub proof fn lemma_stopped_stays_stopped(e: WorkerEvent, t: Timestamp, s: WorkerState, a: WorkerAction)
    requires
        worker_step_spec(WorkerState::Stopped, e, t, s, a),
    ensures
        s is Stopped,
        a is Stop,
{
}

/// What the fetcher learns after its last action.
#[derive(Debug)]
pub enum FetchEvent {
    /// Shutdown was requested.
    Cancelled,
    /// The queue answered a pop.
    Popped(std::result::Result<Option<RawJob>, BackyardError>),
    /// A job was handed to the workers (or the channel refused it).
    Sent,
    /// The wait between polls is over.
    Slept,
}

/// What the fetcher does next.
#[derive(Debug)]
pub enum FetchAction {
    /// Ask the queue for the next due job.
    Pop,
    /// Hand this job to the workers.
    Send(RawJob),
    /// Wait this long before polling again.
    Sleep(Delay),
    /// Leave the loop.
    Stop,
}

/// The fetcher's next action after `event`, with `poll` as the wait between
/// polls: a popped job goes to the workers; an empty queue or a failed pop
/// means waiting; after sending or waiting it polls again; shutdown stops it.
pub open spec fn fetch_step_spec(event: FetchEvent, poll: Delay, action: FetchAction) -> bool {
    match event {
        FetchEvent::Cancelled => action is Stop,
        FetchEvent::Popped(Ok(Some(job))) => action == FetchAction::Send(job),
        FetchEvent::Popped(Ok(None)) => action == FetchAction::Sleep(poll),
        FetchEvent::Popped(Err(_)) => action == FetchAction::Sleep(poll),
        FetchEvent::Sent => action is Pop,
        FetchEvent::Slept => action is Pop,
    }
}

/// One step of the fetcher.
pub fn fetch_step(event: FetchEvent, poll: Delay) -> (action: FetchAction)
    ensures
        fetch_step_spec(event, poll, action),
{
    match event {
        FetchEvent::Cancelled => FetchAction::Stop,
        FetchEvent::Popped(Ok(Some(job))) => FetchAction::Send(job),
        FetchEvent::Popped(Ok(None)) => FetchAction::Sleep(poll),
        FetchEvent::Popped(Err(_)) => FetchAction::Sleep(poll),
        FetchEvent::Sent => FetchAction::Pop,
        FetchEvent::Slept => FetchAction::Pop,
    }
}

/// The jobs the queue handed out in a run of events, in order.
pub open spec fn popped_jobs(events: Seq<FetchEvent>) -> Seq<RawJob>
    decreases events.len(),
{
    if events.len() == 0 {
        Seq::empty()
    } else {
        let rest = popped_jobs(events.drop_last());
        match events.last() {
            FetchEvent::Popped(Ok(Some(job))) => rest.push(job),
            _ => rest,
        }
    }
}

/// The jobs sent to the workers in a run of actions, in order.
pub open spec fn sent_jobs(actions: Seq<FetchAction>) -> Seq<RawJob>
    decreases actions.len(),
{
    if actions.len() == 0 {
        Seq::empty()
    } else {
        let rest = sent_jobs(actions.drop_last());
        match actions.last() {
            FetchAction::Send(job) => rest.push(job),
            _ => rest,
        }
    }
}

/// Over any run of the fetcher, each job the queue hands out is sent to the
/// workers exactly once, in the order it was popped, and nothing else is
/// sent: the jobs sent are the jobs popped. The fetcher's only requests to
/// the queue are pops.
pub proof fn lemma_fetcher_sends_what_it_pops(events: Seq<FetchEvent>, poll: Delay, actions: Seq<FetchAction>)
    requires
        actions.len() == events.len(),
        forall|i: int| 0 <= i < events.len() ==> #[trigger] fetch_step_spec(events[i], poll, actions[i]),
    ensures
        sent_jobs(actions) == popped_jobs(events),
        forall|i: int| 0 <= i < actions.len() ==> (#[trigger] actions[i] is Pop || actions[i] is Send
            || actions[i] == FetchAction::Sleep(poll) || actions[i] is Stop),
    decreases events.len(),
{
    if events.len() > 0 {
        let n = events.len() - 1;
        assert(fetch_step_spec(events[n], poll, actions[n]));
        assert forall|i: int| 0 <= i < n implies #[trigger] fetch_step_spec(events.drop_last()[i], poll, actions.drop_last()[i]) by {
            assert(fetch_step_spec(events[i], poll, actions[i]));
        }
        lemma_fetcher_sends_what_it_pops(events.drop_last(), poll, actions.drop_last());
    }
    assert forall|i: int| 0 <= i < actions.len() implies (#[trigger] actions[i] is Pop || actions[i] is Send
        || actions[i] == FetchAction::Sleep(poll) || actions[i] is Stop) by {
        assert(fetch_step_spec(events[i], poll, actions[i]));
    }
}

/// How a pool starts: the capacity of the channel from the fetcher to the
/// workers, and the id of each worker.
pub struct RunPlan {
    pub channel_capacity: usize,
    pub worker_ids: Vec<String>,
}

/// How a pool with `config` starts: a channel of twice the concurrency, and
/// as many workers, named by their index in decimal.
pub fn plan_run(config: &WorkerConfig) -> (p: RunPlan)
    requires
        config.concurrency >= 1,
        config.concurrency * 2 <= usize::MAX,
    ensures
        p.channel_capacity == 2 * config.concurrency,
        p.worker_ids@.len() == config.concurrency,
        forall|i: int| 0 <= i < config.concurrency ==> #[trigger] p.worker_ids@[i]@ == decimal(i as nat),
{
    let n = config.concurrency;
    let mut ids: Vec<String> = Vec::new();
    let mut i: usize = 0;
    while i < n
        invariant
            i <= n,
            ids@.len() == i,
            forall|j: int| 0 <= j < i ==> #[trigger] ids@[j]@ == decimal(j as nat),
        decreases n - i,
    {
        ids.push(decimal_text(i as u64));
        i = i + 1;
    }
    RunPlan { channel_capacity: n * 2, worker_ids: ids }
}

/// Decimal text has at least one character.
pub proof fn lemma_decimal_nonempty(n: nat)
    ensures
        decimal(n).len() >= 1,
    decreases n,
{
    if n >= 10 {
        lemma_decimal_nonempty(n / 10);
    }
}

/// Distinct digits have distinct characters.
pub proof fn lemma_digit_char_injective(a: nat, b: nat)
    requires
        a < 10,
        b < 10,
        digit_char(a) == digit_char(b),
    ensures
        a == b,
{
}

/// Distinct numbers have distinct decimal texts.
pub proof fn lemma_decimal_injective(a: nat, b: nat)
    requires
        decimal(a) == decimal(b),
    ensures
        a == b,
    decreases a,
{
    if a < 10 && b < 10 {
        assert(decimal(a) == seq![digit_char(a)]);
        assert(decimal(b) == seq![digit_char(b)]);
        assert(seq![digit_char(a)][0] == digit_char(a));
        assert(seq![digit_char(b)][0] == digit_char(b));
        assert(decimal(a)[0] == decimal(b)[0]);
        lemma_digit_char_injective(a, b);
    } else if a < 10 {
        lemma_decimal_nonempty(b / 10);
        assert(decimal(b).len() >= 2);
    } else if b < 10 {
        lemma_decimal_nonempty(a / 10);
        assert(decimal(a).len() >= 2);
    } else {
        let pa = decimal(a / 10);
        let pb = decimal(b / 10);
        assert(decimal(a).last() == digit_char(a % 10));
        assert(decimal(b).last() == digit_char(b % 10));
        assert(pa == decimal(a).drop_last());
        assert(pb == decimal(b).drop_last());
        lemma_digit_char_injective(a % 10, b % 10);
        lemma_decimal_injective(a / 10, b / 10);
    }
}

/// The workers of a pool have pairwise distinct ids.
pub proof fn lemma_worker_ids_distinct(config: WorkerConfig, p: RunPlan, i: int, j: int)
    requires
        p.worker_ids@.len() == config.concurrency,
        forall|k: int| 0 <= k < config.concurrency ==> #[trigger] p.worker_ids@[k]@ == decimal(k as nat),
        0 <= i < config.concurrency,
        0 <= j < config.concurrency,
        i != j,
    ensures
        p.worker_ids@[i]@ != p.worker_ids@[j]@,
{
    if p.worker_ids@[i]@ == p.worker_ids@[j]@ {
        lemma_decimal_injective(i as nat, j as nat);
    }
}

/// A pool as its tasks' states show it: the job the fetcher popped and has
/// not yet handed over, the jobs waiting in the channel, the channel's
/// capacity, and each worker's state.
pub struct PoolView {
    pub fetched: Option<RawJob>,
    pub channel: Seq<RawJob>,
    pub capacity: nat,
    pub workers: Seq<WorkerState>,
}

/// What can happen next in a pool.
pub enum PoolMove {
    /// The fetcher's pop returned this job.
    Popped(RawJob),
    /// The fetcher's send of its job went through.
    Handed,
    /// The worker at this index took a step on this event, with this retry
    /// time should the step schedule one.
    Step(usize, WorkerEvent, Timestamp),
}

/// A pool of `n` workers as it starts: nothing fetched, an empty channel of
/// twice the concurrency, every worker waiting for a job.
pub open spec fn starting_pool(n: nat) -> PoolView {
    PoolView {
        fetched: None,
        channel: Seq::empty(),
        capacity: 2 * n,
        workers: Seq::new(n, |i: int| WorkerState::Receiving),
    }
}

/// `q` is the pool after `m` happens in `p`. The fetcher pops only with
/// empty hands (it sends each job before the next pop) and its send waits
/// while the channel is full; a worker takes the job at the head of the
/// channel only while it waits for one, and every worker step is one the
/// worker's own step function allows.
pub open spec fn pool_next(p: PoolView, m: PoolMove, q: PoolView) -> bool {
    match m {
        PoolMove::Popped(job) => p.fetched is None && q == PoolView { fetched: Some(job), ..p },
        PoolMove::Handed => p.fetched is Some && p.channel.len() < p.capacity
            && q == PoolView { fetched: None, channel: p.channel.push(p.fetched->0), ..p },
        PoolMove::Step(i, e, t) => {
            &&& i < p.workers.len()
            &&& q.fetched == p.fetched
            &&& q.capacity == p.capacity
            &&& q.workers.len() == p.workers.len()
            &&& forall|k: int| 0 <= k < p.workers.len() && k != i ==> #[trigger] q.workers[k] == p.workers[k]
            &&& exists|a: WorkerAction| #[trigger] worker_step_spec(p.workers[i as int], e, t, q.workers[i as int], a)
            &&& match e {
                WorkerEvent::Received(job, _) => p.workers[i as int] is Receiving && p.channel.len() > 0
                    && job == p.channel[0] && q.channel == p.channel.drop_first(),
                _ => q.channel == p.channel,
            }
        },
    }
}

/// A worker in this state holds a job that is not yet settled: it runs
/// it, or the queue has not yet taken its settlement.
pub open spec fn holds_job(s: WorkerState) -> bool {
    s is Running || s is Settling
}

/// How many of `ws` hold a job.
pub open spec fn count_holding(ws: Seq<WorkerState>) -> nat
    decreases ws.len(),
{
    if ws.len() == 0 {
        0
    } else {
        count_holding(ws.drop_last()) + if holds_job(ws.last()) { 1nat } else { 0nat }
    }
}

/// How many of `ws` are running a handler.
pub open spec fn count_running(ws: Seq<WorkerState>) -> nat
    decreases ws.len(),
{
    if ws.len() == 0 {
        0
    } else {
        count_running(ws.drop_last()) + if ws.last() is Running { 1nat } else { 0nat }
    }
}

/// The jobs of a pool that were popped from the queue and are not yet
/// acknowledged, failed or retried there.
pub open spec fn in_flight(p: PoolView) -> nat {
    (if p.fetched is Some { 1nat } else { 0nat }) + p.channel.len() + count_holding(p.workers)
}

/// No more workers hold jobs, or run handlers, than there are workers.
proof fn lemma_counts_bounded(ws: Seq<WorkerState>)
    ensures
        count_holding(ws) <= ws.len(),
        count_running(ws) <= count_holding(ws),
    decreases ws.len(),
{
    if ws.len() > 0 {
        lemma_counts_bounded(ws.drop_last());
    }
}

/// Replacing one worker's state changes the counts by that worker alone.
proof fn lemma_counts_update(ws: Seq<WorkerState>, i: int, x: WorkerState)
    requires
        0 <= i < ws.len(),
    ensures
        count_holding(ws.update(i, x)) + (if holds_job(ws[i]) { 1int } else { 0int })
            == count_holding(ws) + (if holds_job(x) { 1int } else { 0int }),
    decreases ws.len(),
{
    let u = ws.update(i, x);
    if i == ws.len() - 1 {
        assert(u.drop_last() =~= ws.drop_last());
    } else {
        assert(u.drop_last() =~= ws.drop_last().update(i, x));
        lemma_counts_update(ws.drop_last(), i, x);
    }
}

/// Every worker of a starting pool waits for a job.
proof fn lemma_starting_counts(n: nat)
    ensures
        count_holding(starting_pool(n).workers) == 0,
    decreases n,
{
    let ws = starting_pool(n).workers;
    if n > 0 {
        lemma_starting_counts((n - 1) as nat);
        assert(ws.drop_last() =~= starting_pool((n - 1) as nat).workers);
    }
}

/// One move of a pool keeps the channel within its capacity and the number
/// of workers, and adds a job in flight only when the fetcher pops one.
pub proof fn lemma_pool_move(p: PoolView, m: PoolMove, q: PoolView)
    requires
        p.channel.len() <= p.capacity,
        pool_next(p, m, q),
    ensures
        q.channel.len() <= q.capacity,
        q.capacity == p.capacity,
        q.workers.len() == p.workers.len(),
        in_flight(q) <= in_flight(p) + (if m is Popped { 1int } else { 0int }),
{
    match m {
        PoolMove::Popped(job) => {},
        PoolMove::Handed => {},
        PoolMove::Step(i, e, t) => {
            assert(q.workers =~= p.workers.update(i as int, q.workers[i as int]));
            lemma_counts_update(p.workers, i as int, q.workers[i as int]);
        },
    }
}

/// At every moment of a pool of `n` workers started by `plan_run`, at most
/// `n` handlers run, and at most `3n + 1` jobs are popped from the queue
/// and not yet settled there: one in the fetcher's hands, `2n` in the
/// channel and one with each worker.
pub proof fn lemma_in_flight_bound(n: nat, pools: Seq<PoolView>, moves: Seq<PoolMove>)
    requires
        pools.len() == moves.len() + 1,
        pools[0] == starting_pool(n),
        forall|k: int| 0 <= k < moves.len() ==> #[trigger] pool_next(pools[k], moves[k], pools[k + 1]),
    ensures
        forall|k: int| 0 <= k < pools.len() ==> #[trigger] in_flight(pools[k]) <= 3 * n + 1
            && count_running(pools[k].workers) <= n,
    decreases moves.len(),
{
    if moves.len() == 0 {
        lemma_starting_counts(n);
        lemma_counts_bounded(pools[0].workers);
    } else {
        let k0 = moves.len() - 1;
        let shorter = pools.drop_last();
        assert forall|k: int| 0 <= k < moves.drop_last().len() implies #[trigger] pool_next(shorter[k], moves.drop_last()[k], shorter[k + 1]) by {
            assert(pool_next(pools[k], moves[k], pools[k + 1]));
        }
        lemma_in_flight_bound(n, shorter, moves.drop_last());
        lemma_pool_shape(n, pools, moves, k0 + 1);
        lemma_counts_bounded(pools[k0 + 1].workers);
        assert forall|k: int| 0 <= k < pools.len() implies #[trigger] in_flight(pools[k]) <= 3 * n + 1
            && count_running(pools[k].workers) <= n by {
            if k < shorter.len() {
                assert(shorter[k] == pools[k]);
            }
        }
    }
}

/// Along the moves of a pool of `n` workers, its channel keeps its
/// capacity of `2n` and stays within it, and it keeps its `n` workers.
proof fn lemma_pool_shape(n: nat, pools: Seq<PoolView>, moves: Seq<PoolMove>, k: int)
    requires
        pools.len() == moves.len() + 1,
        pools[0] == starting_pool(n),
        forall|j: int| 0 <= j < moves.len() ==> #[trigger] pool_next(pools[j], moves[j], pools[j + 1]),
        0 <= k < pools.len(),
    ensures
        pools[k].capacity == 2 * n,
        pools[k].channel.len() <= pools[k].capacity,
        pools[k].workers.len() == n,
    decreases k,
{
    if k > 0 {
        let j = k - 1;
        lemma_pool_shape(n, pools, moves, j);
        assert(pool_next(pools[j], moves[j], pools[j + 1]));
        lemma_pool_move(pools[j], moves[j], pools[j + 1]);
    }
}

} // verus!
