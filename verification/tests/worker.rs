use backyard::builder::WorkerBuilder;
use backyard::error::BackyardError;
use backyard::job::{JobId, RawJob};
use backyard::retry::next_retry_at_from;
use backyard::time::{Delay, Timestamp};
use backyard::worker::{
    fetch_step, plan_run, settle, settle_with, worker_step, worker_step_with, Execution, FetchAction,
    FetchEvent, Settlement, WorkerAction, WorkerConfig, WorkerEvent, WorkerState,
};

fn job(attempts: u32, max_retries: u32) -> RawJob {
    RawJob {
        id: JobId { value: 77 },
        job_type: "FailingJob".to_string(),
        queue: "default".to_string(),
        payload: vec![1, 2, 3],
        attempts,
        max_retries,
        scheduled_at: Timestamp { secs: 0, nanos: 0 },
        created_at: Timestamp { secs: 0, nanos: 0 },
        error: None,
    }
}

fn now() -> Timestamp {
    let d = chrono::Utc::now();
    Timestamp { secs: d.timestamp(), nanos: d.timestamp_subsec_nanos() }
}

fn boom() -> BackyardError {
    BackyardError::Execution("Not ready yet".to_string())
}

#[test]
fn worker_defaults() {
    let c = WorkerConfig::default();
    assert_eq!(c.queues, vec!["default".to_string()]);
    assert_eq!(c.concurrency, 10);
    assert_eq!(c.poll_interval, Delay { secs: 0, nanos: 500_000_000 });
}

#[test]
fn success_acknowledges() {
    let s = settle(&job(0, 3), Execution::Succeeded);
    assert!(matches!(s, Settlement::Ack(id) if id == JobId { value: 77 }));
}

#[test]
fn failure_below_limit_retries_with_backoff() {
    let t = Timestamp { secs: 5, nanos: 0 };
    let s = settle_with(&job(1, 5), Execution::Failed(boom()), t, 0);
    match s {
        Settlement::Retry(id, at) => {
            assert_eq!(id, JobId { value: 77 });
            assert_eq!(at, Timestamp { secs: 25, nanos: 0 });
            assert_eq!(at, next_retry_at_from(t, 1, 0));
        }
        other => panic!("expected a retry, got {:?}", other),
    }
    let before = now();
    match settle(&job(0, 3), Execution::Failed(boom())) {
        Settlement::Retry(_, at) => assert!(at >= Timestamp { secs: before.secs + 10, nanos: before.nanos }),
        other => panic!("expected a retry, got {:?}", other),
    }
}

#[test]
fn failure_at_limit_goes_to_the_dead_letter_queue() {
    for (attempts, max) in [(3u32, 3u32), (4, 3), (0, 0)] {
        match settle(&job(attempts, max), Execution::Failed(boom())) {
            Settlement::Fail(id, msg) => {
                assert_eq!(id, JobId { value: 77 });
                assert_eq!(msg, "job execution error: Not ready yet");
            }
            other => panic!("expected a failure, got {:?}", other),
        }
    }
}

#[test]
fn unknown_job_type_fails() {
    match settle(&job(0, 3), Execution::NoHandler) {
        Settlement::Fail(_, msg) => assert_eq!(msg, "no handler registered"),
        other => panic!("expected a failure, got {:?}", other),
    }
}

#[test]
fn worker_cycle_runs_then_settles_then_receives() {
    let (s1, a1) = worker_step(WorkerState::Receiving, WorkerEvent::Received(job(0, 3), true));
    assert!(matches!(a1, WorkerAction::Run));
    assert!(matches!(&s1, WorkerState::Running(j) if j.id == JobId { value: 77 }));
    let (s2, a2) = worker_step(s1, WorkerEvent::Finished(Ok(())));
    assert!(matches!(s2, WorkerState::Settling));
    assert!(matches!(a2, WorkerAction::Settle(Settlement::Ack(_))));
    let (s3, a3) = worker_step(s2, WorkerEvent::Settled);
    assert!(matches!(s3, WorkerState::Receiving));
    assert!(matches!(a3, WorkerAction::Receive));
}

#[test]
fn worker_retries_a_failed_run() {
    let t = Timestamp { secs: 0, nanos: 0 };
    let (s1, _) = worker_step_with(WorkerState::Receiving, WorkerEvent::Received(job(2, 5), true), t, 0);
    let (_, a2) = worker_step_with(s1, WorkerEvent::Finished(Err(boom())), t, 0);
    assert!(matches!(a2, WorkerAction::Settle(Settlement::Retry(_, at)) if at == Timestamp { secs: 40, nanos: 0 }));
}

#[test]
fn worker_without_handler_fails_the_job() {
    let (s1, a1) = worker_step(WorkerState::Receiving, WorkerEvent::Received(job(0, 3), false));
    assert!(matches!(s1, WorkerState::Settling));
    assert!(matches!(a1, WorkerAction::Settle(Settlement::Fail(_, ref m)) if m == "no handler registered"));
}

#[test]
fn worker_stops_on_shutdown_or_closed_channel() {
    let (s, a) = worker_step(WorkerState::Receiving, WorkerEvent::Cancelled);
    assert!(matches!(s, WorkerState::Stopped) && matches!(a, WorkerAction::Stop));
    let (s, a) = worker_step(WorkerState::Receiving, WorkerEvent::Closed);
    assert!(matches!(s, WorkerState::Stopped) && matches!(a, WorkerAction::Stop));
    let (s, a) = worker_step(WorkerState::Stopped, WorkerEvent::Settled);
    assert!(matches!(s, WorkerState::Stopped) && matches!(a, WorkerAction::Stop));
}

#[test]
fn worker_ignores_events_out_of_turn() {
    let (s, a) = worker_step(WorkerState::Settling, WorkerEvent::Finished(Ok(())));
    assert!(matches!(s, WorkerState::Settling) && matches!(a, WorkerAction::Ignore));
}

#[test]
fn fetcher_sends_sleeps_and_stops() {
    let poll = Delay::from_millis(250);
    assert!(matches!(fetch_step(FetchEvent::Popped(Ok(Some(job(0, 3)))), poll), FetchAction::Send(j) if j.id == JobId { value: 77 }));
    assert!(matches!(fetch_step(FetchEvent::Popped(Ok(None)), poll), FetchAction::Sleep(d) if d == poll));
    assert!(matches!(fetch_step(FetchEvent::Popped(Err(boom())), poll), FetchAction::Sleep(d) if d == poll));
    assert!(matches!(fetch_step(FetchEvent::Sent, poll), FetchAction::Pop));
    assert!(matches!(fetch_step(FetchEvent::Slept, poll), FetchAction::Pop));
    assert!(matches!(fetch_step(FetchEvent::Cancelled, poll), FetchAction::Stop));
}

#[test]
fn run_plan_doubles_the_channel_and_names_workers() {
    let mut c = WorkerConfig::default();
    c.concurrency = 12;
    let p = plan_run(&c);
    assert_eq!(p.channel_capacity, 24);
    let want: Vec<String> = (0..12).map(|i: usize| i.to_string()).collect();
    assert_eq!(p.worker_ids, want);
}

#[test]
fn builder_sets_queues_and_concurrency() {
    let (q, c) = WorkerBuilder::new("handle")
        .concurrency(2)
        .queues(vec!["default".to_string(), "critical".to_string()])
        .into_parts();
    assert_eq!(q, "handle");
    assert_eq!(c.concurrency, 2);
    assert_eq!(c.queues, vec!["default".to_string(), "critical".to_string()]);
    assert_eq!(c.poll_interval, Delay { secs: 0, nanos: 500_000_000 });
    let (_, d) = WorkerBuilder::new(0u8).into_parts();
    assert_eq!(d.concurrency, 10);
    assert_eq!(d.queues, vec!["default".to_string()]);
}
