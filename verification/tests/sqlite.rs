use backyard::error::BackyardError;
use backyard::job::{EnqueueRequest, JobId};
use backyard::sqlite::{
    decode_row, decode_row_lenient, delete_statement, fail_statement, get_result, get_statement,
    list_result, list_statement, mark_running_statement, placeholder_list, pop_select_statement,
    new_worker_id, pop_step_with, prepare_push, queue_rank_list, push_statement, queue_depths_result, queue_depths_statement,
    retry_statement, schema_steps, setup_error, ACQUIRE_FAILED_CONTEXT, JobRow, PopAction, PopEvent, PopState, SqlValue,
    SqliteConfig, CREATE_TABLE_SQL, DELETE_SQL, FAIL_SQL, GET_SQL, INSERT_SQL, LIST_ALL_SQL,
    LIST_WITH_STATUS_SQL, MARK_RUNNING_SQL, QUEUE_DEPTHS_SQL, RETRY_SQL,
};
use backyard::time::{Delay, Timestamp};

const T0: i64 = 1_662_921_288;
const T0_TEXT: &str = "2022-09-11T18:34:48+00:00";
const ID: u128 = 0x67e5_5044_10b1_426f_9247_bb68_0e5f_e0c8;
const ID_TEXT: &str = "67e55044-10b1-426f-9247-bb680e5fe0c8";

fn text(v: &SqlValue) -> &str {
    match v {
        SqlValue::Text(s) => s.as_str(),
        other => panic!("expected text, got {:?}", other),
    }
}

fn integer(v: &SqlValue) -> i64 {
    match v {
        SqlValue::Integer(i) => *i,
        other => panic!("expected an integer, got {:?}", other),
    }
}

fn row(id: &str, sched: &str) -> JobRow {
    JobRow {
        id: id.to_string(),
        queue: "default".to_string(),
        job_type: "TestJob".to_string(),
        payload: vec![1, 2, 3],
        attempts: 0,
        max_retries: 3,
        scheduled_at: sched.to_string(),
        created_at: T0_TEXT.to_string(),
        error: None,
    }
}

fn request() -> EnqueueRequest {
    EnqueueRequest {
        job_type: "TestJob".to_string(),
        queue: "default".to_string(),
        payload: vec![1, 2, 3],
        max_retries: 3,
        priority: 0,
        scheduled_at: Timestamp { secs: T0, nanos: 0 },
    }
}

#[test]
fn sqlite_defaults() {
    let c = SqliteConfig::default();
    assert_eq!(c.database_url, "sqlite://backyard.db");
    assert_eq!(c.poll_interval, Delay { secs: 0, nanos: 250_000_000 });
    assert_eq!(c.max_connections, 5);
}

#[test]
fn schema_is_table_then_indexes() {
    let s = schema_steps();
    assert_eq!(s.len(), 3);
    assert_eq!(s[0].sql, CREATE_TABLE_SQL);
    assert_eq!(s[0].failure_context, "Create table failed: ");
    assert!(s[1].sql.contains("idx_jobs_queue_status_scheduled"));
    assert_eq!(s[1].failure_context, "Create index 1 failed: ");
    assert!(s[2].sql.contains("idx_jobs_status"));
    assert_eq!(s[2].failure_context, "Create index 2 failed: ");
    let e = setup_error(ACQUIRE_FAILED_CONTEXT, "pool closed");
    assert!(matches!(e, BackyardError::Backend(m) if m == "Failed to get connection: pool closed"));
}

#[test]
fn push_binds_the_request() {
    let st = push_statement(request(), JobId { value: ID }, Timestamp { secs: T0 + 1, nanos: 0 }).unwrap();
    assert_eq!(st.sql, INSERT_SQL);
    assert_eq!(st.params.len(), 8);
    assert_eq!(text(&st.params[0]), ID_TEXT);
    assert_eq!(text(&st.params[1]), "default");
    assert_eq!(text(&st.params[2]), "TestJob");
    assert!(matches!(&st.params[3], SqlValue::Blob(b) if b == &vec![1, 2, 3]));
    assert_eq!(integer(&st.params[4]), 3);
    assert_eq!(integer(&st.params[5]), 0);
    assert_eq!(text(&st.params[6]), T0_TEXT);
    assert_eq!(text(&st.params[7]), "2022-09-11T18:34:49+00:00");
}

#[test]
fn push_with_an_unwritable_time_is_an_error() {
    let mut req = request();
    req.scheduled_at = Timestamp { secs: i64::MAX, nanos: 0 };
    let r = push_statement(req, JobId { value: ID }, Timestamp { secs: T0, nanos: 0 });
    assert!(matches!(r, Err(BackyardError::Backend(m)) if m == "timestamp out of range"));
}

#[test]
fn prepare_push_uses_a_fresh_id() {
    let (id, st) = prepare_push(request()).unwrap();
    assert!(!id.is_nil(), "Job ID should not be nil");
    assert_eq!((id.value >> 76) & 0xf, 4);
    assert_eq!(text(&st.params[0]), id.to_text());
    assert_eq!(text(&st.params[0]).chars().nth(14), Some('4'));
}

#[test]
fn placeholders_start_at_two() {
    assert_eq!(placeholder_list(0), "");
    assert_eq!(placeholder_list(1), "$2");
    assert_eq!(placeholder_list(3), "$2,$3,$4");
    assert!(placeholder_list(12).ends_with(",$12,$13"));
}

#[test]
fn pop_select_lists_the_queues() {
    let queues = vec!["critical".to_string(), "default".to_string()];
    let st = pop_select_statement(&queues, Timestamp { secs: T0, nanos: 0 }).unwrap().unwrap();
    assert!(st.sql.contains("AND queue IN ($2,$3)"));
    assert!(st.sql.contains("ORDER BY priority DESC, CASE queue WHEN $2 THEN 0 WHEN $3 THEN 1 END, created_at ASC"));
    assert_eq!(st.params.len(), 3);
    assert_eq!(text(&st.params[0]), T0_TEXT);
    assert_eq!(text(&st.params[1]), "critical");
    assert_eq!(text(&st.params[2]), "default");
    assert!(pop_select_statement(&Vec::new(), Timestamp { secs: T0, nanos: 0 }).unwrap().is_none());
}

#[test]
fn queue_ranks_follow_the_order_given() {
    assert_eq!(queue_rank_list(0), "");
    assert_eq!(queue_rank_list(2), " WHEN $2 THEN 0 WHEN $3 THEN 1");
}

#[test]
fn retried_time_reads_back() {
    let at = Timestamp { secs: T0 + 20, nanos: 123_456_789 };
    let r = retry_statement(JobId { value: ID }, at).unwrap();
    assert_eq!(Timestamp::parse_rfc3339(text(&r.params[0])).unwrap(), at);
}

#[test]
fn pushed_request_reads_back() {
    let created = Timestamp { secs: T0, nanos: 7 };
    let st = push_statement(request(), JobId { value: ID }, created).unwrap();
    let stored = JobRow {
        id: text(&st.params[0]).to_string(),
        queue: text(&st.params[1]).to_string(),
        job_type: text(&st.params[2]).to_string(),
        payload: match &st.params[3] {
            SqlValue::Blob(b) => b.clone(),
            _ => panic!("payload is a blob"),
        },
        attempts: 0,
        max_retries: integer(&st.params[4]),
        scheduled_at: text(&st.params[6]).to_string(),
        created_at: text(&st.params[7]).to_string(),
        error: None,
    };
    let j = decode_row(stored).unwrap();
    assert_eq!(j.id, JobId { value: ID });
    assert_eq!(j.queue, "default");
    assert_eq!(j.job_type, "TestJob");
    assert_eq!(j.payload, vec![1, 2, 3]);
    assert_eq!(j.attempts, 0);
    assert_eq!(j.max_retries, 3);
    assert_eq!(j.scheduled_at, Timestamp { secs: T0, nanos: 0 });
    assert_eq!(j.created_at, created);
}

#[test]
fn single_job_statements() {
    let id = JobId { value: ID };
    let d = delete_statement(id);
    assert_eq!(d.sql, DELETE_SQL);
    assert_eq!(text(&d.params[0]), ID_TEXT);
    let f = fail_statement(id, "Something went wrong");
    assert_eq!(f.sql, FAIL_SQL);
    assert_eq!(text(&f.params[0]), "Something went wrong");
    assert_eq!(text(&f.params[1]), ID_TEXT);
    let r = retry_statement(id, Timestamp { secs: T0, nanos: 0 }).unwrap();
    assert_eq!(r.sql, RETRY_SQL);
    assert_eq!(text(&r.params[0]), T0_TEXT);
    assert_eq!(text(&r.params[1]), ID_TEXT);
    let g = get_statement(id);
    assert_eq!(g.sql, GET_SQL);
    assert_eq!(text(&g.params[0]), ID_TEXT);
    let m = mark_running_statement(&"worker-1".to_string(), Timestamp { secs: T0, nanos: 0 }, &ID_TEXT.to_string()).unwrap();
    assert_eq!(m.sql, MARK_RUNNING_SQL);
    assert_eq!(text(&m.params[0]), "worker-1");
    assert_eq!(text(&m.params[1]), T0_TEXT);
    assert_eq!(text(&m.params[2]), ID_TEXT);
    let q = queue_depths_statement();
    assert_eq!(q.sql, QUEUE_DEPTHS_SQL);
    assert!(q.params.is_empty());
}

#[test]
fn list_statements() {
    let a = list_statement("test", None, 10, 0);
    assert_eq!(a.sql, LIST_ALL_SQL);
    assert_eq!(a.params.len(), 3);
    assert_eq!(text(&a.params[0]), "test");
    assert_eq!(integer(&a.params[1]), 10);
    assert_eq!(integer(&a.params[2]), 0);
    let d = list_statement("default", Some("dead"), 100, 5);
    assert_eq!(d.sql, LIST_WITH_STATUS_SQL);
    assert_eq!(text(&d.params[1]), "dead");
    assert_eq!(integer(&d.params[2]), 100);
    assert_eq!(integer(&d.params[3]), 5);
    let w = list_statement("q", None, usize::MAX, 0);
    assert_eq!(integer(&w.params[1]), -1);
}

#[test]
fn decoding_reads_back_what_push_wrote() {
    let j = decode_row(row(ID_TEXT, T0_TEXT)).unwrap();
    assert_eq!(j.id, JobId { value: ID });
    assert_eq!(j.job_type, "TestJob");
    assert_eq!(j.queue, "default");
    assert_eq!(j.payload, vec![1, 2, 3]);
    assert_eq!(j.attempts, 0);
    assert_eq!(j.max_retries, 3);
    assert_eq!(j.scheduled_at, Timestamp { secs: T0, nanos: 0 });
    assert_eq!(j.created_at, Timestamp { secs: T0, nanos: 0 });
    assert!(j.error.is_none());
}

#[test]
fn decoding_failures() {
    assert!(matches!(decode_row(row("nope", T0_TEXT)), Err(BackyardError::Backend(_))));
    assert!(matches!(decode_row(row(ID_TEXT, "later")), Err(BackyardError::Backend(_))));
    assert!(decode_row_lenient(row("nope", T0_TEXT)).is_none());
    assert!(get_result(None).is_none());
    assert!(get_result(Some(row(ID_TEXT, T0_TEXT))).is_some());
    let mut big = row(ID_TEXT, T0_TEXT);
    big.attempts = (1i64 << 32) + 5;
    assert_eq!(decode_row(big).unwrap().attempts, 5);
}

#[test]
fn listing_skips_rows_that_do_not_read() {
    let other = "00000000-0000-4000-8000-000000000001";
    let jobs = list_result(vec![row(ID_TEXT, T0_TEXT), row("bad", T0_TEXT), row(other, T0_TEXT)]);
    assert_eq!(jobs.len(), 2);
    assert_eq!(jobs[0].id, JobId { value: ID });
    assert_eq!(jobs[1].id, JobId { value: 0x0000_0000_0000_4000_8000_0000_0000_0001 });
}

#[test]
fn depths_keep_the_last_count_of_each_queue() {
    let d = queue_depths_result(vec![
        ("default".to_string(), 2),
        ("critical".to_string(), 1),
        ("default".to_string(), 5),
    ]);
    assert_eq!(d, vec![("default".to_string(), 5u64), ("critical".to_string(), 1u64)]);
}

#[test]
fn pop_finds_marks_commits_and_reads_back() {
    let queues = vec!["default".to_string()];
    let w = "worker".to_string();
    let t = Timestamp { secs: T0, nanos: 0 };
    let (s, a) = pop_step_with(PopState::Idle, PopEvent::Start, &queues, &w, t);
    assert!(matches!(a, PopAction::Begin));
    let (s, a) = pop_step_with(s, PopEvent::Begun(Ok(())), &queues, &w, t);
    assert!(matches!(a, PopAction::Select(_)));
    let (s, a) = pop_step_with(s, PopEvent::Fetched(Ok(Some(row(ID_TEXT, T0_TEXT)))), &queues, &w, t);
    assert!(matches!(&a, PopAction::Mark(st) if st.sql == MARK_RUNNING_SQL));
    let (s, a) = pop_step_with(s, PopEvent::Marked(Ok(())), &queues, &w, t);
    assert!(matches!(a, PopAction::Commit));
    let (s, a) = pop_step_with(s, PopEvent::Committed(Ok(())), &queues, &w, t);
    assert!(matches!(s, PopState::Done));
    match a {
        PopAction::Finish(Ok(Some(j))) => {
            assert_eq!(j.job_type, "TestJob");
            assert_eq!(j.attempts, 0);
        }
        other => panic!("expected a job, got {:?}", other),
    }
}

#[test]
fn pop_with_nothing_due_rolls_back() {
    let queues = vec!["default".to_string()];
    let w = "worker".to_string();
    let t = Timestamp { secs: T0, nanos: 0 };
    let (s, _) = pop_step_with(PopState::Selecting, PopEvent::Fetched(Ok(None)), &queues, &w, t);
    assert!(matches!(s, PopState::RollingBack));
    let (s, a) = pop_step_with(s, PopEvent::RolledBack, &queues, &w, t);
    assert!(matches!(s, PopState::Done));
    assert!(matches!(a, PopAction::Finish(Ok(None))));
}

#[test]
fn pop_without_queues_touches_nothing() {
    let (s, a) = pop_step_with(PopState::Idle, PopEvent::Start, &Vec::new(), &"w".to_string(), Timestamp { secs: 0, nanos: 0 });
    assert!(matches!(s, PopState::Done));
    assert!(matches!(a, PopAction::Finish(Ok(None))));
}

#[test]
fn pop_reports_database_failures() {
    let queues = vec!["default".to_string()];
    let w = "w".to_string();
    let t = Timestamp { secs: T0, nanos: 0 };
    let (_, a) = pop_step_with(PopState::Beginning, PopEvent::Begun(Err("locked".to_string())), &queues, &w, t);
    assert!(matches!(a, PopAction::Finish(Err(BackyardError::Backend(m))) if m == "locked"));
    let (_, a) = pop_step_with(PopState::Committing(row(ID_TEXT, T0_TEXT)), PopEvent::Committed(Err("io".to_string())), &queues, &w, t);
    assert!(matches!(a, PopAction::Finish(Err(BackyardError::Backend(m))) if m == "io"));
    let (_, a) = pop_step_with(PopState::Committing(row("bad", T0_TEXT)), PopEvent::Committed(Ok(())), &queues, &w, t);
    assert!(matches!(a, PopAction::Finish(Err(BackyardError::Backend(_)))));
    let (s, a) = pop_step_with(PopState::Done, PopEvent::RolledBack, &queues, &w, t);
    assert!(matches!(s, PopState::Done) && matches!(a, PopAction::Ignore));
}

#[test]
fn worker_ids_are_fresh_version_four_uuids() {
    let a = new_worker_id();
    let b = new_worker_id();
    assert_ne!(a, b);
    for w in [&a, &b] {
        assert_eq!(w.len(), 36);
        assert_eq!(w.chars().nth(14), Some('4'));
        let id = JobId::parse(w).unwrap();
        assert!(!id.is_nil());
        assert_eq!((id.value >> 76) & 0xf, 4);
        assert_eq!(&id.to_text(), w);
    }
}
