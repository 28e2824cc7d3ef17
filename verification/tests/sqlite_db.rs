//! The SQLite statements and steps of the library, run against a real
//! in-memory database.

use backyard::error::BackyardError;
use backyard::job::{EnqueueRequest, JobId, RawJob};
use backyard::retry::next_retry_at;
use backyard::sqlite::{
    delete_statement, fail_statement, get_result, get_statement, list_result, list_statement,
    pop_step, prepare_push, queue_depths_result, queue_depths_statement, retry_statement,
    schema_steps, JobRow, PopAction, PopEvent, PopState, SqlValue,
};
use backyard::time::Timestamp;
use sqlx::sqlite::{SqliteArguments, SqliteConnectOptions, SqlitePoolOptions, SqliteRow};
use sqlx::{Row, Sqlite, SqlitePool};
use std::collections::HashMap;
use std::str::FromStr;

type Query<'q> = sqlx::query::Query<'q, Sqlite, SqliteArguments<'q>>;

fn block_on<F: std::future::Future>(f: F) -> F::Output {
    tokio::runtime::Builder::new_current_thread().enable_all().build().unwrap().block_on(f)
}

fn now() -> Timestamp {
    let d = chrono::Utc::now();
    Timestamp { secs: d.timestamp(), nanos: d.timestamp_subsec_nanos() }
}

fn bind_all<'q>(mut q: Query<'q>, params: &'q [SqlValue]) -> Query<'q> {
    for p in params {
        q = match p {
            SqlValue::Integer(i) => q.bind(*i),
            SqlValue::Text(s) => q.bind(s.as_str()),
            SqlValue::Blob(b) => q.bind(b.as_slice()),
        };
    }
    q
}

fn job_row(row: &SqliteRow) -> JobRow {
    JobRow {
        id: row.get("id"),
        queue: row.get("queue"),
        job_type: row.get("job_type"),
        payload: row.get("payload"),
        attempts: row.get("attempts"),
        max_retries: row.get("max_retries"),
        scheduled_at: row.get("scheduled_at"),
        created_at: row.get("created_at"),
        error: row.get("error"),
    }
}

async fn open() -> SqlitePool {
    let options = SqliteConnectOptions::from_str("sqlite::memory:").unwrap();
    let c = SqlitePoolOptions::new()
        .max_connections(1)
        .min_connections(1)
        .idle_timeout(None)
        .max_lifetime(None)
        .connect_with(options)
        .await
        .unwrap();
    for step in schema_steps() {
        sqlx::raw_sql(&step.sql).execute(&c).await.unwrap();
    }
    c
}

fn request(job_type: &str, queue: &str, payload: Vec<u8>, max_retries: u32, priority: i32, at: Timestamp) -> EnqueueRequest {
    EnqueueRequest {
        job_type: job_type.to_string(),
        queue: queue.to_string(),
        payload,
        max_retries,
        priority,
        scheduled_at: at,
    }
}

async fn push(c: &SqlitePool, req: EnqueueRequest) -> Result<JobId, BackyardError> {
    let (id, st) = prepare_push(req)?;
    bind_all(sqlx::query(&st.sql), &st.params)
        .execute(c)
        .await
        .map_err(|e| BackyardError::Backend(e.to_string()))?;
    Ok(id)
}

async fn pop(c: &SqlitePool, queues: &[&str]) -> Result<Option<RawJob>, BackyardError> {
    let names: Vec<String> = queues.iter().map(|q| q.to_string()).collect();
    let worker = "test-worker".to_string();
    let mut tx: Option<sqlx::Transaction<'static, Sqlite>> = None;
    let mut state = PopState::Idle;
    let mut event = PopEvent::Start;
    loop {
        let (next, action) = pop_step(state, event, &names, &worker);
        state = next;
        event = match action {
            PopAction::Begin => match c.begin().await {
                Ok(t) => {
                    tx = Some(t);
                    PopEvent::Begun(Ok(()))
                }
                Err(e) => PopEvent::Begun(Err(e.to_string())),
            },
            PopAction::Select(st) => {
                let t = tx.as_mut().unwrap();
                let r = bind_all(sqlx::query(&st.sql), &st.params).fetch_optional(&mut **t).await;
                PopEvent::Fetched(r.map(|row| row.map(|row| job_row(&row))).map_err(|e| e.to_string()))
            }
            PopAction::Mark(st) => {
                let t = tx.as_mut().unwrap();
                let r = bind_all(sqlx::query(&st.sql), &st.params).execute(&mut **t).await;
                PopEvent::Marked(r.map(|_| ()).map_err(|e| e.to_string()))
            }
            PopAction::Commit => PopEvent::Committed(tx.take().unwrap().commit().await.map_err(|e| e.to_string())),
            PopAction::Rollback => {
                if let Some(t) = tx.take() {
                    t.rollback().await.ok();
                }
                PopEvent::RolledBack
            }
            PopAction::Finish(r) => return r,
            PopAction::Ignore => panic!("pop steps out of order"),
        };
    }
}

async fn ack(c: &SqlitePool, id: JobId) {
    let st = delete_statement(id);
    bind_all(sqlx::query(&st.sql), &st.params).execute(c).await.unwrap();
}

async fn fail(c: &SqlitePool, id: JobId, err: &str) {
    let st = fail_statement(id, err);
    bind_all(sqlx::query(&st.sql), &st.params).execute(c).await.unwrap();
}

async fn retry(c: &SqlitePool, id: JobId, at: Timestamp) {
    let st = retry_statement(id, at).unwrap();
    bind_all(sqlx::query(&st.sql), &st.params).execute(c).await.unwrap();
}

async fn get(c: &SqlitePool, id: JobId) -> Option<RawJob> {
    let st = get_statement(id);
    let row = bind_all(sqlx::query(&st.sql), &st.params).fetch_optional(c).await.unwrap();
    get_result(row.map(|r| job_row(&r)))
}

async fn list(c: &SqlitePool, queue: &str, status: Option<&str>, limit: usize, offset: usize) -> Vec<RawJob> {
    let st = list_statement(queue, status, limit, offset);
    let rows = bind_all(sqlx::query(&st.sql), &st.params).fetch_all(c).await.unwrap();
    list_result(rows.iter().map(job_row).collect())
}

async fn depths(c: &SqlitePool) -> HashMap<String, u64> {
    let st = queue_depths_statement();
    let rows = bind_all(sqlx::query(&st.sql), &st.params).fetch_all(c).await.unwrap();
    let counts: Vec<(String, i64)> = rows.iter().map(|r| (r.get("queue"), r.get("count"))).collect();
    queue_depths_result(counts).into_iter().collect()
}

fn message_payload(text: &str) -> Vec<u8> {
    let mut m = serde_json::Map::new();
    m.insert("message".to_string(), serde_json::Value::String(text.to_string()));
    serde_json::to_vec(&serde_json::Value::Object(m)).unwrap()
}

#[test]
fn test_sqlite_push_and_pop() {
    block_on(async {
        let c = open().await;
        let job_id = push(&c, request("TestJob", "default", vec![1, 2, 3], 3, 0, now())).await.unwrap();
        assert!(!job_id.is_nil(), "Job ID should not be nil");

        let job = pop(&c, &["default"]).await.unwrap();
        assert!(job.is_some(), "Should be able to pop the job");

        let job = job.unwrap();
        assert_eq!(job.job_type, "TestJob");
        assert_eq!(job.attempts, 0);

        ack(&c, job.id).await;

        let job_after_ack = get(&c, job.id).await;
        assert!(job_after_ack.is_none(), "Job should be deleted after ack");
    });
}

#[test]
fn test_sqlite_fail() {
    block_on(async {
        let c = open().await;
        let _job_id = push(&c, request("TestJob", "default", vec![1, 2, 3], 3, 0, now())).await.unwrap();
        let job = pop(&c, &["default"]).await.unwrap().unwrap();

        fail(&c, job.id, "Something went wrong").await;

        let job_after = get(&c, job.id).await;
        assert!(job_after.is_some());
        assert_eq!(job_after.unwrap().error.as_deref(), Some("Something went wrong"));
    });
}

#[test]
fn user_test_enqueue_and_pop() {
    block_on(async {
        let c = open().await;
        let payload = message_payload("Hello from backyard!");
        let _job_id = push(&c, request("PrintMessage", "default", payload, 3, 0, now())).await.unwrap();
        let popped = pop(&c, &["default"]).await.unwrap();
        match popped {
            Some(popped) => {
                let parsed: serde_json::Value = serde_json::from_slice(&popped.payload).unwrap();
                assert_eq!(parsed["message"], "Hello from backyard!");
                ack(&c, popped.id).await;
            }
            None => panic!("job"),
        }
    });
}

#[test]
fn user_test_multiple_jobs() {
    block_on(async {
        let c = open().await;
        for i in 0..5 {
            let payload = message_payload(&format!("Job #{}", i));
            push(&c, request("PrintMessage", "default", payload, 3, 0, now())).await.unwrap();
        }
        let d = depths(&c).await;
        assert_eq!(d.get("default"), Some(&5));
        let mut count = 0;
        while let Some(job) = pop(&c, &["default"]).await.unwrap() {
            let _parsed: serde_json::Value = serde_json::from_slice(&job.payload).unwrap();
            ack(&c, job.id).await;
            count += 1;
        }
        assert_eq!(count, 5);
    });
}

#[test]
fn user_test_retry_logic() {
    block_on(async {
        let c = open().await;
        let _job_id = push(&c, request("FailingJob", "default", b"{\"attempt\":0}".to_vec(), 5, 0, now())).await.unwrap();
        let popped = pop(&c, &["default"]).await.unwrap().unwrap();
        let retry_at = next_retry_at(popped.attempts);
        retry(&c, popped.id, retry_at).await;
        let job_after = get(&c, popped.id).await.unwrap();
        assert!(job_after.attempts > 0);
        assert_eq!(job_after.attempts, 1);
        assert_eq!(job_after.scheduled_at, retry_at);
        assert!(job_after.scheduled_at > now());
    });
}

#[test]
fn user_test_job_inspection() {
    block_on(async {
        let c = open().await;
        for i in 0..3 {
            let payload = message_payload(&format!("Message {}", i));
            push(&c, request("PrintMessage", "test", payload, 3, i as i32, now())).await.unwrap();
        }
        let jobs = list(&c, "test", None, 10, 0).await;
        assert_eq!(jobs.len(), 3);
        if let Some(first) = jobs.first() {
            let fetched = get(&c, first.id).await;
            assert!(fetched.is_some());
        }
    });
}

#[test]
fn higher_priority_pops_first() {
    block_on(async {
        let c = open().await;
        let t = now();
        push(&c, request("Low", "default", vec![], 3, 0, t)).await.unwrap();
        push(&c, request("High", "default", vec![], 3, 10, t)).await.unwrap();
        assert_eq!(pop(&c, &["default"]).await.unwrap().unwrap().job_type, "High");
        assert_eq!(pop(&c, &["default"]).await.unwrap().unwrap().job_type, "Low");
        assert!(pop(&c, &["default"]).await.unwrap().is_none());
    });
}

#[test]
fn queue_named_first_pops_first() {
    block_on(async {
        let c = open().await;
        let t = now();
        push(&c, request("SendEmail", "default", vec![], 3, 0, t)).await.unwrap();
        push(&c, request("SendEmail", "critical", vec![], 3, 0, t)).await.unwrap();
        push(&c, request("SendEmail", "default", vec![], 3, 0, t)).await.unwrap();
        let d = depths(&c).await;
        assert_eq!(d.get("default"), Some(&2));
        assert_eq!(d.get("critical"), Some(&1));
        let job = pop(&c, &["critical", "default"]).await.unwrap().unwrap();
        assert_eq!(job.queue, "critical");
        let job = pop(&c, &["default", "critical"]).await.unwrap().unwrap();
        assert_eq!(job.queue, "default");
    });
}

#[test]
fn oldest_job_pops_first_among_equals() {
    block_on(async {
        let c = open().await;
        let t = now();
        let first = push(&c, request("A", "default", vec![], 3, 0, t)).await.unwrap();
        tokio::time::sleep(std::time::Duration::from_millis(5)).await;
        push(&c, request("B", "default", vec![], 3, 0, t)).await.unwrap();
        assert_eq!(pop(&c, &["default"]).await.unwrap().unwrap().id, first);
    });
}

#[test]
fn scheduled_job_waits_until_due() {
    block_on(async {
        let c = open().await;
        let n = now();
        let later = Timestamp { secs: n.secs + 3_600, nanos: n.nanos };
        push(&c, request("SendEmail", "default", vec![], 3, 0, later)).await.unwrap();
        assert!(pop(&c, &["default"]).await.unwrap().is_none(), "Job shouldn't be ready yet");
        assert!(pop(&c, &[]).await.unwrap().is_none());
    });
}

#[test]
fn retried_job_waits_for_its_backoff() {
    block_on(async {
        let c = open().await;
        push(&c, request("FailingJob", "default", vec![], 3, 0, now())).await.unwrap();
        let popped = pop(&c, &["default"]).await.unwrap().unwrap();
        assert!(pop(&c, &["default"]).await.unwrap().is_none(), "a running job is not handed out twice");
        retry(&c, popped.id, next_retry_at(popped.attempts)).await;
        assert!(pop(&c, &["default"]).await.unwrap().is_none());
        let dead = list(&c, "default", Some("pending"), 10, 0).await;
        assert_eq!(dead.len(), 1);
    });
}

#[test]
fn failed_job_lands_in_the_dead_letter_queue() {
    block_on(async {
        let c = open().await;
        push(&c, request("ProcessPayment", "default", vec![], 0, 0, now())).await.unwrap();
        let popped = pop(&c, &["default"]).await.unwrap().unwrap();
        fail(&c, popped.id, "Max retries exceeded").await;
        let dead = list(&c, "default", Some("dead"), 100, 0).await;
        assert_eq!(dead.len(), 1);
        assert_eq!(dead[0].error.as_deref(), Some("Max retries exceeded"));
        assert!(depths(&c).await.get("default").is_none());
    });
}

#[test]
fn dead_job_stays_out_and_retried_job_pops_again_when_due() {
    block_on(async {
        let c = open().await;
        push(&c, request("ProcessPayment", "default", vec![], 0, 0, now())).await.unwrap();
        let first = pop(&c, &["default"]).await.unwrap().unwrap();
        fail(&c, first.id, "boom").await;
        assert!(pop(&c, &["default"]).await.unwrap().is_none(), "a dead job is not handed out");
        assert!(depths(&c).await.get("default").is_none());

        push(&c, request("SendEmail", "default", vec![], 3, 0, now())).await.unwrap();
        let second = pop(&c, &["default"]).await.unwrap().unwrap();
        assert!(pop(&c, &["default"]).await.unwrap().is_none(), "a claimed job is not handed out again");
        assert_eq!(depths(&c).await.get("default"), Some(&1));
        retry(&c, second.id, now()).await;
        let again = pop(&c, &["default"]).await.unwrap().unwrap();
        assert_eq!(again.id, second.id);
        assert_eq!(again.attempts, 1);
    });
}
