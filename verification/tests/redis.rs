use backyard::error::BackyardError;
use backyard::job::{EnqueueRequest, JobId};
use backyard::redis::{RedisConfig, RedisQueue};
use backyard::time::Timestamp;

fn is_unimplemented<T>(r: Result<T, BackyardError>) -> bool {
    matches!(r, Err(BackyardError::Backend(m)) if m == "Redis backend not fully implemented yet")
}

#[test]
fn redis_defaults() {
    let c = RedisConfig::default();
    assert_eq!(c.redis_url, "redis://127.0.0.1:6379");
    assert_eq!(c.pool_size, 10);
}

#[test]
fn every_redis_operation_is_unimplemented() {
    let q = RedisQueue::new(RedisConfig::default()).unwrap();
    let id = JobId { value: 1 };
    let req = EnqueueRequest {
        job_type: "T".to_string(),
        queue: "default".to_string(),
        payload: vec![],
        max_retries: 3,
        priority: 0,
        scheduled_at: Timestamp { secs: 0, nanos: 0 },
    };
    assert!(is_unimplemented(q.push(req)));
    assert!(is_unimplemented(q.pop(&vec!["default".to_string()])));
    assert!(is_unimplemented(q.ack(id)));
    assert!(is_unimplemented(q.fail(id, "x")));
    assert!(is_unimplemented(q.retry(id, Timestamp { secs: 0, nanos: 0 })));
    assert!(is_unimplemented(q.get(id)));
    assert!(is_unimplemented(q.list("default", None, 10, 0)));
    assert!(is_unimplemented(q.queue_depths()));
}
