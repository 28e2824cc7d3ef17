//! The Redis backend, which does not store jobs yet: every operation fails.

use vstd::prelude::*;
use crate::error::BackyardError;
use crate::job::{JobId, RawJob, EnqueueRequest};
use crate::time::Timestamp;
use crate::sqlite::new_worker_id;

verus! {

/// Settings of the Redis backend.
#[derive(Clone, Debug)]
pub struct RedisConfig {
    pub redis_url: String,
    pub pool_size: usize,
}

impl Default for RedisConfig {
    /// The defaults: the local server on port 6379, ten connections.
    fn default() -> (c: RedisConfig)
        ensures
            c.redis_url@ == "redis://127.0.0.1:6379"@,
            c.pool_size == 10,
    {
        RedisConfig { redis_url: String::from_str("redis://127.0.0.1:6379"), pool_size: 10 }
    }
}

/// A queue on Redis (not implemented: every operation fails).
pub struct RedisQueue {
    config: RedisConfig,
    worker_id: String,
}

/// The text of the error every Redis operation gives.
pub open spec fn redis_unimplemented_text() -> Seq<char> {
    "Redis backend not fully implemented yet"@
}

/// `r` is the error every Redis operation gives.
pub open spec fn is_unimplemented<T>(r: std::result::Result<T, BackyardError>) -> bool {
    r matches Err(BackyardError::Backend(m)) && m@ == redis_unimplemented_text()
}

/// The error every Redis operation gives.
fn unimplemented<T>() -> (r: std::result::Result<T, BackyardError>)
    ensures
        is_unimplemented(r),
{
    Err(BackyardError::Backend(String::from_str("Redis backend not fully implemented yet")))
}

impl RedisQueue {
    /// The settings the queue was made with.
    pub closed spec fn spec_config(&self) -> RedisConfig {
        self.config
    }

    /// A Redis queue with `config` and a fresh worker id; always succeeds.
    pub fn new(config: RedisConfig) -> (r: std::result::Result<RedisQueue, BackyardError>)
        ensures
            r matches Ok(q) && q.spec_config() == config,
    {
        Ok(RedisQueue { config, worker_id: new_worker_id() })
    }

    /// Enqueueing fails: not implemented.
    pub fn push(&self, req: EnqueueRequest) -> (r: std::result::Result<JobId, BackyardError>)
        ensures
            is_unimplemented(r),
    {
        unimplemented()
    }

    /// Popping fails: not implemented.
    pub fn pop(&self, queues: &Vec<String>) -> (r: std::result::Result<Option<RawJob>, BackyardError>)
        ensures
            is_unimplemented(r),
    {
        unimplemented()
    }

    /// Acknowledging fails: not implemented.
    pub fn ack(&self, id: JobId) -> (r: std::result::Result<(), BackyardError>)
        ensures
            is_unimplemented(r),
    {
        unimplemented()
    }

    /// Failing a job fails: not implemented.
    pub fn fail(&self, id: JobId, err: &str) -> (r: std::result::Result<(), BackyardError>)
        ensures
            is_unimplemented(r),
    {
        unimplemented()
    }

    /// Retrying fails: not implemented.
    pub fn retry(&self, id: JobId, retry_at: Timestamp) -> (r: std::result::Result<(), BackyardError>)
        ensures
            is_unimplemented(r),
    {
        unimplemented()
    }

    /// Reading a job fails: not implemented.
    pub fn get(&self, id: JobId) -> (r: std::result::Result<Option<RawJob>, BackyardError>)
        ensures
            is_unimplemented(r),
    {
        unimplemented()
    }

    /// Listing fails: not implemented.
    pub fn list(&self, queue: &str, status: Option<&str>, limit: usize, offset: usize) -> (r: std::result::Result<Vec<RawJob>, BackyardError>)
        ensures
            is_unimplemented(r),
    {
        unimplemented()
    }

    /// Counting fails: not implemented.
    pub fn queue_depths(&self) -> (r: std::result::Result<Vec<(String, u64)>, BackyardError>)
        ensures
            is_unimplemented(r),
    {
        unimplemented()
    }
}

} // verus!
