//! Backyard: a job queue whose scheduling, retry and bookkeeping rules are
//! verified with Verus. The clock, randomness, UUIDs and date texts come
//! through small trusted wrappers; the database and the async runtime are
//! driven from outside, by the statements and step functions decided here.

pub mod text;
pub mod time;
pub mod retry;
pub mod error;
pub mod options;
pub mod job;
pub mod worker;
pub mod sqlite;
pub mod redis;
pub mod registry;
pub mod builder;
pub mod lifecycle;
pub mod table;
