//! The SQLite backend's own logic: the statements it sends, the rows it
//! reads back, and the order of the steps of a pop. The connection pool and
//! the database calls sit in the application around it.

use vstd::prelude::*;
use crate::time::{Timestamp, Delay, date_text_spec, spec_rfc3339_parse, in_rfc3339_years, now, clock_reading};
use crate::job::{JobId, RawJob, RawJobView, EnqueueRequest, opt_text, uuid_hyphenated, spec_uuid_parse, uuid_reads_as};
use crate::error::BackyardError;
use crate::text::{decimal, decimal_text};

verus! {

/// Settings of the SQLite backend.
#[derive(Clone, Debug)]
pub struct SqliteConfig {
    pub database_url: String,
    pub poll_interval: Delay,
    pub max_connections: u32,
}

impl Default for SqliteConfig {
    /// The defaults: the file `backyard.db`, a quarter second between polls,
    /// five connections.
    fn default() -> (c: SqliteConfig)
        ensures
            c.database_url@ == "sqlite://backyard.db"@,
            c.poll_interval == (Delay { secs: 0, nanos: 250_000_000 }),
            c.max_connections == 5,
    {
        SqliteConfig {
            database_url: String::from_str("sqlite://backyard.db"),
            poll_interval: Delay::from_millis(250),
            max_connections: 5,
        }
    }
}

/// The table of jobs.
pub const CREATE_TABLE_SQL: &'static str = "\n        CREATE TABLE IF NOT EXISTS jobs (\n            id TEXT NOT NULL PRIMARY KEY,\n            queue TEXT NOT NULL DEFAULT 'default',\n            job_type TEXT NOT NULL,\n            payload BLOB NOT NULL,\n            status TEXT NOT NULL DEFAULT 'pending',\n            attempts INTEGER NOT NULL DEFAULT 0,\n            max_retries INTEGER NOT NULL DEFAULT 3,\n            priority INTEGER NOT NULL DEFAULT 0,\n            scheduled_at TEXT NOT NULL,\n            locked_by TEXT,\n            locked_at TEXT,\n            error TEXT,\n            created_at TEXT NOT NULL\n        )";

/// The index that finds due jobs of a queue.
pub const CREATE_INDEX_QUEUE_SQL: &'static str = "CREATE INDEX IF NOT EXISTS idx_jobs_queue_status_scheduled ON jobs(queue, status, scheduled_at)";

/// The index on job status.
pub const CREATE_INDEX_STATUS_SQL: &'static str = "CREATE INDEX IF NOT EXISTS idx_jobs_status ON jobs(status)";

/// Stores a new pending job.
pub const INSERT_SQL: &'static str = "INSERT INTO jobs\n               (id, queue, job_type, payload, status, attempts, max_retries, priority, scheduled_at, created_at)\n               VALUES (?, ?, ?, ?, 'pending', 0, ?, ?, ?, ?)";

/// The part of the pop query before the list of queue placeholders.
pub const POP_SELECT_HEAD_SQL: &'static str = "SELECT id, queue, job_type, payload, attempts, max_retries, scheduled_at, created_at, error\n               FROM jobs\n               WHERE status = 'pending'\n                 AND scheduled_at <= ?1\n                 AND queue IN (";

/// The part of the pop query between the list of queue placeholders and the
/// ranking of the queues: a higher priority comes first, then a queue named
/// earlier.
pub const POP_SELECT_ORDER_SQL: &'static str = ")\n               ORDER BY priority DESC, CASE queue";

/// The part of the pop query after the ranking of the queues: among equals,
/// the oldest job comes first.
pub const POP_SELECT_TAIL_SQL: &'static str = " END, created_at ASC\n               LIMIT 1";

/// Claims a popped job for a worker.
pub const MARK_RUNNING_SQL: &'static str = "UPDATE jobs SET status='running', locked_by=?, locked_at=? WHERE id=?";

/// Removes a finished job.
pub const DELETE_SQL: &'static str = "DELETE FROM jobs WHERE id = ?";

/// Moves a job to the dead letter queue.
pub const FAIL_SQL: &'static str = "UPDATE jobs SET status='dead', error=?, locked_by=NULL, locked_at=NULL WHERE id=?";

/// Puts a job back for a later attempt.
pub const RETRY_SQL: &'static str = "UPDATE jobs\n               SET status='pending',\n                   attempts = attempts + 1,\n                   scheduled_at = ?,\n                   locked_by = NULL,\n                   locked_at = NULL\n               WHERE id = ?";

/// Reads one job.
pub const GET_SQL: &'static str = "SELECT id, queue, job_type, payload, attempts, max_retries, scheduled_at, created_at, error\n               FROM jobs WHERE id = ?";

/// Lists the jobs of a queue with a given status, a page at a time.
pub const LIST_WITH_STATUS_SQL: &'static str = "SELECT id, queue, job_type, payload, attempts, max_retries, scheduled_at, created_at, error\n                   FROM jobs\n                   WHERE queue = ? AND status = ?\n                   ORDER BY priority ASC, created_at ASC\n                   LIMIT ? OFFSET ?";

/// Lists the jobs of a queue, a page at a time.
pub const LIST_ALL_SQL: &'static str = "SELECT id, queue, job_type, payload, attempts, max_retries, scheduled_at, created_at, error\n                   FROM jobs\n                   WHERE queue = ?\n                   ORDER BY priority ASC, created_at ASC\n                   LIMIT ? OFFSET ?";

/// Counts the waiting and running jobs of each queue.
pub const QUEUE_DEPTHS_SQL: &'static str = "SELECT queue, COUNT(*) as count\n               FROM jobs\n               WHERE status = 'pending' OR status = 'running'\n               GROUP BY queue";

/// A value bound to a statement parameter.
#[derive(Debug)]
pub enum SqlValue {
    Integer(i64),
    Text(String),
    Blob(Vec<u8>),
}

/// A bound value as a mathematical value.
pub enum SqlValueView {
    Integer(i64),
    Text(Seq<char>),
    Blob(Seq<u8>),
}

impl View for SqlValue {
    type V = SqlValueView;

    open spec fn view(&self) -> SqlValueView {
        match self {
            SqlValue::Integer(i) => SqlValueView::Integer(*i),
            SqlValue::Text(s) => SqlValueView::Text(s@),
            SqlValue::Blob(b) => SqlValueView::Blob(b@),
        }
    }
}

/// A statement: its SQL text and the values of its parameters, in order.
#[derive(Debug)]
pub struct SqlStatement {
    pub sql: String,
    pub params: Vec<SqlValue>,
}

/// The bound values, as mathematical values.
pub open spec fn params_view(p: Seq<SqlValue>) -> Seq<SqlValueView> {
    p.map_values(|v: SqlValue| v@)
}

/// `s` is the statement with text `sql` and parameters `params`.
pub open spec fn statement_is(s: SqlStatement, sql: Seq<char>, params: Seq<SqlValueView>) -> bool {
    s.sql@ == sql && params_view(s.params@) == params
}

/// The text of the error given when an instant cannot be written as a date.
pub open spec fn out_of_range_text() -> Seq<char> {
    "timestamp out of range"@
}

/// `r` failed with a backend error whose text is `m`.
pub open spec fn is_backend_err<T>(r: std::result::Result<T, BackyardError>, m: Seq<char>) -> bool {
    r matches Err(BackyardError::Backend(x)) && x@ == m
}

/// The error for an instant that cannot be written as a date.
fn out_of_range() -> (e: BackyardError)
    ensures
        e matches BackyardError::Backend(x) && x@ == out_of_range_text(),
{
    BackyardError::Backend(String::from_str("timestamp out of range"))
}

/// The RFC 3339 text of an instant, or the out-of-range error.
fn date_text(t: Timestamp) -> (r: std::result::Result<String, BackyardError>)
    ensures
        match date_text_spec(t) {
            Some(s) => r matches Ok(x) && x@ == s,
            None => is_backend_err(r, out_of_range_text()),
        },
        in_rfc3339_years(t) ==> (r matches Ok(x) && spec_rfc3339_parse(x@) == std::result::Result::<(i64, u32), Seq<char>>::Ok((t.secs, t.nanos))),
{
    match t.to_rfc3339() {
        Some(s) => Ok(s),
        None => Err(out_of_range()),
    }
}

/// A statement that sets up the schema, and the words that lead the error
/// when it fails.
pub struct SchemaStep {
    pub sql: String,
    pub failure_context: String,
}

/// What leads the error when no connection can be had for the setup.
pub const ACQUIRE_FAILED_CONTEXT: &'static str = "Failed to get connection: ";

/// The setup of the schema, in the order it runs: the table, then its two
/// indexes, each with the context of its failure.
pub fn schema_steps() -> (v: Vec<SchemaStep>)
    ensures
        v@.len() == 3,
        v@[0].sql@ == CREATE_TABLE_SQL@,
        v@[0].failure_context@ == "Create table failed: "@,
        v@[1].sql@ == CREATE_INDEX_QUEUE_SQL@,
        v@[1].failure_context@ == "Create index 1 failed: "@,
        v@[2].sql@ == CREATE_INDEX_STATUS_SQL@,
        v@[2].failure_context@ == "Create index 2 failed: "@,
{
    let mut v: Vec<SchemaStep> = Vec::new();
    v.push(SchemaStep {
        sql: String::from_str(CREATE_TABLE_SQL),
        failure_context: String::from_str("Create table failed: "),
    });
    v.push(SchemaStep {
        sql: String::from_str(CREATE_INDEX_QUEUE_SQL),
        failure_context: String::from_str("Create index 1 failed: "),
    });
    v.push(SchemaStep {
        sql: String::from_str(CREATE_INDEX_STATUS_SQL),
        failure_context: String::from_str("Create index 2 failed: "),
    });
    v
}

/// The error a failed setup step gives: its context followed by the
/// database's message.
pub fn setup_error(context: &str, message: &str) -> (e: BackyardError)
    ensures
        e matches BackyardError::Backend(x) && x@ == context@ + message@,
{
    BackyardError::Backend(String::from_str(context).concat(message))
}

/// The id under which a backend instance claims jobs: a fresh random UUID.
pub fn new_worker_id() -> (s: String)
    ensures
        exists|v: u128| v != 0 && (v >> 76u128) & 0xfu128 == 4u128 && #[trigger] uuid_hyphenated(v) == s@,
{
    let id = JobId::new_random();
    id.to_text()
}

/// The text bound to a parameter (empty for other values).
pub open spec fn text_of(v: SqlValueView) -> Seq<char> {
    match v {
        SqlValueView::Text(s) => s,
        _ => Seq::empty(),
    }
}

/// The bytes bound to a parameter (empty for other values).
pub open spec fn blob_of(v: SqlValueView) -> Seq<u8> {
    match v {
        SqlValueView::Blob(b) => b,
        _ => Seq::empty(),
    }
}

/// The integer bound to a parameter (zero for other values).
pub open spec fn integer_of(v: SqlValueView) -> i64 {
    match v {
        SqlValueView::Integer(i) => i,
        _ => 0,
    }
}

/// The row that `INSERT_SQL` stores from its parameters `p`: a pending job
/// with no attempt made and no error.
pub open spec fn row_stored_by_insert(p: Seq<SqlValueView>) -> JobRowView {
    JobRowView {
        id: text_of(p[0]),
        queue: text_of(p[1]),
        job_type: text_of(p[2]),
        payload: blob_of(p[3]),
        attempts: 0,
        max_retries: integer_of(p[4]),
        scheduled_at: text_of(p[6]),
        created_at: text_of(p[7]),
        error: None,
    }
}

/// The job that `req` becomes when stored under `id` at `created_at`.
pub open spec fn stored_job(req: EnqueueRequest, id: JobId, created_at: Timestamp) -> RawJobView {
    RawJobView {
        id: id,
        job_type: req.job_type@,
        queue: req.queue@,
        payload: req.payload@,
        attempts: 0,
        max_retries: req.max_retries,
        scheduled_at: req.scheduled_at,
        created_at: created_at,
        error: None,
    }
}

/// The statement that stores `req` as a new pending job with id `id`,
/// created at `created_at`. For instants of the years 0 to 9999, the row it
/// stores reads back as the request with its id, its creation time, no
/// attempt made and no error.
pub fn push_statement(req: EnqueueRequest, id: JobId, created_at: Timestamp) -> (r: std::result::Result<SqlStatement, BackyardError>)
    ensures
        match (date_text_spec(req.scheduled_at), date_text_spec(created_at)) {
            (Some(st), Some(ct)) => r matches Ok(s) && statement_is(s, INSERT_SQL@, seq![
                SqlValueView::Text(uuid_hyphenated(id.value)),
                SqlValueView::Text(req.queue@),
                SqlValueView::Text(req.job_type@),
                SqlValueView::Blob(req.payload@),
                SqlValueView::Integer(req.max_retries as i64),
                SqlValueView::Integer(req.priority as i64),
                SqlValueView::Text(st),
                SqlValueView::Text(ct),
            ]),
            _ => is_backend_err(r, out_of_range_text()),
        },
        in_rfc3339_years(req.scheduled_at) && in_rfc3339_years(created_at) ==> (r matches Ok(s)
            && decode_spec(row_stored_by_insert(params_view(s.params@))) == std::result::Result::<RawJobView, Seq<char>>::Ok(
            stored_job(req, id, created_at),
        )),
{
    let scheduled = match date_text(req.scheduled_at) {
        Ok(s) => s,
        Err(e) => return Err(e),
    };
    let created = match date_text(created_at) {
        Ok(s) => s,
        Err(e) => return Err(e),
    };
    let mut params: Vec<SqlValue> = Vec::new();
    let ghost g = req;
    params.push(SqlValue::Text(id.to_text()));
    params.push(SqlValue::Text(req.queue));
    params.push(SqlValue::Text(req.job_type));
    params.push(SqlValue::Blob(req.payload));
    params.push(SqlValue::Integer(req.max_retries as i64));
    params.push(SqlValue::Integer(req.priority as i64));
    params.push(SqlValue::Text(scheduled));
    params.push(SqlValue::Text(created));
    let s = SqlStatement { sql: String::from_str(INSERT_SQL), params };
    assert(params_view(s.params@) =~= seq![
        SqlValueView::Text(uuid_hyphenated(id.value)),
        SqlValueView::Text(req.queue@),
        SqlValueView::Text(req.job_type@),
        SqlValueView::Blob(req.payload@),
        SqlValueView::Integer(req.max_retries as i64),
        SqlValueView::Integer(req.priority as i64),
        SqlValueView::Text(date_text_spec(req.scheduled_at).unwrap()),
        SqlValueView::Text(date_text_spec(created_at).unwrap()),
    ]);
    proof {
        let m = g.max_retries;
        assert(((m as i64) as u32) == m) by (bit_vector);
    }
    Ok(s)
}

/// A fresh id and the statement that stores `req` under it, created now.
pub fn prepare_push(req: EnqueueRequest) -> (r: std::result::Result<(JobId, SqlStatement), BackyardError>)
    ensures
        r matches Ok((id, _)) ==> id.value != 0 && (id.value >> 76u128) & 0xfu128 == 4u128,
        exists|id: JobId, t: Timestamp| clock_reading(t) && #[trigger] push_outcome(req, id, t, r),
{
    let id = JobId::new_random();
    let created = now();
    let ghost g = req;
    let r = push_statement(req, id, created);
    assert(push_outcome(g, id, created, match r { Ok(s) => Ok((id, s)), Err(e) => Err(e) }));
    match r {
        Ok(s) => Ok((id, s)),
        Err(e) => Err(e),
    }
}

/// `r` is what preparing `req` gives for the id `id` and the creation time `t`.
pub open spec fn push_outcome(
    req: EnqueueRequest,
    id: JobId,
    t: Timestamp,
    r: std::result::Result<(JobId, SqlStatement), BackyardError>,
) -> bool {
    &&& match (date_text_spec(req.scheduled_at), date_text_spec(t)) {
        (Some(st), Some(ct)) => r matches Ok((i, s)) && i == id && statement_is(s, INSERT_SQL@, seq![
            SqlValueView::Text(uuid_hyphenated(id.value)),
            SqlValueView::Text(req.queue@),
            SqlValueView::Text(req.job_type@),
            SqlValueView::Blob(req.payload@),
            SqlValueView::Integer(req.max_retries as i64),
            SqlValueView::Integer(req.priority as i64),
            SqlValueView::Text(st),
            SqlValueView::Text(ct),
        ]),
        _ => is_backend_err(r, out_of_range_text()),
    }
    &&& in_rfc3339_years(req.scheduled_at) && in_rfc3339_years(t) ==> (r matches Ok((i, s))
        && decode_spec(row_stored_by_insert(params_view(s.params@))) == std::result::Result::<RawJobView, Seq<char>>::Ok(
        stored_job(req, id, t),
    ))
}

/// The placeholder of the `i`-th queue of a pop (the clock reading takes
/// the first): `$` followed by `i + 2`.
pub open spec fn placeholder(i: nat) -> Seq<char> {
    "$"@ + decimal(i + 2)
}

/// The placeholders of `n` queues, separated by commas.
pub open spec fn placeholders(n: nat) -> Seq<char>
    decreases n,
{
    if n == 0 {
        Seq::empty()
    } else if n == 1 {
        placeholder(0)
    } else {
        placeholders((n - 1) as nat) + ","@ + placeholder((n - 1) as nat)
    }
}

/// The ranking of the `n` queues of a pop by their position: the `i`-th
/// queue ranks `i`.
pub open spec fn queue_ranks(n: nat) -> Seq<char>
    decreases n,
{
    if n == 0 {
        Seq::empty()
    } else {
        queue_ranks((n - 1) as nat) + " WHEN "@ + placeholder((n - 1) as nat) + " THEN "@ + decimal((n - 1) as nat)
    }
}

/// The SQL text of a pop over `n` queues.
pub open spec fn pop_select_sql(n: nat) -> Seq<char> {
    POP_SELECT_HEAD_SQL@ + placeholders(n) + POP_SELECT_ORDER_SQL@ + queue_ranks(n) + POP_SELECT_TAIL_SQL@
}

/// The placeholders of `n` queues: `$2,$3,...`.
pub fn placeholder_list(n: usize) -> (s: String)
    requires
        n < usize::MAX,
    ensures
        s@ == placeholders(n as nat),
{
    let mut s = String::new();
    let mut i: usize = 0;
    while i < n
        invariant
            i <= n,
            n < usize::MAX,
            s@ == placeholders(i as nat),
        decreases n - i,
    {
        let ghost before = s@;
        if i > 0 {
            s.append(",");
        }
        s.append("$");
        let num = decimal_text((i + 2) as u64);
        s.append(num.as_str());
        proof {
            if i == 0 {
                assert(s@ =~= placeholder(0));
            } else {
                assert(s@ =~= before + ","@ + placeholder(i as nat));
            }
        }
        i = i + 1;
    }
    s
}

/// The ranking of `n` queues: ` WHEN $2 THEN 0 WHEN $3 THEN 1 ...`.
pub fn queue_rank_list(n: usize) -> (s: String)
    requires
        n < usize::MAX,
    ensures
        s@ == queue_ranks(n as nat),
{
    let mut s = String::new();
    let mut i: usize = 0;
    while i < n
        invariant
            i <= n,
            n < usize::MAX,
            s@ == queue_ranks(i as nat),
        decreases n - i,
    {
        let ghost before = s@;
        s.append(" WHEN ");
        s.append("$");
        let num = decimal_text((i + 2) as u64);
        s.append(num.as_str());
        s.append(" THEN ");
        let rank = decimal_text(i as u64);
        s.append(rank.as_str());
        proof {
            assert(s@ =~= before + " WHEN "@ + placeholder(i as nat) + " THEN "@ + decimal(i as nat));
        }
        i = i + 1;
    }
    s
}

/// The queue names as statement values.
pub open spec fn queue_params(queues: Seq<String>) -> Seq<SqlValueView> {
    queues.map_values(|q: String| SqlValueView::Text(q@))
}

/// The statement that selects the next due job of `queues` at `now`, or
/// nothing when there are no queues to look in.
pub fn pop_select_statement(queues: &Vec<String>, now: Timestamp) -> (r: std::result::Result<Option<SqlStatement>, BackyardError>)
    requires
        queues@.len() < usize::MAX,
    ensures
        queues@.len() == 0 ==> r matches Ok(None),
        queues@.len() > 0 ==> match date_text_spec(now) {
            Some(t) => r matches Ok(Some(s)) && statement_is(
                s,
                pop_select_sql(queues@.len()),
                seq![SqlValueView::Text(t)] + queue_params(queues@),
            ),
            None => is_backend_err(r, out_of_range_text()),
        },
{
    if queues.len() == 0 {
        return Ok(None);
    }
    let now_text = match date_text(now) {
        Ok(t) => t,
        Err(e) => return Err(e),
    };
    let mut sql = String::from_str(POP_SELECT_HEAD_SQL);
    let list = placeholder_list(queues.len());
    sql.append(list.as_str());
    sql.append(POP_SELECT_ORDER_SQL);
    let ranks = queue_rank_list(queues.len());
    sql.append(ranks.as_str());
    sql.append(POP_SELECT_TAIL_SQL);
    let mut params: Vec<SqlValue> = Vec::new();
    params.push(SqlValue::Text(now_text));
    let mut i: usize = 0;
    while i < queues.len()
        invariant
            i <= queues@.len(),
            date_text_spec(now) is Some,
            params_view(params@) =~= seq![SqlValueView::Text(date_text_spec(now).unwrap())]
                + queue_params(queues@.subrange(0, i as int)),
        decreases queues@.len() - i,
    {
        let ghost before = params@;
        params.push(SqlValue::Text(queues[i].clone()));
        assert(params_view(params@) =~= params_view(before).push(SqlValueView::Text(queues@[i as int]@)));
        assert(queues@.subrange(0, (i + 1) as int) =~= queues@.subrange(0, i as int).push(queues@[i as int]));
        assert(queue_params(queues@.subrange(0, (i + 1) as int)) =~= queue_params(queues@.subrange(0, i as int)).push(
            SqlValueView::Text(queues@[i as int]@),
        ));
        i = i + 1;
    }
    assert(queues@.subrange(0, queues@.len() as int) =~= queues@);
    assert(sql@ =~= pop_select_sql(queues@.len()));
    Ok(Some(SqlStatement { sql, params }))
}

/// The statement that marks the job with id text `id` as running for
/// `worker_id` since `locked_at`.
pub fn mark_running_statement(worker_id: &String, locked_at: Timestamp, id: &String) -> (r: std::result::Result<SqlStatement, BackyardError>)
    ensures
        match date_text_spec(locked_at) {
            Some(t) => r matches Ok(s) && statement_is(s, MARK_RUNNING_SQL@, seq![
                SqlValueView::Text(worker_id@),
                SqlValueView::Text(t),
                SqlValueView::Text(id@),
            ]),
            None => is_backend_err(r, out_of_range_text()),
        },
{
    let at = match date_text(locked_at) {
        Ok(t) => t,
        Err(e) => return Err(e),
    };
    let mut params: Vec<SqlValue> = Vec::new();
    params.push(SqlValue::Text(worker_id.clone()));
    params.push(SqlValue::Text(at));
    params.push(SqlValue::Text(id.clone()));
    let s = SqlStatement { sql: String::from_str(MARK_RUNNING_SQL), params };
    assert(params_view(s.params@) =~= seq![
        SqlValueView::Text(worker_id@),
        SqlValueView::Text(date_text_spec(locked_at).unwrap()),
        SqlValueView::Text(id@),
    ]);
    Ok(s)
}

/// The statement that removes the job `id` (acknowledgement); the id it
/// binds reads back as `id`.
pub fn delete_statement(id: JobId) -> (s: SqlStatement)
    ensures
        statement_is(s, DELETE_SQL@, seq![SqlValueView::Text(uuid_hyphenated(id.value))]),
        uuid_reads_as(uuid_hyphenated(id.value), id.value),
{
    let mut params: Vec<SqlValue> = Vec::new();
    params.push(SqlValue::Text(id.to_text()));
    let s = SqlStatement { sql: String::from_str(DELETE_SQL), params };
    assert(params_view(s.params@) =~= seq![SqlValueView::Text(uuid_hyphenated(id.value))]);
    s
}

/// The row that `FAIL_SQL` with parameters `p` leaves of `row`: the same
/// job, dead, with the error text of the first parameter.
pub open spec fn row_after_fail(row: JobRowView, p: Seq<SqlValueView>) -> JobRowView {
    JobRowView { error: Some(text_of(p[0])), ..row }
}

/// The row that `RETRY_SQL` with parameters `p` leaves of `row`: the same
/// job, pending again, with one more attempt and the time of the first
/// parameter.
pub open spec fn row_after_retry(row: JobRowView, p: Seq<SqlValueView>) -> JobRowView {
    JobRowView { attempts: (row.attempts + 1) as i64, scheduled_at: text_of(p[0]), ..row }
}

/// The statement that moves the job `id` to the dead letter queue with the
/// error text `err`; the job then reads back as before with that error.
pub fn fail_statement(id: JobId, err: &str) -> (s: SqlStatement)
    ensures
        statement_is(s, FAIL_SQL@, seq![SqlValueView::Text(err@), SqlValueView::Text(uuid_hyphenated(id.value))]),
        forall|row: JobRowView| #![trigger row_after_fail(row, params_view(s.params@))]
            decode_spec(row) matches Ok(j) ==> decode_spec(row_after_fail(row, params_view(s.params@)))
                == std::result::Result::<RawJobView, Seq<char>>::Ok(RawJobView { error: Some(err@), ..j }),
{
    let mut params: Vec<SqlValue> = Vec::new();
    params.push(SqlValue::Text(String::from_str(err)));
    params.push(SqlValue::Text(id.to_text()));
    let s = SqlStatement { sql: String::from_str(FAIL_SQL), params };
    assert(params_view(s.params@) =~= seq![SqlValueView::Text(err@), SqlValueView::Text(uuid_hyphenated(id.value))]);
    s
}

/// The statement that puts the job `id` back, to run again at `retry_at`
/// with one more attempt counted; for an instant of the years 0 to 9999
/// the job then reads back with that time and one more attempt.
pub fn retry_statement(id: JobId, retry_at: Timestamp) -> (r: std::result::Result<SqlStatement, BackyardError>)
    ensures
        match date_text_spec(retry_at) {
            Some(t) => r matches Ok(s) && statement_is(s, RETRY_SQL@, seq![
                SqlValueView::Text(t),
                SqlValueView::Text(uuid_hyphenated(id.value)),
            ]),
            None => is_backend_err(r, out_of_range_text()),
        },
        in_rfc3339_years(retry_at) ==> (r matches Ok(s) && retry_reads_back(params_view(s.params@), retry_at)),
{
    let at = match date_text(retry_at) {
        Ok(t) => t,
        Err(e) => return Err(e),
    };
    let mut params: Vec<SqlValue> = Vec::new();
    params.push(SqlValue::Text(at));
    params.push(SqlValue::Text(id.to_text()));
    let s = SqlStatement { sql: String::from_str(RETRY_SQL), params };
    assert(params_view(s.params@) =~= seq![
        SqlValueView::Text(date_text_spec(retry_at).unwrap()),
        SqlValueView::Text(uuid_hyphenated(id.value)),
    ]);
    Ok(s)
}

/// Every stored row that reads as a job and has room for one more attempt
/// reads, after a retry with parameters `p`, as the same job at `retry_at`
/// with one more attempt.
pub open spec fn retry_reads_back(p: Seq<SqlValueView>, retry_at: Timestamp) -> bool {
    forall|row: JobRowView| #![trigger row_after_retry(row, p)]
        row.attempts < i64::MAX ==> (decode_spec(row) matches Ok(j) ==> decode_spec(row_after_retry(row, p))
            == std::result::Result::<RawJobView, Seq<char>>::Ok(RawJobView {
                attempts: (row.attempts + 1) as u32,
                scheduled_at: retry_at,
                ..j
            }))
}

/// The statement that reads the job `id`; the id it binds reads back as
/// `id`.
pub fn get_statement(id: JobId) -> (s: SqlStatement)
    ensures
        statement_is(s, GET_SQL@, seq![SqlValueView::Text(uuid_hyphenated(id.value))]),
        uuid_reads_as(uuid_hyphenated(id.value), id.value),
{
    let mut params: Vec<SqlValue> = Vec::new();
    params.push(SqlValue::Text(id.to_text()));
    let s = SqlStatement { sql: String::from_str(GET_SQL), params };
    assert(params_view(s.params@) =~= seq![SqlValueView::Text(uuid_hyphenated(id.value))]);
    s
}

/// The statement that lists a page of the jobs of `queue`, only those with
/// `status` when one is given; `limit` and `offset` are bound as `i64`
/// (wrapping above `i64::MAX`, as a cast does).
pub fn list_statement(queue: &str, status: Option<&str>, limit: usize, offset: usize) -> (s: SqlStatement)
    ensures
        match status {
            Some(st) => statement_is(s, LIST_WITH_STATUS_SQL@, seq![
                SqlValueView::Text(queue@),
                SqlValueView::Text(st@),
                SqlValueView::Integer(limit as i64),
                SqlValueView::Integer(offset as i64),
            ]),
            None => statement_is(s, LIST_ALL_SQL@, seq![
                SqlValueView::Text(queue@),
                SqlValueView::Integer(limit as i64),
                SqlValueView::Integer(offset as i64),
            ]),
        },
{
    let mut params: Vec<SqlValue> = Vec::new();
    params.push(SqlValue::Text(String::from_str(queue)));
    match status {
        Some(st) => {
            params.push(SqlValue::Text(String::from_str(st)));
            params.push(SqlValue::Integer(limit as i64));
            params.push(SqlValue::Integer(offset as i64));
            let s = SqlStatement { sql: String::from_str(LIST_WITH_STATUS_SQL), params };
            assert(params_view(s.params@) =~= seq![
                SqlValueView::Text(queue@),
                SqlValueView::Text(st@),
                SqlValueView::Integer(limit as i64),
                SqlValueView::Integer(offset as i64),
            ]);
            s
        },
        None => {
            params.push(SqlValue::Integer(limit as i64));
            params.push(SqlValue::Integer(offset as i64));
            let s = SqlStatement { sql: String::from_str(LIST_ALL_SQL), params };
            assert(params_view(s.params@) =~= seq![
                SqlValueView::Text(queue@),
                SqlValueView::Integer(limit as i64),
                SqlValueView::Integer(offset as i64),
            ]);
            s
        },
    }
}

/// The statement that counts the waiting and running jobs of each queue.
pub fn queue_depths_statement() -> (s: SqlStatement)
    ensures
        statement_is(s, QUEUE_DEPTHS_SQL@, Seq::empty()),
{
    let s = SqlStatement { sql: String::from_str(QUEUE_DEPTHS_SQL), params: Vec::new() };
    assert(params_view(s.params@) =~= Seq::empty());
    s
}

/// A row of the jobs table as the database returns it.
#[derive(Clone, Debug)]
pub struct JobRow {
    pub id: String,
    pub queue: String,
    pub job_type: String,
    pub payload: Vec<u8>,
    pub attempts: i64,
    pub max_retries: i64,
    pub scheduled_at: String,
    pub created_at: String,
    pub error: Option<String>,
}

/// A row as a mathematical value.
pub struct JobRowView {
    pub id: Seq<char>,
    pub queue: Seq<char>,
    pub job_type: Seq<char>,
    pub payload: Seq<u8>,
    pub attempts: i64,
    pub max_retries: i64,
    pub scheduled_at: Seq<char>,
    pub created_at: Seq<char>,
    pub error: Option<Seq<char>>,
}

impl View for JobRow {
    type V = JobRowView;

    open spec fn view(&self) -> JobRowView {
        JobRowView {
            id: self.id@,
            queue: self.queue@,
            job_type: self.job_type@,
            payload: self.payload@,
            attempts: self.attempts,
            max_retries: self.max_retries,
            scheduled_at: self.scheduled_at@,
            created_at: self.created_at@,
            error: opt_text(self.error),
        }
    }
}

/// What a row reads as: the job it stores, or the message of the first of
/// its id, its scheduled time and its creation time that does not parse.
/// The counters are cast to `u32` as they are (wrapping).
pub open spec fn decode_spec(row: JobRowView) -> std::result::Result<RawJobView, Seq<char>> {
    match spec_uuid_parse(row.id) {
        Err(m) => Err(m),
        Ok(v) => match spec_rfc3339_parse(row.scheduled_at) {
            Err(m) => Err(m),
            Ok(sched) => match spec_rfc3339_parse(row.created_at) {
                Err(m) => Err(m),
                Ok(created) => Ok(RawJobView {
                    id: JobId { value: v },
                    job_type: row.job_type,
                    queue: row.queue,
                    payload: row.payload,
                    attempts: row.attempts as u32,
                    max_retries: row.max_retries as u32,
                    scheduled_at: Timestamp { secs: sched.0, nanos: sched.1 },
                    created_at: Timestamp { secs: created.0, nanos: created.1 },
                    error: row.error,
                }),
            },
        },
    }
}

/// `r` is what reading `row` strictly gives: the job, or a backend error
/// with the parser's message.
pub open spec fn decoded_strictly(row: JobRowView, r: std::result::Result<RawJob, BackyardError>) -> bool {
    match decode_spec(row) {
        Ok(v) => r matches Ok(j) && j@ == v,
        Err(m) => is_backend_err(r, m),
    }
}

/// `r` is what reading `row` leniently gives: the job, or nothing.
pub open spec fn decoded_leniently(row: JobRowView, r: Option<RawJob>) -> bool {
    match decode_spec(row) {
        Ok(v) => r matches Some(j) && j@ == v,
        Err(_) => r is None,
    }
}

/// Reads a row; a part that does not parse is a backend error with the
/// parser's message.
pub fn decode_row(row: JobRow) -> (r: std::result::Result<RawJob, BackyardError>)
    ensures
        decoded_strictly(row@, r),
{
    let id = match JobId::parse(row.id.as_str()) {
        Ok(id) => id,
        Err(m) => return Err(BackyardError::Backend(m)),
    };
    let scheduled_at = match Timestamp::parse_rfc3339(row.scheduled_at.as_str()) {
        Ok(t) => t,
        Err(m) => return Err(BackyardError::Backend(m)),
    };
    let created_at = match Timestamp::parse_rfc3339(row.created_at.as_str()) {
        Ok(t) => t,
        Err(m) => return Err(BackyardError::Backend(m)),
    };
    Ok(RawJob {
        id,
        job_type: row.job_type,
        queue: row.queue,
        payload: row.payload,
        attempts: row.attempts as u32,
        max_retries: row.max_retries as u32,
        scheduled_at,
        created_at,
        error: row.error,
    })
}

/// Reads a row; a part that does not parse makes it nothing.
pub fn decode_row_lenient(row: JobRow) -> (r: Option<RawJob>)
    ensures
        decoded_leniently(row@, r),
{
    match decode_row(row) {
        Ok(j) => Some(j),
        Err(_) => None,
    }
}

/// What a read by id gives from the row found, if any: the job it stores,
/// or nothing when there is no row or it does not parse.
pub fn get_result(row: Option<JobRow>) -> (r: Option<RawJob>)
    ensures
        match row {
            Some(x) => decoded_leniently(x@, r),
            None => r is None,
        },
{
    match row {
        Some(x) => decode_row_lenient(x),
        None => None,
    }
}

/// The jobs that the rows store, in order, skipping rows that do not parse.
pub open spec fn decoded_rows(rows: Seq<JobRowView>) -> Seq<RawJobView>
    decreases rows.len(),
{
    if rows.len() == 0 {
        Seq::empty()
    } else {
        let init = decoded_rows(rows.drop_last());
        match decode_spec(rows.last()) {
            Ok(v) => init.push(v),
            Err(_) => init,
        }
    }
}

/// The rows as mathematical values.
pub open spec fn rows_view(rows: Seq<JobRow>) -> Seq<JobRowView> {
    rows.map_values(|r: JobRow| r@)
}

/// The jobs as mathematical values.
pub open spec fn jobs_view(jobs: Seq<RawJob>) -> Seq<RawJobView> {
    jobs.map_values(|j: RawJob| j@)
}

/// What a listing gives from the rows found: the jobs they store, in order,
/// without the rows that do not parse.
pub fn list_result(rows: Vec<JobRow>) -> (r: Vec<RawJob>)
    ensures
        jobs_view(r@) == decoded_rows(rows_view(rows@)),
{
    let ghost all = rows@;
    let mut out: Vec<RawJob> = Vec::new();
    proof {
        assert(rows_view(all.subrange(0, 0)) =~= Seq::<JobRowView>::empty());
    }
    for row in it: rows.into_iter()
        invariant
            it.seq() == all,
            jobs_view(out@) =~= decoded_rows(rows_view(all.subrange(0, it.index() as int))),
    {
        let ghost i = it.index();
        let ghost row_v = row@;
        let ghost before = out@;
        match decode_row_lenient(row) {
            Some(j) => {
                out.push(j);
                assert(jobs_view(out@) =~= jobs_view(before).push(j@));
            },
            None => {},
        }
        proof {
            let pre = rows_view(all.subrange(0, i + 1));
            assert(pre.drop_last() =~= rows_view(all.subrange(0, i)));
            assert(pre.last() == row_v);
        }
    }
    assert(all.subrange(0, all.len() as int) =~= all);
    out
}

/// The depth of each queue after reading `rows` of (queue, count) in order,
/// a later row for a queue replacing an earlier one; counts are cast to
/// `u64` as they are (wrapping).
pub open spec fn depths_map(rows: Seq<(Seq<char>, i64)>) -> Map<Seq<char>, u64>
    decreases rows.len(),
{
    if rows.len() == 0 {
        Map::empty()
    } else {
        depths_map(rows.drop_last()).insert(rows.last().0, rows.last().1 as u64)
    }
}

/// The (queue, count) rows as mathematical values.
pub open spec fn count_rows_view(rows: Seq<(String, i64)>) -> Seq<(Seq<char>, i64)> {
    rows.map_values(|r: (String, i64)| (r.0@, r.1))
}

/// `entries` lists the map `m`: each key once, with its value.
pub open spec fn lists_map(entries: Seq<(String, u64)>, m: Map<Seq<char>, u64>) -> bool {
    &&& forall|i: int, j: int| 0 <= i < j < entries.len() ==> #[trigger] entries[i].0@ != #[trigger] entries[j].0@
    &&& forall|i: int| 0 <= i < entries.len() ==> #[trigger] m.contains_key(entries[i].0@) && m[entries[i].0@] == entries[i].1
    &&& forall|k: Seq<char>| #[trigger] m.contains_key(k) ==> exists|i: int| 0 <= i < entries.len() && #[trigger] entries[i].0@ == k
}

/// The depth of each queue from the rows the count query returns.
pub fn queue_depths_result(rows: Vec<(String, i64)>) -> (r: Vec<(String, u64)>)
    ensures
        lists_map(r@, depths_map(count_rows_view(rows@))),
{
    let ghost all = rows@;
    let mut out: Vec<(String, u64)> = Vec::new();
    proof {
        assert(count_rows_view(all.subrange(0, 0)) =~= Seq::<(Seq<char>, i64)>::empty());
        assert(depths_map(count_rows_view(all.subrange(0, 0))) =~= Map::<Seq<char>, u64>::empty());
    }
    for row in it: rows.into_iter()
        invariant
            it.seq() == all,
            lists_map(out@, depths_map(count_rows_view(all.subrange(0, it.index() as int)))),
    {
        let ghost i = it.index();
        let ghost m = depths_map(count_rows_view(all.subrange(0, i)));
        let ghost key = row.0@;
        let count = #[verifier::truncate] (row.1 as u64);
        let ghost m2 = m.insert(key, count);
        proof {
            let pre = count_rows_view(all.subrange(0, i + 1));
            assert(pre.drop_last() =~= count_rows_view(all.subrange(0, i)));
            assert(pre.last() == (key, row.1));
            assert(depths_map(pre) == m2);
        }
        let mut found: usize = 0;
        let mut hit = false;
        while found < out.len()
            invariant_except_break
                found <= out@.len(),
                forall|k: int| 0 <= k < found ==> #[trigger] out@[k].0@ != key,
                !hit,
            invariant
                key == row.0@,
            ensures
                hit ==> found < out@.len() && out@[found as int].0@ == key,
                !hit ==> forall|k: int| 0 <= k < out@.len() ==> #[trigger] out@[k].0@ != key,
            decreases out@.len() - found,
        {
            if out[found].0 == row.0 {
                hit = true;
                break;
            }
            found = found + 1;
        }
        if hit {
            let ghost before = out@;
            let name = out[found].0.clone();
            out.set(found, (name, count));
            proof {
                assert forall|i2: int, j2: int| 0 <= i2 < j2 < out@.len() implies #[trigger] out@[i2].0@ != #[trigger] out@[j2].0@ by {
                    assert(before[i2].0@ != before[j2].0@);
                }
                assert forall|k: Seq<char>| #[trigger] m2.contains_key(k) implies exists|i3: int| 0 <= i3 < out@.len() && #[trigger] out@[i3].0@ == k by {
                    if k != key {
                        let i3 = choose|i3: int| 0 <= i3 < before.len() && #[trigger] before[i3].0@ == k;
                        assert(out@[i3].0@ == k);
                    } else {
                        assert(out@[found as int].0@ == k);
                    }
                }
                assert forall|i4: int| 0 <= i4 < out@.len() implies #[trigger] m2.contains_key(out@[i4].0@) && m2[out@[i4].0@] == out@[i4].1 by {
                    if i4 != found {
                        assert(before[i4] == out@[i4]);
                        assert(before[i4].0@ != before[found as int].0@);
                    }
                }
            }
        } else {
            let ghost before = out@;
            out.push((row.0, count));
            proof {
                assert forall|i2: int, j2: int| 0 <= i2 < j2 < out@.len() implies #[trigger] out@[i2].0@ != #[trigger] out@[j2].0@ by {
                    if j2 < before.len() {
                        assert(before[i2].0@ != before[j2].0@);
                    }
                }
                assert forall|k: Seq<char>| #[trigger] m2.contains_key(k) implies exists|i3: int| 0 <= i3 < out@.len() && #[trigger] out@[i3].0@ == k by {
                    if k != key {
                        let i3 = choose|i3: int| 0 <= i3 < before.len() && #[trigger] before[i3].0@ == k;
                        assert(out@[i3].0@ == k);
                    } else {
                        assert(out@[before.len() as int].0@ == k);
                    }
                }
                assert forall|i4: int| 0 <= i4 < out@.len() implies #[trigger] m2.contains_key(out@[i4].0@) && m2[out@[i4].0@] == out@[i4].1 by {
                    if i4 < before.len() {
                        assert(before[i4] == out@[i4]);
                    }
                }
            }
        }
    }
    assert(all.subrange(0, all.len() as int) =~= all);
    out
}

/// Where a pop is.
#[derive(Debug)]
pub enum PopState {
    /// Not started.
    Idle,
    /// Waiting for the transaction to open.
    Beginning,
    /// Waiting for the select of the next due job.
    Selecting,
    /// Waiting for this row's job to be marked running.
    Marking(JobRow),
    /// Waiting for the commit that claims this row's job.
    Committing(JobRow),
    /// Waiting for the rollback of a select that found nothing.
    RollingBack,
    /// Finished.
    Done,
}

/// What the database answered to the pop's last action (failures carry the
/// database's message).
#[derive(Debug)]
pub enum PopEvent {
    Start,
    Begun(std::result::Result<(), String>),
    Fetched(std::result::Result<Option<JobRow>, String>),
    Marked(std::result::Result<(), String>),
    Committed(std::result::Result<(), String>),
    RolledBack,
}

/// What the pop does next.
#[derive(Debug)]
pub enum PopAction {
    /// Open a transaction.
    Begin,
    /// In the transaction, run this select and fetch at most one row.
    Select(SqlStatement),
    /// In the transaction, run this update.
    Mark(SqlStatement),
    /// Commit the transaction.
    Commit,
    /// Roll the transaction back.
    Rollback,
    /// Return this to the caller.
    Finish(std::result::Result<Option<RawJob>, BackyardError>),
    /// The event does not belong to this state; nothing to do.
    Ignore,
}

/// `a` finishes the pop with the backend error `m`.
pub open spec fn finishes_with_error(a: PopAction, m: Seq<char>) -> bool {
    a matches PopAction::Finish(Err(BackyardError::Backend(x))) && x@ == m
}

/// `a` finishes the pop with what reading `row` strictly gives.
pub open spec fn finishes_with_row(a: PopAction, row: JobRowView) -> bool {
    match decode_spec(row) {
        Ok(v) => a matches PopAction::Finish(Ok(Some(j))) && j@ == v,
        Err(m) => finishes_with_error(a, m),
    }
}

/// One step of a pop over `queues` for the worker `worker_id`, with the
/// clock reading `now`: no queues means no job, without a transaction;
/// otherwise the transaction opens, the next due job is selected, a row
/// found is marked running and committed before it is read back (a row
/// that does not read is an error, after the commit); no row means a
/// rollback and no job; any database failure ends the pop with a backend
/// error carrying the database's message.
pub open spec fn pop_step_spec(
    state: PopState,
    event: PopEvent,
    queues: Seq<String>,
    worker_id: Seq<char>,
    now: Timestamp,
    next: PopState,
    action: PopAction,
) -> bool {
    match (state, event) {
        (PopState::Idle, PopEvent::Start) => if queues.len() == 0 {
            next is Done && action matches PopAction::Finish(Ok(None))
        } else {
            next is Beginning && action is Begin
        },
        (PopState::Beginning, PopEvent::Begun(Err(m))) => next is Done && finishes_with_error(action, m@),
        (PopState::Beginning, PopEvent::Begun(Ok(()))) => if queues.len() == 0 {
            next is Done && action matches PopAction::Finish(Ok(None))
        } else {
            match date_text_spec(now) {
                Some(t) => next is Selecting && (action matches PopAction::Select(st) && statement_is(
                    st,
                    pop_select_sql(queues.len()),
                    seq![SqlValueView::Text(t)] + queue_params(queues),
                )),
                None => next is Done && finishes_with_error(action, out_of_range_text()),
            }
        },
        (PopState::Selecting, PopEvent::Fetched(Err(m))) => next is Done && finishes_with_error(action, m@),
        (PopState::Selecting, PopEvent::Fetched(Ok(None))) => next is RollingBack && action is Rollback,
        (PopState::Selecting, PopEvent::Fetched(Ok(Some(row)))) => match date_text_spec(now) {
            Some(t) => next == PopState::Marking(row) && (action matches PopAction::Mark(st) && statement_is(
                st,
                MARK_RUNNING_SQL@,
                seq![SqlValueView::Text(worker_id), SqlValueView::Text(t), SqlValueView::Text(row.id@)],
            )),
            None => next is Done && finishes_with_error(action, out_of_range_text()),
        },
        (PopState::Marking(_), PopEvent::Marked(Err(m))) => next is Done && finishes_with_error(action, m@),
        (PopState::Marking(row), PopEvent::Marked(Ok(()))) => next == PopState::Committing(row) && action is Commit,
        (PopState::Committing(_), PopEvent::Committed(Err(m))) => next is Done && finishes_with_error(action, m@),
        (PopState::Committing(row), PopEvent::Committed(Ok(()))) => next is Done && finishes_with_row(action, row@),
        (PopState::RollingBack, PopEvent::RolledBack) => next is Done && action matches PopAction::Finish(Ok(None)),
        (s, _) => next == s && action is Ignore,
    }
}

/// One step of a pop, with the clock reading `now`.
pub fn pop_step_with(
    state: PopState,
    event: PopEvent,
    queues: &Vec<String>,
    worker_id: &String,
    now: Timestamp,
) -> (r: (PopState, PopAction))
    requires
        queues@.len() < usize::MAX,
    ensures
        pop_step_spec(state, event, queues@, worker_id@, now, r.0, r.1),
{
    match (state, event) {
        (PopState::Idle, PopEvent::Start) => {
            if queues.len() == 0 {
                (PopState::Done, PopAction::Finish(Ok(None)))
            } else {
                (PopState::Beginning, PopAction::Begin)
            }
        },
        (PopState::Beginning, PopEvent::Begun(Err(m))) => (PopState::Done, PopAction::Finish(Err(BackyardError::Backend(m)))),
        (PopState::Beginning, PopEvent::Begun(Ok(()))) => {
            match pop_select_statement(queues, now) {
                Ok(Some(st)) => (PopState::Selecting, PopAction::Select(st)),
                Ok(None) => (PopState::Done, PopAction::Finish(Ok(None))),
                Err(e) => (PopState::Done, PopAction::Finish(Err(e))),
            }
        },
        (PopState::Selecting, PopEvent::Fetched(Err(m))) => (PopState::Done, PopAction::Finish(Err(BackyardError::Backend(m)))),
        (PopState::Selecting, PopEvent::Fetched(Ok(None))) => (PopState::RollingBack, PopAction::Rollback),
        (PopState::Selecting, PopEvent::Fetched(Ok(Some(row)))) => {
            match mark_running_statement(worker_id, now, &row.id) {
                Ok(st) => (PopState::Marking(row), PopAction::Mark(st)),
                Err(e) => (PopState::Done, PopAction::Finish(Err(e))),
            }
        },
        (PopState::Marking(_), PopEvent::Marked(Err(m))) => (PopState::Done, PopAction::Finish(Err(BackyardError::Backend(m)))),
        (PopState::Marking(row), PopEvent::Marked(Ok(()))) => (PopState::Committing(row), PopAction::Commit),
        (PopState::Committing(_), PopEvent::Committed(Err(m))) => (PopState::Done, PopAction::Finish(Err(BackyardError::Backend(m)))),
        (PopState::Committing(row), PopEvent::Committed(Ok(()))) => {
            match decode_row(row) {
                Ok(j) => (PopState::Done, PopAction::Finish(Ok(Some(j)))),
                Err(e) => (PopState::Done, PopAction::Finish(Err(e))),
            }
        },
        (PopState::RollingBack, PopEvent::RolledBack) => (PopState::Done, PopAction::Finish(Ok(None))),
        (s, _) => (s, PopAction::Ignore),
    }
}

/// One step of a pop; where it needs the time (for the select and for the
/// lock) it reads the clock.
pub fn pop_step(state: PopState, event: PopEvent, queues: &Vec<String>, worker_id: &String) -> (r: (PopState, PopAction))
    requires
        queues@.len() < usize::MAX,
    ensures
        exists|n: Timestamp| clock_reading(n) && #[trigger] pop_step_spec(state, event, queues@, worker_id@, n, r.0, r.1),
{
    let n = now();
    pop_step_with(state, event, queues, worker_id, n)
}

/// A pop over no queues answers "no job" at once, without touching the
/// database.
pub proof fn lemma_pop_without_queues(worker_id: Seq<char>, now: Timestamp, next: PopState, action: PopAction)
    requires
        pop_step_spec(PopState::Idle, PopEvent::Start, Seq::empty(), worker_id, now, next, action),
    ensures
        next is Done,
        action matches PopAction::Finish(Ok(None)),
{
}

/// A pop hands out a job only on the commit that claims it: the only step
/// that finishes with a job is a successful commit of a row already marked
/// running for this worker.
pub proof fn lemma_pop_job_only_after_commit(
    state: PopState,
    event: PopEvent,
    queues: Seq<String>,
    worker_id: Seq<char>,
    now: Timestamp,
    next: PopState,
    action: PopAction,
)
    requires
        pop_step_spec(state, event, queues, worker_id, now, next, action),
        action matches PopAction::Finish(Ok(Some(_))),
    ensures
        state is Committing,
        event matches PopEvent::Committed(Ok(())),
{
}

/// A select that finds no due job rolls back and answers "no job".
pub proof fn lemma_pop_nothing_due(
    queues: Seq<String>,
    worker_id: Seq<char>,
    now: Timestamp,
    s1: PopState, a1: PopAction,
    s2: PopState, a2: PopAction,
)
    requires
        pop_step_spec(PopState::Selecting, PopEvent::Fetched(Ok(None)), queues, worker_id, now, s1, a1),
        pop_step_spec(s1, PopEvent::RolledBack, queues, worker_id, now, s2, a2),
    ensures
        a1 is Rollback,
        s2 is Done,
        a2 matches PopAction::Finish(Ok(None)),
{
}

/// A finished pop stays finished.
pub proof fn lemma_pop_done_stays_done(
    event: PopEvent,
    queues: Seq<String>,
    worker_id: Seq<char>,
    now: Timestamp,
    next: PopState,
    action: PopAction,
)
    requires
        pop_step_spec(PopState::Done, event, queues, worker_id, now, next, action),
    ensures
        next is Done,
        action is Ignore,
{
}

} // verus!
