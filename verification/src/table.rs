//! The jobs table with all of its columns, as the backend's statements
//! leave it: which stored jobs a pop can hand out, which the queue depths
//! count, and how pushing, claiming, failing and retrying move a job
//! between `pending`, `running` and `dead`.

use vstd::prelude::*;
use crate::sqlite::{JobRowView, SqlValueView, row_stored_by_insert, row_after_fail, row_after_retry, text_of, integer_of};

verus! {

/// A stored job with every column of its row: what the reads return, and
/// its status, priority and lock.
pub struct StoredJobView {
    pub row: JobRowView,
    pub status: Seq<char>,
    pub priority: i64,
    pub locked_by: Option<Seq<char>>,
    pub locked_at: Option<Seq<char>>,
}

/// The status of a job waiting to run.
pub open spec fn pending() -> Seq<char> {
    "pending"@
}

/// The status of a job claimed by a worker.
pub open spec fn running() -> Seq<char> {
    "running"@
}

/// The status of a job in the dead letter queue.
pub open spec fn dead() -> Seq<char> {
    "dead"@
}

/// The job that `INSERT_SQL` with parameters `p` stores: pending, at the
/// priority of the sixth parameter, unclaimed.
pub open spec fn stored_by_insert(p: Seq<SqlValueView>) -> StoredJobView {
    StoredJobView {
        row: row_stored_by_insert(p),
        status: pending(),
        priority: integer_of(p[5]),
        locked_by: None,
        locked_at: None,
    }
}

/// What `MARK_RUNNING_SQL` with parameters `p` leaves of `j`: running,
/// claimed by the worker of the first parameter since the time of the
/// second.
pub open spec fn after_mark_running(j: StoredJobView, p: Seq<SqlValueView>) -> StoredJobView {
    StoredJobView { status: running(), locked_by: Some(text_of(p[0])), locked_at: Some(text_of(p[1])), ..j }
}

/// What `FAIL_SQL` with parameters `p` leaves of `j`: dead, with the error
/// text of the first parameter, unclaimed.
pub open spec fn after_fail(j: StoredJobView, p: Seq<SqlValueView>) -> StoredJobView {
    StoredJobView { row: row_after_fail(j.row, p), status: dead(), locked_by: None, locked_at: None, ..j }
}

/// What `RETRY_SQL` with parameters `p` leaves of `j`: pending again, with
/// one more attempt, due at the time of the first parameter, unclaimed.
pub open spec fn after_retry(j: StoredJobView, p: Seq<SqlValueView>) -> StoredJobView {
    StoredJobView { row: row_after_retry(j.row, p), status: pending(), locked_by: None, locked_at: None, ..j }
}

/// Text order as SQLite compares text: character by character, a prefix
/// first.
pub open spec fn text_le(a: Seq<char>, b: Seq<char>) -> bool
    decreases a.len(),
{
    if a.len() == 0 {
        true
    } else if b.len() == 0 {
        false
    } else if a[0] != b[0] {
        (a[0] as int) < (b[0] as int)
    } else {
        text_le(a.drop_first(), b.drop_first())
    }
}

/// `j` meets the condition of the pop query with parameters `p` (the clock
/// reading, then the queues): it is pending, due by the reading, and on one
/// of the queues.
pub open spec fn selected_by_pop(j: StoredJobView, p: Seq<SqlValueView>) -> bool {
    &&& j.status == pending()
    &&& text_le(j.row.scheduled_at, text_of(p[0]))
    &&& exists|i: int| 1 <= i < p.len() && #[trigger] p[i] == SqlValueView::Text(j.row.queue)
}

/// `j` is counted by `QUEUE_DEPTHS_SQL`: it is pending or running.
pub open spec fn counted_in_depths(j: StoredJobView) -> bool {
    j.status == pending() || j.status == running()
}

/// The statuses differ from each other.
proof fn lemma_statuses_differ()
    ensures
        pending() != running(),
        pending() != dead(),
        running() != dead(),
{
    reveal_strlit("pending");
    reveal_strlit("running");
    reveal_strlit("dead");
    assert(pending()[0] != running()[0]);
    assert(pending()[0] != dead()[0]);
    assert(running()[0] != dead()[0]);
}

/// A pushed job waits in its queue: a pop takes it exactly when it is due
/// and its queue is among those popped, and the queue depths count it.
pub proof fn lemma_pushed_job_is_pending(pi: Seq<SqlValueView>, ps: Seq<SqlValueView>)
    ensures
        stored_by_insert(pi).status == pending(),
        counted_in_depths(stored_by_insert(pi)),
        selected_by_pop(stored_by_insert(pi), ps) <==> (text_le(text_of(pi[6]), text_of(ps[0]))
            && exists|i: int| 1 <= i < ps.len() && #[trigger] ps[i] == SqlValueView::Text(text_of(pi[1]))),
{
}

/// A job a pop has claimed is not handed out by any later pop (until it is
/// retried), and it still counts in the queue depths.
pub proof fn lemma_claimed_job_is_not_popped_again(j: StoredJobView, pm: Seq<SqlValueView>, ps: Seq<SqlValueView>)
    ensures
        !selected_by_pop(after_mark_running(j, pm), ps),
        counted_in_depths(after_mark_running(j, pm)),
{
    lemma_statuses_differ();
}

/// A job in the dead letter queue is handed out by no pop and counted in
/// no queue depth; claiming or failing it again never makes it pending.
pub proof fn lemma_dead_job_stays_out(j: StoredJobView, pf: Seq<SqlValueView>, ps: Seq<SqlValueView>, pm: Seq<SqlValueView>, pf2: Seq<SqlValueView>)
    ensures
        after_fail(j, pf).status == dead(),
        !selected_by_pop(after_fail(j, pf), ps),
        !counted_in_depths(after_fail(j, pf)),
        after_fail(after_fail(j, pf), pf2).status == dead(),
        after_mark_running(after_fail(j, pf), pm).status != pending(),
{
    lemma_statuses_differ();
}

/// A retried job is pending again: a pop takes it exactly when its new time
/// is due and its queue is among those popped.
pub proof fn lemma_retried_job_waits_until_due(j: StoredJobView, pr: Seq<SqlValueView>, ps: Seq<SqlValueView>)
    ensures
        after_retry(j, pr).status == pending(),
        after_retry(j, pr).locked_by is None,
        counted_in_depths(after_retry(j, pr)),
        selected_by_pop(after_retry(j, pr), ps) <==> (text_le(text_of(pr[0]), text_of(ps[0]))
            && exists|i: int| 1 <= i < ps.len() && #[trigger] ps[i] == SqlValueView::Text(j.row.queue)),
{
}

} // verus!
