//! What holds of a job across its runs, with the worker's settlements and
//! the backend's statements taken together.

use vstd::prelude::*;
use crate::time::Timestamp;
use crate::job::{RawJob, RawJobView};
use crate::error::BackyardError;
use crate::worker::{Settlement, Execution, settles_as};
use crate::sqlite::{JobRowView, SqlValueView, decode_spec, row_after_retry, retry_reads_back};

verus! {

/// The runs of a job whose handler fails every time, as the pool and the
/// backend carry them out: before run `k` the job is stored as `rows[k]`
/// and the worker receives it, read from that row, as `jobs[k]`; the run
/// fails with `e` and is settled as `settlements[k]`; and until the last
/// run, the retry statement for `retry_times[k]`, whose parameters are
/// `params[k]`, turns `rows[k]` into `rows[k + 1]`.
pub open spec fn failing_runs(
    rows: Seq<JobRowView>,
    jobs: Seq<RawJob>,
    e: BackyardError,
    retry_times: Seq<Timestamp>,
    params: Seq<Seq<SqlValueView>>,
    settlements: Seq<Settlement>,
) -> bool {
    &&& jobs.len() == rows.len()
    &&& settlements.len() == rows.len()
    &&& retry_times.len() == rows.len()
    &&& params.len() == rows.len()
    &&& forall|k: int| #![trigger rows[k]]
        0 <= k < rows.len() ==> decode_spec(rows[k]) == std::result::Result::<RawJobView, Seq<char>>::Ok(jobs[k]@)
    &&& forall|k: int| #![trigger settlements[k]]
        0 <= k < rows.len() ==> settles_as(jobs[k], Execution::Failed(e), retry_times[k], settlements[k])
    &&& forall|k: int| #![trigger params[k]]
        0 <= k < rows.len() - 1 ==> retry_reads_back(params[k], retry_times[k]) && rows[k + 1] == row_after_retry(rows[k], params[k])
}

/// Along failing runs that start with no attempt made, run `k` sees the job
/// with `k` attempts, under its first id and retry limit.
proof fn lemma_failing_runs_count_attempts(
    rows: Seq<JobRowView>,
    jobs: Seq<RawJob>,
    e: BackyardError,
    retry_times: Seq<Timestamp>,
    params: Seq<Seq<SqlValueView>>,
    settlements: Seq<Settlement>,
    k: int,
)
    requires
        failing_runs(rows, jobs, e, retry_times, params, settlements),
        rows.len() <= jobs[0].max_retries + 1,
        rows[0].attempts == 0,
        0 <= k < rows.len(),
    ensures
        rows[k].attempts == k,
        jobs[k].attempts == k,
        jobs[k].id == jobs[0].id,
        jobs[k].max_retries == jobs[0].max_retries,
    decreases k,
{
    assert(decode_spec(rows[k]) == std::result::Result::<RawJobView, Seq<char>>::Ok(jobs[k]@));
    if k > 0 {
        lemma_failing_runs_count_attempts(rows, jobs, e, retry_times, params, settlements, k - 1);
        let p = params[k - 1];
        assert(retry_reads_back(p, retry_times[k - 1]) && rows[k] == row_after_retry(rows[k - 1], p));
        assert(decode_spec(rows[k - 1]) == std::result::Result::<RawJobView, Seq<char>>::Ok(jobs[k - 1]@));
        assert(row_after_retry(rows[k - 1], p) == rows[k]);
    }
}

/// A job whose handler fails every time, stored with no attempt made and
/// retry limit `m`, runs `m + 1` times: with 0, 1, ..., `m` attempts made.
/// Each of its first `m` runs is settled as a retry of that job, the last as
/// its failure with the error's text, which moves it to the dead letter
/// queue; it is never acknowledged.
pub proof fn lemma_failing_job_dies_after_its_retries(
    rows: Seq<JobRowView>,
    jobs: Seq<RawJob>,
    e: BackyardError,
    retry_times: Seq<Timestamp>,
    params: Seq<Seq<SqlValueView>>,
    settlements: Seq<Settlement>,
)
    requires
        failing_runs(rows, jobs, e, retry_times, params, settlements),
        rows.len() == jobs[0].max_retries + 1,
        rows[0].attempts == 0,
    ensures
        forall|k: int| 0 <= k < rows.len() ==> #[trigger] jobs[k].attempts == k,
        forall|k: int| 0 <= k < rows.len() - 1 ==> #[trigger] settlements[k] == Settlement::Retry(jobs[0].id, retry_times[k]),
        settlements.last() matches Settlement::Fail(id, m) && id == jobs[0].id && m@ == e.message_spec(),
        forall|k: int| 0 <= k < rows.len() ==> !(#[trigger] settlements[k] is Ack),
{
    assert forall|k: int| 0 <= k < rows.len() implies #[trigger] jobs[k].attempts == k
        && (k < rows.len() - 1 ==> settlements[k] == Settlement::Retry(jobs[0].id, retry_times[k]))
        && !(settlements[k] is Ack) by {
        lemma_failing_runs_count_attempts(rows, jobs, e, retry_times, params, settlements, k);
        assert(settles_as(jobs[k], Execution::Failed(e), retry_times[k], settlements[k]));
    }
    let last = rows.len() - 1;
    lemma_failing_runs_count_attempts(rows, jobs, e, retry_times, params, settlements, last);
    assert(settles_as(jobs[last], Execution::Failed(e), retry_times[last], settlements[last]));
}

} // verus!
