//! Jobs as the queue stores them, their identifiers, and the requests that
//! put them on a queue.

use vstd::prelude::*;
use vstd::arithmetic::power2::pow2;
use crate::time::{Timestamp, clock_reading};
use crate::options::JobOptions;

verus! {

/// The identifier of a stored job: a UUID, held as its 128-bit value.
#[derive(Clone, Copy, Debug, PartialEq, Eq, Structural, Hash)]
pub struct JobId {
    pub value: u128,
}

/// The lower-case hexadecimal digit of `d` (0 to 15).
pub open spec fn hex_digit(d: int) -> char {
    if d < 10 {
        (('0' as int) + d) as char
    } else {
        (('a' as int) + d - 10) as char
    }
}

/// The `i`-th of the 32 hexadecimal digits of `v`, the most significant
/// first.
pub open spec fn uuid_nibble(v: u128, i: int) -> int {
    (v as int / pow2((124 - 4 * i) as nat) as int) % 16
}

/// Which hexadecimal digit the `k`-th character of the hyphenated text
/// shows: the character's position less the hyphens before it.
pub open spec fn digit_at(k: int) -> int {
    if k < 8 {
        k
    } else if k < 13 {
        k - 1
    } else if k < 18 {
        k - 2
    } else if k < 23 {
        k - 3
    } else {
        k - 4
    }
}

/// Whether the `k`-th character of the hyphenated text is a hyphen.
pub open spec fn is_hyphen_at(k: int) -> bool {
    k == 8 || k == 13 || k == 18 || k == 23
}

/// The hyphenated text of the UUID with value `v`: its 32 lower-case
/// hexadecimal digits, the most significant first, in groups of 8, 4, 4,
/// 4 and 12 joined by hyphens.
pub open spec fn uuid_hyphenated(v: u128) -> Seq<char> {
    Seq::new(36, |k: int| if is_hyphen_at(k) { '-' } else { hex_digit(uuid_nibble(v, digit_at(k))) })
}

/// What parsing `s` as a UUID gives: its value, or the parser's message.
pub uninterp spec fn spec_uuid_parse(s: Seq<char>) -> std::result::Result<u128, Seq<char>>;

/// The text `s` parses as the UUID with value `v`.
pub open spec fn uuid_reads_as(s: Seq<char>, v: u128) -> bool {
    spec_uuid_parse(s) matches Ok(x) && x == v
}

/// A fresh random (version 4) UUID.
///
/// Calls `uuid::Uuid::new_v4()` and reads `as_u128()`. From uuid's source:
/// the version field (bits 76 to 79) is set to 4; the rest is random.
#[verifier::external_body]
fn uuid_new_v4() -> (v: u128)
    ensures
        (v >> 76u128) & 0xfu128 == 4u128,
{
    uuid::Uuid::new_v4().as_u128()
}

/// The hyphenated text of a UUID.
///
/// Calls `uuid::Uuid::from_u128(v).to_string()`. uuid writes the 16 bytes
/// of `v`, most significant first, as lower-case hexadecimal in the
/// hyphenated 8-4-4-4-12 form, and documents that `parse_str` reads every format the
/// crate writes, the hyphenated one among them, so the text parses back to
/// `v`.
#[verifier::external_body]
fn uuid_text(v: u128) -> (s: String)
    ensures
        s@ == uuid_hyphenated(v),
        uuid_reads_as(s@, v),
{
    uuid::Uuid::from_u128(v).to_string()
}

/// Parses a UUID.
///
/// Calls `uuid::Uuid::parse_str(s)`, reading `as_u128()` of a success and
/// the `Display` text of a failure; the outcome is named, not spelled out.
#[verifier::external_body]
fn uuid_parse(s: &str) -> (r: std::result::Result<u128, String>)
    ensures
        match r {
            Ok(v) => spec_uuid_parse(s@) == std::result::Result::<u128, Seq<char>>::Ok(v),
            Err(e) => spec_uuid_parse(s@) == std::result::Result::<u128, Seq<char>>::Err(e@),
        },
{
    match uuid::Uuid::parse_str(s) {
        Ok(u) => Ok(u.as_u128()),
        Err(e) => Err(e.to_string()),
    }
}

impl JobId {
    /// A fresh random identifier; never the nil UUID.
    pub fn new_random() -> (id: JobId)
        ensures
            id.value != 0,
            (id.value >> 76u128) & 0xfu128 == 4u128,
    {
        let v = uuid_new_v4();
        proof {
            assert((v >> 76u128) & 0xfu128 == 4u128 ==> v != 0u128) by (bit_vector);
        }
        JobId { value: v }
    }

    /// Whether this is the nil UUID (all zero bits).
    pub fn is_nil(&self) -> (b: bool)
        ensures
            b == (self.value == 0),
    {
        self.value == 0
    }

    /// The hyphenated text of this identifier, as stored; it parses back
    /// to this identifier.
    pub fn to_text(&self) -> (s: String)
        ensures
            s@ == uuid_hyphenated(self.value),
            uuid_reads_as(s@, self.value),
    {
        uuid_text(self.value)
    }

    /// Reads an identifier back from text.
    pub fn parse(s: &str) -> (r: std::result::Result<JobId, String>)
        ensures
            match spec_uuid_parse(s@) {
                Ok(v) => r matches Ok(id) && id.value == v,
                Err(e) => r matches Err(m) && m@ == e,
            },
    {
        match uuid_parse(s) {
            Ok(v) => Ok(JobId { value: v }),
            Err(e) => Err(e),
        }
    }
}

/// A job as the queue hands it to a worker.
#[derive(Clone, Debug)]
pub struct RawJob {
    pub id: JobId,
    pub job_type: String,
    pub queue: String,
    pub payload: Vec<u8>,
    pub attempts: u32,
    pub max_retries: u32,
    pub scheduled_at: Timestamp,
    pub created_at: Timestamp,
    pub error: Option<String>,
}

/// A stored job as a mathematical value.
pub struct RawJobView {
    pub id: JobId,
    pub job_type: Seq<char>,
    pub queue: Seq<char>,
    pub payload: Seq<u8>,
    pub attempts: u32,
    pub max_retries: u32,
    pub scheduled_at: Timestamp,
    pub created_at: Timestamp,
    pub error: Option<Seq<char>>,
}

/// The text of an optional string.
pub open spec fn opt_text(o: Option<String>) -> Option<Seq<char>> {
    match o {
        Some(s) => Some(s@),
        None => None,
    }
}

impl View for RawJob {
    type V = RawJobView;

    open spec fn view(&self) -> RawJobView {
        RawJobView {
            id: self.id,
            job_type: self.job_type@,
            queue: self.queue@,
            payload: self.payload@,
            attempts: self.attempts,
            max_retries: self.max_retries,
            scheduled_at: self.scheduled_at,
            created_at: self.created_at,
            error: opt_text(self.error),
        }
    }
}

/// What is needed to put a job on a queue.
#[derive(Clone, Debug)]
pub struct EnqueueRequest {
    pub job_type: String,
    pub queue: String,
    pub payload: Vec<u8>,
    pub max_retries: u32,
    pub priority: i32,
    pub scheduled_at: Timestamp,
}

/// A kind of background job. Each kind has a name, unique within the
/// application, under which its payloads are stored and dispatched, and
/// default options for enqueueing.
pub trait Job {
    /// The stable, unique name of this job type.
    const NAME: &'static str;

    /// The default enqueue options of this job type. Unless a job type
    /// overrides it, these are the library's defaults: queue `default`, run
    /// at once, three retries, priority 0.
    fn options() -> (o: JobOptions)
        default_ensures
            o.queue@ == "default"@,
            o.delay is None,
            o.at is None,
            o.max_retries == 3,
            o.priority == 0,
    {
        JobOptions::default()
    }
}

/// What a running job sees: a handle on the queue (to enqueue further jobs)
/// and the id of the worker running it.
pub struct JobContext<Q> {
    pub queue: Q,
    pub worker_id: String,
}

/// The request that enqueues a job of type `job_type` with `payload` under
/// `opts`, to run at `at`.
pub open spec fn enqueue_request_spec(
    job_type: Seq<char>,
    payload: Seq<u8>,
    opts: JobOptions,
    at: Timestamp,
) -> (Seq<char>, Seq<char>, Seq<u8>, u32, i32, Timestamp) {
    (job_type, opts.queue@, payload, opts.max_retries, opts.priority, at)
}

/// The parts of a request, for comparison with `enqueue_request_spec`.
pub open spec fn request_parts(r: EnqueueRequest) -> (Seq<char>, Seq<char>, Seq<u8>, u32, i32, Timestamp) {
    (r.job_type@, r.queue@, r.payload@, r.max_retries, r.priority, r.scheduled_at)
}

impl<Q> JobContext<Q> {
    /// The request that enqueues a job of type `J` with the serialized
    /// `payload` under `opts`: its queue, retries and priority come from the
    /// options, and it is scheduled when the options say.
    pub fn enqueue_request<J: Job>(&self, payload: Vec<u8>, opts: JobOptions) -> (r: EnqueueRequest)
        requires
            opts.wf(),
        ensures
            request_parts(r) == enqueue_request_spec(J::NAME@, payload@, opts, r.scheduled_at),
            opts.at matches Some(a) ==> r.scheduled_at == a,
            opts.at is None ==> exists|n: Timestamp| clock_reading(n) && #[trigger] opts.scheduled_at_spec(n) == r.scheduled_at,
    {
        let at = opts.scheduled_at();
        build_enqueue_request(J::NAME, payload, opts, at)
    }
}

/// The request that enqueues a job of type `job_type` with `payload` under
/// `opts`, to run at `at`.
pub fn build_enqueue_request(job_type: &str, payload: Vec<u8>, opts: JobOptions, at: Timestamp) -> (r: EnqueueRequest)
    ensures
        request_parts(r) == enqueue_request_spec(job_type@, payload@, opts, at),
{
    EnqueueRequest {
        job_type: String::from_str(job_type),
        queue: opts.queue,
        payload,
        max_retries: opts.max_retries,
        priority: opts.priority,
        scheduled_at: at,
    }
}

} // verus!
