use backyard::job::{build_enqueue_request, Job, JobContext};
use backyard::options::JobOptions;
use backyard::time::{Delay, Timestamp};

fn now() -> Timestamp {
    let d = chrono::Utc::now();
    Timestamp { secs: d.timestamp(), nanos: d.timestamp_subsec_nanos() }
}

struct SendEmail;

impl Job for SendEmail {
    const NAME: &'static str = "SendEmail";
}

struct Critical;

impl Job for Critical {
    const NAME: &'static str = "Critical";

    fn options() -> JobOptions {
        JobOptions::default().queue("critical".to_string()).max_retries(10)
    }
}

#[test]
fn default_options() {
    let o = JobOptions::default();
    assert_eq!(o.queue, "default");
    assert!(o.delay.is_none());
    assert!(o.at.is_none());
    assert_eq!(o.max_retries, 3);
    assert_eq!(o.priority, 0);
}

#[test]
fn builders_replace_one_field_each() {
    let at = Timestamp { secs: 0, nanos: 42 };
    let o = JobOptions::default()
        .queue("emails".to_string())
        .delay(Delay { secs: 5, nanos: 0 })
        .at(at)
        .max_retries(7)
        .priority(-3);
    assert_eq!(o.queue, "emails");
    assert_eq!(o.delay, Some(Delay { secs: 5, nanos: 0 }));
    assert_eq!(o.at, Some(at));
    assert_eq!(o.max_retries, 7);
    assert_eq!(o.priority, -3);
}

#[test]
fn job_type_options_default_and_override() {
    let d = SendEmail::options();
    assert_eq!(d.queue, "default");
    assert_eq!(d.max_retries, 3);
    let c = Critical::options();
    assert_eq!(c.queue, "critical");
    assert_eq!(c.max_retries, 10);
}

#[test]
fn fixed_time_wins_over_delay() {
    let at = Timestamp { secs: 0, nanos: 123_456_000 };
    let o = JobOptions::default().delay(Delay { secs: 60, nanos: 0 }).at(at);
    assert_eq!(o.scheduled_at_from(Timestamp { secs: 0, nanos: 0 }), at);
    assert_eq!(o.scheduled_at(), at);
}

#[test]
fn delay_is_added_to_the_clock() {
    let o = JobOptions::default().delay(Delay { secs: 90, nanos: 1_500 });
    let t = Timestamp { secs: 1_000, nanos: 999_999_000 };
    assert_eq!(o.scheduled_at_from(t), Timestamp { secs: 1_091, nanos: 500 });
}

#[test]
fn no_delay_means_now() {
    let o = JobOptions::default();
    let t = Timestamp { secs: 77, nanos: 7 };
    assert_eq!(o.scheduled_at_from(t), t);
    let before = now();
    let s = o.scheduled_at();
    let after = now();
    assert!(before <= s && s <= after);
}

#[test]
fn a_delay_chrono_cannot_hold_adds_nothing() {
    let o = JobOptions::default().delay(Delay { secs: u64::MAX, nanos: 0 });
    let t = Timestamp { secs: 5, nanos: 5 };
    assert_eq!(o.scheduled_at_from(t), t);
}

#[test]
fn delay_from_millis() {
    assert_eq!(Delay::from_millis(500), Delay { secs: 0, nanos: 500_000_000 });
    assert_eq!(Delay::from_millis(2_250), Delay { secs: 2, nanos: 250_000_000 });
}

#[test]
fn enqueue_request_takes_name_and_options() {
    let ctx = JobContext { queue: (), worker_id: "w".to_string() };
    let at = Timestamp { secs: 9_000, nanos: 0 };
    let opts = JobOptions::default().queue("reports".to_string()).priority(4).max_retries(2).at(at);
    let req = ctx.enqueue_request::<SendEmail>(vec![1, 2, 3], opts);
    assert_eq!(req.job_type, "SendEmail");
    assert_eq!(req.queue, "reports");
    assert_eq!(req.payload, vec![1, 2, 3]);
    assert_eq!(req.max_retries, 2);
    assert_eq!(req.priority, 4);
    assert_eq!(req.scheduled_at, at);
}

#[test]
fn build_enqueue_request_schedules_at_the_given_time() {
    let at = Timestamp { secs: 31, nanos: 31 };
    let req = build_enqueue_request("TestJob", vec![9], JobOptions::default(), at);
    assert_eq!(req.job_type, "TestJob");
    assert_eq!(req.queue, "default");
    assert_eq!(req.max_retries, 3);
    assert_eq!(req.priority, 0);
    assert_eq!(req.scheduled_at, at);
}
