//! Instants and spans of time, held as plain integers.

use vstd::prelude::*;

verus! {

/// An instant, as whole seconds since 1970-01-01T00:00:00Z and the
/// nanoseconds into the current second (the way chrono counts it). Instants
/// compare by seconds, then nanoseconds.
#[derive(Clone, Copy, Debug, PartialEq, Eq, Structural, PartialOrd, Ord, Hash)]
pub struct Timestamp {
    pub secs: i64,
    pub nanos: u32,
}

/// A non-negative span of time, as whole seconds plus the nanoseconds of
/// the fraction (the same shape as `std::time::Duration`).
#[derive(Clone, Copy, Debug, PartialEq, Eq, Structural, Hash)]
pub struct Delay {
    pub secs: u64,
    pub nanos: u32,
}

/// The largest value an `i64` holds, as a mathematical integer.
pub open spec fn i64_max() -> int {
    0x7fff_ffff_ffff_ffff
}

/// The nanoseconds in a span of `secs` seconds and `nanos` nanoseconds.
pub open spec fn span_nanos(secs: u64, nanos: u32) -> int {
    secs * 1_000_000_000 + nanos
}

/// The longest span `chrono` holds: `i64::MAX` milliseconds, in nanoseconds.
pub open spec fn chrono_max_span_nanos() -> int {
    i64_max() * 1_000_000
}

/// What `chrono` turns a `std::time::Duration` of `secs` seconds and `nanos`
/// nanoseconds into, as (seconds, nanoseconds): the same span while it is
/// at most `i64::MAX` milliseconds, nothing otherwise.
pub open spec fn chrono_span(secs: u64, nanos: u32) -> Option<(i64, u32)> {
    if span_nanos(secs, nanos) <= chrono_max_span_nanos() {
        Some((secs as i64, nanos))
    } else {
        None
    }
}

impl Timestamp {
    /// The nanoseconds since the epoch.
    pub open spec fn total_nanos(self) -> int {
        self.secs * 1_000_000_000 + self.nanos
    }
}

/// The last instant the representation holds.
pub open spec fn last_instant() -> Timestamp {
    Timestamp { secs: i64::MAX, nanos: 999_999_999 }
}

/// The instant `n` nanoseconds after the epoch.
pub open spec fn instant_at(n: int) -> Timestamp {
    Timestamp { secs: (n / 1_000_000_000) as i64, nanos: (n % 1_000_000_000) as u32 }
}

/// `t` moved `d` nanoseconds later; the last representable instant where
/// that would pass it.
pub open spec fn later_by(t: Timestamp, d: int) -> Timestamp {
    if t.total_nanos() + d <= last_instant().total_nanos() {
        instant_at(t.total_nanos() + d)
    } else {
        last_instant()
    }
}

impl Delay {
    /// A delay is well formed when its fraction is below one second.
    pub open spec fn wf(self) -> bool {
        self.nanos < 1_000_000_000
    }

    /// A delay of `millis` milliseconds.
    pub fn from_millis(millis: u64) -> (d: Delay)
        ensures
            d.wf(),
            d.secs == millis / 1000,
            d.nanos == (millis % 1000) * 1_000_000,
    {
        let secs = millis / 1000;
        let rest: u64 = millis % 1000;
        Delay { secs, nanos: (rest * 1_000_000) as u32 }
    }
}

/// An instant chrono's clock can read: at or after the epoch, no later than
/// chrono's last date (262142-12-31T23:59:59Z), with its nanoseconds below
/// one second.
pub open spec fn clock_reading(t: Timestamp) -> bool {
    0 <= t.secs <= 8_210_266_876_799 && t.nanos < 1_000_000_000
}

/// The current time, read from the system clock.
///
/// Calls `chrono::Utc::now()` and reads its `timestamp()` and
/// `timestamp_subsec_nanos()`. From chrono's source: `now` takes the system
/// time since the epoch (panicking before it) and unwraps
/// `DateTime::from_timestamp` on its whole seconds and sub-second
/// nanoseconds, so what it returns is a clock reading in the sense of
/// `clock_reading`. Which one is whatever the clock says.
#[verifier::external_body]
pub(crate) fn now() -> (t: Timestamp)
    ensures
        clock_reading(t),
{
    let d = chrono::Utc::now();
    Timestamp { secs: d.timestamp(), nanos: d.timestamp_subsec_nanos() }
}

/// Turns a span into a `chrono::Duration`.
///
/// Calls `chrono::Duration::from_std` on `std::time::Duration::new(secs, nanos)`
/// and reads `num_seconds()` and `subsec_nanos()` of the result. From
/// chrono's source: `from_std` fails exactly when the span is longer than
/// `i64::MAX` milliseconds, and otherwise keeps its seconds and nanoseconds.
#[verifier::external_body]
pub(crate) fn chrono_delay(secs: u64, nanos: u32) -> (r: Option<(i64, u32)>)
    requires
        nanos < 1_000_000_000,
    ensures
        r == chrono_span(secs, nanos),
{
    match chrono::Duration::from_std(std::time::Duration::new(secs, nanos)) {
        Ok(d) => Some((d.num_seconds(), d.subsec_nanos() as u32)),
        Err(_) => None,
    }
}

impl Timestamp {
    /// This instant moved `secs` seconds and `nanos` nanoseconds later (at
    /// most to the last representable instant).
    pub fn plus(self, secs: i64, nanos: u32) -> (r: Timestamp)
        requires
            secs >= 0,
            nanos < 1_000_000_000,
        ensures
            r == later_by(self, secs * 1_000_000_000 + nanos),
    {
        let sum: u64 = self.nanos as u64 + nanos as u64;
        let carry: i64 = (sum / 1_000_000_000) as i64;
        let rest: u32 = (sum % 1_000_000_000) as u32;
        proof {
            assert(self.total_nanos() + secs * 1_000_000_000 + nanos == (self.secs + secs + carry) * 1_000_000_000 + rest);
            lemma_instant_at(self.secs + secs + carry, rest as int);
        }
        match self.secs.checked_add(secs) {
            Some(s1) => match s1.checked_add(carry) {
                Some(s2) => Timestamp { secs: s2, nanos: rest },
                None => Timestamp { secs: i64::MAX, nanos: 999_999_999 },
            },
            None => Timestamp { secs: i64::MAX, nanos: 999_999_999 },
        }
    }
}

/// The instant at `s` seconds and `r` nanoseconds (below one second) is
/// read back from its count of nanoseconds.
pub proof fn lemma_instant_at(s: int, r: int)
    requires
        0 <= r < 1_000_000_000,
    ensures
        (s * 1_000_000_000 + r) / 1_000_000_000 == s,
        (s * 1_000_000_000 + r) % 1_000_000_000 == r,
{
    vstd::arithmetic::div_mod::lemma_fundamental_div_mod_converse(s * 1_000_000_000 + r, 1_000_000_000, s, r);
}

/// Between the first and the last representable instant, the instant `n`
/// nanoseconds after the epoch has exactly that many nanoseconds.
pub proof fn lemma_instant_at_total(n: int)
    requires
        i64::MIN * 1_000_000_000 <= n <= last_instant().total_nanos(),
    ensures
        instant_at(n).total_nanos() == n,
        instant_at(n).nanos < 1_000_000_000,
{
    vstd::arithmetic::div_mod::lemma_fundamental_div_mod(n, 1_000_000_000);
    vstd::arithmetic::div_mod::lemma_mod_bound(n, 1_000_000_000);
}

/// The RFC 3339 text of the instant `secs` seconds and `nanos` nanoseconds
/// after the epoch, or nothing when chrono has no such date.
pub uninterp spec fn spec_rfc3339_text(secs: i64, nanos: u32) -> Option<Seq<char>>;

/// What parsing `s` as an RFC 3339 date and time gives: the instant as
/// (seconds since the epoch, nanoseconds), or the parser's message.
pub uninterp spec fn spec_rfc3339_parse(s: Seq<char>) -> std::result::Result<(i64, u32), Seq<char>>;

/// The RFC 3339 text of an instant, if chrono has the date.
pub open spec fn date_text_spec(t: Timestamp) -> Option<Seq<char>> {
    spec_rfc3339_text(t.secs, t.nanos)
}

/// The instants of the years 0 to 9999, the years RFC 3339 writes with four
/// digits: from 0000-01-01T00:00:00Z to 9999-12-31T23:59:59.999999999Z.
pub open spec fn in_rfc3339_years(t: Timestamp) -> bool {
    -62_167_219_200 <= t.secs <= 253_402_300_799 && t.nanos < 1_000_000_000
}

/// For an instant of the years 0 to 9999, `r` holds a text that parses back
/// to it.
pub open spec fn text_reads_back(r: Option<String>, t: Timestamp) -> bool {
    in_rfc3339_years(t) ==> (r matches Some(s) && (spec_rfc3339_parse(s@) matches Ok(m) && m.0 == t.secs && m.1 == t.nanos))
}

/// Formats an instant as RFC 3339 text.
///
/// Calls `chrono::DateTime::from_timestamp(secs, nanos)` and, when that
/// gives a date, its `to_rfc3339()`; the text is named, not spelled out.
/// From chrono's source and documentation: every instant of the years 0 to
/// 9999 with nanoseconds below one second is a date, it is written as an
/// RFC 3339 date and time with four-digit year and at most nine fractional
/// digits, and `parse_from_rfc3339` reads that text back to the same
/// instant.
#[verifier::external_body]
fn rfc3339_text(secs: i64, nanos: u32) -> (r: Option<String>)
    ensures
        match r {
            Some(s) => spec_rfc3339_text(secs, nanos) == Some(s@),
            None => spec_rfc3339_text(secs, nanos) == None::<Seq<char>>,
        },
        text_reads_back(r, Timestamp { secs, nanos }),
{
    match chrono::DateTime::from_timestamp(secs, nanos) {
        Some(d) => Some(d.to_rfc3339()),
        None => None,
    }
}

/// Parses RFC 3339 text into an instant.
///
/// Calls `chrono::DateTime::parse_from_rfc3339(s)`, reading `timestamp()`
/// and `timestamp_subsec_nanos()` of a success (in UTC) and the `Display`
/// text of a failure; the outcome is named, not spelled out.
#[verifier::external_body]
fn rfc3339_parse(s: &str) -> (r: std::result::Result<(i64, u32), String>)
    ensures
        match r {
            Ok(m) => spec_rfc3339_parse(s@) == std::result::Result::<(i64, u32), Seq<char>>::Ok(m),
            Err(e) => spec_rfc3339_parse(s@) == std::result::Result::<(i64, u32), Seq<char>>::Err(e@),
        },
{
    match chrono::DateTime::parse_from_rfc3339(s) {
        Ok(d) => Ok((d.with_timezone(&chrono::Utc).timestamp(), d.timestamp_subsec_nanos())),
        Err(e) => Err(e.to_string()),
    }
}

impl Timestamp {
    /// The RFC 3339 text of this instant, when chrono can represent it;
    /// for the years 0 to 9999 there is one, and it reads back as this
    /// instant.
    pub fn to_rfc3339(&self) -> (r: Option<String>)
        ensures
            match r {
                Some(s) => date_text_spec(*self) == Some(s@),
                None => date_text_spec(*self) == None::<Seq<char>>,
            },
            text_reads_back(r, *self),
    {
        rfc3339_text(self.secs, self.nanos)
    }

    /// Reads an instant from RFC 3339 text.
    pub fn parse_rfc3339(s: &str) -> (r: std::result::Result<Timestamp, String>)
        ensures
            match spec_rfc3339_parse(s@) {
                Ok(m) => r matches Ok(t) && t.secs == m.0 && t.nanos == m.1,
                Err(e) => r matches Err(x) && x@ == e,
            },
    {
        match rfc3339_parse(s) {
            Ok(m) => Ok(Timestamp { secs: m.0, nanos: m.1 }),
            Err(e) => Err(e),
        }
    }
}

} // verus!
