//! Points in time, held as seconds and nanoseconds since the Unix epoch.
//!
//! Calendar arithmetic, parsing and formatting of dates are done by `chrono`;
//! the functions below call it and name what it returns.

use vstd::prelude::*;

verus! {

/// A UTC instant: whole seconds since 1970-01-01T00:00:00Z and the
/// sub-second part in nanoseconds.
#[derive(Debug, Clone, Copy, PartialEq, Eq, Hash, Structural)]
pub struct Timestamp {
    pub secs: i64,
    pub nanos: u32,
}

/// Chronological order of two instants: by seconds, then by nanoseconds.
pub open spec fn ts_lt(a: Timestamp, b: Timestamp) -> bool {
    a.secs < b.secs || (a.secs == b.secs && a.nanos < b.nanos)
}

impl Timestamp {
    /// The instant `secs` seconds and `nanos` nanoseconds after the epoch.
    pub fn new(secs: i64, nanos: u32) -> (t: Timestamp)
        ensures
            t.secs == secs,
            t.nanos == nanos,
    {
        Timestamp { secs, nanos }
    }

    /// Whether `self` is strictly earlier than `other`.
    pub fn is_before(&self, other: &Timestamp) -> (b: bool)
        ensures
            b == ts_lt(*self, *other),
    {
        self.secs < other.secs || (self.secs == other.secs && self.nanos < other.nanos)
    }

    /// Seconds since the epoch.
    pub fn timestamp(&self) -> (s: i64)
        ensures
            s == self.secs,
    {
        self.secs
    }
}

/// What `chrono::DateTime::<Utc>::from_timestamp(secs, nanos)` returns, as
/// (seconds, nanoseconds); `None` when chrono cannot represent the instant.
pub uninterp spec fn chrono_from_timestamp(secs: i64, nanos: u32) -> Option<(i64, u32)>;

/// Calls `chrono::DateTime::from_timestamp`. A representable instant keeps
/// the given seconds and nanoseconds (chrono documents the round trip).
/// chrono represents the years -262143 to 262142, so every instant within
/// 8 * 10^12 seconds (about 253 000 years) of 1970 with fewer than 10^9
/// nanoseconds is representable; where exactly the range ends is left to the
/// name.
#[verifier::external_body]
pub(crate) fn utc_from_timestamp(secs: i64, nanos: u32) -> (r: Option<(i64, u32)>)
    ensures
        r == chrono_from_timestamp(secs, nanos),
        r matches Some(p) ==> p.0 == secs && p.1 == nanos,
        nanos < 1_000_000_000 && -8_000_000_000_000 <= secs <= 8_000_000_000_000 ==> r is Some,
{
    match chrono::DateTime::from_timestamp(secs, nanos) {
        Some(dt) => Some((dt.timestamp(), dt.timestamp_subsec_nanos())),
        None => None,
    }
}

/// Calls `chrono::Utc.timestamp_millis_opt(ms).single()`. chrono computes it
/// as `DateTime::from_timestamp` of the Euclidean quotient and remainder of
/// `ms` by 1000 (the remainder in nanoseconds).
#[verifier::external_body]
pub(crate) fn utc_from_millis(ms: i64) -> (r: Option<(i64, u32)>)
    ensures
        r == chrono_from_timestamp((ms / 1000) as i64, ((ms % 1000) * 1_000_000) as u32),
        r matches Some(p) ==> p.0 == ms / 1000 && p.1 == (ms % 1000) * 1_000_000,
        -8_000_000_000_000_000 <= ms <= 8_000_000_000_000_000 ==> r is Some,
{
    match chrono::TimeZone::timestamp_millis_opt(&chrono::Utc, ms).single() {
        Some(dt) => Some((dt.timestamp(), dt.timestamp_subsec_nanos())),
        None => None,
    }
}

/// What `DateTime::parse_from_rfc3339(s)` followed by `to_utc()` yields, as
/// (seconds, nanoseconds); `None` when chrono rejects the text.
pub uninterp spec fn chrono_rfc3339(s: Seq<char>) -> Option<(i64, u32)>;

/// Calls `chrono::DateTime::parse_from_rfc3339` and converts the result to
/// UTC. The parse itself is left to the name.
#[verifier::external_body]
pub(crate) fn parse_rfc3339(s: &str) -> (r: Option<(i64, u32)>)
    ensures
        r == chrono_rfc3339(s@),
{
    match chrono::DateTime::parse_from_rfc3339(s) {
        Ok(dt) => {
            let u = dt.to_utc();
            Some((u.timestamp(), u.timestamp_subsec_nanos()))
        },
        Err(_) => None,
    }
}

/// What `NaiveDateTime::parse_from_str(s, fmt)` read as UTC yields, as
/// (seconds, nanoseconds); `None` when chrono rejects the text.
pub uninterp spec fn chrono_naive_datetime(s: Seq<char>, fmt: Seq<char>) -> Option<(i64, u32)>;

/// Calls `chrono::NaiveDateTime::parse_from_str` and reads the result as UTC.
#[verifier::external_body]
pub(crate) fn parse_naive_datetime(s: &str, fmt: &str) -> (r: Option<(i64, u32)>)
    ensures
        r == chrono_naive_datetime(s@, fmt@),
{
    match chrono::NaiveDateTime::parse_from_str(s, fmt) {
        Ok(naive) => {
            let u = naive.and_utc();
            Some((u.timestamp(), u.timestamp_subsec_nanos()))
        },
        Err(_) => None,
    }
}

/// The first of `fmts` under which chrono reads `s`, as (seconds, nanos).
pub open spec fn first_naive_parse(s: Seq<char>, fmts: Seq<Seq<char>>) -> Option<(i64, u32)>
    decreases fmts.len(),
{
    if fmts.len() == 0 {
        None
    } else {
        match chrono_naive_datetime(s, fmts[0]) {
            Some(p) => Some(p),
            None => first_naive_parse(s, fmts.drop_first()),
        }
    }
}

/// The instant of a chrono reading.
pub open spec fn reading_instant(p: Option<(i64, u32)>) -> Option<Timestamp> {
    match p {
        Some(q) => Some(Timestamp { secs: q.0, nanos: q.1 }),
        None => None,
    }
}

/// The reading of the first layout that accepts `s` is the one taken: when
/// layout `k` reads `s` and every earlier layout rejects it, the result is
/// layout `k`'s reading.
pub proof fn lemma_first_naive_parse_at(s: Seq<char>, fmts: Seq<Seq<char>>, k: int)
    requires
        0 <= k < fmts.len(),
        chrono_naive_datetime(s, fmts[k]) is Some,
        forall|j: int| 0 <= j < k ==> (#[trigger] chrono_naive_datetime(s, fmts[j])) is None,
    ensures
        first_naive_parse(s, fmts) == chrono_naive_datetime(s, fmts[k]),
    decreases k,
{
    if k > 0 {
        let rest = fmts.drop_first();
        assert(chrono_naive_datetime(s, fmts[0]) is None);
        assert forall|j: int| 0 <= j < k - 1 implies (#[trigger] chrono_naive_datetime(s, rest[j])) is None by {
            assert(rest[j] == fmts[j + 1]);
        }
        assert(rest[k - 1] == fmts[k]);
        lemma_first_naive_parse_at(s, rest, k - 1);
    }
}

/// The instant chrono reads from `s` under the first of `fmts` that accepts
/// it, in UTC.
pub open spec fn first_layout_timestamp(s: Seq<char>, fmts: Seq<Seq<char>>) -> Option<Timestamp> {
    match first_naive_parse(s, fmts) {
        Some(p) => Some(Timestamp { secs: p.0, nanos: p.1 }),
        None => None,
    }
}

/// Tries the layouts in order and returns the first instant chrono reads
/// from `s`; `None` when no layout accepts it.
pub fn parse_first_layout(s: &str, fmts: &[&'static str]) -> (r: Option<Timestamp>)
    ensures
        r == first_layout_timestamp(s@, fmts@.map_values(|f: &'static str| f@)),
{
    let ghost all = fmts@.map_values(|f: &'static str| f@);
    let mut i: usize = 0;
    assert(all.subrange(0, all.len() as int) =~= all);
    while i < fmts.len()
        invariant
            0 <= i <= fmts@.len(),
            all == fmts@.map_values(|f: &'static str| f@),
            first_naive_parse(s@, all) == first_naive_parse(s@, all.subrange(i as int, all.len() as int)),
        decreases fmts@.len() - i,
    {
        let ghost rest = all.subrange(i as int, all.len() as int);
        assert(rest[0] == fmts@[i as int]@);
        assert(rest.drop_first() =~= all.subrange(i + 1, all.len() as int));
        match parse_naive_datetime(s, fmts[i]) {
            Some(p) => {
                assert(first_naive_parse(s@, rest) == Some(p));
                return Some(Timestamp { secs: p.0, nanos: p.1 });
            },
            None => {},
        }
        i = i + 1;
    }
    assert(all.subrange(i as int, all.len() as int) =~= Seq::<Seq<char>>::empty());
    None
}

/// What `NaiveDate::parse_from_str(s, fmt)` followed by
/// `and_hms_opt(hour, min, sec)` read as UTC yields, in seconds.
pub uninterp spec fn chrono_date_at(s: Seq<char>, fmt: Seq<char>, hour: u32, min: u32, sec: u32) -> Option<i64>;

/// Calls `chrono::NaiveDate::parse_from_str`, then `and_hms_opt` and
/// `and_utc`; `None` when either step fails.
#[verifier::external_body]
pub(crate) fn parse_date_at(s: &str, fmt: &str, hour: u32, min: u32, sec: u32) -> (r: Option<i64>)
    ensures
        r == chrono_date_at(s@, fmt@, hour, min, sec),
{
    match chrono::NaiveDate::parse_from_str(s, fmt) {
        Ok(date) => match date.and_hms_opt(hour, min, sec) {
            Some(naive) => Some(naive.and_utc().timestamp()),
            None => None,
        },
        Err(_) => None,
    }
}

/// What chrono's `format(fmt).to_string()` prints for the instant; the empty
/// text when chrono cannot represent the instant.
pub uninterp spec fn chrono_format(secs: i64, nanos: u32, fmt: Seq<char>) -> Seq<char>;

/// The layout used for CSV timestamps.
pub open spec fn csv_layout() -> Seq<char> {
    seq!['%', 'Y', '-', '%', 'm', '-', '%', 'd', ' ', '%', 'H', ':', '%', 'M', ':', '%', 'S']
}

/// The layout used for JSON timestamps.
pub open spec fn iso_layout() -> Seq<char> {
    seq!['%', 'Y', '-', '%', 'm', '-', '%', 'd', 'T', '%', 'H', ':', '%', 'M', ':', '%', 'S', 'Z']
}

/// Calls `chrono::DateTime::format` with one of the two layouts used by the
/// writers (other layouts could make `to_string` panic).
#[verifier::external_body]
pub(crate) fn format_utc(secs: i64, nanos: u32, fmt: &str) -> (r: String)
    requires
        fmt@ == csv_layout() || fmt@ == iso_layout(),
    ensures
        r@ == chrono_format(secs, nanos, fmt@),
{
    match chrono::DateTime::from_timestamp(secs, nanos) {
        Some(dt) => dt.format(fmt).to_string(),
        None => String::new(),
    }
}

} // verus!
