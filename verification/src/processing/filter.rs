//! Filtering messages by date range and sender.

use vstd::prelude::*;

use crate::error::ChatpackError;
use crate::message::{Message, MessageView, msg_views};
use crate::text::{eq_ignore_ascii_case, str_eq_ignore_case};
use crate::timestamp::{Timestamp, chrono_date_at, parse_date_at, ts_lt};

verus! {

/// Criteria a message must all meet to be kept.
#[derive(Debug, Clone)]
pub struct FilterConfig {
    /// Keep only messages at or after this instant.
    pub after: Option<Timestamp>,
    /// Keep only messages at or before this instant.
    pub before: Option<Timestamp>,
    /// Keep only messages from this sender (ASCII case-insensitive).
    pub from: Option<String>,
}

/// The layout of date filters, `%Y-%m-%d`.
pub open spec fn date_filter_layout() -> Seq<char> {
    seq!['%', 'Y', '-', '%', 'm', '-', '%', 'd']
}

/// Start of the given day (00:00:00 UTC), as chrono parses it.
pub open spec fn day_start(date: Seq<char>) -> Option<i64> {
    chrono_date_at(date, date_filter_layout(), 0, 0, 0)
}

/// The last second of the given day (23:59:59 UTC), as chrono parses it.
pub open spec fn day_end(date: Seq<char>) -> Option<i64> {
    chrono_date_at(date, date_filter_layout(), 23, 59, 59)
}

/// The last instant of a day whose last second is `last_second`: the whole
/// second is included, fractions of it too.
pub open spec fn day_end_instant(last_second: i64) -> Timestamp {
    Timestamp { secs: last_second, nanos: 999_999_999 }
}

/// An end-date bound keeps every instant of its day: any instant up to and
/// within the day's last second (with fewer than 10^9 nanoseconds) is not
/// after the bound.
pub proof fn lemma_end_day_inclusive(last_second: i64, t: Timestamp)
    requires
        t.secs <= last_second,
        t.nanos < 1_000_000_000,
    ensures
        !ts_lt(day_end_instant(last_second), t),
{
}

/// Whether a message passes the filter.
pub open spec fn keeps(c: FilterConfig, m: MessageView) -> bool {
    &&& (c.from matches Some(f) ==> eq_ignore_ascii_case(m.sender, f@))
    &&& ((c.after is Some || c.before is Some) ==> {
        &&& m.timestamp is Some
        &&& (c.after matches Some(a) ==> !ts_lt(m.timestamp.unwrap(), a))
        &&& (c.before matches Some(b) ==> !ts_lt(b, m.timestamp.unwrap()))
    })
}

/// Whether any criterion is set.
pub open spec fn is_active_spec(c: FilterConfig) -> bool {
    c.after is Some || c.before is Some || c.from is Some
}

/// The messages that pass the filter, in their original order.
pub open spec fn filter_spec(c: FilterConfig, ms: Seq<MessageView>) -> Seq<MessageView> {
    ms.filter(|m: MessageView| keeps(c, m))
}

/// Parses `YYYY-MM-DD` into the start of that day.
fn parse_date_start(date_str: &str) -> (r: Result<Timestamp, ChatpackError>)
    ensures
        match day_start(date_str@) {
            Some(s) => r == Ok::<Timestamp, ChatpackError>(Timestamp { secs: s, nanos: 0 }),
            None => r matches Err(ChatpackError::InvalidDate { input, .. }) && input@ == date_str@,
        },
{
    let layout = "%Y-%m-%d";
    proof {
        reveal_strlit("%Y-%m-%d");
    }
    assert(layout@ == date_filter_layout());
    match parse_date_at(date_str, layout, 0, 0, 0) {
        Some(s) => Ok(Timestamp::new(s, 0)),
        None => Err(ChatpackError::invalid_date(date_str)),
    }
}

impl FilterConfig {
    /// A filter that keeps every message.
    pub fn new() -> (c: FilterConfig)
        ensures
            c.after is None && c.before is None && c.from is None,
    {
        FilterConfig { after: None, before: None, from: None }
    }

    /// Keeps only messages on or after the day `date_str` (`YYYY-MM-DD`).
    /// Fails with `InvalidDate` when chrono cannot read the date.
    pub fn with_date_from(self, date_str: &str) -> (r: Result<FilterConfig, ChatpackError>)
        ensures
            match day_start(date_str@) {
                Some(s) => r == Ok::<FilterConfig, ChatpackError>(
                    FilterConfig { after: Some(Timestamp { secs: s, nanos: 0 }), ..self },
                ),
                None => r matches Err(ChatpackError::InvalidDate { input, .. }) && input@ == date_str@,
            },
    {
        let dt = parse_date_start(date_str)?;
        Ok(FilterConfig { after: Some(dt), ..self })
    }

    /// Keeps only messages on or before the day `date_str` (`YYYY-MM-DD`):
    /// the bound is the day's last instant, 23:59:59.999999999, so the whole
    /// day is included. Fails with `InvalidDate` when chrono cannot read the
    /// date.
    pub fn with_date_to(self, date_str: &str) -> (r: Result<FilterConfig, ChatpackError>)
        ensures
            match day_end(date_str@) {
                Some(s) => r == Ok::<FilterConfig, ChatpackError>(
                    FilterConfig { before: Some(day_end_instant(s)), ..self },
                ),
                None => r matches Err(ChatpackError::InvalidDate { input, .. }) && input@ == date_str@,
            },
    {
        let layout = "%Y-%m-%d";
        proof {
            reveal_strlit("%Y-%m-%d");
        }
        assert(layout@ == date_filter_layout());
        match parse_date_at(date_str, layout, 23, 59, 59) {
            Some(s) => Ok(FilterConfig { before: Some(Timestamp::new(s, 999_999_999)), ..self }),
            None => Err(ChatpackError::invalid_date(date_str)),
        }
    }

    /// Keeps only messages from `sender` (ASCII case-insensitive).
    pub fn with_sender(self, sender: String) -> (c: FilterConfig)
        ensures
            c == (FilterConfig { from: Some(sender), ..self }),
    {
        FilterConfig { from: Some(sender), ..self }
    }

    /// Same as [`with_date_from`](Self::with_date_from).
    pub fn after_date(self, date_str: &str) -> (r: Result<FilterConfig, ChatpackError>)
        ensures
            match day_start(date_str@) {
                Some(s) => r == Ok::<FilterConfig, ChatpackError>(
                    FilterConfig { after: Some(Timestamp { secs: s, nanos: 0 }), ..self },
                ),
                None => r matches Err(ChatpackError::InvalidDate { input, .. }) && input@ == date_str@,
            },
    {
        self.with_date_from(date_str)
    }

    /// Same as [`with_date_to`](Self::with_date_to).
    pub fn before_date(self, date_str: &str) -> (r: Result<FilterConfig, ChatpackError>)
        ensures
            match day_end(date_str@) {
                Some(s) => r == Ok::<FilterConfig, ChatpackError>(
                    FilterConfig { before: Some(day_end_instant(s)), ..self },
                ),
                None => r matches Err(ChatpackError::InvalidDate { input, .. }) && input@ == date_str@,
            },
    {
        self.with_date_to(date_str)
    }

    /// Same as [`with_sender`](Self::with_sender).
    pub fn with_user(self, user: String) -> (c: FilterConfig)
        ensures
            c == (FilterConfig { from: Some(user), ..self }),
    {
        self.with_sender(user)
    }

    /// Sets the earliest instant directly.
    pub fn with_after(self, dt: Timestamp) -> (c: FilterConfig)
        ensures
            c == (FilterConfig { after: Some(dt), ..self }),
    {
        FilterConfig { after: Some(dt), ..self }
    }

    /// Sets the latest instant directly.
    pub fn with_before(self, dt: Timestamp) -> (c: FilterConfig)
        ensures
            c == (FilterConfig { before: Some(dt), ..self }),
    {
        FilterConfig { before: Some(dt), ..self }
    }

    /// Whether any criterion is set.
    pub fn is_active(&self) -> (b: bool)
        ensures
            b == is_active_spec(*self),
    {
        self.after.is_some() || self.before.is_some() || self.from.is_some()
    }

    /// Whether a date criterion is set.
    pub fn has_date_filter(&self) -> (b: bool)
        ensures
            b == (self.after is Some || self.before is Some),
    {
        self.after.is_some() || self.before.is_some()
    }

    /// Whether a sender criterion is set.
    pub fn has_user_filter(&self) -> (b: bool)
        ensures
            b == (self.from is Some),
    {
        self.from.is_some()
    }

    /// Whether `msg` passes every criterion.
    pub fn accepts(&self, msg: &Message) -> (b: bool)
        ensures
            b == keeps(*self, msg@),
    {
        match &self.from {
            Some(from) => {
                if !str_eq_ignore_case(msg.sender.as_str(), from.as_str()) {
                    return false;
                }
            },
            None => {},
        }
        if self.has_date_filter() {
            match msg.timestamp {
                Some(ts) => {
                    match self.after {
                        Some(after) => {
                            if ts.is_before(&after) {
                                return false;
                            }
                        },
                        None => {},
                    }
                    match self.before {
                        Some(before) => {
                            if before.is_before(&ts) {
                                return false;
                            }
                        },
                        None => {},
                    }
                },
                None => {
                    return false;
                },
            }
        }
        true
    }
}

/// Keeps the messages that pass every criterion of `config`, in order.
/// Without criteria the input is returned unchanged. With a date criterion,
/// messages without a timestamp are dropped.
pub fn apply_filters(messages: Vec<Message>, config: &FilterConfig) -> (r: Vec<Message>)
    ensures
        msg_views(r@) == filter_spec(*config, msg_views(messages@)),
        !is_active_spec(*config) ==> r@ == messages@,
{
    if !config.is_active() {
        proof {
            let ms = msg_views(messages@);
            assert forall|i: int| 0 <= i < ms.len() implies keeps(*config, #[trigger] ms[i]) by {}
            lemma_filter_all(ms, |m: MessageView| keeps(*config, m));
        }
        return messages;
    }
    let ghost input = msg_views(messages@);
    let mut src = messages;
    let mut rest: Vec<Message> = Vec::new();
    while src.len() > 0
        invariant
            src@.len() + rest@.len() == input.len(),
            forall|j: int| 0 <= j < src@.len() ==> #[trigger] src@[j]@ == input[j],
            forall|j: int| 0 <= j < rest@.len() ==> #[trigger] rest@[j]@ == input[input.len() - 1 - j],
        decreases src@.len(),
    {
        let m = src.pop().unwrap();
        rest.push(m);
    }
    let mut out: Vec<Message> = Vec::new();
    while rest.len() > 0
        invariant
            rest@.len() <= input.len(),
            forall|j: int| 0 <= j < rest@.len() ==> #[trigger] rest@[j]@ == input[input.len() - 1 - j],
            msg_views(out@) == filter_spec(*config, input.subrange(0, input.len() - rest@.len())),
        decreases rest@.len(),
    {
        let ghost k = input.len() - rest@.len();
        let msg = rest.pop().unwrap();
        assert(msg@ == input[k]);
        let ghost pre = input.subrange(0, k);
        assert(input.subrange(0, k + 1).drop_last() =~= pre);
        proof {
            reveal_with_fuel(Seq::filter, 1);
        }
        if config.accepts(&msg) {
            out.push(msg);
            assert(msg_views(out@) =~= filter_spec(*config, pre).push(input[k]));
        } else {
            assert(msg_views(out@) =~= filter_spec(*config, pre));
        }
    }
    assert(input.subrange(0, input.len() as int) =~= input);
    out
}

/// Filtering with a predicate every element meets returns the sequence.
proof fn lemma_filter_all(s: Seq<MessageView>, p: spec_fn(MessageView) -> bool)
    requires
        forall|i: int| 0 <= i < s.len() ==> p(#[trigger] s[i]),
    ensures
        s.filter(p) == s,
    decreases s.len(),
{
    reveal_with_fuel(Seq::filter, 1);
    if s.len() > 0 {
        let d = s.drop_last();
        assert forall|i: int| 0 <= i < d.len() implies p(#[trigger] d[i]) by {
            assert(d[i] == s[i]);
        }
        lemma_filter_all(d, p);
        assert(p(s.last()));
        assert(d.push(s.last()) =~= s);
    }
}

/// Filtering never adds messages: the result is no longer than the input,
/// every kept message passes the filter and occurs in the input.
pub proof fn lemma_filter_shrinks(c: FilterConfig, ms: Seq<MessageView>)
    ensures
        filter_spec(c, ms).len() <= ms.len(),
        forall|i: int|
            0 <= i < filter_spec(c, ms).len() ==> keeps(c, #[trigger] filter_spec(c, ms)[i])
                && ms.contains(filter_spec(c, ms)[i]),
{
    let p = |m: MessageView| keeps(c, m);
    ms.lemma_filter_len(p);
    assert forall|i: int| 0 <= i < filter_spec(c, ms).len() implies keeps(c, #[trigger] filter_spec(c, ms)[i])
        && ms.contains(filter_spec(c, ms)[i]) by {
        ms.lemma_filter_pred(p, i);
        ms.lemma_filter_contains_rev(p, filter_spec(c, ms)[i]);
    }
}

/// Filtering twice with the same criteria is filtering once.
pub proof fn lemma_filter_idempotent(c: FilterConfig, ms: Seq<MessageView>)
    ensures
        filter_spec(c, filter_spec(c, ms)) == filter_spec(c, ms),
{
    let f = filter_spec(c, ms);
    assert forall|i: int| 0 <= i < f.len() implies keeps(c, #[trigger] f[i]) by {
        ms.lemma_filter_pred(|m: MessageView| keeps(c, m), i);
    }
    lemma_filter_all(f, |m: MessageView| keeps(c, m));
}

/// With a sender criterion that no message's sender matches (ASCII case
/// ignored), nothing is kept.
pub proof fn lemma_filter_unknown_sender(c: FilterConfig, ms: Seq<MessageView>)
    requires
        c.from matches Some(f) && forall|i: int| 0 <= i < ms.len() ==> !eq_ignore_ascii_case(#[trigger] ms[i].sender, f@),
    ensures
        filter_spec(c, ms).len() == 0,
{
    let p = |m: MessageView| keeps(c, m);
    assert forall|i: int| 0 <= i < ms.len() implies !p(#[trigger] ms[i]) by {}
    assert(ms.all(|x: MessageView| !p(x)));
    ms.lemma_all_neg_filter_empty(p);
}

/// With a date criterion, every kept message has a timestamp within the
/// bounds.
pub proof fn lemma_date_filter_needs_timestamp(c: FilterConfig, ms: Seq<MessageView>)
    requires
        c.after is Some || c.before is Some,
    ensures
        forall|i: int|
            0 <= i < filter_spec(c, ms).len() ==> (#[trigger] filter_spec(c, ms)[i]).timestamp is Some,
{
    assert forall|i: int| 0 <= i < filter_spec(c, ms).len() implies (#[trigger] filter_spec(c, ms)[i]).timestamp is Some by {
        ms.lemma_filter_pred(|m: MessageView| keeps(c, m), i);
    }
}

/// Every kept message meets every criterion that is set, each on its own:
/// it is at or after the start bound, at or before the end bound (so it has
/// a timestamp whenever a bound is set), and from the sender asked for. And
/// every message that meets all set criteria is kept.
pub proof fn lemma_filter_meets_every_bound(c: FilterConfig, ms: Seq<MessageView>)
    ensures
        forall|i: int| 0 <= i < filter_spec(c, ms).len() ==> {
            let m = #[trigger] filter_spec(c, ms)[i];
            &&& c.after is Some ==> m.timestamp is Some && !ts_lt(m.timestamp.unwrap(), c.after.unwrap())
            &&& c.before is Some ==> m.timestamp is Some && !ts_lt(c.before.unwrap(), m.timestamp.unwrap())
            &&& c.from is Some ==> eq_ignore_ascii_case(m.sender, c.from.unwrap()@)
            &&& ms.contains(m)
        },
        forall|i: int| 0 <= i < ms.len() ==> {
            let m = #[trigger] ms[i];
            (c.after is Some ==> m.timestamp is Some && !ts_lt(m.timestamp.unwrap(), c.after.unwrap()))
                && (c.before is Some ==> m.timestamp is Some && !ts_lt(c.before.unwrap(), m.timestamp.unwrap()))
                && (c.from is Some ==> eq_ignore_ascii_case(m.sender, c.from.unwrap()@))
                ==> filter_spec(c, ms).contains(m)
        },
{
    let f = |m: MessageView| keeps(c, m);
    assert forall|i: int| 0 <= i < filter_spec(c, ms).len() implies {
        let m = #[trigger] filter_spec(c, ms)[i];
        &&& c.after is Some ==> m.timestamp is Some && !ts_lt(m.timestamp.unwrap(), c.after.unwrap())
        &&& c.before is Some ==> m.timestamp is Some && !ts_lt(c.before.unwrap(), m.timestamp.unwrap())
        &&& c.from is Some ==> eq_ignore_ascii_case(m.sender, c.from.unwrap()@)
        &&& ms.contains(m)
    } by {
        ms.lemma_filter_pred(f, i);
        ms.lemma_filter_contains_rev(f, filter_spec(c, ms)[i]);
    }
    assert forall|i: int| 0 <= i < ms.len() implies {
        let m = #[trigger] ms[i];
        (c.after is Some ==> m.timestamp is Some && !ts_lt(m.timestamp.unwrap(), c.after.unwrap()))
            && (c.before is Some ==> m.timestamp is Some && !ts_lt(c.before.unwrap(), m.timestamp.unwrap()))
            && (c.from is Some ==> eq_ignore_ascii_case(m.sender, c.from.unwrap()@))
            ==> filter_spec(c, ms).contains(m)
    } by {
        if keeps(c, ms[i]) {
            ms.lemma_filter_contains(f, i);
        }
    }
}

} // verus!
