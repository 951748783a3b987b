//! Merging runs of messages from one sender, and processing statistics.

use vstd::prelude::*;

use crate::message::{Message, MessageView, msg_views};
use crate::processing::filter::{FilterConfig, apply_filters, filter_spec};

verus! {

/// Content of a merged run: the earlier text, a newline, the later text.
pub open spec fn join_content(a: Seq<char>, b: Seq<char>) -> Seq<char> {
    a.push('\n') + b
}

/// Result of merging consecutive messages from the same sender: each run of
/// messages whose senders are equal becomes one message that keeps the first
/// message's sender and metadata and whose content is the run's contents
/// joined with newlines.
pub open spec fn merge_spec(ms: Seq<MessageView>) -> Seq<MessageView>
    decreases ms.len(),
{
    if ms.len() == 0 {
        seq![]
    } else {
        let prev = merge_spec(ms.drop_last());
        let m = ms.last();
        if prev.len() > 0 && prev.last().sender == m.sender {
            prev.update(
                prev.len() - 1,
                MessageView { content: join_content(prev.last().content, m.content), ..prev.last() },
            )
        } else {
            prev.push(m)
        }
    }
}

/// Merges consecutive messages from the same sender (exact string match) into
/// one message, joining contents with `\n` and keeping the first message's
/// metadata.
pub fn merge_consecutive(messages: Vec<Message>) -> (merged: Vec<Message>)
    ensures
        msg_views(merged@) == merge_spec(msg_views(messages@)),
{
    let ghost input = msg_views(messages@);
    let mut merged: Vec<Message> = Vec::new();
    let mut src = messages;
    let mut rest: Vec<Message> = Vec::new();
    while src.len() > 0
        invariant
            src@.len() + rest@.len() == input.len(),
            forall|j: int| 0 <= j < src@.len() ==> #[trigger] src@[j]@ == input[j],
            forall|j: int| 0 <= j < rest@.len() ==> #[trigger] rest@[j]@ == input[input.len() - 1 - j],
        decreases src@.len(),
    {
        let m = src.pop().unwrap();
        rest.push(m);
    }
    while rest.len() > 0
        invariant
            rest@.len() <= input.len(),
            forall|j: int| 0 <= j < rest@.len() ==> #[trigger] rest@[j]@ == input[input.len() - 1 - j],
            msg_views(merged@) == merge_spec(input.subrange(0, input.len() - rest@.len())),
        decreases rest@.len(),
    {
        let ghost k = input.len() - rest@.len();
        let msg = rest.pop().unwrap();
        assert(msg@ == input[k]);
        let ghost pre = input.subrange(0, k);
        assert(input.subrange(0, k + 1).drop_last() =~= pre);
        assert(input.subrange(0, k + 1).last() == input[k]);
        let n = merged.len();
        if n > 0 && merged[n - 1].sender == msg.sender {
            let mut last = merged.pop().unwrap();
            let ghost oldc = last.content@;
            assert(last@ == merge_spec(pre).last());
            proof {
                reveal_strlit("\n");
            }
            last.content.append("\n");
            last.content.append(msg.content.as_str());
            assert(last.content@ =~= join_content(oldc, msg@.content));
            merged.push(last);
            assert(msg_views(merged@) =~= merge_spec(pre).update(
                merge_spec(pre).len() - 1,
                MessageView { content: join_content(merge_spec(pre).last().content, msg@.content), ..merge_spec(pre).last() },
            ));
        } else {
            merged.push(msg);
            assert(msg_views(merged@) =~= merge_spec(pre).push(msg@));
        }
    }
    assert(input.subrange(0, input.len() as int) =~= input);
    merged
}


/// The result of merging is never longer than the input, and is empty only
/// for an empty input; its last message has the input's last sender.
pub proof fn lemma_merge_len(ms: Seq<MessageView>)
    ensures
        merge_spec(ms).len() <= ms.len(),
        (merge_spec(ms).len() == 0) == (ms.len() == 0),
        ms.len() > 0 ==> merge_spec(ms).last().sender == ms.last().sender,
    decreases ms.len(),
{
    if ms.len() > 0 {
        lemma_merge_len(ms.drop_last());
    }
}

/// After merging, no two neighbouring messages have the same sender.
pub proof fn lemma_merge_neighbours_differ(ms: Seq<MessageView>)
    ensures
        forall|i: int|
            0 <= i < merge_spec(ms).len() - 1 ==> #[trigger] merge_spec(ms)[i].sender
                != merge_spec(ms)[i + 1].sender,
    decreases ms.len(),
{
    if ms.len() > 0 {
        let prev = merge_spec(ms.drop_last());
        lemma_merge_neighbours_differ(ms.drop_last());
        let r = merge_spec(ms);
        assert forall|i: int| 0 <= i < r.len() - 1 implies #[trigger] r[i].sender != r[i + 1].sender by {
            if prev.len() > 0 && prev.last().sender == ms.last().sender {
                assert(r[i].sender == prev[i].sender);
                assert(r[i + 1].sender == prev[i + 1].sender);
            } else {
                if i + 1 < prev.len() {
                    assert(r[i] == prev[i]);
                    assert(r[i + 1] == prev[i + 1]);
                }
            }
        }
    }
}

/// A sequence whose neighbouring messages all have different senders is left
/// unchanged by merging.
pub proof fn lemma_merge_keeps_distinct(ms: Seq<MessageView>)
    requires
        forall|i: int| 0 <= i < ms.len() - 1 ==> #[trigger] ms[i].sender != ms[i + 1].sender,
    ensures
        merge_spec(ms) == ms,
    decreases ms.len(),
{
    if ms.len() > 0 {
        let d = ms.drop_last();
        assert forall|i: int| 0 <= i < d.len() - 1 implies #[trigger] d[i].sender != d[i + 1].sender by {
            assert(d[i] == ms[i] && d[i + 1] == ms[i + 1]);
        }
        lemma_merge_keeps_distinct(d);
        if d.len() > 0 {
            assert(ms[ms.len() - 2].sender != ms[ms.len() - 1].sender);
        }
        assert(d.push(ms.last()) =~= ms);
    }
}

/// Merging is idempotent: merging an already merged sequence changes nothing.
pub proof fn lemma_merge_idempotent(ms: Seq<MessageView>)
    ensures
        merge_spec(merge_spec(ms)) == merge_spec(ms),
{
    lemma_merge_neighbours_differ(ms);
    lemma_merge_keeps_distinct(merge_spec(ms));
}

/// The first merged message carries the first input message's sender and
/// metadata.
pub proof fn lemma_merge_first(ms: Seq<MessageView>)
    requires
        ms.len() > 0,
    ensures
        merge_spec(ms).len() > 0,
        merge_spec(ms)[0].sender == ms[0].sender,
        merge_spec(ms)[0].timestamp == ms[0].timestamp,
        merge_spec(ms)[0].id == ms[0].id,
        merge_spec(ms)[0].reply_to == ms[0].reply_to,
        merge_spec(ms)[0].edited == ms[0].edited,
    decreases ms.len(),
{
    lemma_merge_len(ms);
    if ms.len() > 1 {
        lemma_merge_first(ms.drop_last());
        let prev = merge_spec(ms.drop_last());
        assert(ms.drop_last()[0] == ms[0]);
        if prev.last().sender == ms.last().sender {
            if prev.len() == 1 {
                assert(merge_spec(ms)[0] == MessageView { content: join_content(prev.last().content, ms.last().content), ..prev[0] });
            } else {
                assert(merge_spec(ms)[0] == prev[0]);
            }
        } else {
            assert(merge_spec(ms)[0] == prev[0]);
        }
    } else {
        assert(ms.drop_last() =~= Seq::<MessageView>::empty());
        assert(merge_spec(ms.drop_last()) =~= Seq::<MessageView>::empty());
    }
}

/// The contents of a run of messages joined with newlines, in order.
pub open spec fn joined_contents(ms: Seq<MessageView>) -> Seq<char>
    decreases ms.len(),
{
    if ms.len() == 0 {
        Seq::empty()
    } else if ms.len() == 1 {
        ms[0].content
    } else {
        join_content(joined_contents(ms.drop_last()), ms.last().content)
    }
}

/// Messages that all come from one sender merge into exactly one message:
/// the first message with every content joined by newlines.
pub proof fn lemma_merge_one_sender(ms: Seq<MessageView>)
    requires
        ms.len() > 0,
        forall|i: int| 0 <= i < ms.len() ==> #[trigger] ms[i].sender == ms[0].sender,
    ensures
        merge_spec(ms) == seq![MessageView { content: joined_contents(ms), ..ms[0] }],
    decreases ms.len(),
{
    if ms.len() == 1 {
        assert(ms.drop_last() =~= Seq::<MessageView>::empty());
        assert(merge_spec(ms.drop_last()) =~= Seq::<MessageView>::empty());
        assert(ms[0] == (MessageView { content: joined_contents(ms), ..ms[0] }));
    } else {
        let d = ms.drop_last();
        assert forall|i: int| 0 <= i < d.len() implies #[trigger] d[i].sender == d[0].sender by {
            assert(d[i] == ms[i]);
        }
        lemma_merge_one_sender(d);
        assert(ms.last().sender == ms[0].sender);
        assert(merge_spec(ms) =~= seq![MessageView { content: joined_contents(ms), ..ms[0] }]);
    }
}

/// Merging distributes over concatenation when the sender changes at the
/// boundary.
pub proof fn lemma_merge_append(a: Seq<MessageView>, b: Seq<MessageView>)
    requires
        a.len() > 0,
        b.len() > 0,
        a.last().sender != b[0].sender,
    ensures
        merge_spec(a + b) == merge_spec(a) + merge_spec(b),
    decreases b.len(),
{
    let ab = a + b;
    lemma_merge_len(a);
    if b.len() == 1 {
        assert(ab.drop_last() =~= a);
        assert(b.drop_last() =~= Seq::<MessageView>::empty());
        assert(merge_spec(b.drop_last()) =~= Seq::<MessageView>::empty());
        assert(merge_spec(b) =~= seq![b[0]]);
        assert(merge_spec(a).push(b[0]) =~= merge_spec(a) + seq![b[0]]);
    } else {
        let b1 = b.drop_last();
        assert(ab.drop_last() =~= a + b1);
        lemma_merge_append(a, b1);
        lemma_merge_len(b1);
        let pa = merge_spec(a);
        let pb = merge_spec(b1);
        let prev = pa + pb;
        assert(prev.last() == pb.last());
        if pb.last().sender == b.last().sender {
            assert(prev.update(prev.len() - 1, MessageView { content: join_content(prev.last().content, b.last().content), ..prev.last() })
                =~= pa + pb.update(pb.len() - 1, MessageView { content: join_content(pb.last().content, b.last().content), ..pb.last() }));
        } else {
            assert(prev.push(b.last()) =~= pa + pb.push(b.last()));
        }
    }
}


/// Message counts before and after filtering and merging.
#[derive(Debug, Clone, Copy, PartialEq, Eq, Structural)]
pub struct ProcessingStats {
    /// Number of messages before processing.
    pub original_count: usize,
    /// Number of messages after merging.
    pub merged_count: usize,
    /// Number of messages after filtering, when filtering was applied.
    pub filtered_count: Option<usize>,
}

/// The count merging started from: the filtered count when there is one.
pub open spec fn stats_base(s: ProcessingStats) -> usize {
    match s.filtered_count {
        Some(f) => f,
        None => s.original_count,
    }
}

impl ProcessingStats {
    /// Statistics with the original and merged counts.
    pub fn new(original: usize, merged: usize) -> (s: ProcessingStats)
        ensures
            s == (ProcessingStats { original_count: original, merged_count: merged, filtered_count: None }),
    {
        ProcessingStats { original_count: original, merged_count: merged, filtered_count: None }
    }

    /// Records the count after filtering.
    pub fn with_filtered(self, filtered: usize) -> (s: ProcessingStats)
        ensures
            s == (ProcessingStats { filtered_count: Some(filtered), ..self }),
    {
        ProcessingStats { filtered_count: Some(filtered), ..self }
    }

    /// The count merging started from.
    pub fn base_count(&self) -> (b: usize)
        ensures
            b == stats_base(*self),
    {
        match self.filtered_count {
            Some(f) => f,
            None => self.original_count,
        }
    }

    /// Number of messages removed by merging (never negative).
    pub fn messages_saved(&self) -> (n: usize)
        ensures
            n == (if stats_base(*self) >= self.merged_count { (stats_base(*self) - self.merged_count) as usize } else { 0 }),
    {
        let base = self.base_count();
        base.saturating_sub(self.merged_count)
    }
}

impl Default for ProcessingStats {
    fn default() -> (s: ProcessingStats)
        ensures
            s == (ProcessingStats { original_count: 0, merged_count: 0, filtered_count: None }),
    {
        ProcessingStats::new(0, 0)
    }
}

/// The messages the command-line tool writes: those that pass the filter,
/// merged by sender unless merging is disabled.
pub open spec fn pipeline_spec(ms: Seq<MessageView>, filter: FilterConfig, no_merge: bool) -> Seq<MessageView> {
    let kept = filter_spec(filter, ms);
    if no_merge {
        kept
    } else {
        merge_spec(kept)
    }
}

/// Filters, then (unless `no_merge`) merges the messages; also returns how
/// many messages passed the filter.
pub fn process_messages(messages: Vec<Message>, filter: &FilterConfig, no_merge: bool) -> (r: (Vec<Message>, usize))
    ensures
        msg_views(r.0@) == pipeline_spec(msg_views(messages@), *filter, no_merge),
        r.1 == filter_spec(*filter, msg_views(messages@)).len(),
{
    let filtered = apply_filters(messages, filter);
    let count = filtered.len();
    if no_merge {
        (filtered, count)
    } else {
        (merge_consecutive(filtered), count)
    }
}

} // verus!
