//! Finding the objects of a pretty-printed JSON array line by line: an
//! object starts on the first line holding a `{` and ends on the line where
//! the count of `{` and `}` read since balances. Braces inside string
//! literals are counted too; the readers that use this rely on the exporter
//! writing one object per group of lines.

use vstd::prelude::*;

use crate::streaming::error::StreamingError;
use crate::streaming::json_array::{ScanEvent, capped};
use crate::text::{
    chars_eq_str, contains_seq, contains_str, has_prefix_str, lemma_utf8_len_concat, push_all,
    starts_with, string_of, trim, trimmed, utf8_len, utf8_len_of,
};

verus! {

/// How many times `c` occurs in `s`.
pub open spec fn count_char(s: Seq<char>, c: char) -> nat
    decreases s.len(),
{
    if s.len() == 0 {
        0
    } else {
        count_char(s.drop_last(), c) + if s.last() == c {
            1nat
        } else {
            0nat
        }
    }
}

/// `s` without the trailing run of `c` (`str::trim_end_matches(c)`).
pub open spec fn strip_trailing(s: Seq<char>, c: char) -> Seq<char>
    decreases s.len(),
{
    if s.len() > 0 && s.last() == c {
        strip_trailing(s.drop_last(), c)
    } else {
        s
    }
}

/// The text of a completed object: the accumulated lines trimmed, without
/// trailing commas.
pub open spec fn object_text(buffer: Seq<char>) -> Seq<char> {
    strip_trailing(trim(buffer), ',')
}

/// A header line opens the array: it mentions `"messages"` and a `[`.
pub open spec fn opens_messages(line: Seq<char>) -> bool {
    contains_seq(line, "\"messages\""@) && contains_seq(line, "["@)
}

/// Whether a header line opens the `messages` array.
pub fn line_opens_messages(line: &[char]) -> (b: bool)
    ensures
        b == opens_messages(line@),
{
    contains_str(line, "\"messages\"") && contains_str(line, "[")
}

/// The state of a line scanner.
pub struct LineScannerView {
    pub started: bool,
    pub buffer: Seq<char>,
    pub depth: int,
    pub finished: bool,
    pub max: usize,
}

/// The state between objects.
pub open spec fn line_idle(v: LineScannerView) -> LineScannerView {
    LineScannerView { started: false, buffer: Seq::empty(), depth: 0, ..v }
}

/// The message of the error for brace counts beyond `i64`.
pub open spec fn nesting_text() -> Seq<char> {
    "Brace nesting out of range"@
}

/// Cuts the objects of a pretty-printed JSON array out of its lines.
pub struct LineScanner {
    buffer: Vec<char>,
    bytes: usize,
    found_start: bool,
    depth: i64,
    max_object_size: usize,
    finished: bool,
}

impl View for LineScanner {
    type V = LineScannerView;

    closed spec fn view(&self) -> LineScannerView {
        LineScannerView {
            started: self.found_start,
            buffer: self.buffer@,
            depth: self.depth as int,
            finished: self.finished,
            max: self.max_object_size,
        }
    }
}

/// The counts of `{` and `}` in a line.
fn brace_counts(line: &[char]) -> (r: (usize, usize))
    ensures
        r.0 == count_char(line@, '{'),
        r.1 == count_char(line@, '}'),
{
    let mut opens: usize = 0;
    let mut closes: usize = 0;
    let mut i: usize = 0;
    while i < line.len()
        invariant
            0 <= i <= line@.len(),
            opens == count_char(line@.take(i as int), '{'),
            closes == count_char(line@.take(i as int), '}'),
            opens + closes <= i,
        decreases line@.len() - i,
    {
        assert(line@.take(i + 1).drop_last() =~= line@.take(i as int));
        if line[i] == '{' {
            opens = opens + 1;
        } else if line[i] == '}' {
            closes = closes + 1;
        }
        i = i + 1;
    }
    assert(line@.take(line@.len() as int) =~= line@);
    (opens, closes)
}

fn strip_trailing_commas(s: Vec<char>) -> (r: Vec<char>)
    ensures
        r@ == strip_trailing(s@, ','),
    decreases s@.len(),
{
    let mut s = s;
    if s.len() > 0 && s[s.len() - 1] == ',' {
        let ghost before = s@;
        s.pop();
        assert(s@ == before.drop_last());
        strip_trailing_commas(s)
    } else {
        s
    }
}

impl LineScanner {
    #[verifier::type_invariant]
    spec fn well_formed(self) -> bool {
        &&& self.found_start ==> self.bytes == utf8_len(self.buffer@)
        &&& !self.found_start ==> self.buffer@.len() == 0 && self.bytes == 0
    }

    /// A scanner at the start of the array, accepting objects of up to
    /// `max_object_size` bytes (UTF-8).
    pub fn new(max_object_size: usize) -> (s: LineScanner)
        ensures
            s@ == (LineScannerView { started: false, buffer: Seq::empty(), depth: 0, finished: false, max: max_object_size }),
    {
        LineScanner { buffer: Vec::new(), bytes: 0, found_start: false, depth: 0, max_object_size, finished: false }
    }

    /// Whether the array has ended.
    pub fn is_finished(&self) -> (b: bool)
        ensures
            b == self@.finished,
    {
        self.finished
    }

    /// Reads one line. Before an object, a line starting with `]` (after
    /// trimming) ends the array and blank or `,` lines are skipped. Otherwise
    /// the line's braces are counted; once a `{` has been seen the line is
    /// added to the object, which is an error when its UTF-8 size exceeds
    /// the limit and complete when the count balances.
    pub fn feed_line(&mut self, line: &[char]) -> (e: ScanEvent)
        ensures
            final(self)@.max == old(self)@.max,
            old(self)@.finished ==> e is End && final(self)@ == old(self)@,
            !old(self)@.finished ==> ({
                let o = old(self)@;
                let t = trim(line@);
                if !o.started && starts_with(t, "]"@) {
                    e is End && final(self)@ == (LineScannerView { finished: true, ..o })
                } else if !o.started && (t.len() == 0 || t == ","@) {
                    e is Pending && final(self)@ == o
                } else {
                    let depth = o.depth + count_char(line@, '{') - count_char(line@, '}');
                    let started = o.started || count_char(line@, '{') > 0;
                    if !(i64::MIN <= depth <= i64::MAX) {
                        e matches ScanEvent::Failed(StreamingError::InvalidFormat(m)) && m@ == nesting_text()
                            && final(self)@ == line_idle(o)
                    } else if !started {
                        e is Pending && final(self)@ == (LineScannerView { depth, ..o })
                    } else {
                        let b = o.buffer + line@;
                        if utf8_len(b) > o.max {
                            e == ScanEvent::Failed(StreamingError::BufferOverflow {
                                max_size: o.max,
                                actual_size: capped(utf8_len(b)),
                            }) && final(self)@ == line_idle(o)
                        } else if depth == 0 {
                            e matches ScanEvent::Object(s) && s@ == object_text(b) && final(self)@ == line_idle(o)
                        } else {
                            e is Pending && final(self)@ == (LineScannerView { started: true, buffer: b, depth, ..o })
                        }
                    }
                }
            }),
    {
        proof {
            use_type_invariant(&*self);
        }
        if self.finished {
            return ScanEvent::End;
        }
        let t = trimmed(line);
        if !self.found_start && has_prefix_str(&t, "]") {
            assert(self.buffer@ =~= Seq::<char>::empty());
            *self = LineScanner { finished: true, buffer: Vec::new(), ..*self };
            assert(self@ =~= (LineScannerView { finished: true, ..old(self)@ }));
            return ScanEvent::End;
        }
        if !self.found_start && (t.len() == 0 || chars_eq_str(&t, ",")) {
            return ScanEvent::Pending;
        }
        let (opens, closes) = brace_counts(line);
        let nd: i128 = self.depth as i128 + opens as i128 - closes as i128;
        if nd < i64::MIN as i128 || nd > i64::MAX as i128 {
            self.reset();
            return ScanEvent::Failed(StreamingError::InvalidFormat(String::from_str("Brace nesting out of range")));
        }
        let depth = nd as i64;
        if !self.found_start && opens == 0 {
            self.depth = depth;
            return ScanEvent::Pending;
        }
        let ghost b = self.buffer@ + line@;
        proof {
            lemma_utf8_len_concat(self.buffer@, line@);
        }
        let total: Option<usize> = match utf8_len_of(line) {
            Some(lb) => self.bytes.checked_add(lb),
            None => None,
        };
        match total {
            Some(n) => {
                if n > self.max_object_size {
                    let max = self.max_object_size;
                    self.reset();
                    return ScanEvent::Failed(StreamingError::BufferOverflow { max_size: max, actual_size: n });
                }
                let mut held = LineScanner {
                    buffer: Vec::new(),
                    bytes: 0,
                    found_start: false,
                    depth: 0,
                    max_object_size: self.max_object_size,
                    finished: self.finished,
                };
                std::mem::swap(&mut held, self);
                let mut buf = held.buffer;
                push_all(&mut buf, line);
                assert(buf@ == b);
                if depth == 0 {
                    let text = strip_trailing_commas(trimmed(&buf));
                    ScanEvent::Object(string_of(&text))
                } else {
                    *self = LineScanner {
                        buffer: buf,
                        bytes: n,
                        found_start: true,
                        depth,
                        max_object_size: self.max_object_size,
                        finished: false,
                    };
                    ScanEvent::Pending
                }
            },
            None => {
                let max = self.max_object_size;
                self.reset();
                ScanEvent::Failed(StreamingError::BufferOverflow { max_size: max, actual_size: usize::MAX })
            },
        }
    }

    /// The input has ended. With `report_open`, an object left open is an
    /// error; otherwise, and when none is open, the array simply ends.
    pub fn finish(&mut self, report_open: bool) -> (e: ScanEvent)
        ensures
            final(self)@ == (LineScannerView { finished: true, ..old(self)@ }),
            report_open && old(self)@.started && !old(self)@.finished ==> e == ScanEvent::Failed(
                StreamingError::UnexpectedEof,
            ),
            !(report_open && old(self)@.started && !old(self)@.finished) ==> e is End,
    {
        proof {
            use_type_invariant(&*self);
        }
        let open = self.found_start && !self.finished;
        self.finished = true;
        if report_open && open {
            ScanEvent::Failed(StreamingError::UnexpectedEof)
        } else {
            ScanEvent::End
        }
    }

    fn reset(&mut self)
        ensures
            final(self)@ == line_idle(old(self)@),
    {
        *self = LineScanner {
            buffer: Vec::new(),
            bytes: 0,
            found_start: false,
            depth: 0,
            max_object_size: self.max_object_size,
            finished: self.finished,
        };
    }
}

} // verus!
