//! Finding the objects of a top-level JSON array one by one, without parsing
//! them: the array is located by its key, and each object is delimited by
//! counting braces outside of string literals.

use vstd::prelude::*;

use crate::streaming::error::StreamingError;
use crate::text::{
    char_utf8_width, find_at_or_after, find_from, is_whitespace, is_ws, push_str_chars, string_of,
    utf8_len,
};

verus! {

/// How far the header of a file may run, in bytes, before the array must
/// have been found.
pub const HEADER_SEARCH_LIMIT: u64 = 10_485_760u64;

/// Lexical state after a prefix of a JSON text: inside a string literal,
/// right after a backslash inside one, and the depth of `{` nesting outside
/// string literals.
pub struct LexState {
    pub in_string: bool,
    pub escaped: bool,
    pub depth: int,
}

/// The lexical state after one more character.
pub open spec fn lex_step(s: LexState, ch: char) -> LexState {
    if s.in_string {
        if s.escaped {
            LexState { escaped: false, ..s }
        } else if ch == '\\' {
            LexState { escaped: true, ..s }
        } else if ch == '"' {
            LexState { in_string: false, ..s }
        } else {
            s
        }
    } else if ch == '"' {
        LexState { in_string: true, ..s }
    } else if ch == '{' {
        LexState { depth: s.depth + 1, ..s }
    } else if ch == '}' {
        LexState { depth: s.depth - 1, ..s }
    } else {
        s
    }
}

/// The lexical state after the whole of `s`, starting outside any string
/// at depth 0.
pub open spec fn lex(s: Seq<char>) -> LexState
    decreases s.len(),
{
    if s.len() == 0 {
        LexState { in_string: false, escaped: false, depth: 0 }
    } else {
        lex_step(lex(s.drop_last()), s.last())
    }
}

/// The depth never exceeds the number of characters read.
pub proof fn lemma_lex_depth_bound(s: Seq<char>)
    ensures
        lex(s).depth <= s.len(),
    decreases s.len(),
{
    if s.len() > 0 {
        lemma_lex_depth_bound(s.drop_last());
    }
}

/// Advances the lexical state by one character.
pub fn update_json_object_state(ch: char, in_string: &mut bool, escaped: &mut bool, brace_depth: &mut i32)
    requires
        !*old(in_string) && ch == '{' ==> *old(brace_depth) < i32::MAX,
        !*old(in_string) && ch == '}' ==> *old(brace_depth) > i32::MIN,
    ensures
        (LexState { in_string: *final(in_string), escaped: *final(escaped), depth: *final(brace_depth) as int })
            == lex_step(
            LexState { in_string: *old(in_string), escaped: *old(escaped), depth: *old(brace_depth) as int },
            ch,
        ),
{
    if *in_string {
        if *escaped {
            *escaped = false;
        } else if ch == '\\' {
            *escaped = true;
        } else if ch == '"' {
            *in_string = false;
        }
    } else {
        if ch == '"' {
            *in_string = true;
        } else if ch == '{' {
            *brace_depth = *brace_depth + 1;
        } else if ch == '}' {
            *brace_depth = *brace_depth - 1;
        }
    }
}

/// What `format!("{c:?}")` prints for a character (its quoted, escaped
/// form).
pub uninterp spec fn char_debug(c: char) -> Seq<char>;

/// Calls the standard `Debug` formatting of `char`.
#[verifier::external_body]
fn debug_char(c: char) -> (s: String)
    ensures
        s@ == char_debug(c),
{
    format!("{c:?}")
}

/// The message of the error for a character that cannot stand between the
/// objects of the array.
pub open spec fn unexpected_char_text(c: char) -> Seq<char> {
    "Unexpected character in messages array: "@ + char_debug(c)
}

/// What one step of scanning yields.
#[derive(Debug, Clone, PartialEq)]
pub enum ScanEvent {
    /// More characters are needed.
    Pending,
    /// The text of one complete object.
    Object(String),
    /// The array is closed (or the input ended between objects).
    End,
    /// The input is malformed at this point; scanning can go on with the
    /// next characters.
    Failed(StreamingError),
}

/// The state of an object scanner: whether an object has begun, its text so
/// far, whether the array has ended, and the largest object accepted.
pub struct ScannerView {
    pub started: bool,
    pub buffer: Seq<char>,
    pub finished: bool,
    pub max: usize,
}

/// A byte count, capped at `usize::MAX`.
pub open spec fn capped(n: nat) -> usize {
    if n <= usize::MAX {
        n as usize
    } else {
        usize::MAX
    }
}

/// The state between objects.
pub open spec fn idle(v: ScannerView) -> ScannerView {
    ScannerView { started: false, buffer: Seq::empty(), ..v }
}

/// Cuts the objects of a JSON array out of its text, character by
/// character, starting right after the array's `[`.
pub struct ObjectScanner {
    buffer: Vec<char>,
    found_start: bool,
    in_string: bool,
    escaped: bool,
    depth: i32,
    bytes: usize,
    max_object_size: usize,
    finished: bool,
}

impl View for ObjectScanner {
    type V = ScannerView;

    closed spec fn view(&self) -> ScannerView {
        ScannerView {
            started: self.found_start,
            buffer: self.buffer@,
            finished: self.finished,
            max: self.max_object_size,
        }
    }
}

impl ObjectScanner {
    #[verifier::type_invariant]
    spec fn well_formed(self) -> bool {
        if self.found_start {
            &&& self.buffer@.len() > 0
            &&& self.buffer@[0] == '{'
            &&& lex(self.buffer@) == (LexState {
                in_string: self.in_string,
                escaped: self.escaped,
                depth: self.depth as int,
            })
            &&& self.depth >= 1
            &&& self.bytes == utf8_len(self.buffer@)
        } else {
            &&& self.buffer@.len() == 0
            &&& self.bytes == 0
            &&& !self.in_string
            &&& !self.escaped
            &&& self.depth == 0
        }
    }

    /// A scanner at the start of the array's contents, accepting objects of
    /// up to `max_object_size` bytes (UTF-8).
    pub fn new(max_object_size: usize) -> (s: ObjectScanner)
        ensures
            s@ == (ScannerView { started: false, buffer: Seq::empty(), finished: false, max: max_object_size }),
    {
        ObjectScanner {
            buffer: Vec::new(),
            found_start: false,
            in_string: false,
            escaped: false,
            depth: 0,
            bytes: 0,
            max_object_size,
            finished: false,
        }
    }

    /// Whether the array has ended.
    pub fn is_finished(&self) -> (b: bool)
        ensures
            b == self@.finished,
    {
        self.finished
    }

    fn reset(&mut self)
        ensures
            final(self)@ == idle(old(self)@),
    {
        *self = ObjectScanner {
            buffer: Vec::new(),
            found_start: false,
            in_string: false,
            escaped: false,
            depth: 0,
            bytes: 0,
            max_object_size: self.max_object_size,
            finished: self.finished,
        };
    }

    /// Reads one character. Between objects, whitespace and commas are
    /// skipped, `]` ends the array, `{` begins an object and anything else
    /// is an error. Inside an object the character is added; an object
    /// whose UTF-8 size exceeds the limit is an error, and the object is complete when
    /// its braces balance. After an error or a complete object the scanner
    /// is between objects again.
    pub fn feed(&mut self, ch: char) -> (e: ScanEvent)
        ensures
            final(self)@.max == old(self)@.max,
            e matches ScanEvent::Object(t) ==> t@.len() > 0 && t@[0] == '{' && lex(t@).depth == 0,
            old(self)@.finished ==> e is End && final(self)@ == old(self)@,
            !old(self)@.finished && !old(self)@.started ==> {
                if is_ws(ch) || ch == ',' {
                    e is Pending && final(self)@ == old(self)@
                } else if ch == ']' {
                    e is End && final(self)@ == (ScannerView { finished: true, ..old(self)@ })
                } else if ch == '{' {
                    e is Pending && final(self)@ == (ScannerView {
                        started: true,
                        buffer: seq!['{'],
                        ..old(self)@
                    })
                } else {
                    e matches ScanEvent::Failed(StreamingError::InvalidFormat(m)) && m@ == unexpected_char_text(ch)
                        && final(self)@ == old(self)@
                }
            },
            !old(self)@.finished && old(self)@.started ==> {
                let b = old(self)@.buffer.push(ch);
                if utf8_len(b) > old(self)@.max || lex(b).depth > i32::MAX {
                    e == ScanEvent::Failed(StreamingError::BufferOverflow {
                        max_size: old(self)@.max,
                        actual_size: capped(utf8_len(b)),
                    }) && final(self)@ == idle(old(self)@)
                } else if lex(b).depth == 0 {
                    e matches ScanEvent::Object(t) && t@ == b && final(self)@ == idle(old(self)@)
                } else {
                    e is Pending && final(self)@ == (ScannerView { buffer: b, ..old(self)@ })
                }
            },
    {
        proof {
            use_type_invariant(&*self);
        }
        if self.finished {
            return ScanEvent::End;
        }
        if !self.found_start {
            if is_whitespace(ch) || ch == ',' {
                ScanEvent::Pending
            } else if ch == ']' {
                assert(self.buffer@ =~= Seq::<char>::empty());
                *self = ObjectScanner { finished: true, buffer: Vec::new(), ..*self };
                assert(self@ =~= (ScannerView { finished: true, ..old(self)@ }));
                ScanEvent::End
            } else if ch == '{' {
                let mut b: Vec<char> = Vec::new();
                b.push('{');
                assert(b@ =~= seq!['{']);
                assert(b@.drop_last() =~= Seq::<char>::empty());
                assert(lex(Seq::<char>::empty()) == (LexState { in_string: false, escaped: false, depth: 0 }));
                assert(b@.last() == '{');
                assert(lex(b@) == (LexState { in_string: false, escaped: false, depth: 1 }));
                assert(utf8_len(Seq::<char>::empty()) == 0);
                assert(utf8_len(b@) == 1);
                *self = ObjectScanner {
                    buffer: b,
                    found_start: true,
                    in_string: false,
                    escaped: false,
                    depth: 1,
                    bytes: 1,
                    max_object_size: self.max_object_size,
                    finished: false,
                };
                ScanEvent::Pending
            } else {
                let mut m: Vec<char> = Vec::new();
                push_str_chars(&mut m, "Unexpected character in messages array: ");
                push_str_chars(&mut m, debug_char(ch).as_str());
                ScanEvent::Failed(StreamingError::InvalidFormat(string_of(&m)))
            }
        } else {
            let ghost old_buf = self.buffer@;
            proof {
                lemma_lex_depth_bound(old_buf);
            }
            let too_deep = !self.in_string && ch == '{' && self.depth == i32::MAX;
            let mut in_string = self.in_string;
            let mut escaped = self.escaped;
            let mut depth = self.depth;
            if !too_deep {
                update_json_object_state(ch, &mut in_string, &mut escaped, &mut depth);
            }
            let w = char_utf8_width(ch);
            let grown = self.bytes.checked_add(w);
            let mut b: Vec<char> = Vec::new();
            let mut held = ObjectScanner {
                buffer: Vec::new(),
                found_start: false,
                in_string: false,
                escaped: false,
                depth: 0,
                bytes: 0,
                max_object_size: self.max_object_size,
                finished: self.finished,
            };
            std::mem::swap(&mut held, self);
            b = held.buffer;
            b.push(ch);
            assert(b@.drop_last() =~= old_buf);
            let nb: usize = match grown {
                Some(n) => n,
                None => usize::MAX,
            };
            if too_deep || grown.is_none() || nb > self.max_object_size {
                ScanEvent::Failed(StreamingError::BufferOverflow { max_size: self.max_object_size, actual_size: nb })
            } else if depth == 0 {
                ScanEvent::Object(string_of(&b))
            } else {
                *self = ObjectScanner {
                    buffer: b,
                    found_start: true,
                    in_string,
                    escaped,
                    depth,
                    bytes: nb,
                    max_object_size: self.max_object_size,
                    finished: false,
                };
                ScanEvent::Pending
            }
        }
    }

    /// The input has ended: an error when an object was open, else the end
    /// of the array.
    pub fn finish(&mut self) -> (e: ScanEvent)
        ensures
            final(self)@ == (ScannerView { finished: true, ..old(self)@ }),
            old(self)@.started && !old(self)@.finished ==> e == ScanEvent::Failed(StreamingError::UnexpectedEof),
            !(old(self)@.started && !old(self)@.finished) ==> e is End,
    {
        proof {
            use_type_invariant(&*self);
        }
        let open = self.found_start && !self.finished;
        let mut held = ObjectScanner {
            buffer: Vec::new(),
            found_start: false,
            in_string: false,
            escaped: false,
            depth: 0,
            bytes: 0,
            max_object_size: self.max_object_size,
            finished: self.finished,
        };
        std::mem::swap(&mut held, self);
        *self = ObjectScanner { finished: true, ..held };
        if open {
            ScanEvent::Failed(StreamingError::UnexpectedEof)
        } else {
            ScanEvent::End
        }
    }
}

/// What one header line tells about where the array starts.
#[derive(Debug, Clone, PartialEq)]
pub enum SeekStep {
    /// The array starts on this line; the text after its `[`.
    Found(Vec<char>),
    /// Not yet; whether the array's key has been seen.
    NotYet(bool),
    /// The header ran past the search limit.
    TooLarge,
}

/// The text of the key of the array named `name`: the name in quotes.
pub open spec fn array_key(name: Seq<char>) -> Seq<char> {
    seq!['"'] + name + seq!['"']
}

/// Where the array starts on a header line: the search for `[` begins
/// after the key's first occurrence, or at the start of the line once the
/// key has been seen on an earlier line. A line that does not open the
/// array is an error when more than [`HEADER_SEARCH_LIMIT`] bytes have been
/// read (`bytes_read`, this line included).
pub open spec fn seek_spec(line: Seq<char>, key: Seq<char>, found_key: bool, bytes_read: u64) -> SeekStepView {
    let start: Option<int> = if found_key {
        Some(0)
    } else {
        match find_from(line, key, 0) {
            Some(p) => Some(p + key.len()),
            None => None,
        }
    };
    match start {
        Some(s) => match find_from(line, seq!['['], s) {
            Some(a) => SeekStepView::Found(line.subrange(a + 1, line.len() as int)),
            None => if bytes_read > HEADER_SEARCH_LIMIT {
                SeekStepView::TooLarge
            } else {
                SeekStepView::NotYet(true)
            },
        },
        None => if bytes_read > HEADER_SEARCH_LIMIT {
            SeekStepView::TooLarge
        } else {
            SeekStepView::NotYet(false)
        },
    }
}

/// [`SeekStep`] with its text as a sequence.
pub enum SeekStepView {
    Found(Seq<char>),
    NotYet(bool),
    TooLarge,
}

/// The view of a [`SeekStep`].
pub open spec fn seek_view(s: SeekStep) -> SeekStepView {
    match s {
        SeekStep::Found(v) => SeekStepView::Found(v@),
        SeekStep::NotYet(b) => SeekStepView::NotYet(b),
        SeekStep::TooLarge => SeekStepView::TooLarge,
    }
}

/// Examines one header line for the start of the array with the given key.
pub fn seek_array_line(line: &[char], key: &[char], found_key: bool, bytes_read: u64) -> (r: SeekStep)
    ensures
        seek_view(r) == seek_spec(line@, key@, found_key, bytes_read),
{
    let n: usize = line.len();
    let start: Option<usize> = if found_key {
        Some(0)
    } else {
        match find_at_or_after(line, key, 0) {
            Some(p) => {
                proof {
                    lemma_find_from_in_range(line@, key@, 0);
                }
                assert(p + key@.len() <= line@.len());
                Some(p + key.len())
            },
            None => None,
        }
    };
    match start {
        Some(s) => {
            let open: Vec<char> = vec!['['];
            assert(open@ =~= seq!['[']);
            match find_at_or_after(line, &open, s) {
                Some(a) => {
                    proof {
                        lemma_find_from_in_range(line@, seq!['['], s as int);
                    }
                    assert(a + 1 <= line@.len());
                    let mut rest: Vec<char> = Vec::new();
                    let mut i: usize = a + 1;
                    while i < line.len()
                        invariant
                            a + 1 <= i <= line@.len(),
                            rest@ == line@.subrange(a + 1, i as int),
                        decreases line@.len() - i,
                    {
                        rest.push(line[i]);
                        i = i + 1;
                        assert(rest@ =~= line@.subrange(a + 1, i as int));
                    }
                    SeekStep::Found(rest)
                },
                None => if bytes_read > HEADER_SEARCH_LIMIT {
                    SeekStep::TooLarge
                } else {
                    SeekStep::NotYet(true)
                },
            }
        },
        None => if bytes_read > HEADER_SEARCH_LIMIT {
            SeekStep::TooLarge
        } else {
            SeekStep::NotYet(false)
        },
    }
}

/// A found position leaves room for the needle.
pub proof fn lemma_find_from_in_range(hay: Seq<char>, needle: Seq<char>, i: int)
    ensures
        find_from(hay, needle, i) matches Some(k) ==> i <= k && k + needle.len() <= hay.len(),
    decreases hay.len() + 1 - i,
{
    if !(i < 0 || i + needle.len() > hay.len()) && !crate::text::occurs_at(hay, needle, i) {
        lemma_find_from_in_range(hay, needle, i + 1);
    }
}

/// The key text of the array named `name`.
pub fn array_key_of(name: &str) -> (k: Vec<char>)
    ensures
        k@ == array_key(name@),
{
    let mut k: Vec<char> = Vec::new();
    k.push('"');
    push_str_chars(&mut k, name);
    k.push('"');
    assert(k@ =~= array_key(name@));
    k
}

/// The error for a file that ends before the array named `name` is found.
pub fn array_not_found(name: &str) -> (e: StreamingError)
    ensures
        e matches StreamingError::InvalidFormat(m) && m@ == "Could not find '"@ + name@ + "' array in file"@,
{
    let mut m: Vec<char> = Vec::new();
    push_str_chars(&mut m, "Could not find '");
    push_str_chars(&mut m, name);
    push_str_chars(&mut m, "' array in file");
    StreamingError::InvalidFormat(string_of(&m))
}

/// The error for a header longer than the search limit.
pub fn header_too_large(name: &str) -> (e: StreamingError)
    ensures
        e matches StreamingError::InvalidFormat(m) && m@ == "File header too large or '"@ + name@
            + "' array not found"@,
{
    let mut m: Vec<char> = Vec::new();
    push_str_chars(&mut m, "File header too large or '");
    push_str_chars(&mut m, name);
    push_str_chars(&mut m, "' array not found");
    StreamingError::InvalidFormat(string_of(&m))
}

} // verus!
