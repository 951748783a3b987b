//! Line patterns, matched by the `regex` crate.
//!
//! Regular-expression semantics are `regex`'s own; the functions below call
//! it and name what it returns for a pattern text and a line.

use vstd::prelude::*;

verus! {

#[verifier::external_type_specification]
#[verifier::external_body]
pub struct ExRegex(regex::Regex);

/// What `regex::Regex::new` reports for the pattern: `None` when it accepts
/// it, else the text of its error.
pub uninterp spec fn regex_compile_error(pattern: Seq<char>) -> Option<Seq<char>>;

/// Whether `regex::Regex::new` accepts the pattern.
pub open spec fn regex_valid(pattern: Seq<char>) -> bool {
    regex_compile_error(pattern) is None
}

/// What `Regex::is_match` answers for the pattern and the text.
pub uninterp spec fn regex_is_match(pattern: Seq<char>, text: Seq<char>) -> bool;

/// What `Regex::captures` returns for the pattern and the text: `None`
/// without a match, else the text of every group (group 0 is the whole
/// match; `None` for a group that did not take part).
pub uninterp spec fn regex_captures(pattern: Seq<char>, text: Seq<char>) -> Option<Seq<Option<Seq<char>>>>;

/// A compiled regular expression together with the pattern text it was
/// compiled from. Only [`LinePattern::compile`] builds one, so the two always
/// agree.
pub struct LinePattern {
    re: regex::Regex,
    text: String,
}

impl LinePattern {
    /// The pattern text this regular expression was compiled from.
    pub closed spec fn pattern(&self) -> Seq<char> {
        self.text@
    }

    /// Calls `regex::Regex::new`: the compiled pattern when it is valid,
    /// else the text of regex's error.
    #[verifier::external_body]
    pub(crate) fn compile(pattern: &str) -> (r: Result<LinePattern, String>)
        ensures
            match regex_compile_error(pattern@) {
                None => r matches Ok(p) && p.pattern() == pattern@,
                Some(e) => r matches Err(m) && m@ == e,
            },
    {
        match regex::Regex::new(pattern) {
            Ok(re) => Ok(LinePattern { re, text: pattern.to_string() }),
            Err(e) => Err(e.to_string()),
        }
    }

    /// Calls `Regex::is_match` on `text`.
    #[verifier::external_body]
    pub(crate) fn is_match(&self, text: &str) -> (b: bool)
        ensures
            b == regex_is_match(self.pattern(), text@),
    {
        self.re.is_match(text)
    }

    /// Calls `Regex::captures` on `text` and copies out every group's text.
    /// As `regex` documents, there are captures exactly when the text
    /// matches.
    #[verifier::external_body]
    pub(crate) fn captures(&self, text: &str) -> (r: Option<Vec<Option<String>>>)
        ensures
            r is Some <==> regex_is_match(self.pattern(), text@),
            match regex_captures(self.pattern(), text@) {
                Some(groups) => r matches Some(v) && v@.len() == groups.len() && forall|i: int|
                    0 <= i < groups.len() ==> #[trigger] opt_view(v@[i]) == groups[i],
                None => r is None,
            },
    {
        match self.re.captures(text) {
            Some(caps) => Some(caps.iter().map(|m| m.map(|m| m.as_str().to_string())).collect()),
            None => None,
        }
    }
}

/// The character view of an optional string.
pub open spec fn opt_view(s: Option<String>) -> Option<Seq<char>> {
    match s {
        Some(t) => Some(t@),
        None => None,
    }
}

/// The text of group `i`, empty when the group is absent or did not take
/// part (`caps.get(i).map_or("", |m| m.as_str())`).
pub open spec fn group_text(groups: Seq<Option<Seq<char>>>, i: int) -> Seq<char> {
    if 0 <= i < groups.len() {
        match groups[i] {
            Some(t) => t,
            None => Seq::empty(),
        }
    } else {
        Seq::empty()
    }
}

/// Executable [`group_text`].
pub fn group_of(groups: &Vec<Option<String>>, i: usize) -> (s: String)
    ensures
        s@ == group_text(groups@.map_values(|g: Option<String>| opt_view(g)), i as int),
{
    if i < groups.len() {
        match &groups[i] {
            Some(t) => t.clone(),
            None => String::new(),
        }
    } else {
        String::new()
    }
}

} // verus!
