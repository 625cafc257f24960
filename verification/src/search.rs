//! A pending search for a substring in the output of one process.

use vstd::prelude::*;

verus! {

/// Whether `needle` occurs in `haystack` as a run of consecutive characters.
pub open spec fn is_substring(needle: Seq<char>, haystack: Seq<char>) -> bool {
    exists|from: int, to: int|
        0 <= from <= to <= haystack.len() && #[trigger] haystack.subrange(from, to) == needle
}

/// Calls `str::contains` with a string as the pattern, which reports whether
/// the pattern occurs in the text as a substring.
#[verifier::external_body]
fn str_contains(haystack: &str, needle: &str) -> (found: bool)
    ensures
        found == is_substring(needle@, haystack@),
{
    haystack.contains(needle)
}

/// A search request: the substring looked for and, once a captured line held
/// it, that line.
#[derive(Debug, PartialEq, Eq)]
pub struct SearchMessage {
    pub submsg: String,
    pub message: Option<String>,
}

impl SearchMessage {
    /// A fresh request for `submsg`, not yet resolved.
    pub fn new(submsg: String) -> (s: Self)
        ensures
            s.submsg == submsg,
            s.message is None,
    {
        Self { submsg, message: None }
    }

    /// Whether the captured line `line` resolves this request: the request is
    /// still open and the line holds the substring.
    pub open spec fn resolved_by(self, line: Seq<char>) -> bool {
        self.message is None && is_substring(self.submsg@, line)
    }

    /// Shows the request one captured line. The first line that holds the
    /// substring resolves the request; a resolved request stays as it is.
    pub fn offer(&mut self, line: &String)
        ensures
            final(self).submsg == old(self).submsg,
            old(self).resolved_by(line@) ==> final(self).message == Some(*line),
            !old(self).resolved_by(line@) ==> final(self).message == old(self).message,
    {
        if self.message.is_none() && str_contains(line.as_str(), self.submsg.as_str()) {
            self.message = Some(line.clone());
        }
    }

    /// Hands out the resolved line, if there is one.
    pub fn resolved(&self) -> (line: Option<String>)
        ensures
            line == self.message,
    {
        match &self.message {
            Some(m) => Some(m.clone()),
            None => None,
        }
    }
}

/// Shows the pending request in `slot`, if any, one captured line.
pub fn resolve_search(slot: &mut Option<SearchMessage>, line: &String)
    ensures
        search_after_line(*old(slot), *line) == *final(slot),
{
    match slot {
        Some(request) => {
            request.offer(line);
        },
        None => {},
    }
}

/// The slot of a process after a captured line went by.
pub open spec fn search_after_line(slot: Option<SearchMessage>, line: String) -> Option<
    SearchMessage,
> {
    match slot {
        Some(request) => if request.resolved_by(line@) {
            Some(SearchMessage { submsg: request.submsg, message: Some(line) })
        } else {
            Some(request)
        },
        None => None,
    }
}

/// Reads the slot of a process for a waiter: a resolved request is removed
/// and its line handed out; anything else stays.
pub fn take_resolved(slot: &mut Option<SearchMessage>) -> (line: Option<String>)
    ensures
        line == resolved_line(*old(slot)),
        line is Some ==> *final(slot) == None::<SearchMessage>,
        line is None ==> *final(slot) == *old(slot),
{
    let line = match slot {
        Some(request) => request.resolved(),
        None => None,
    };
    if line.is_some() {
        *slot = None;
    }
    line
}

/// The line that resolved the request in `slot`, if any.
pub open spec fn resolved_line(slot: Option<SearchMessage>) -> Option<String> {
    match slot {
        Some(request) => request.message,
        None => None,
    }
}

/// The first line that holds the substring wins: once a request is
/// resolved, no later line changes it.
pub proof fn lemma_first_match_wins(slot: Option<SearchMessage>, first: String, later: String)
    requires
        slot matches Some(request) && request.resolved_by(first@),
    ensures
        search_after_line(search_after_line(slot, first), later) == search_after_line(slot, first),
        resolved_line(search_after_line(slot, first)) == Some(first),
{
}

} // verus!
