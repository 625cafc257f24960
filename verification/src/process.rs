//! The registry of processes: their buffers, settings and pane numbers.
//!
//! Panes are numbered in registration order. Pane 0 is the main log. The
//! first pane of a process has the number one plus the number of panes of all
//! processes registered before it; a process that shows both streams takes
//! two numbers in a row, output first.

use crate::escape::{strip_csi, ClearRegex};
use crate::scroll::ScrollStatus;
use crate::search::{resolve_search, search_after_line, SearchMessage};
use crate::settings::{MessageSettings, ProcessSettings};
use vstd::prelude::*;
use vstd::string::StringExecFns;

verus! {

/// One of the two streams of a process.
#[derive(Clone, Copy, Debug, PartialEq, Eq, Structural)]
pub enum Stream {
    Output,
    Error,
}

/// A registered process.
#[derive(Debug, PartialEq, Eq)]
pub struct Process {
    pub name: String,
    pub out_messages: Vec<String>,
    pub err_messages: Vec<String>,
    pub settings: ProcessSettings,
    pub out_scroll: ScrollStatus,
    pub err_scroll: ScrollStatus,
    pub search_message: Option<SearchMessage>,
}

/// A copy of what a process shows, taken for one frame.
#[derive(Debug, PartialEq, Eq)]
pub struct DetachProcess {
    pub name: String,
    pub out_messages: Vec<String>,
    pub err_messages: Vec<String>,
    pub settings: ProcessSettings,
    pub out_scroll: ScrollStatus,
    pub err_scroll: ScrollStatus,
}

/// What a process shows, as text.
pub struct ProcessView {
    pub name: Seq<char>,
    pub out_messages: Seq<Seq<char>>,
    pub err_messages: Seq<Seq<char>>,
    pub settings: ProcessSettings,
    pub out_scroll: ScrollStatus,
    pub err_scroll: ScrollStatus,
}

impl View for DetachProcess {
    type V = ProcessView;

    open spec fn view(&self) -> ProcessView {
        ProcessView {
            name: self.name@,
            out_messages: self.out_messages.deep_view(),
            err_messages: self.err_messages.deep_view(),
            settings: self.settings,
            out_scroll: self.out_scroll,
            err_scroll: self.err_scroll,
        }
    }
}

/// The line that is stored for a captured line: stripped of control
/// sequences when the settings ask for it, else as it came.
pub open spec fn stored_text(settings: ProcessSettings, line: Seq<char>) -> Seq<char> {
    if settings.clear_regex {
        strip_csi(line)
    } else {
        line
    }
}

impl Process {
    /// What the process shows, as text.
    pub open spec fn snapshot(&self) -> ProcessView {
        ProcessView {
            name: self.name@,
            out_messages: self.out_messages.deep_view(),
            err_messages: self.err_messages.deep_view(),
            settings: self.settings,
            out_scroll: self.out_scroll,
            err_scroll: self.err_scroll,
        }
    }

    /// A process with empty buffers, fresh scroll statuses and no search.
    pub fn new(name: String, settings: ProcessSettings) -> (p: Process)
        ensures
            p.name == name,
            p.settings == settings,
            p.out_messages@.len() == 0,
            p.err_messages@.len() == 0,
            p.out_scroll == ScrollStatus::spec_default(),
            p.err_scroll == ScrollStatus::spec_default(),
            p.search_message is None,
    {
        Process {
            name,
            settings,
            out_messages: Vec::new(),
            err_messages: Vec::new(),
            out_scroll: ScrollStatus { x: 0, y: None },
            err_scroll: ScrollStatus { x: 0, y: None },
            search_message: None,
        }
    }

    /// A copy of what the process shows. The pending search is not part of
    /// it.
    pub fn detach(&self) -> (d: DetachProcess)
        ensures
            d@ == self.snapshot(),
    {
        let d = DetachProcess {
            name: self.name.clone(),
            settings: self.settings,
            out_messages: self.out_messages.clone(),
            err_messages: self.err_messages.clone(),
            out_scroll: self.out_scroll,
            err_scroll: self.err_scroll,
        };
        proof {
            assert(d.out_messages@ == self.out_messages@);
            assert(d.err_messages@ == self.err_messages@);
            assert(d.out_messages.deep_view() =~= self.out_messages.deep_view());
            assert(d.err_messages.deep_view() =~= self.err_messages.deep_view());
        }
        d
    }

    /// The buffer of `stream`.
    pub open spec fn spec_messages(&self, stream: Stream) -> Vec<String> {
        match stream {
            Stream::Output => self.out_messages,
            Stream::Error => self.err_messages,
        }
    }

    /// The scroll status of the pane of `stream`.
    pub open spec fn spec_scroll(&self, stream: Stream) -> ScrollStatus {
        match stream {
            Stream::Output => self.out_scroll,
            Stream::Error => self.err_scroll,
        }
    }

    /// The process with the scroll status of the pane of `stream` replaced.
    pub open spec fn with_scroll(self, stream: Stream, status: ScrollStatus) -> Process {
        match stream {
            Stream::Output => Process { out_scroll: status, ..self },
            Stream::Error => Process { err_scroll: status, ..self },
        }
    }

    /// Whether `after` is this process once the line `line` was read from
    /// its output stream: the line is stored at the end of the output buffer,
    /// stripped if the settings say so, and the pending search has seen the
    /// stored line. Nothing else differs.
    pub open spec fn output_captured(self, after: Process, line: Seq<char>) -> bool {
        &&& after.out_messages@.len() == self.out_messages@.len() + 1
        &&& after.out_messages@.drop_last() == self.out_messages@
        &&& after.out_messages@.last()@ == stored_text(self.settings, line)
        &&& after.search_message == search_after_line(
            self.search_message,
            after.out_messages@.last(),
        )
        &&& after.name == self.name
        &&& after.err_messages == self.err_messages
        &&& after.settings == self.settings
        &&& after.out_scroll == self.out_scroll
        &&& after.err_scroll == self.err_scroll
    }

    /// Whether `after` is this process once the line `line` was read from
    /// its error stream: the line is stored at the end of the error buffer,
    /// stripped if the settings say so. Nothing else differs; a search looks
    /// at the output stream only.
    pub open spec fn error_captured(self, after: Process, line: Seq<char>) -> bool {
        &&& after.err_messages@.len() == self.err_messages@.len() + 1
        &&& after.err_messages@.drop_last() == self.err_messages@
        &&& after.err_messages@.last()@ == stored_text(self.settings, line)
        &&& after.name == self.name
        &&& after.out_messages == self.out_messages
        &&& after.settings == self.settings
        &&& after.out_scroll == self.out_scroll
        &&& after.err_scroll == self.err_scroll
        &&& after.search_message == self.search_message
    }

    /// Takes one line read from the output stream.
    pub fn capture_output(&mut self, regex: &ClearRegex, line: String)
        ensures
            old(self).output_captured(*final(self), line@),
    {
        let stored = if self.settings.clear_regex {
            regex.clear(line)
        } else {
            line
        };
        resolve_search(&mut self.search_message, &stored);
        self.out_messages.push(stored);
        assert(self.out_messages@.drop_last() == old(self).out_messages@);
    }

    /// Takes one line read from the error stream.
    pub fn capture_error(&mut self, regex: &ClearRegex, line: String)
        ensures
            old(self).error_captured(*final(self), line@),
    {
        let stored = if self.settings.clear_regex {
            regex.clear(line)
        } else {
            line
        };
        self.err_messages.push(stored);
        assert(self.err_messages@.drop_last() == old(self).err_messages@);
    }
}

/// The number of panes that processes with these settings take together.
pub open spec fn stream_total(settings: Seq<MessageSettings>) -> nat
    decreases settings.len(),
{
    if settings.len() == 0 {
        0
    } else {
        stream_total(settings.drop_last()) + settings.last().stream_count()
    }
}

/// Whether process `i` shows `stream` in a pane.
pub open spec fn has_pane(settings: Seq<MessageSettings>, i: int, stream: Stream) -> bool {
    0 <= i < settings.len() && match stream {
        Stream::Output => settings[i].shows_output(),
        Stream::Error => settings[i].shows_error(),
    }
}

/// The number of the first pane of process `i`: one plus the panes of all
/// processes registered before it.
pub open spec fn pane_index(settings: Seq<MessageSettings>, i: int) -> nat {
    1 + stream_total(settings.take(i))
}

/// The number of the pane in which process `i` shows `stream`.
pub open spec fn pane_of(settings: Seq<MessageSettings>, i: int, stream: Stream) -> nat {
    if stream == Stream::Error && settings[i] == MessageSettings::All {
        pane_index(settings, i) + 1
    } else {
        pane_index(settings, i)
    }
}

/// The stream settings of the registered processes, in registration order.
pub open spec fn messages_of(processes: Seq<Process>) -> Seq<MessageSettings> {
    Seq::new(processes.len(), |i: int| processes[i].settings.messages)
}

/// A count cut off at the largest `usize`.
pub open spec fn clamp(n: nat) -> usize {
    if n <= usize::MAX {
        n as usize
    } else {
        usize::MAX
    }
}

/// The total of a longer prefix is the total of the shorter one plus the
/// panes of the process in between.
pub proof fn lemma_stream_total_step(settings: Seq<MessageSettings>, i: int)
    requires
        0 <= i < settings.len(),
    ensures
        stream_total(settings.take(i + 1)) == stream_total(settings.take(i))
            + settings[i].stream_count(),
{
    assert(settings.take(i + 1).drop_last() == settings.take(i));
}

/// A longer prefix takes at least as many panes as a shorter one.
pub proof fn lemma_stream_total_monotonic(settings: Seq<MessageSettings>, i: int, j: int)
    requires
        0 <= i <= j <= settings.len(),
    ensures
        stream_total(settings.take(i)) <= stream_total(settings.take(j)),
    decreases j - i,
{
    if i < j {
        lemma_stream_total_monotonic(settings, i, j - 1);
        lemma_stream_total_step(settings, j - 1);
    }
}

/// No two panes share a number: a pane number belongs to one stream of one
/// process.
pub proof fn lemma_pane_numbers_differ(
    settings: Seq<MessageSettings>,
    i: int,
    first: Stream,
    j: int,
    second: Stream,
)
    requires
        has_pane(settings, i, first),
        has_pane(settings, j, second),
        pane_of(settings, i, first) == pane_of(settings, j, second),
    ensures
        i == j,
        first == second,
{
    if i < j {
        lemma_stream_total_step(settings, i);
        lemma_stream_total_monotonic(settings, i + 1, j);
    } else if j < i {
        lemma_stream_total_step(settings, j);
        lemma_stream_total_monotonic(settings, j + 1, i);
    }
}

/// Pane numbers follow the order of registration: the panes of a process
/// registered later have larger numbers.
pub proof fn lemma_pane_numbers_ordered(
    settings: Seq<MessageSettings>,
    i: int,
    first: Stream,
    j: int,
    second: Stream,
)
    requires
        has_pane(settings, i, first),
        has_pane(settings, j, second),
        i < j,
    ensures
        pane_of(settings, i, first) < pane_of(settings, j, second),
{
    lemma_stream_total_step(settings, i);
    lemma_stream_total_monotonic(settings, i + 1, j);
}

/// The number of panes that `processes` take together, cut off at the
/// largest `usize`.
pub fn count_streams(processes: &Vec<Process>) -> (n: usize)
    ensures
        n == clamp(stream_total(messages_of(processes@))),
{
    let ghost settings = messages_of(processes@);
    let mut n: usize = 0;
    let mut i: usize = 0;
    while i < processes.len()
        invariant
            i <= processes.len(),
            settings == messages_of(processes@),
            n == clamp(stream_total(settings.take(i as int))),
        decreases processes.len() - i,
    {
        proof {
            lemma_stream_total_step(settings, i as int);
        }
        let k = processes[i].settings.messages.streams();
        n = n.saturating_add(k);
        i += 1;
    }
    assert(settings.take(processes.len() as int) == settings);
    n
}

/// The first process called `name`.
pub fn find_process(processes: &Vec<Process>, name: &str) -> (found: Option<usize>)
    ensures
        match found {
            Some(i) => i < processes.len() && processes[i as int].name@ == name@ && forall|j: int|
                0 <= j < i ==> processes[j].name@ != name@,
            None => forall|j: int| 0 <= j < processes.len() ==> processes[j].name@ != name@,
        },
{
    let wanted = String::from_str(name);
    let mut i: usize = 0;
    while i < processes.len()
        invariant
            i <= processes.len(),
            wanted@ == name@,
            forall|j: int| 0 <= j < i ==> processes[j].name@ != name@,
        decreases processes.len() - i,
    {
        if processes[i].name == wanted {
            return Some(i);
        }
        i += 1;
    }
    None
}

} // verus!
