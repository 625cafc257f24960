//! What a frame shows: the snapshot it is drawn from, and its panes.
//!
//! A frame is planned from a snapshot alone. With a pane in focus the frame
//! holds that pane. Without focus the screen is split: the main log on the
//! left, the processes side by side on the right in equal shares, and a
//! process that shows both streams has its output above its errors.

use crate::keyboard_actions::BaseStatus;
use crate::process::{
    clamp, has_pane, lemma_pane_numbers_differ, lemma_stream_total_step, pane_index, pane_of,
    stream_total, DetachProcess, ProcessView, Stream,
};
use crate::scroll::ScrollStatus;
use crate::settings::MessageSettings;
use crate::text::{decimal, decimal_text};
use crate::wrap::{wrap_line, wrapped};
use vstd::prelude::*;
use vstd::string::{StrSliceExecFns, StringExecFns};

verus! {

/// The share of the screen width that the main log takes, in percent.
pub const MAIN_WIDTH_PERCENT: u16 = 30;

/// The share of the screen width that the processes take together, in
/// percent.
pub const PROCESSES_WIDTH_PERCENT: u16 = 70;

/// The share of the region of a process that its output takes when both
/// streams are shown, in percent.
pub const OUTPUT_HEIGHT_PERCENT: u16 = 70;

/// The share of the region of a process that its errors take when both
/// streams are shown, in percent.
pub const ERROR_HEIGHT_PERCENT: u16 = 30;

/// The mark of a pane that is pinned.
pub const SCROLLING_MARK: &'static str = "scrolling";

/// What a pane shows.
#[derive(Clone, Copy, Debug, PartialEq, Eq, Structural)]
pub enum BlockType {
    Main,
    Output,
    Error,
}

/// The focus hint of a pane: the key that puts it in focus, or the way out
/// of focus.
#[derive(Clone, Copy, Debug, PartialEq, Eq, Structural)]
pub enum BlocFocus {
    Enter(usize),
    Exit,
}

/// One pane of a frame, ready to be painted.
#[derive(Debug, PartialEq, Eq)]
pub struct Pane {
    /// The title: the name of the process, empty for the main log.
    pub name: String,
    pub ty: BlockType,
    pub focus: BlocFocus,
    /// The text of the focus hint.
    pub hint: String,
    pub messages: Vec<String>,
    pub scroll: ScrollStatus,
    /// The line at the bottom of the view, if the pane is scrolled to one.
    pub selected: Option<usize>,
}

/// The region of one process in a split frame.
#[derive(Debug, PartialEq, Eq)]
pub enum ProcessPanes {
    /// The process shows no stream; its region stays empty.
    Hidden,
    /// The process shows one stream.
    Single(Pane),
    /// The process shows both: output on top, errors below.
    Stacked(Pane, Pane),
}

/// The plan of one frame.
#[derive(Debug, PartialEq, Eq)]
pub enum Frame {
    /// The focus is on a pane that does not exist: nothing is shown.
    Empty,
    /// One pane on the whole screen.
    Full(Pane),
    /// The main log beside one region for each process, in registration
    /// order.
    Split { main: Pane, processes: Vec<ProcessPanes> },
}

/// The kind of pane that shows `stream`.
pub open spec fn block_of(stream: Stream) -> BlockType {
    match stream {
        Stream::Output => BlockType::Output,
        Stream::Error => BlockType::Error,
    }
}

/// The line at the bottom of the view of a pane with `lines` lines and
/// status `scroll`. Without a pin it is the newest line. A pin at `y` holds
/// the view at the first `y` lines, so the line at the bottom is the one
/// before place `y`, or the newest when the pin lies behind it. A pane
/// without lines, and one pinned at zero, is scrolled to no line: it shows
/// its top.
pub open spec fn selected_line(lines: nat, scroll: ScrollStatus) -> Option<usize> {
    match scroll.y {
        Some(y) => if y == 0 || lines == 0 {
            None
        } else if y <= lines {
            Some((y - 1) as usize)
        } else {
            Some((lines - 1) as usize)
        },
        None => if lines == 0 {
            None
        } else {
            Some((lines - 1) as usize)
        },
    }
}

/// The text of a focus hint.
pub open spec fn hint_text(focus: BlocFocus) -> Seq<char> {
    match focus {
        BlocFocus::Enter(key) => "full screen: '"@ + decimal_text(key as nat) + "'"@,
        BlocFocus::Exit => "press 'Esc' to exit full screen"@,
    }
}

/// The rows of the lines of a pane that is `width` columns wide and panned
/// `offset` columns to the right: each line panned, then wrapped, in order.
pub open spec fn rows_of(lines: Seq<Seq<char>>, offset: u16, width: nat) -> Seq<Seq<char>>
    decreases lines.len(),
{
    if lines.len() == 0 {
        Seq::empty()
    } else {
        rows_of(lines.drop_last(), offset, width) + wrapped(panned(lines.last(), offset), width)
    }
}

/// The row that a pane scrolled to line `selected` is scrolled to: the last
/// row of that line. `None` when the pane is scrolled to no line of its own.
pub open spec fn selected_row(
    lines: Seq<Seq<char>>,
    offset: u16,
    width: nat,
    selected: Option<usize>,
) -> Option<usize> {
    match selected {
        Some(line) => if line < lines.len() {
            Some((rows_of(lines.take(line + 1), offset, width).len() - 1) as usize)
        } else {
            None
        },
        None => None,
    }
}

/// The rows of a pane, ready to be painted as a list.
#[derive(Debug, PartialEq, Eq)]
pub struct Rows {
    pub rows: Vec<String>,
    /// The row that the list is scrolled to.
    pub selected: Option<usize>,
}

impl BlockType {
    /// The label of the kind.
    pub open spec fn spec_label(self) -> Seq<char> {
        match self {
            BlockType::Main => "Main"@,
            BlockType::Output => "Out"@,
            BlockType::Error => "Err"@,
        }
    }

    /// The label of the kind.
    pub fn label(&self) -> (text: &'static str)
        ensures
            text@ == self.spec_label(),
    {
        match self {
            BlockType::Main => "Main",
            BlockType::Output => "Out",
            BlockType::Error => "Err",
        }
    }
}

impl Pane {
    /// Whether the pane is the one that shows `messages` under `name`, of
    /// kind `ty`, with hint `focus` and scrolled as `scroll` says.
    pub open spec fn shows(
        self,
        name: Seq<char>,
        ty: BlockType,
        focus: BlocFocus,
        messages: Seq<String>,
        scroll: ScrollStatus,
    ) -> bool {
        &&& self.name@ == name
        &&& self.ty == ty
        &&& self.focus == focus
        &&& self.hint@ == hint_text(focus)
        &&& self.messages@ == messages
        &&& self.scroll == scroll
        &&& self.selected == selected_line(messages.len(), scroll)
    }

    /// The rows of the pane in `width` columns, and the row it is scrolled
    /// to: the last row of the line it is scrolled to.
    pub fn rows(&self, width: u16) -> (laid: Rows)
        ensures
            laid.rows.deep_view() == rows_of(
                self.messages.deep_view(),
                self.scroll.x,
                width as nat,
            ),
            laid.selected == selected_row(
                self.messages.deep_view(),
                self.scroll.x,
                width as nat,
                self.selected,
            ),
    {
        let ghost lines = self.messages.deep_view();
        let mut rows: Vec<String> = Vec::new();
        let mut selected: Option<usize> = None;
        let mut i: usize = 0;
        assert(lines.take(0) =~= Seq::<Seq<char>>::empty());
        while i < self.messages.len()
            invariant
                i <= self.messages.len(),
                lines == self.messages.deep_view(),
                rows.deep_view() == rows_of(lines.take(i as int), self.scroll.x, width as nat),
                selected == match self.selected {
                    Some(line) => if line < i {
                        selected_row(lines, self.scroll.x, width as nat, self.selected)
                    } else {
                        None
                    },
                    None => None,
                },
            decreases self.messages.len() - i,
        {
            let seen = pan_line(self.messages[i].as_str(), self.scroll.x);
            let mut wrapped_line = wrap_line(seen.as_str(), width);
            let ghost before = rows.deep_view();
            let ghost added = wrapped_line.deep_view();
            proof {
                assert(lines.take(i + 1).drop_last() =~= lines.take(i as int));
                assert(lines.take(i + 1).last() == lines[i as int]);
                assert(lines[i as int] == self.messages[i as int]@);
                assert(added.len() >= 1);
            }
            rows.append(&mut wrapped_line);
            assert(rows.deep_view() =~= before + added);
            if self.selected == Some(i) {
                selected = Some(rows.len() - 1);
            }
            i += 1;
        }
        assert(lines.take(lines.len() as int) =~= lines);
        Rows { rows, selected }
    }

    /// Whether the pane shows the [`SCROLLING_MARK`]: it is pinned.
    pub fn is_scrolling(&self) -> (pinned: bool)
        ensures
            pinned == self.scroll.y is Some,
    {
        self.scroll.y.is_some()
    }
}

/// What is seen of a line in a pane that is panned `offset` columns to the
/// right: the line without its first `offset` characters.
pub open spec fn panned(line: Seq<char>, offset: u16) -> Seq<char> {
    if offset <= line.len() {
        line.skip(offset as int)
    } else {
        Seq::empty()
    }
}

/// What is seen of `line` in a pane that is panned `offset` columns to the
/// right.
pub fn pan_line(line: &str, offset: u16) -> (seen: String)
    ensures
        seen@ == panned(line@, offset),
{
    let len = line.unicode_len();
    if offset as usize <= len {
        let seen = String::from_str(line.substring_char(offset as usize, len));
        assert(seen@ =~= panned(line@, offset));
        seen
    } else {
        String::new()
    }
}

/// Lays out one pane: its hint text and the line at the bottom of its view.
pub fn render_frame(
    name: String,
    ty: BlockType,
    focus: BlocFocus,
    messages: Vec<String>,
    scroll: &ScrollStatus,
) -> (pane: Pane)
    ensures
        pane.shows(name@, ty, focus, messages@, *scroll),
{
    let lines = messages.len();
    let selected = match scroll.y {
        Some(y) => if y == 0 || lines == 0 {
            None
        } else if y <= lines {
            Some(y - 1)
        } else {
            Some(lines - 1)
        },
        None => if lines == 0 {
            None
        } else {
            Some(lines - 1)
        },
    };
    let hint = match focus {
        BlocFocus::Enter(key) => String::from_str("full screen: '").concat(
            decimal(key).as_str(),
        ).concat("'"),
        BlocFocus::Exit => String::from_str("press 'Esc' to exit full screen"),
    };
    Pane { name, ty, focus, hint, messages, scroll: *scroll, selected }
}

impl DetachProcess {
    /// The buffer of `stream`.
    pub open spec fn spec_messages(&self, stream: Stream) -> Vec<String> {
        match stream {
            Stream::Output => self.out_messages,
            Stream::Error => self.err_messages,
        }
    }

    /// The scroll status of the pane of `stream`.
    pub open spec fn spec_scroll(&self, stream: Stream) -> ScrollStatus {
        match stream {
            Stream::Output => self.out_scroll,
            Stream::Error => self.err_scroll,
        }
    }

    /// The pane of one stream of the process.
    pub fn pane(&self, stream: Stream, focus: BlocFocus) -> (pane: Pane)
        ensures
            stream_pane(pane, *self, stream, focus),
    {
        match stream {
            Stream::Output => render_frame(
                self.name.clone(),
                BlockType::Output,
                focus,
                self.out_messages.clone(),
                &self.out_scroll,
            ),
            Stream::Error => render_frame(
                self.name.clone(),
                BlockType::Error,
                focus,
                self.err_messages.clone(),
                &self.err_scroll,
            ),
        }
    }

    /// Whether two copies show the same: same name, same settings, same
    /// scroll statuses, and the same text line by line.
    pub fn same_as(&self, other: &DetachProcess) -> (same: bool)
        ensures
            same == (self@ == other@),
    {
        let same = self.name == other.name && self.settings == other.settings && self.out_scroll
            == other.out_scroll && self.err_scroll == other.err_scroll && same_lines(
            &self.out_messages,
            &other.out_messages,
        ) && same_lines(&self.err_messages, &other.err_messages);
        same
    }

    /// A copy of the copy.
    pub fn detach(&self) -> (copy: DetachProcess)
        ensures
            copy@ == self@,
    {
        let copy = DetachProcess {
            name: self.name.clone(),
            settings: self.settings,
            out_messages: self.out_messages.clone(),
            err_messages: self.err_messages.clone(),
            out_scroll: self.out_scroll,
            err_scroll: self.err_scroll,
        };
        proof {
            assert(copy.out_messages.deep_view() =~= self.out_messages.deep_view());
            assert(copy.err_messages.deep_view() =~= self.err_messages.deep_view());
        }
        copy
    }
}

/// Whether two buffers hold the same text, line by line.
pub fn same_lines(a: &Vec<String>, b: &Vec<String>) -> (same: bool)
    ensures
        same == (a.deep_view() == b.deep_view()),
{
    if a.len() != b.len() {
        assert(a.deep_view().len() == a.len());
        assert(b.deep_view().len() == b.len());
        return false;
    }
    let mut i: usize = 0;
    while i < a.len()
        invariant
            a.len() == b.len(),
            i <= a.len(),
            forall|j: int| 0 <= j < i ==> a[j]@ == b[j]@,
        decreases a.len() - i,
    {
        if a[i] != b[i] {
            assert(a.deep_view()[i as int] == a[i as int]@);
            assert(b.deep_view()[i as int] == b[i as int]@);
            return false;
        }
        i += 1;
    }
    assert(a.deep_view() =~= b.deep_view());
    true
}

/// Whether `pane` is the pane of `stream` of `process`, with hint `focus`.
pub open spec fn stream_pane(
    pane: Pane,
    process: DetachProcess,
    stream: Stream,
    focus: BlocFocus,
) -> bool {
    pane.shows(
        process.name@,
        block_of(stream),
        focus,
        process.spec_messages(stream)@,
        process.spec_scroll(stream),
    )
}

/// Whether `region` is the region of `process` in a split frame, where the
/// first pane of the process has the number `first`.
pub open spec fn region_shows(region: ProcessPanes, process: DetachProcess, first: nat) -> bool {
    match process.settings.messages {
        MessageSettings::Neither => region is Hidden,
        MessageSettings::Output => region matches ProcessPanes::Single(pane) && stream_pane(
            pane,
            process,
            Stream::Output,
            BlocFocus::Enter(clamp(first)),
        ),
        MessageSettings::Error => region matches ProcessPanes::Single(pane) && stream_pane(
            pane,
            process,
            Stream::Error,
            BlocFocus::Enter(clamp(first)),
        ),
        MessageSettings::All => region matches ProcessPanes::Stacked(top, bottom) && stream_pane(
            top,
            process,
            Stream::Output,
            BlocFocus::Enter(clamp(first)),
        ) && stream_pane(bottom, process, Stream::Error, BlocFocus::Enter(clamp(first + 1))),
    }
}

/// The stream settings of the processes of a snapshot, in registration
/// order.
pub open spec fn detached_messages_of(processes: Seq<DetachProcess>) -> Seq<MessageSettings> {
    Seq::new(processes.len(), |i: int| processes[i].settings.messages)
}

/// A snapshot of all that a frame shows.
#[derive(Debug, PartialEq, Eq)]
pub struct DrawCache {
    pub main_messages: Vec<String>,
    pub main_scroll: BaseStatus,
    pub processes: Vec<DetachProcess>,
}

/// A snapshot, as text.
pub struct DrawCacheView {
    pub main_messages: Seq<Seq<char>>,
    pub main_scroll: BaseStatus,
    pub processes: Seq<ProcessView>,
}

impl View for DrawCache {
    type V = DrawCacheView;

    open spec fn view(&self) -> DrawCacheView {
        DrawCacheView {
            main_messages: self.main_messages.deep_view(),
            main_scroll: self.main_scroll,
            processes: Seq::new(self.processes@.len(), |i: int| self.processes@[i]@),
        }
    }
}

/// Whether `frame` is the frame of the snapshot `read`.
pub open spec fn frame_shows(frame: Frame, read: DrawCache) -> bool {
    let settings = detached_messages_of(read.processes@);
    match read.main_scroll.focus {
        Some(focus) => if focus == 0 {
            frame matches Frame::Full(pane) && pane.shows(
                Seq::empty(),
                BlockType::Main,
                BlocFocus::Exit,
                read.main_messages@,
                read.main_scroll.main_scroll,
            )
        } else {
            &&& forall|i: int, stream: Stream|
                #[trigger] has_pane(settings, i, stream) && pane_of(settings, i, stream) == focus
                    ==> (frame matches Frame::Full(pane) && stream_pane(
                    pane,
                    read.processes@[i],
                    stream,
                    BlocFocus::Exit,
                ))
            &&& (forall|i: int, stream: Stream|
                #[trigger] has_pane(settings, i, stream) ==> pane_of(settings, i, stream) != focus)
                ==> frame is Empty
        },
        None => {
            &&& frame matches Frame::Split { main, processes }
            &&& main.shows(
                Seq::empty(),
                BlockType::Main,
                BlocFocus::Enter(0),
                read.main_messages@,
                read.main_scroll.main_scroll,
            )
            &&& processes@.len() == read.processes@.len()
            &&& forall|i: int|
                0 <= i < processes@.len() ==> region_shows(
                    #[trigger] processes@[i],
                    read.processes@[i],
                    pane_index(settings, i),
                )
        },
    }
}

/// The stream that pane number `focus` shows, and the place of its process
/// in the registry. `None` when no pane of a process has that number, as for
/// 0, the number of the main log.
pub fn focused_pane(processes: &Vec<DetachProcess>, focus: usize) -> (found: Option<
    (usize, Stream),
>)
    ensures
        match found {
            Some((i, stream)) => has_pane(detached_messages_of(processes@), i as int, stream)
                && pane_of(detached_messages_of(processes@), i as int, stream) == focus,
            None => forall|i: int, stream: Stream| #[trigger]
                has_pane(detached_messages_of(processes@), i, stream) ==> pane_of(
                    detached_messages_of(processes@),
                    i,
                    stream,
                ) != focus,
        },
{
    let ghost settings = detached_messages_of(processes@);
    if focus == 0 {
        return None;
    }
    let mut before: usize = 0;
    let mut i: usize = 0;
    while i < processes.len()
        invariant
            i <= processes.len(),
            settings == detached_messages_of(processes@),
            before == stream_total(settings.take(i as int)),
            before < focus,
            forall|j: int, stream: Stream| #[trigger]
                has_pane(settings, j, stream) && j < i ==> pane_of(settings, j, stream) != focus,
        decreases processes.len() - i,
    {
        proof {
            lemma_stream_total_step(settings, i as int);
        }
        match processes[i].settings.messages {
            MessageSettings::Neither => {},
            MessageSettings::Output => {
                if before + 1 == focus {
                    return Some((i, Stream::Output));
                }
                before += 1;
            },
            MessageSettings::Error => {
                if before + 1 == focus {
                    return Some((i, Stream::Error));
                }
                before += 1;
            },
            MessageSettings::All => {
                if before + 1 == focus {
                    return Some((i, Stream::Output));
                }
                if before + 2 == focus {
                    return Some((i, Stream::Error));
                }
                before += 2;
            },
        }
        i += 1;
    }
    None
}

/// Plans the frame of a snapshot.
pub fn draw(read: &DrawCache) -> (frame: Frame)
    ensures
        frame_shows(frame, *read),
{
    let ghost settings = detached_messages_of(read.processes@);
    match read.main_scroll.focus {
        Some(focus) => {
            if focus == 0 {
                Frame::Full(
                    render_frame(
                        String::new(),
                        BlockType::Main,
                        BlocFocus::Exit,
                        read.main_messages.clone(),
                        &read.main_scroll.main_scroll,
                    ),
                )
            } else {
                match focused_pane(&read.processes, focus) {
                    Some((i, stream)) => {
                        let pane = read.processes[i].pane(stream, BlocFocus::Exit);
                        proof {
                            assert forall|j: int, other: Stream| #[trigger]
                                has_pane(settings, j, other) && pane_of(settings, j, other)
                                    == focus implies j == i && other == stream by {
                                lemma_pane_numbers_differ(settings, j, other, i as int, stream);
                            }
                        }
                        Frame::Full(pane)
                    },
                    None => Frame::Empty,
                }
            }
        },
        None => {
            let main = render_frame(
                String::new(),
                BlockType::Main,
                BlocFocus::Enter(0),
                read.main_messages.clone(),
                &read.main_scroll.main_scroll,
            );
            let mut regions: Vec<ProcessPanes> = Vec::new();
            let mut number: usize = 1;
            let mut i: usize = 0;
            assert(settings.take(0) =~= Seq::<MessageSettings>::empty());
            while i < read.processes.len()
                invariant
                    i <= read.processes.len(),
                    settings == detached_messages_of(read.processes@),
                    number == clamp(pane_index(settings, i as int)),
                    regions@.len() == i,
                    forall|j: int|
                        0 <= j < i ==> region_shows(
                            #[trigger] regions@[j],
                            read.processes@[j],
                            pane_index(settings, j),
                        ),
                decreases read.processes.len() - i,
            {
                proof {
                    lemma_stream_total_step(settings, i as int);
                }
                let process = &read.processes[i];
                let region = match process.settings.messages {
                    MessageSettings::Neither => ProcessPanes::Hidden,
                    MessageSettings::Output => {
                        let pane = process.pane(Stream::Output, BlocFocus::Enter(number));
                        number = number.saturating_add(1);
                        ProcessPanes::Single(pane)
                    },
                    MessageSettings::Error => {
                        let pane = process.pane(Stream::Error, BlocFocus::Enter(number));
                        number = number.saturating_add(1);
                        ProcessPanes::Single(pane)
                    },
                    MessageSettings::All => {
                        let top = process.pane(Stream::Output, BlocFocus::Enter(number));
                        number = number.saturating_add(1);
                        let bottom = process.pane(Stream::Error, BlocFocus::Enter(number));
                        number = number.saturating_add(1);
                        ProcessPanes::Stacked(top, bottom)
                    },
                };
                regions.push(region);
                i += 1;
            }
            Frame::Split { main, processes: regions }
        },
    }
}

impl DrawCache {
    /// A snapshot of the given parts.
    pub fn new(
        main_messages: Vec<String>,
        main_scroll: BaseStatus,
        processes: Vec<DetachProcess>,
    ) -> (cache: Self)
        ensures
            cache.main_messages == main_messages,
            cache.main_scroll == main_scroll,
            cache.processes == processes,
    {
        Self { main_messages, main_scroll, processes }
    }

    /// The snapshot of a dashboard that shows nothing yet: no line, no
    /// process, the status of a fresh dashboard.
    pub fn default_detach() -> (cache: Self)
        ensures
            cache.main_messages@.len() == 0,
            cache.main_scroll == BaseStatus::spec_default(),
            cache.processes@.len() == 0,
    {
        Self {
            main_messages: Vec::new(),
            main_scroll: BaseStatus { main_scroll: ScrollStatus { x: 0, y: None }, focus: None },
            processes: Vec::new(),
        }
    }

    /// A copy of the snapshot.
    pub fn detach(&self) -> (copy: Self)
        ensures
            copy@ == self@,
    {
        let mut processes: Vec<DetachProcess> = Vec::new();
        let mut i: usize = 0;
        while i < self.processes.len()
            invariant
                i <= self.processes.len(),
                processes@.len() == i,
                forall|j: int| 0 <= j < i ==> processes@[j]@ == self.processes@[j]@,
            decreases self.processes.len() - i,
        {
            processes.push(self.processes[i].detach());
            i += 1;
        }
        let copy = Self {
            main_messages: self.main_messages.clone(),
            main_scroll: self.main_scroll,
            processes,
        };
        proof {
            assert(copy.main_messages.deep_view() =~= self.main_messages.deep_view());
            assert(copy@.processes =~= self@.processes);
        }
        copy
    }

    /// Whether two snapshots show the same.
    pub fn same_as(&self, other: &DrawCache) -> (same: bool)
        ensures
            same == (self@ == other@),
    {
        if !(self.main_scroll == other.main_scroll) {
            return false;
        }
        if !same_lines(&self.main_messages, &other.main_messages) {
            return false;
        }
        if self.processes.len() != other.processes.len() {
            assert(self@.processes.len() != other@.processes.len());
            return false;
        }
        let mut i: usize = 0;
        while i < self.processes.len()
            invariant
                i <= self.processes.len(),
                self.processes.len() == other.processes.len(),
                forall|j: int| 0 <= j < i ==> self.processes@[j]@ == other.processes@[j]@,
            decreases self.processes.len() - i,
        {
            if !self.processes[i].same_as(&other.processes[i]) {
                assert(self@.processes[i as int] != other@.processes[i as int]);
                return false;
            }
            i += 1;
        }
        assert(self@.processes =~= other@.processes);
        true
    }
}

/// One tick of the redraw loop. `cache` is the snapshot of the last frame
/// drawn and `read` the snapshot taken now. When the two show the same,
/// nothing is drawn and the cache stays. Otherwise the frame of `read` is
/// handed out and `read` becomes the cache.
pub fn redraw(cache: &mut DrawCache, read: DrawCache) -> (frame: Option<Frame>)
    ensures
        read@ == old(cache)@ ==> frame is None && *final(cache) == *old(cache),
        read@ != old(cache)@ ==> *final(cache) == read && frame is Some && frame_shows(
            frame.unwrap(),
            read,
        ),
{
    if read.same_as(cache) {
        None
    } else {
        let frame = draw(&read);
        *cache = read;
        Some(frame)
    }
}

} // verus!
