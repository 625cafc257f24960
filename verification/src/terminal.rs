//! The dashboard: registry, main log, bindings, status and exit callback.
//!
//! A [`Terminal`] is the whole state of the dashboard as one value. Whoever
//! owns it feeds it what happens outside: a process to register, a line read
//! from a pipe, a key, the exit of a process. It answers with what to do
//! next: the panes to show, the line a search was waiting for, the callback
//! to run before the program ends.

use crate::draw::{DrawCache, DrawCacheView};
use crate::error::TerminalError;
use crate::escape::ClearRegex;
use crate::keyboard_actions::{
    dispatch, focus_actions, focusable_prefix, Action, ActionType, BaseStatus, KeyBoardActions,
    ScrollTarget,
};
use crate::keys::{Event, KeyCode, KeyCodeExt, KeyModifiers};
use crate::process::{
    clamp, count_streams, find_process, has_pane, messages_of, pane_index, pane_of, stream_total,
    DetachProcess, Process, Stream,
};
use crate::scroll::ScrollStatus;
use crate::search::{resolved_line, take_resolved, SearchMessage};
use crate::settings::{MessageSettings, ProcessSettings, ScrollSettings};
use vstd::prelude::*;
use vstd::string::StringExecFns;

verus! {

/// The time between two polls of a waiting search, and between two redraw
/// ticks, in milliseconds.
pub const POLL_INTERVAL_MILLIS: u64 = 50;

/// The exit code of a program that closes its dashboard.
pub const EXIT_CODE: i32 = 0;

/// Which pipes a process offers to read from.
#[derive(Clone, Copy, Debug, PartialEq, Eq, Structural)]
pub struct Pipes {
    pub stdout: bool,
    pub stderr: bool,
}

/// What a registration gave the process: its place in the registry and the
/// numbers of its panes.
#[derive(Debug, PartialEq, Eq)]
pub struct Registered {
    pub process: usize,
    pub panes: Vec<usize>,
}

/// What is left to do when the program closes: restore the screen, run the
/// callback if there is one, and end with the code.
#[derive(Debug)]
pub struct Shutdown<F> {
    pub callback: Option<F>,
    pub code: i32,
}

impl<F: FnOnce()> Shutdown<F> {
    /// Runs the exit callback, if there is one, and hands out the exit code.
    /// The shutdown is used up: the callback runs once.
    pub fn run_callback(self) -> (code: i32)
        requires
            self.callback matches Some(callback) ==> call_requires(callback, ()),
        ensures
            code == self.code,
            self.callback matches Some(callback) ==> call_ensures(callback, (), ()),
    {
        let code = self.code;
        if let Some(callback) = self.callback {
            callback();
        }
        code
    }
}

/// Where a waiting search stands.
#[derive(Clone, Copy, Debug, PartialEq, Eq, Structural)]
pub enum SearchState {
    /// The request is not installed yet.
    Start,
    /// The request is installed on the process at this place in the registry.
    Waiting(usize),
}

/// What the waiter of a search does next.
#[derive(Debug, PartialEq, Eq)]
pub enum SearchAction {
    /// Give up with the error.
    Fail(TerminalError),
    /// Sleep one interval and ask again, in the state given.
    Wait(SearchState),
    /// Hand the line to the caller.
    Return(String),
}

/// The state of the dashboard.
#[derive(Debug)]
pub struct Terminal<F> {
    processes: Vec<Process>,
    main_messages: Vec<String>,
    inputs: KeyBoardActions,
    status: BaseStatus,
    exit_callback: Option<F>,
}

/// The state of the dashboard, for contracts.
pub struct TerminalView<F> {
    pub processes: Seq<Process>,
    pub main_messages: Seq<String>,
    pub inputs: Seq<Action>,
    pub status: BaseStatus,
    pub exit_callback: Option<F>,
}

impl<F> View for Terminal<F> {
    type V = TerminalView<F>;

    closed spec fn view(&self) -> TerminalView<F> {
        TerminalView {
            processes: self.processes@,
            main_messages: self.main_messages@,
            inputs: self.inputs@,
            status: self.status,
            exit_callback: self.exit_callback,
        }
    }
}

/// The bindings that scroll one pane: `up` and `down` move the pin, with
/// shift they pan to the right and to the left, and `down` with control
/// releases the pin.
pub open spec fn pane_bindings(up: KeyCode, down: KeyCode, target: ScrollTarget) -> Seq<Action> {
    seq![
        Action {
            event: up.event_with(KeyModifiers::spec_empty()),
            data: ActionType::ScrollUp(target),
        },
        Action {
            event: down.event_with(KeyModifiers::spec_empty()),
            data: ActionType::ScrollDown(target),
        },
        Action {
            event: up.event_with(KeyModifiers::spec_shift()),
            data: ActionType::ScrollRight(target),
        },
        Action {
            event: down.event_with(KeyModifiers::spec_shift()),
            data: ActionType::ScrollLeft(target),
        },
        Action {
            event: down.event_with(KeyModifiers::spec_control()),
            data: ActionType::StopScrolling(target),
        },
    ]
}

/// The scroll bindings of the process at place `process`: those of its
/// output pane, then those of its error pane, for the panes it has. None
/// when scrolling is disabled.
pub open spec fn scroll_bindings(process: usize, settings: ProcessSettings) -> Seq<Action> {
    match settings.scroll {
        ScrollSettings::Disable => Seq::empty(),
        ScrollSettings::Enable { up, down } => {
            let output = if settings.messages.shows_output() {
                pane_bindings(up, down, ScrollTarget::Pane(process, Stream::Output))
            } else {
                Seq::empty()
            };
            let error = if settings.messages.shows_error() {
                pane_bindings(up, down, ScrollTarget::Pane(process, Stream::Error))
            } else {
                Seq::empty()
            };
            output + error
        },
    }
}

/// The numbers of the panes of a process that is registered when `before`
/// panes exist.
pub open spec fn new_panes(before: nat, messages: MessageSettings) -> Seq<usize> {
    match messages {
        MessageSettings::Neither => Seq::empty(),
        MessageSettings::Output => seq![clamp(before + 1)],
        MessageSettings::Error => seq![clamp(before + 1)],
        MessageSettings::All => seq![clamp(before + 1), clamp(before + 2)],
    }
}

/// The first stream that shall be shown and has no pipe.
pub open spec fn missing_pipe(pipes: Pipes, messages: MessageSettings) -> Option<Stream> {
    if messages.shows_output() && !pipes.stdout {
        Some(Stream::Output)
    } else if messages.shows_error() && !pipes.stderr {
        Some(Stream::Error)
    } else {
        None
    }
}

/// Whether `process` is a process just registered as `name` with `settings`.
pub open spec fn is_fresh(process: Process, name: Seq<char>, settings: ProcessSettings) -> bool {
    &&& process.name@ == name
    &&& process.settings == settings
    &&& process.out_messages@.len() == 0
    &&& process.err_messages@.len() == 0
    &&& process.out_scroll == ScrollStatus::spec_default()
    &&& process.err_scroll == ScrollStatus::spec_default()
    &&& process.search_message is None
}

/// The text of an outcome of waiting for the exit of a process: the exit
/// status, or the error met while waiting, as text.
pub open spec fn outcome_text(outcome: Result<String, String>) -> Seq<char> {
    match outcome {
        Ok(status) => status@,
        Err(error) => error@,
    }
}

/// The notice of the exit of the process called `name`, where `outcome`
/// holds the exit status as text, or the text of the error met while waiting
/// for the exit.
pub open spec fn exit_notice(name: Seq<char>, outcome: Result<String, String>) -> Seq<char> {
    "process '"@ + name + "' exited: "@ + outcome_text(outcome)
}

/// Whether a process with these stream settings can be registered when
/// `before` panes exist: each of its panes gets a number up to nine, the last
/// that has a focus key.
pub open spec fn fits(before: nat, messages: MessageSettings) -> bool {
    messages == MessageSettings::Neither || before + messages.stream_count() <= 9
}

/// All panes of a new process have a focus key exactly when the last of
/// them has a number up to nine.
pub proof fn lemma_focusable_panes(before: nat, messages: MessageSettings)
    ensures
        focusable_prefix(new_panes(before, messages)) == new_panes(before, messages).len()
            <==> fits(before, messages),
        focusable_prefix(new_panes(before, messages)) <= new_panes(before, messages).len(),
{
    let panes = new_panes(before, messages);
    reveal_with_fuel(focusable_prefix, 3);
    if panes.len() == 2 {
        assert(panes.drop_first() =~= seq![clamp(before + 2)]);
        assert(panes.drop_first().drop_first() =~= Seq::<usize>::empty());
    } else if panes.len() == 1 {
        assert(panes.drop_first() =~= Seq::<usize>::empty());
    }
}

/// What a registration does. `before` and `after` are the dashboard before
/// and after it, `res` is what the caller gets.
///
/// A registration is rejected when a stream that shall be shown has no pipe,
/// the output stream looked at first, and when a pane of the process would
/// get a number above nine. A rejected registration leaves the dashboard as
/// it was. Else the process enters the registry with empty buffers, its
/// scroll bindings are added, and then the focus binding of each of its
/// panes. The caller gets the place of the process and the numbers of its
/// panes, which follow the numbers of the panes that were there.
pub open spec fn registration<F>(
    before: TerminalView<F>,
    after: TerminalView<F>,
    name: Seq<char>,
    pipes: Pipes,
    settings: ProcessSettings,
    res: Result<Registered, TerminalError>,
) -> bool {
    let index = before.processes.len() as usize;
    let panes_before = stream_total(messages_of(before.processes));
    let panes = new_panes(panes_before, settings.messages);
    match missing_pipe(pipes, settings.messages) {
        Some(Stream::Output) => {
            &&& after == before
            &&& res matches Err(TerminalError::MissingStdout { process })
            &&& process@ == name
        },
        Some(Stream::Error) => {
            &&& after == before
            &&& res matches Err(TerminalError::MissingStderr { process })
            &&& process@ == name
        },
        None => if fits(panes_before, settings.messages) {
            &&& res matches Ok(registered)
            &&& registered.process == index
            &&& registered.panes@ == panes
            &&& forall|k: int| 0 <= k < panes.len() ==> #[trigger] panes[k] == panes_before + 1 + k
            &&& after.processes.len() == before.processes.len() + 1
            &&& after.processes.drop_last() == before.processes
            &&& is_fresh(after.processes.last(), name, settings)
            &&& after.inputs == before.inputs + scroll_bindings(index, settings) + focus_actions(
                panes,
                panes.len(),
            )
            &&& after.main_messages == before.main_messages
            &&& after.status == before.status
            &&& after.exit_callback == before.exit_callback
        } else {
            &&& after == before
            &&& res == Err::<Registered, TerminalError>(TerminalError::TooManyProcesses)
        },
    }
}

/// A registration that is rejected changes nothing, and one that is accepted
/// adds one process.
pub proof fn lemma_rejected_registration_changes_nothing<F>(
    before: TerminalView<F>,
    after: TerminalView<F>,
    name: Seq<char>,
    pipes: Pipes,
    settings: ProcessSettings,
    res: Result<Registered, TerminalError>,
)
    requires
        registration(before, after, name, pipes, settings, res),
    ensures
        res is Err ==> after == before,
        res is Ok ==> after.processes.len() == before.processes.len() + 1,
        res is Ok <==> missing_pipe(pipes, settings.messages) is None && fits(
            stream_total(messages_of(before.processes)),
            settings.messages,
        ),
{
}

/// Whether a process called `name` is registered.
pub open spec fn is_registered(processes: Seq<Process>, name: Seq<char>) -> bool {
    exists|i: int| 0 <= i < processes.len() && (#[trigger] processes[i]).name@ == name
}

/// What one step of a blocking search does. `before` and `after` are the
/// dashboard before and after it, `next` is what the waiter does next.
///
/// At the start the request is installed on the first process of that name,
/// in place of any request that was pending there, and the waiter is told to
/// wait; without such a process the search fails. A waiter that asks again
/// gets the line once the request is resolved, and the request is removed;
/// until then it is told to wait.
pub open spec fn search_step<F>(
    before: TerminalView<F>,
    after: TerminalView<F>,
    process: Seq<char>,
    submsg: Seq<char>,
    state: SearchState,
    next: SearchAction,
) -> bool {
    &&& after.main_messages == before.main_messages
    &&& after.inputs == before.inputs
    &&& after.status == before.status
    &&& after.exit_callback == before.exit_callback
    &&& after.processes.len() == before.processes.len()
    &&& match state {
        SearchState::Start => {
            if is_registered(before.processes, process) {
                &&& next matches SearchAction::Wait(SearchState::Waiting(index))
                &&& index < before.processes.len()
                &&& before.processes[index as int].name@ == process
                &&& forall|j: int|
                    0 <= j < index ==> (#[trigger] before.processes[j]).name@ != process
                &&& after.processes[index as int].search_message matches Some(request)
                &&& request.submsg@ == submsg
                &&& request.message is None
                &&& after.processes == before.processes.update(
                    index as int,
                    Process {
                        search_message: after.processes[index as int].search_message,
                        ..before.processes[index as int]
                    },
                )
            } else {
                &&& next matches SearchAction::Fail(TerminalError::ProcessNotFound)
                &&& after == before
            }
        },
        SearchState::Waiting(index) => {
            if index >= before.processes.len() {
                &&& next matches SearchAction::Fail(TerminalError::ProcessNotFound)
                &&& after == before
            } else {
                match resolved_line(before.processes[index as int].search_message) {
                    Some(line) => {
                        &&& next matches SearchAction::Return(found)
                        &&& found == line
                        &&& after.processes == before.processes.update(
                            index as int,
                            Process { search_message: None, ..before.processes[index as int] },
                        )
                    },
                    None => {
                        &&& next matches SearchAction::Wait(SearchState::Waiting(same))
                        &&& same == index
                        &&& after == before
                    },
                }
            }
        },
    }
}

/// The panes of a process number on from the panes of the processes
/// registered before it: in the registry `after`, which is `before` with one
/// more process, the first pane of the new process has the number one plus
/// the panes of `before`, and its error pane, when it shows both streams, the
/// next.
pub proof fn lemma_pane_index_of_registered(before: Seq<Process>, after: Seq<Process>)
    requires
        after.len() == before.len() + 1,
        after.drop_last() == before,
    ensures
        pane_index(messages_of(after), before.len() as int) == 1 + stream_total(
            messages_of(before),
        ),
        forall|stream: Stream|
            has_pane(messages_of(after), before.len() as int, stream) ==> pane_of(
                messages_of(after),
                before.len() as int,
                stream,
            ) == 1 + stream_total(messages_of(before)) + if stream == Stream::Error
                && after.last().settings.messages == MessageSettings::All {
                1nat
            } else {
                0nat
            },
{
    assert(messages_of(after).take(before.len() as int) =~= messages_of(before));
}

fn push_pane_bindings(inputs: &mut KeyBoardActions, up: KeyCode, down: KeyCode, target: ScrollTarget)
    ensures
        final(inputs)@ == old(inputs)@ + pane_bindings(up, down, target),
{
    inputs.push(Action::new(up.into_event_no_modifier(), ActionType::ScrollUp(target)));
    inputs.push(Action::new(down.into_event_no_modifier(), ActionType::ScrollDown(target)));
    inputs.push(Action::new(up.into_event(KeyModifiers::shift()), ActionType::ScrollRight(target)));
    inputs.push(Action::new(down.into_event(KeyModifiers::shift()), ActionType::ScrollLeft(target)));
    inputs.push(
        Action::new(down.into_event(KeyModifiers::control()), ActionType::StopScrolling(target)),
    );
    assert(inputs@ =~= old(inputs)@ + pane_bindings(up, down, target));
}

fn push_scroll_bindings(inputs: &mut KeyBoardActions, process: usize, settings: &ProcessSettings)
    ensures
        final(inputs)@ == old(inputs)@ + scroll_bindings(process, *settings),
{
    match settings.scroll {
        ScrollSettings::Disable => {
            assert(inputs@ =~= old(inputs)@ + scroll_bindings(process, *settings));
        },
        ScrollSettings::Enable { up, down } => {
            match settings.messages {
                MessageSettings::Neither => {},
                MessageSettings::Output => {
                    push_pane_bindings(inputs, up, down, ScrollTarget::Pane(process, Stream::Output));
                },
                MessageSettings::Error => {
                    push_pane_bindings(inputs, up, down, ScrollTarget::Pane(process, Stream::Error));
                },
                MessageSettings::All => {
                    push_pane_bindings(inputs, up, down, ScrollTarget::Pane(process, Stream::Output));
                    push_pane_bindings(inputs, up, down, ScrollTarget::Pane(process, Stream::Error));
                },
            }
            assert(inputs@ =~= old(inputs)@ + scroll_bindings(process, *settings));
        },
    }
}

impl<F> Terminal<F> {
    /// A dashboard without processes: an empty main log, the built-in
    /// bindings, no focus, no exit callback.
    pub fn new() -> (terminal: Self)
        ensures
            terminal@.processes.len() == 0,
            terminal@.main_messages.len() == 0,
            terminal@.inputs == crate::keyboard_actions::builtin_actions(),
            terminal@.status == BaseStatus::spec_default(),
            terminal@.exit_callback is None,
    {
        Terminal {
            processes: Vec::new(),
            main_messages: Vec::new(),
            inputs: KeyBoardActions::new(),
            status: BaseStatus { main_scroll: ScrollStatus { x: 0, y: None }, focus: None },
            exit_callback: None,
        }
    }

    /// The registered processes.
    pub fn processes(&self) -> (processes: &Vec<Process>)
        ensures
            processes@ == self@.processes,
    {
        &self.processes
    }

    /// The lines of the main log.
    pub fn main_messages(&self) -> (lines: &Vec<String>)
        ensures
            lines@ == self@.main_messages,
    {
        &self.main_messages
    }

    /// The table of bindings.
    pub fn inputs(&self) -> (inputs: &KeyBoardActions)
        ensures
            inputs@ == self@.inputs,
    {
        &self.inputs
    }

    /// The scroll status of the main log and the focus.
    pub fn status(&self) -> (status: BaseStatus)
        ensures
            status == self@.status,
    {
        self.status
    }

    /// Registers a process called `name` that offers `pipes`.
    ///
    /// The registration is rejected, and the dashboard stays as it was, when a
    /// stream that shall be shown has no pipe or when a pane of the process
    /// would get a number above nine. Else the process enters the registry,
    /// and its scroll bindings and the focus bindings of its panes are added.
    pub fn add_process(&mut self, name: &str, pipes: Pipes, settings: ProcessSettings) -> (res:
        Result<Registered, TerminalError>)
        ensures
            registration(old(self)@, final(self)@, name@, pipes, settings, res),
    {
        let before = count_streams(&self.processes);
        let ghost total = stream_total(messages_of(self.processes@));
        if settings.messages.shows_output() && !pipes.stdout {
            return Err(TerminalError::MissingStdout { process: String::from_str(name) });
        }
        if settings.messages.shows_error() && !pipes.stderr {
            return Err(TerminalError::MissingStderr { process: String::from_str(name) });
        }
        let count = settings.messages.streams();
        if count > 0 && (before > 9 || count > 9 - before) {
            return Err(TerminalError::TooManyProcesses);
        }
        let index = self.processes.len();
        self.processes.push(Process::new(String::from_str(name), settings));
        assert(self.processes@.drop_last() == old(self)@.processes);
        push_scroll_bindings(&mut self.inputs, index, &settings);
        let mut panes: Vec<usize> = Vec::new();
        match settings.messages {
            MessageSettings::Neither => {},
            MessageSettings::Output | MessageSettings::Error => {
                panes.push(before + 1);
            },
            MessageSettings::All => {
                panes.push(before + 1);
                panes.push(before + 2);
            },
        }
        assert(panes@ =~= new_panes(total, settings.messages));
        proof {
            lemma_focusable_panes(total, settings.messages);
        }
        let bound = self.inputs.push_focus(panes.as_slice());
        assert(bound is Ok);
        Ok(Registered { process: index, panes })
    }

    /// Appends a line to the main log.
    pub fn add_message(&mut self, message: String)
        ensures
            final(self)@ == (TerminalView {
                main_messages: old(self)@.main_messages.push(message),
                ..old(self)@
            }),
    {
        self.main_messages.push(message);
    }

    /// Takes one line read from the output stream of the process at place
    /// `process`, and says whether there is such a process.
    pub fn capture_output(&mut self, process: usize, regex: &ClearRegex, line: String) -> (known:
        bool)
        ensures
            known == (process < old(self)@.processes.len()),
            known ==> final(self)@ == (TerminalView {
                processes: old(self)@.processes.update(
                    process as int,
                    final(self)@.processes[process as int],
                ),
                ..old(self)@
            }) && old(self)@.processes[process as int].output_captured(
                final(self)@.processes[process as int],
                line@,
            ),
            !known ==> final(self)@ == old(self)@,
    {
        if process < self.processes.len() {
            self.processes[process].capture_output(regex, line);
            assert(self.processes@ =~= old(self)@.processes.update(
                process as int,
                self.processes@[process as int],
            ));
            true
        } else {
            false
        }
    }

    /// Takes one line read from the error stream of the process at place
    /// `process`, and says whether there is such a process.
    pub fn capture_error(&mut self, process: usize, regex: &ClearRegex, line: String) -> (known:
        bool)
        ensures
            known == (process < old(self)@.processes.len()),
            known ==> final(self)@ == (TerminalView {
                processes: old(self)@.processes.update(
                    process as int,
                    final(self)@.processes[process as int],
                ),
                ..old(self)@
            }) && old(self)@.processes[process as int].error_captured(
                final(self)@.processes[process as int],
                line@,
            ),
            !known ==> final(self)@ == old(self)@,
    {
        if process < self.processes.len() {
            self.processes[process].capture_error(regex, line);
            assert(self.processes@ =~= old(self)@.processes.update(
                process as int,
                self.processes@[process as int],
            ));
            true
        } else {
            false
        }
    }

    /// Notes in the main log that the process called `name` has exited.
    pub fn process_exited(&mut self, name: &str, outcome: Result<String, String>)
        ensures
            final(self)@.main_messages.len() == old(self)@.main_messages.len() + 1,
            final(self)@.main_messages.drop_last() == old(self)@.main_messages,
            final(self)@.main_messages.last()@ == exit_notice(name@, outcome),
            final(self)@.processes == old(self)@.processes,
            final(self)@.inputs == old(self)@.inputs,
            final(self)@.status == old(self)@.status,
            final(self)@.exit_callback == old(self)@.exit_callback,
    {
        let head = String::from_str("process '").concat(name).concat("' exited: ");
        let notice = match &outcome {
            Ok(status) => head.concat(status.as_str()),
            Err(error) => head.concat(error.as_str()),
        };
        assert(notice@ =~= exit_notice(name@, outcome));
        self.main_messages.push(notice);
        assert(self.main_messages@.drop_last() == old(self)@.main_messages);
    }

    /// One step of a blocking search for `submsg` in the output of the
    /// process called `process`.
    ///
    /// At the start the request is installed on the first process of that
    /// name, in place of any request that was pending there, and the waiter
    /// is told to wait; without such a process the search fails. A waiter that
    /// asks again gets the line once the request is resolved, and the request
    /// is removed; until then it is told to wait.
    pub fn block_search_message(&mut self, process: &str, submsg: &str, state: SearchState) -> (next:
        SearchAction)
        ensures
            search_step(old(self)@, final(self)@, process@, submsg@, state, next),
    {
        match state {
            SearchState::Start => {
                match find_process(&self.processes, process) {
                    Some(index) => {
                        self.processes[index].search_message = Some(
                            SearchMessage::new(String::from_str(submsg)),
                        );
                        assert(old(self)@.processes[index as int].name@ == process@);
                        SearchAction::Wait(SearchState::Waiting(index))
                    },
                    None => SearchAction::Fail(TerminalError::ProcessNotFound),
                }
            },
            SearchState::Waiting(index) => {
                if index >= self.processes.len() {
                    SearchAction::Fail(TerminalError::ProcessNotFound)
                } else {
                    match take_resolved(&mut self.processes[index].search_message) {
                        Some(line) => SearchAction::Return(line),
                        None => {
                            assert(self.processes@ =~= old(self)@.processes);
                            SearchAction::Wait(SearchState::Waiting(index))
                        },
                    }
                }
            },
        }
    }

    /// Registers the exit callback, in place of the one registered before.
    pub fn with_exit_callback(&mut self, closure: F)
        ensures
            final(self)@ == (TerminalView { exit_callback: Some(closure), ..old(self)@ }),
    {
        self.exit_callback = Some(closure);
    }

    /// Closes the dashboard: hands out the exit callback, which leaves the
    /// dashboard, and the exit code.
    pub fn kill(&mut self) -> (shutdown: Shutdown<F>)
        ensures
            shutdown.callback == old(self)@.exit_callback,
            shutdown.code == EXIT_CODE,
            final(self)@ == (TerminalView { exit_callback: None, ..old(self)@ }),
    {
        Shutdown { callback: self.exit_callback.take(), code: EXIT_CODE }
    }

    /// Dispatches an input event to the bindings. When the close binding
    /// fires, the dashboard is closed and what is left to do is handed out.
    pub fn apply_event(&mut self, event: Event) -> (shutdown: Option<Shutdown<F>>)
        ensures
            ({
                let after = dispatch(
                    old(self)@.inputs,
                    event,
                    old(self)@.status,
                    old(self)@.processes,
                    old(self)@.main_messages.len() as usize,
                );
                &&& final(self)@.status == after.0
                &&& final(self)@.processes == after.1
                &&& final(self)@.inputs == old(self)@.inputs
                &&& final(self)@.main_messages == old(self)@.main_messages
                &&& if after.2 {
                    &&& shutdown matches Some(s)
                    &&& s.callback == old(self)@.exit_callback
                    &&& s.code == EXIT_CODE
                    &&& final(self)@.exit_callback is None
                } else {
                    &&& shutdown is None
                    &&& final(self)@.exit_callback == old(self)@.exit_callback
                }
            }),
    {
        let main_len = self.main_messages.len();
        let close = self.inputs.apply_event(
            event,
            &mut self.status,
            &mut self.processes,
            main_len,
        );
        if close {
            Some(self.kill())
        } else {
            None
        }
    }

    /// What the dashboard shows, as text.
    pub open spec fn snapshot(&self) -> DrawCacheView {
        DrawCacheView {
            main_messages: Seq::new(
                self@.main_messages.len(),
                |i: int| self@.main_messages[i]@,
            ),
            main_scroll: self@.status,
            processes: Seq::new(self@.processes.len(), |i: int| self@.processes[i].snapshot()),
        }
    }

    /// Takes the snapshot from which the next frame is planned.
    pub fn detach(&self) -> (cache: DrawCache)
        ensures
            cache@ == self.snapshot(),
    {
        let mut processes: Vec<DetachProcess> = Vec::new();
        let mut i: usize = 0;
        while i < self.processes.len()
            invariant
                i <= self.processes.len(),
                processes@.len() == i,
                forall|j: int| 0 <= j < i ==> processes@[j]@ == self.processes@[j].snapshot(),
            decreases self.processes.len() - i,
        {
            processes.push(self.processes[i].detach());
            i += 1;
        }
        let cache = DrawCache::new(self.main_messages.clone(), self.status.detach(), processes);
        proof {
            assert(cache@.main_messages =~= self.snapshot().main_messages);
            assert(cache@.processes =~= self.snapshot().processes);
        }
        cache
    }
}

} // verus!
