//! The keyboard dispatcher: an ordered table of bindings and what they do.
//!
//! A binding pairs an event pattern with an effect. On an input event every
//! binding whose pattern matches is applied, in the order of registration.
//! The close binding ends the dispatch: what comes after it is not applied.

use crate::error::TerminalError;
use crate::keys::{Event, KeyCode, KeyCodeExt, KeyModifiers};
use crate::process::{Process, Stream};
use crate::scroll::ScrollStatus;
use vstd::prelude::*;

verus! {

/// The scroll status of the main log and the focused pane.
///
/// No focus shows all panes side by side. Focus 0 shows the main log alone,
/// focus `n` the pane with number `n`.
#[derive(Clone, Copy, Debug, PartialEq, Eq, Structural)]
pub struct BaseStatus {
    pub main_scroll: ScrollStatus,
    pub focus: Option<usize>,
}

impl BaseStatus {
    /// The status at start: main log unpinned, no focus.
    pub open spec fn spec_default() -> BaseStatus {
        BaseStatus { main_scroll: ScrollStatus::spec_default(), focus: None }
    }

    /// A copy of the status, taken for one frame.
    pub fn detach(&self) -> (copy: BaseStatus)
        ensures
            copy == *self,
    {
        BaseStatus { main_scroll: self.main_scroll, focus: self.focus }
    }
}

impl Default for BaseStatus {
    fn default() -> (status: Self)
        ensures
            status == BaseStatus::spec_default(),
    {
        BaseStatus { main_scroll: ScrollStatus { x: 0, y: None }, focus: None }
    }
}

/// The pane that a scroll binding moves.
#[derive(Clone, Copy, Debug, PartialEq, Eq, Structural)]
pub enum ScrollTarget {
    /// The main log.
    Main,
    /// The pane of one stream of the process at this place in the registry.
    Pane(usize, Stream),
}

/// What a binding does.
#[derive(Clone, Copy, Debug, PartialEq, Eq, Structural)]
pub enum ActionType {
    Close,
    ScrollUp(ScrollTarget),
    ScrollDown(ScrollTarget),
    ScrollLeft(ScrollTarget),
    ScrollRight(ScrollTarget),
    StopScrolling(ScrollTarget),
    Focus(usize),
    RemoveFocus,
}

impl ScrollTarget {
    /// Whether the pane exists.
    pub open spec fn exists_in(self, processes: Seq<Process>) -> bool {
        match self {
            ScrollTarget::Main => true,
            ScrollTarget::Pane(i, _) => i < processes.len(),
        }
    }

    /// The scroll status of the pane.
    pub open spec fn scroll(self, status: BaseStatus, processes: Seq<Process>) -> ScrollStatus {
        match self {
            ScrollTarget::Main => status.main_scroll,
            ScrollTarget::Pane(i, stream) => processes[i as int].spec_scroll(stream),
        }
    }

    /// The number of lines that the pane holds.
    pub open spec fn lines(self, processes: Seq<Process>, main_len: usize) -> usize {
        match self {
            ScrollTarget::Main => main_len,
            ScrollTarget::Pane(i, stream) => processes[i as int].spec_messages(stream)@.len() as usize,
        }
    }

    /// The state with the scroll status of the pane replaced; unchanged when
    /// the pane does not exist.
    pub open spec fn with_scroll(
        self,
        status: BaseStatus,
        processes: Seq<Process>,
        scroll: ScrollStatus,
    ) -> (BaseStatus, Seq<Process>) {
        match self {
            ScrollTarget::Main => (BaseStatus { main_scroll: scroll, ..status }, processes),
            ScrollTarget::Pane(i, stream) => if i < processes.len() {
                (status, processes.update(i as int, processes[i as int].with_scroll(stream, scroll)))
            } else {
                (status, processes)
            },
        }
    }

    fn read(&self, status: &BaseStatus, processes: &Vec<Process>, main_len: usize) -> (found: Option<
        (ScrollStatus, usize),
    >)
        ensures
            found is Some <==> self.exists_in(processes@),
            found matches Some((scroll, lines)) ==> scroll == self.scroll(*status, processes@)
                && lines == self.lines(processes@, main_len),
    {
        match self {
            ScrollTarget::Main => Some((status.main_scroll, main_len)),
            ScrollTarget::Pane(i, stream) => {
                if *i < processes.len() {
                    match stream {
                        Stream::Output => Some(
                            (processes[*i].out_scroll, processes[*i].out_messages.len()),
                        ),
                        Stream::Error => Some(
                            (processes[*i].err_scroll, processes[*i].err_messages.len()),
                        ),
                    }
                } else {
                    None
                }
            },
        }
    }

    fn write(&self, status: &mut BaseStatus, processes: &mut Vec<Process>, scroll: ScrollStatus)
        ensures
            (*final(status), final(processes)@) == self.with_scroll(
                *old(status),
                old(processes)@,
                scroll,
            ),
    {
        match self {
            ScrollTarget::Main => {
                status.main_scroll = scroll;
            },
            ScrollTarget::Pane(i, stream) => {
                if *i < processes.len() {
                    match stream {
                        Stream::Output => {
                            processes[*i].out_scroll = scroll;
                        },
                        Stream::Error => {
                            processes[*i].err_scroll = scroll;
                        },
                    }
                }
            },
        }
    }
}

impl ActionType {
    /// The scroll status that the binding leaves in a pane that had `scroll`
    /// and holds `lines` lines. `None` for a binding that moves no pane.
    pub open spec fn moved(self, scroll: ScrollStatus, lines: usize) -> Option<ScrollStatus> {
        match self {
            ActionType::ScrollUp(_) => Some(scroll.spec_scroll_up(lines)),
            ActionType::ScrollDown(_) => Some(scroll.spec_scroll_down()),
            ActionType::ScrollLeft(_) => Some(scroll.spec_scroll_left()),
            ActionType::ScrollRight(_) => Some(scroll.spec_scroll_right()),
            ActionType::StopScrolling(_) => Some(scroll.spec_stop_scrolling()),
            _ => None,
        }
    }

    /// The pane that the binding moves, if it moves one.
    pub open spec fn target(self) -> Option<ScrollTarget> {
        match self {
            ActionType::ScrollUp(t) => Some(t),
            ActionType::ScrollDown(t) => Some(t),
            ActionType::ScrollLeft(t) => Some(t),
            ActionType::ScrollRight(t) => Some(t),
            ActionType::StopScrolling(t) => Some(t),
            _ => None,
        }
    }

    /// The state after the binding was applied. `main_len` is the number of
    /// lines in the main log. A scroll binding on a pane that does not exist
    /// and the close binding leave the state as it is.
    pub open spec fn spec_apply(
        self,
        status: BaseStatus,
        processes: Seq<Process>,
        main_len: usize,
    ) -> (BaseStatus, Seq<Process>) {
        match self {
            ActionType::Close => (status, processes),
            ActionType::Focus(index) => (BaseStatus { focus: Some(index), ..status }, processes),
            ActionType::RemoveFocus => (BaseStatus { focus: None, ..status }, processes),
            _ => {
                let target = self.target().unwrap();
                if target.exists_in(processes) {
                    target.with_scroll(
                        status,
                        processes,
                        self.moved(
                            target.scroll(status, processes),
                            target.lines(processes, main_len),
                        ).unwrap(),
                    )
                } else {
                    (status, processes)
                }
            },
        }
    }

    fn move_pane(&self, scroll: ScrollStatus, lines: usize) -> (moved: Option<ScrollStatus>)
        ensures
            moved == self.moved(scroll, lines),
    {
        match self {
            ActionType::ScrollUp(_) => Some(scroll.scroll_up(lines)),
            ActionType::ScrollDown(_) => Some(scroll.scroll_down()),
            ActionType::ScrollLeft(_) => Some(scroll.scroll_left()),
            ActionType::ScrollRight(_) => Some(scroll.scroll_right()),
            ActionType::StopScrolling(_) => Some(scroll.stop_scrolling()),
            _ => None,
        }
    }

    fn pane(&self) -> (target: Option<ScrollTarget>)
        ensures
            target == self.target(),
    {
        match self {
            ActionType::ScrollUp(t) => Some(*t),
            ActionType::ScrollDown(t) => Some(*t),
            ActionType::ScrollLeft(t) => Some(*t),
            ActionType::ScrollRight(t) => Some(*t),
            ActionType::StopScrolling(t) => Some(*t),
            _ => None,
        }
    }

    /// Applies the binding to the state and says whether the program shall
    /// close.
    pub fn apply(
        &self,
        status: &mut BaseStatus,
        processes: &mut Vec<Process>,
        main_len: usize,
    ) -> (close: bool)
        ensures
            (*final(status), final(processes)@) == self.spec_apply(
                *old(status),
                old(processes)@,
                main_len,
            ),
            close == (*self == ActionType::Close),
    {
        match self {
            ActionType::Close => true,
            ActionType::Focus(index) => {
                status.focus = Some(*index);
                false
            },
            ActionType::RemoveFocus => {
                status.focus = None;
                false
            },
            _ => {
                if let Some(target) = self.pane() {
                    if let Some((scroll, lines)) = target.read(status, processes, main_len) {
                        if let Some(next) = self.move_pane(scroll, lines) {
                            target.write(status, processes, next);
                        }
                    }
                }
                false
            },
        }
    }
}

/// One binding: the event it waits for and what it does.
#[derive(Clone, Copy, Debug, PartialEq, Eq)]
pub struct Action {
    pub event: Event,
    pub data: ActionType,
}

impl Action {
    /// The binding of `data` to `event`.
    pub fn new(event: Event, data: ActionType) -> (action: Self)
        ensures
            action.event == event,
            action.data == data,
    {
        Self { event, data }
    }
}

/// The character of a decimal digit.
pub open spec fn digit_char(digit: nat) -> char {
    if digit == 0 {
        '0'
    } else if digit == 1 {
        '1'
    } else if digit == 2 {
        '2'
    } else if digit == 3 {
        '3'
    } else if digit == 4 {
        '4'
    } else if digit == 5 {
        '5'
    } else if digit == 6 {
        '6'
    } else if digit == 7 {
        '7'
    } else if digit == 8 {
        '8'
    } else {
        '9'
    }
}

/// The focus key of pane `index`: its number as one decimal digit. Fails for
/// a number above nine.
pub fn to_char(index: usize) -> (key: Result<char, TerminalError>)
    ensures
        index <= 9 ==> key == Ok::<char, TerminalError>(digit_char(index as nat)),
        index > 9 ==> key == Err::<char, TerminalError>(TerminalError::TooManyProcesses),
{
    if index == 0 {
        Ok('0')
    } else if index == 1 {
        Ok('1')
    } else if index == 2 {
        Ok('2')
    } else if index == 3 {
        Ok('3')
    } else if index == 4 {
        Ok('4')
    } else if index == 5 {
        Ok('5')
    } else if index == 6 {
        Ok('6')
    } else if index == 7 {
        Ok('7')
    } else if index == 8 {
        Ok('8')
    } else if index == 9 {
        Ok('9')
    } else {
        Err(TerminalError::TooManyProcesses)
    }
}

/// The binding that puts pane `index` in focus on its digit key.
pub open spec fn focus_action(index: usize) -> Action {
    Action {
        event: KeyCode::Char(digit_char(index as nat)).event_with(KeyModifiers::spec_empty()),
        data: ActionType::Focus(index),
    }
}

/// How many of `indexes`, from the front, have a focus key.
pub open spec fn focusable_prefix(indexes: Seq<usize>) -> nat
    decreases indexes.len(),
{
    if indexes.len() == 0 || indexes[0] > 9 {
        0
    } else {
        1 + focusable_prefix(indexes.drop_first())
    }
}

/// The focus bindings of the first `n` of `indexes`.
pub open spec fn focus_actions(indexes: Seq<usize>, n: nat) -> Seq<Action> {
    Seq::new(n, |i: int| focus_action(indexes[i]))
}

/// The bindings that every dashboard starts with: close on control-c, scroll
/// of the main log on the arrows, focus on the main log on `0`, and no focus
/// on escape.
pub open spec fn builtin_actions() -> Seq<Action> {
    seq![
        Action {
            event: KeyCode::Char('c').event_with(KeyModifiers::spec_control()),
            data: ActionType::Close,
        },
        Action {
            event: KeyCode::Up.event_with(KeyModifiers::spec_empty()),
            data: ActionType::ScrollUp(ScrollTarget::Main),
        },
        Action {
            event: KeyCode::Down.event_with(KeyModifiers::spec_empty()),
            data: ActionType::ScrollDown(ScrollTarget::Main),
        },
        Action {
            event: KeyCode::Left.event_with(KeyModifiers::spec_empty()),
            data: ActionType::ScrollLeft(ScrollTarget::Main),
        },
        Action {
            event: KeyCode::Right.event_with(KeyModifiers::spec_empty()),
            data: ActionType::ScrollRight(ScrollTarget::Main),
        },
        Action {
            event: KeyCode::Char('0').event_with(KeyModifiers::spec_empty()),
            data: ActionType::Focus(0),
        },
        Action {
            event: KeyCode::Esc.event_with(KeyModifiers::spec_empty()),
            data: ActionType::RemoveFocus,
        },
    ]
}

/// What an input event does to the state: every binding whose pattern
/// matches is applied, in order; the close binding ends the dispatch. The
/// third part says whether the program shall close.
pub open spec fn dispatch(
    actions: Seq<Action>,
    event: Event,
    status: BaseStatus,
    processes: Seq<Process>,
    main_len: usize,
) -> (BaseStatus, Seq<Process>, bool)
    decreases actions.len(),
{
    if actions.len() == 0 {
        (status, processes, false)
    } else if !actions[0].event.spec_matches(event) {
        dispatch(actions.drop_first(), event, status, processes, main_len)
    } else if actions[0].data == ActionType::Close {
        (status, processes, true)
    } else {
        let next = actions[0].data.spec_apply(status, processes, main_len);
        dispatch(actions.drop_first(), event, next.0, next.1, main_len)
    }
}

/// What a process holds apart from its scroll statuses.
pub open spec fn same_content(a: Process, b: Process) -> bool {
    &&& a.name == b.name
    &&& a.out_messages == b.out_messages
    &&& a.err_messages == b.err_messages
    &&& a.settings == b.settings
    &&& a.search_message == b.search_message
}

/// A binding changes nothing but scroll statuses and the focus: the
/// registry keeps its processes, and each process its name, buffers, settings
/// and pending search.
pub proof fn lemma_apply_keeps_content(
    action: ActionType,
    status: BaseStatus,
    processes: Seq<Process>,
    main_len: usize,
)
    ensures
        action.spec_apply(status, processes, main_len).1.len() == processes.len(),
        forall|i: int|
            0 <= i < processes.len() ==> same_content(
                #[trigger] action.spec_apply(status, processes, main_len).1[i],
                processes[i],
            ),
{
}

/// An input event changes nothing but scroll statuses and the focus,
/// whatever the bindings are.
pub proof fn lemma_dispatch_keeps_content(
    actions: Seq<Action>,
    event: Event,
    status: BaseStatus,
    processes: Seq<Process>,
    main_len: usize,
)
    ensures
        dispatch(actions, event, status, processes, main_len).1.len() == processes.len(),
        forall|i: int|
            0 <= i < processes.len() ==> same_content(
                #[trigger] dispatch(actions, event, status, processes, main_len).1[i],
                processes[i],
            ),
    decreases actions.len(),
{
    if actions.len() > 0 && actions[0].event.spec_matches(event) && actions[0].data
        != ActionType::Close {
        let next = actions[0].data.spec_apply(status, processes, main_len);
        lemma_apply_keeps_content(actions[0].data, status, processes, main_len);
        lemma_dispatch_keeps_content(actions.drop_first(), event, next.0, next.1, main_len);
        assert forall|i: int| 0 <= i < processes.len() implies same_content(
            #[trigger] dispatch(actions, event, status, processes, main_len).1[i],
            processes[i],
        ) by {
            assert(same_content(next.1[i], processes[i]));
        }
    } else if actions.len() > 0 && !actions[0].event.spec_matches(event) {
        lemma_dispatch_keeps_content(actions.drop_first(), event, status, processes, main_len);
    }
}

/// An event that no binding waits for changes nothing.
pub proof fn lemma_dispatch_without_match(
    actions: Seq<Action>,
    event: Event,
    status: BaseStatus,
    processes: Seq<Process>,
    main_len: usize,
)
    requires
        forall|i: int| 0 <= i < actions.len() ==> !(#[trigger] actions[i]).event.spec_matches(event),
    ensures
        dispatch(actions, event, status, processes, main_len) == (status, processes, false),
    decreases actions.len(),
{
    if actions.len() > 0 {
        assert(!actions[0].event.spec_matches(event));
        assert forall|i: int| 0 <= i < actions.drop_first().len() implies !(
        #[trigger] actions.drop_first()[i]).event.spec_matches(event) by {
            assert(actions.drop_first()[i] == actions[i + 1]);
        }
        lemma_dispatch_without_match(actions.drop_first(), event, status, processes, main_len);
    }
}

/// The table of bindings.
#[derive(Debug)]
pub struct KeyBoardActions {
    actions: Vec<Action>,
}

impl View for KeyBoardActions {
    type V = Seq<Action>;

    closed spec fn view(&self) -> Seq<Action> {
        self.actions@
    }
}

impl KeyBoardActions {
    /// The table with the built-in bindings.
    pub fn new() -> (table: Self)
        ensures
            table@ == builtin_actions(),
    {
        let mut actions: Vec<Action> = Vec::new();
        actions.push(
            Action {
                event: KeyCode::Char('c').into_event(KeyModifiers::control()),
                data: ActionType::Close,
            },
        );
        actions.push(
            Action {
                event: KeyCode::Up.into_event_no_modifier(),
                data: ActionType::ScrollUp(ScrollTarget::Main),
            },
        );
        actions.push(
            Action {
                event: KeyCode::Down.into_event_no_modifier(),
                data: ActionType::ScrollDown(ScrollTarget::Main),
            },
        );
        actions.push(
            Action {
                event: KeyCode::Left.into_event_no_modifier(),
                data: ActionType::ScrollLeft(ScrollTarget::Main),
            },
        );
        actions.push(
            Action {
                event: KeyCode::Right.into_event_no_modifier(),
                data: ActionType::ScrollRight(ScrollTarget::Main),
            },
        );
        actions.push(
            Action {
                event: KeyCode::Char('0').into_event_no_modifier(),
                data: ActionType::Focus(0),
            },
        );
        actions.push(
            Action { event: KeyCode::Esc.into_event_no_modifier(), data: ActionType::RemoveFocus },
        );
        assert(actions@ =~= builtin_actions());
        Self { actions }
    }

    /// The number of bindings.
    pub fn len(&self) -> (n: usize)
        ensures
            n == self@.len(),
    {
        self.actions.len()
    }

    /// The binding at place `i`, if there is one.
    pub fn get(&self, i: usize) -> (action: Option<Action>)
        ensures
            i < self@.len() ==> action == Some(self@[i as int]),
            i >= self@.len() ==> action is None,
    {
        if i < self.actions.len() {
            Some(self.actions[i])
        } else {
            None
        }
    }

    /// Applies every binding that matches `event`, in order, until the close
    /// binding matches, and says whether it did.
    pub fn apply_event(
        &self,
        event: Event,
        status: &mut BaseStatus,
        processes: &mut Vec<Process>,
        main_len: usize,
    ) -> (close: bool)
        ensures
            (*final(status), final(processes)@, close) == dispatch(
                self@,
                event,
                *old(status),
                old(processes)@,
                main_len,
            ),
    {
        let mut i: usize = 0;
        assert(self.actions@.skip(0) == self.actions@);
        while i < self.actions.len()
            invariant
                i <= self.actions.len(),
                dispatch(self.actions@, event, *old(status), old(processes)@, main_len)
                    == dispatch(
                    self.actions@.skip(i as int),
                    event,
                    *status,
                    processes@,
                    main_len,
                ),
            decreases self.actions.len() - i,
        {
            let action = self.actions[i];
            proof {
                assert(self.actions@.skip(i as int).drop_first() == self.actions@.skip(i + 1));
                assert(self.actions@.skip(i as int)[0] == action);
            }
            if action.event.matches(event) {
                if action.data.apply(status, processes, main_len) {
                    return true;
                }
            }
            i += 1;
        }
        false
    }

    /// Adds a binding at the end of the table.
    pub fn push(&mut self, action: Action)
        ensures
            final(self)@ == old(self)@.push(action),
    {
        self.actions.push(action);
    }

    /// Adds the focus binding of each of `indexes`, in order, and stops at
    /// the first that has no focus key. The bindings added before that one
    /// stay.
    pub fn push_focus(&mut self, indexes: &[usize]) -> (res: Result<(), TerminalError>)
        ensures
            final(self)@ == old(self)@ + focus_actions(indexes@, focusable_prefix(indexes@)),
            focusable_prefix(indexes@) == indexes@.len() ==> res == Ok::<(), TerminalError>(()),
            focusable_prefix(indexes@) < indexes@.len() ==> res == Err::<(), TerminalError>(
                TerminalError::TooManyProcesses,
            ),
    {
        let mut i: usize = 0;
        assert(indexes@.skip(0) == indexes@);
        assert(self@ =~= old(self)@ + focus_actions(indexes@, 0));
        while i < indexes.len()
            invariant
                i <= indexes.len(),
                focusable_prefix(indexes@) == i + focusable_prefix(indexes@.skip(i as int)),
                self@ == old(self)@ + focus_actions(indexes@, i as nat),
            decreases indexes.len() - i,
        {
            let index = indexes[i];
            proof {
                assert(indexes@.skip(i as int).drop_first() == indexes@.skip(i + 1));
                assert(indexes@.skip(i as int)[0] == index);
            }
            match to_char(index) {
                Ok(key) => {
                    self.actions.push(
                        Action::new(
                            KeyCode::Char(key).into_event_no_modifier(),
                            ActionType::Focus(index),
                        ),
                    );
                    assert(self@ =~= old(self)@ + focus_actions(indexes@, (i + 1) as nat));
                },
                Err(e) => {
                    return Err(e);
                },
            }
            i += 1;
        }
        assert(indexes@.skip(indexes@.len() as int).len() == 0);
        Ok(())
    }
}

} // verus!
