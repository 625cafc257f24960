use process_terminal::{
    add_process, block_search_message, end_terminal, run_guarded, tprintln, with_exit_callback,
    ClearRegex, KeyCode, KeyCodeExt, KeyModifiers, MessageSettings, Pipes, ProcessSettings,
    SearchAction, SearchState, Shared, Terminal, TerminalError, EXIT_CODE, POLL_INTERVAL_MILLIS,
};
use std::cell::Cell;
use std::rc::Rc;

const BOTH: Pipes = Pipes { stdout: true, stderr: true };

#[test]
fn search_returns_the_first_line_that_holds_the_substring() {
    let mut terminal: Terminal<fn()> = Terminal::new();
    let regex = ClearRegex::new().unwrap();
    let foo = add_process(&mut terminal, "Foo", BOTH, ProcessSettings::new(MessageSettings::Output))
        .unwrap();
    assert_eq!(foo.process, 0);

    let state = match block_search_message(&mut terminal, "Foo", "llo", SearchState::Start) {
        SearchAction::Wait(state) => state,
        other => panic!("unexpected: {:?}", other),
    };
    assert_eq!(state, SearchState::Waiting(0));

    for line in ["hello", "world", "foo", "bar"] {
        assert!(terminal.capture_output(foo.process, &regex, line.to_string()));
    }
    assert_eq!(
        block_search_message(&mut terminal, "Foo", "llo", state),
        SearchAction::Return("hello".to_string())
    );
    assert_eq!(terminal.processes()[0].search_message, None);
    assert_eq!(terminal.processes()[0].out_messages, vec!["hello", "world", "foo", "bar"]);
}

#[test]
fn search_waits_until_a_line_holds_the_substring() {
    let mut terminal: Terminal<fn()> = Terminal::new();
    let regex = ClearRegex::new().unwrap();
    add_process(&mut terminal, "Foo", BOTH, ProcessSettings::new(MessageSettings::Output)).unwrap();
    terminal.capture_output(0, &regex, "bar before the request".to_string());

    let state = SearchState::Waiting(0);
    assert_eq!(
        block_search_message(&mut terminal, "Foo", "ar", SearchState::Start),
        SearchAction::Wait(state)
    );
    assert_eq!(block_search_message(&mut terminal, "Foo", "ar", state), SearchAction::Wait(state));
    terminal.capture_output(0, &regex, "hello".to_string());
    terminal.capture_error(0, &regex, "bar on the error stream".to_string());
    assert_eq!(block_search_message(&mut terminal, "Foo", "ar", state), SearchAction::Wait(state));
    terminal.capture_output(0, &regex, "\u{1b}[1mbar\u{1b}[0m".to_string());
    terminal.capture_output(0, &regex, "far".to_string());
    assert_eq!(
        block_search_message(&mut terminal, "Foo", "ar", state),
        SearchAction::Return("bar".to_string())
    );
    assert_eq!(block_search_message(&mut terminal, "Foo", "ar", state), SearchAction::Wait(state));
}

#[test]
fn search_in_a_process_that_is_not_registered_fails() {
    let mut terminal: Terminal<fn()> = Terminal::new();
    add_process(&mut terminal, "Foo", BOTH, ProcessSettings::new(MessageSettings::Output)).unwrap();
    assert_eq!(
        block_search_message(&mut terminal, "Bar", "x", SearchState::Start),
        SearchAction::Fail(TerminalError::ProcessNotFound)
    );
    assert_eq!(
        block_search_message(&mut terminal, "foo", "x", SearchState::Start),
        SearchAction::Fail(TerminalError::ProcessNotFound)
    );
    assert_eq!(
        block_search_message(&mut terminal, "Foo", "x", SearchState::Waiting(1)),
        SearchAction::Fail(TerminalError::ProcessNotFound)
    );
    assert_eq!(terminal.processes()[0].search_message, None);
}

#[test]
fn new_request_replaces_the_pending_one() {
    let mut terminal: Terminal<fn()> = Terminal::new();
    let regex = ClearRegex::new().unwrap();
    add_process(&mut terminal, "Foo", BOTH, ProcessSettings::new(MessageSettings::Output)).unwrap();
    block_search_message(&mut terminal, "Foo", "first", SearchState::Start);
    block_search_message(&mut terminal, "Foo", "second", SearchState::Start);
    terminal.capture_output(0, &regex, "the first line".to_string());
    assert_eq!(
        block_search_message(&mut terminal, "Foo", "first", SearchState::Waiting(0)),
        SearchAction::Wait(SearchState::Waiting(0))
    );
    terminal.capture_output(0, &regex, "the second line".to_string());
    assert_eq!(
        block_search_message(&mut terminal, "Foo", "first", SearchState::Waiting(0)),
        SearchAction::Return("the second line".to_string())
    );
}

#[test]
fn search_goes_to_the_first_process_of_the_name() {
    let mut terminal: Terminal<fn()> = Terminal::new();
    add_process(&mut terminal, "Bar", BOTH, ProcessSettings::new(MessageSettings::Output)).unwrap();
    add_process(&mut terminal, "Foo", BOTH, ProcessSettings::new(MessageSettings::Output)).unwrap();
    add_process(&mut terminal, "Foo", BOTH, ProcessSettings::new(MessageSettings::Output)).unwrap();
    assert_eq!(
        block_search_message(&mut terminal, "Foo", "x", SearchState::Start),
        SearchAction::Wait(SearchState::Waiting(1))
    );
    assert!(terminal.processes()[1].search_message.is_some());
    assert!(terminal.processes()[2].search_message.is_none());
}

#[test]
fn close_binding_hands_out_the_exit_callback_once() {
    let calls = Rc::new(Cell::new(0u32));
    let counter = calls.clone();
    let mut terminal = Terminal::new();
    with_exit_callback(&mut terminal, move || counter.set(counter.get() + 1));

    assert!(terminal.apply_event(KeyCode::Char('c').into_event_no_modifier()).is_none());
    assert_eq!(calls.get(), 0);

    let shutdown = terminal
        .apply_event(KeyCode::Char('c').into_event(KeyModifiers::control()))
        .expect("the close binding fires on control-c");
    assert!(shutdown.callback.is_some());
    assert_eq!(calls.get(), 0);
    assert_eq!(shutdown.run_callback(), 0);
    assert_eq!(calls.get(), 1);

    let again = end_terminal(&mut terminal);
    assert!(again.callback.is_none());
    assert_eq!(again.code, EXIT_CODE);
    assert_eq!(again.run_callback(), 0);
    assert_eq!(calls.get(), 1);
}

#[test]
fn last_exit_callback_wins() {
    let mut terminal: Terminal<Box<dyn Fn() -> u8>> = Terminal::new();
    with_exit_callback(&mut terminal, Box::new(|| 1));
    with_exit_callback(&mut terminal, Box::new(|| 2));
    let shutdown = end_terminal(&mut terminal);
    assert_eq!(shutdown.code, 0);
    assert_eq!((shutdown.callback.unwrap())(), 2);

    let ran = Rc::new(Cell::new(0u32));
    let (first, second) = (ran.clone(), ran.clone());
    let mut terminal = Terminal::new();
    with_exit_callback(&mut terminal, Box::new(move || first.set(first.get() + 1)) as Box<dyn Fn()>);
    with_exit_callback(&mut terminal, Box::new(move || second.set(second.get() + 10)));
    assert_eq!(end_terminal(&mut terminal).run_callback(), 0);
    assert_eq!(ran.get(), 10);
}

#[test]
fn dashboard_without_callback_closes_with_none() {
    let mut terminal: Terminal<fn()> = Terminal::new();
    let shutdown = terminal
        .apply_event(KeyCode::Char('c').into_event(KeyModifiers::control()))
        .unwrap();
    assert!(shutdown.callback.is_none());
    assert_eq!(shutdown.code, 0);
}

#[test]
fn injected_messages_fill_the_main_log() {
    let mut terminal: Terminal<fn()> = Terminal::new();
    tprintln(&mut terminal, "Starting...".to_string());
    terminal.add_message("searching_message".to_string());
    assert_eq!(terminal.main_messages(), &vec!["Starting...", "searching_message"]);
    assert_eq!(POLL_INTERVAL_MILLIS, 50);
}

#[test]
fn shared_cell_hands_the_value_to_readers_and_writers() {
    let cell = Shared::new(vec![1u8, 2]);
    let other = cell.clone();
    assert_eq!(cell.read_with(|guard| guard.len()), Some(2));
    let pushed = other.write_with(|mut guard| {
        guard.push(3);
        guard.len()
    });
    assert_eq!(pushed, Some(3));
    assert_eq!(cell.read_with(|guard| guard.clone()), Some(vec![1, 2, 3]));
    {
        let first = cell.read_access().unwrap();
        let second = other.read_access().unwrap();
        assert_eq!(*first, *second);
    }
    other.write_access().unwrap().clear();
    assert!(cell.read_access().unwrap().is_empty());

    let fresh: Shared<Vec<u8>> = Shared::default();
    assert_eq!(fresh.read_with(|guard| guard.is_empty()), Some(true));
    assert_eq!(fresh.write_with(|mut guard| guard.push(9)), Some(()));
    assert!(cell.read_access().unwrap().is_empty());
    assert_eq!(*fresh.read_access().unwrap(), vec![9]);
}

#[test]
fn action_runs_once_on_the_guard_and_not_at_all_without_one() {
    let runs = Cell::new(0u32);
    let with_guard = run_guarded(Some(20u8), |guard| {
        runs.set(runs.get() + 1);
        guard + 1
    });
    assert_eq!(with_guard, Some(21));
    assert_eq!(runs.get(), 1);

    let without: Option<u8> = run_guarded(None::<u8>, |guard| {
        runs.set(runs.get() + 1);
        guard + 1
    });
    assert_eq!(without, None);
    assert_eq!(runs.get(), 1);

    let cell = Shared::new(5u32);
    let seen = run_guarded(cell.read_access(), |guard| *guard * 2);
    assert_eq!(seen, Some(10));
    let written = run_guarded(cell.write_access(), |mut guard| {
        *guard += 1;
        *guard
    });
    assert_eq!(written, Some(6));
    assert_eq!(cell.read_with(|guard| *guard), Some(6));
}

#[test]
fn dashboard_behind_a_shared_cell_serves_a_search_through_two_handles() {
    let shared: Shared<Terminal<fn()>> = Shared::new(Terminal::new());
    shared
        .write_with(|mut t| {
            add_process(&mut t, "Foo", BOTH, ProcessSettings::new(MessageSettings::Output))
        })
        .unwrap()
        .unwrap();
    let feeder = shared.clone();
    let state = match shared
        .write_with(|mut t| block_search_message(&mut t, "Foo", "llo", SearchState::Start))
    {
        Some(SearchAction::Wait(state)) => state,
        other => panic!("unexpected: {:?}", other),
    };
    let regex = ClearRegex::new().unwrap();
    for line in ["world", "hello", "foo"] {
        assert_eq!(
            feeder.write_with(|mut t| t.capture_output(0, &regex, line.to_string())),
            Some(true)
        );
    }
    let found = shared.write_with(|mut t| block_search_message(&mut t, "Foo", "llo", state));
    assert_eq!(found, Some(SearchAction::Return("hello".to_string())));
}
