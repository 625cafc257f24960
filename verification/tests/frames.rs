use process_terminal::draw::{
    focused_pane, same_lines, ERROR_HEIGHT_PERCENT, MAIN_WIDTH_PERCENT, OUTPUT_HEIGHT_PERCENT,
    PROCESSES_WIDTH_PERCENT, SCROLLING_MARK,
};
use process_terminal::text::decimal;
use process_terminal::{
    add_process, draw, redraw, render_frame, BaseStatus, BlocFocus, BlockType, ClearRegex,
    DetachProcess, DrawCache, Frame, KeyCode, KeyCodeExt, MessageSettings, Pane, Pipes, Process,
    ProcessPanes, ProcessSettings, ScrollStatus, Stream, Terminal,
};

const BOTH: Pipes = Pipes { stdout: true, stderr: true };

fn lines(text: &[&str]) -> Vec<String> {
    text.iter().map(|s| s.to_string()).collect()
}

fn dashboard() -> Terminal<fn()> {
    let mut terminal: Terminal<fn()> = Terminal::new();
    let regex = ClearRegex::new().unwrap();
    add_process(&mut terminal, "Foo", BOTH, ProcessSettings::new(MessageSettings::Output)).unwrap();
    add_process(&mut terminal, "Bar", BOTH, ProcessSettings::new(MessageSettings::All)).unwrap();
    add_process(&mut terminal, "Nil", BOTH, ProcessSettings::new(MessageSettings::Neither)).unwrap();
    add_process(&mut terminal, "Baz", BOTH, ProcessSettings::new(MessageSettings::Error)).unwrap();
    terminal.add_message("main".to_string());
    terminal.capture_output(0, &regex, "foo out".to_string());
    terminal.capture_output(1, &regex, "bar out 1".to_string());
    terminal.capture_output(1, &regex, "bar out 2".to_string());
    terminal.capture_error(1, &regex, "bar err".to_string());
    terminal.capture_error(3, &regex, "baz err".to_string());
    terminal
}

fn pane(name: &str, ty: BlockType, focus: BlocFocus, hint: &str, text: &[&str]) -> Pane {
    Pane {
        name: name.to_string(),
        ty,
        focus,
        hint: hint.to_string(),
        messages: lines(text),
        scroll: ScrollStatus::default(),
        selected: if text.is_empty() { None } else { Some(text.len() - 1) },
    }
}

#[test]
fn numbers_in_decimal() {
    assert_eq!(decimal(0), "0");
    assert_eq!(decimal(7), "7");
    assert_eq!(decimal(10), "10");
    assert_eq!(decimal(123), "123");
    assert_eq!(decimal(9_007_199_254_740_993), "9007199254740993");
    assert_eq!(decimal(usize::MAX), usize::MAX.to_string());
}

#[test]
fn pane_follows_the_newest_line_without_a_pin() {
    let free = ScrollStatus { x: 2, y: None };
    let shown = render_frame(
        "Foo".to_string(),
        BlockType::Output,
        BlocFocus::Enter(12),
        lines(&["a", "b", "c"]),
        &free,
    );
    assert_eq!(shown.name, "Foo");
    assert_eq!(shown.ty, BlockType::Output);
    assert_eq!(shown.focus, BlocFocus::Enter(12));
    assert_eq!(shown.hint, "full screen: '12'");
    assert_eq!(shown.messages, lines(&["a", "b", "c"]));
    assert_eq!(shown.scroll, free);
    assert_eq!(shown.selected, Some(2));
    assert!(!shown.is_scrolling());
}

#[test]
fn pinned_pane_stays_at_its_line() {
    let text = lines(&["a", "b", "c"]);
    let at = |y: usize| {
        render_frame(
            String::new(),
            BlockType::Main,
            BlocFocus::Exit,
            text.clone(),
            &ScrollStatus { x: 0, y: Some(y) },
        )
    };
    assert_eq!(at(0).selected, None);
    assert_eq!(at(1).selected, Some(0));
    assert_eq!(at(2).selected, Some(1));
    assert_eq!(at(3).selected, Some(2));
    assert_eq!(at(4).selected, Some(2));
    assert_eq!(at(usize::MAX).selected, Some(2));
    assert!(at(1).is_scrolling());
    assert_eq!(at(1).hint, "press 'Esc' to exit full screen");
}

#[test]
fn empty_pane_has_no_line_in_view() {
    let pinned = ScrollStatus { x: 0, y: Some(4) };
    let shown = render_frame("x".to_string(), BlockType::Error, BlocFocus::Enter(0), Vec::new(), &pinned);
    assert_eq!(shown.selected, None);
    assert_eq!(shown.hint, "full screen: '0'");
    assert!(shown.is_scrolling());
    let free = render_frame(
        "x".to_string(),
        BlockType::Error,
        BlocFocus::Exit,
        Vec::new(),
        &ScrollStatus::default(),
    );
    assert_eq!(free.selected, None);
}

#[test]
fn labels_of_the_pane_kinds() {
    assert_eq!(BlockType::Main.label(), "Main");
    assert_eq!(BlockType::Output.label(), "Out");
    assert_eq!(BlockType::Error.label(), "Err");
}

#[test]
fn shares_of_the_screen() {
    assert_eq!(MAIN_WIDTH_PERCENT, 30);
    assert_eq!(PROCESSES_WIDTH_PERCENT, 70);
    assert_eq!(OUTPUT_HEIGHT_PERCENT, 70);
    assert_eq!(ERROR_HEIGHT_PERCENT, 30);
    assert_eq!(SCROLLING_MARK, "scrolling");
}

#[test]
fn frame_without_focus_shows_every_pane() {
    let frame = draw(&dashboard().detach());
    let expected = Frame::Split {
        main: pane("", BlockType::Main, BlocFocus::Enter(0), "full screen: '0'", &["main"]),
        processes: vec![
            ProcessPanes::Single(pane(
                "Foo",
                BlockType::Output,
                BlocFocus::Enter(1),
                "full screen: '1'",
                &["foo out"],
            )),
            ProcessPanes::Stacked(
                pane(
                    "Bar",
                    BlockType::Output,
                    BlocFocus::Enter(2),
                    "full screen: '2'",
                    &["bar out 1", "bar out 2"],
                ),
                pane("Bar", BlockType::Error, BlocFocus::Enter(3), "full screen: '3'", &["bar err"]),
            ),
            ProcessPanes::Hidden,
            ProcessPanes::Single(pane(
                "Baz",
                BlockType::Error,
                BlocFocus::Enter(4),
                "full screen: '4'",
                &["baz err"],
            )),
        ],
    };
    assert_eq!(frame, expected);
}

#[test]
fn frame_without_processes_shows_the_main_log() {
    let frame = draw(&DrawCache::default_detach());
    assert_eq!(
        frame,
        Frame::Split {
            main: pane("", BlockType::Main, BlocFocus::Enter(0), "full screen: '0'", &[]),
            processes: vec![],
        }
    );
}

#[test]
fn focus_shows_the_pane_of_that_number_alone() {
    let exit = "press 'Esc' to exit full screen";
    let mut terminal = dashboard();
    let mut frame_on = |key: char| {
        terminal.apply_event(KeyCode::Char(key).into_event_no_modifier());
        draw(&terminal.detach())
    };
    assert_eq!(
        frame_on('0'),
        Frame::Full(pane("", BlockType::Main, BlocFocus::Exit, exit, &["main"]))
    );
    assert_eq!(
        frame_on('1'),
        Frame::Full(pane("Foo", BlockType::Output, BlocFocus::Exit, exit, &["foo out"]))
    );
    assert_eq!(
        frame_on('2'),
        Frame::Full(pane(
            "Bar",
            BlockType::Output,
            BlocFocus::Exit,
            exit,
            &["bar out 1", "bar out 2"]
        ))
    );
    assert_eq!(
        frame_on('3'),
        Frame::Full(pane("Bar", BlockType::Error, BlocFocus::Exit, exit, &["bar err"]))
    );
    assert_eq!(
        frame_on('4'),
        Frame::Full(pane("Baz", BlockType::Error, BlocFocus::Exit, exit, &["baz err"]))
    );
}

#[test]
fn focus_on_a_pane_that_does_not_exist_shows_nothing() {
    let mut cache = dashboard().detach();
    cache.main_scroll.focus = Some(5);
    assert_eq!(draw(&cache), Frame::Empty);
    cache.main_scroll.focus = Some(usize::MAX);
    assert_eq!(draw(&cache), Frame::Empty);
}

#[test]
fn pane_numbers_lead_to_their_streams() {
    let cache = dashboard().detach();
    assert_eq!(focused_pane(&cache.processes, 1), Some((0, Stream::Output)));
    assert_eq!(focused_pane(&cache.processes, 2), Some((1, Stream::Output)));
    assert_eq!(focused_pane(&cache.processes, 3), Some((1, Stream::Error)));
    assert_eq!(focused_pane(&cache.processes, 4), Some((3, Stream::Error)));
    assert_eq!(focused_pane(&cache.processes, 5), None);
    assert_eq!(focused_pane(&cache.processes, 0), None);
}

#[test]
fn scrolled_pane_is_drawn_with_its_status() {
    let mut terminal = dashboard();
    terminal.add_message("more".to_string());
    terminal.apply_event(KeyCode::Up.into_event_no_modifier());
    terminal.add_message("newest".to_string());
    match draw(&terminal.detach()) {
        Frame::Split { main, .. } => {
            assert_eq!(main.scroll, ScrollStatus { x: 0, y: Some(2) });
            assert_eq!(main.selected, Some(1));
            assert!(main.is_scrolling());
        },
        other => panic!("unexpected: {:?}", other),
    }
    terminal.apply_event(KeyCode::Up.into_event_no_modifier());
    terminal.apply_event(KeyCode::Right.into_event_no_modifier());
    match draw(&terminal.detach()) {
        Frame::Split { main, .. } => {
            assert_eq!(main.scroll, ScrollStatus { x: 1, y: Some(1) });
            assert_eq!(main.selected, Some(0));
        },
        other => panic!("unexpected: {:?}", other),
    }
    terminal.apply_event(KeyCode::Up.into_event_no_modifier());
    match draw(&terminal.detach()) {
        Frame::Split { main, .. } => {
            assert_eq!(main.scroll, ScrollStatus { x: 1, y: Some(0) });
            assert_eq!(main.selected, None);
        },
        other => panic!("unexpected: {:?}", other),
    }
}

#[test]
fn equal_snapshots_draw_nothing() {
    let terminal = dashboard();
    let mut cache = DrawCache::default_detach();
    let first = redraw(&mut cache, terminal.detach());
    assert_eq!(first, Some(draw(&terminal.detach())));
    assert_eq!(cache, terminal.detach());

    assert_eq!(redraw(&mut cache, terminal.detach()), None);
    assert_eq!(redraw(&mut cache, terminal.detach()), None);
    assert_eq!(cache, terminal.detach());
}

#[test]
fn first_snapshot_of_a_fresh_dashboard_draws_nothing() {
    let terminal: Terminal<fn()> = Terminal::new();
    let mut cache = DrawCache::default_detach();
    assert_eq!(redraw(&mut cache, terminal.detach()), None);
}

#[test]
fn any_change_draws_a_frame_and_becomes_the_cache() {
    let regex = ClearRegex::new().unwrap();
    let mut terminal = dashboard();
    let mut cache = terminal.detach();

    terminal.capture_error(3, &regex, "more".to_string());
    assert!(redraw(&mut cache, terminal.detach()).is_some());
    assert_eq!(redraw(&mut cache, terminal.detach()), None);

    terminal.apply_event(KeyCode::Left.into_event_no_modifier());
    assert_eq!(redraw(&mut cache, terminal.detach()), None);
    terminal.apply_event(KeyCode::Right.into_event_no_modifier());
    assert!(redraw(&mut cache, terminal.detach()).is_some());

    terminal.apply_event(KeyCode::Char('2').into_event_no_modifier());
    let frame = redraw(&mut cache, terminal.detach());
    assert!(matches!(frame, Some(Frame::Full(_))));
    assert_eq!(cache.main_scroll.focus, Some(2));

    terminal.add_message("note".to_string());
    assert!(redraw(&mut cache, terminal.detach()).is_some());
    add_process(&mut terminal, "New", BOTH, ProcessSettings::new(MessageSettings::Neither)).unwrap();
    assert!(redraw(&mut cache, terminal.detach()).is_some());
    assert_eq!(redraw(&mut cache, terminal.detach()), None);
}

#[test]
fn pending_search_is_no_part_of_the_snapshot() {
    let mut terminal = dashboard();
    let mut cache = terminal.detach();
    terminal.block_search_message("Foo", "x", process_terminal::SearchState::Start);
    assert_eq!(redraw(&mut cache, terminal.detach()), None);
}

#[test]
fn snapshots_are_compared_by_value() {
    let terminal = dashboard();
    let a = terminal.detach();
    let b = a.detach();
    assert!(a.same_as(&b));
    assert_eq!(a, b);
    let mut c = a.detach();
    c.processes[1].err_messages[0].push('!');
    assert!(!a.same_as(&c));
    let mut d = a.detach();
    d.processes[3].name = "baz".to_string();
    assert!(!a.same_as(&d));
    let mut e = a.detach();
    e.processes[0].out_scroll.x = 1;
    assert!(!a.same_as(&e));
    let mut f = a.detach();
    f.main_messages.push(String::new());
    assert!(!a.same_as(&f));
    let mut g = a.detach();
    g.processes.pop();
    assert!(!a.same_as(&g));
    let mut h = a.detach();
    h.processes[2].settings = ProcessSettings::new(MessageSettings::Output);
    assert!(!a.same_as(&h));

    assert!(same_lines(&lines(&["a", "b"]), &lines(&["a", "b"])));
    assert!(!same_lines(&lines(&["a", "b"]), &lines(&["a"])));
    assert!(!same_lines(&lines(&["a", "b"]), &lines(&["a", "c"])));
}

#[test]
fn snapshot_holds_what_the_dashboard_shows() {
    let terminal = dashboard();
    let cache = terminal.detach();
    assert_eq!(cache.main_messages, lines(&["main"]));
    assert_eq!(cache.main_scroll, BaseStatus::default());
    assert_eq!(cache.processes.len(), 4);
    let bar: &Process = &terminal.processes()[1];
    assert_eq!(
        cache.processes[1],
        DetachProcess {
            name: "Bar".to_string(),
            out_messages: lines(&["bar out 1", "bar out 2"]),
            err_messages: lines(&["bar err"]),
            settings: bar.settings,
            out_scroll: bar.out_scroll,
            err_scroll: bar.err_scroll,
        }
    );
    assert_eq!(bar.detach(), cache.processes[1]);
    assert!(cache.processes[1].same_as(&cache.processes[1].detach()));
    assert!(!cache.processes[1].same_as(&cache.processes[0]));

    let built = DrawCache::new(lines(&["main"]), BaseStatus::default(), Vec::new());
    assert_eq!(built.main_messages, lines(&["main"]));
    assert!(built.processes.is_empty());
    let empty = DrawCache::default_detach();
    assert!(empty.main_messages.is_empty());
    assert_eq!(empty.main_scroll, BaseStatus::default());
    assert!(empty.processes.is_empty());
}
