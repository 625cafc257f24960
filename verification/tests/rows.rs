use process_terminal::draw::pan_line;
use process_terminal::{render_frame, wrap_line, BlocFocus, BlockType, Rows, ScrollStatus};

fn lines(text: &[&str]) -> Vec<String> {
    text.iter().map(|s| s.to_string()).collect()
}

#[test]
fn line_that_fits_is_one_row() {
    assert_eq!(wrap_line("hello", 5), lines(&["hello"]));
    assert_eq!(wrap_line("hello", 80), lines(&["hello"]));
    assert_eq!(wrap_line("", 4), lines(&[""]));
    assert_eq!(wrap_line("", 0), lines(&[""]));
}

#[test]
fn pane_without_width_does_not_wrap() {
    assert_eq!(wrap_line("hello world", 0), lines(&["hello world"]));
}

#[test]
fn long_line_is_cut_at_the_width() {
    assert_eq!(wrap_line("abcdefghij", 4), lines(&["abcd", "efgh", "ij"]));
    assert_eq!(wrap_line("abcdefgh", 4), lines(&["abcd", "efgh"]));
    assert_eq!(wrap_line("abcde", 4), lines(&["abcd", "e"]));
    assert_eq!(wrap_line("abc", 1), lines(&["a", "b", "c"]));
}

#[test]
fn further_rows_repeat_the_leading_whitespace() {
    assert_eq!(wrap_line("  abcdefgh", 5), lines(&["  abc", "  def", "  gh"]));
    assert_eq!(wrap_line("\t- item text", 6), lines(&["\t- ite", "\tm tex", "\tt"]));
    assert_eq!(wrap_line(" \t ab", 4), lines(&[" \t a", " \t b"]));
}

#[test]
fn whitespace_that_fills_a_row_is_not_repeated() {
    assert_eq!(wrap_line("    abcdef", 4), lines(&["    ", "abcd", "ef"]));
    assert_eq!(wrap_line("      ab", 4), lines(&["    ", "  ab"]));
    assert_eq!(wrap_line("   ", 2), lines(&["  ", " "]));
}

#[test]
fn width_counts_characters() {
    assert_eq!(wrap_line("äöüßé", 2), lines(&["äö", "üß", "é"]));
    assert_eq!(wrap_line(" ñandú", 3), lines(&[" ña", " nd", " ú"]));
}

#[test]
fn rows_hold_the_whole_line() {
    let line = "   The quick brown fox jumps over the lazy dog";
    for width in 4..60u16 {
        let rows = wrap_line(line, width);
        let mut joined = rows[0].clone();
        for row in &rows[1..] {
            assert!(row.starts_with("   "));
            joined.push_str(&row[3..]);
        }
        assert_eq!(joined, line);
        for row in &rows {
            assert!(row.chars().count() <= width as usize);
        }
    }
}

#[test]
fn panned_line_loses_its_first_characters() {
    assert_eq!(pan_line("hello", 0), "hello");
    assert_eq!(pan_line("hello", 2), "llo");
    assert_eq!(pan_line("hello", 5), "");
    assert_eq!(pan_line("hello", 6), "");
    assert_eq!(pan_line("héllo", 2), "llo");
    assert_eq!(pan_line("", u16::MAX), "");
}

#[test]
fn rows_of_a_pane_that_follows_the_newest_line() {
    let pane = render_frame(
        "Foo".to_string(),
        BlockType::Output,
        BlocFocus::Enter(1),
        lines(&["short", "  a longer line", ""]),
        &ScrollStatus { x: 0, y: None },
    );
    assert_eq!(
        pane.rows(6),
        Rows { rows: lines(&["short", "  a lo", "  nger", "   lin", "  e", ""]), selected: Some(5) }
    );
    assert_eq!(
        pane.rows(80),
        Rows { rows: lines(&["short", "  a longer line", ""]), selected: Some(2) }
    );
}

#[test]
fn pinned_pane_is_scrolled_to_the_last_row_of_the_line_at_its_bottom() {
    let text = lines(&["first line", "second", "third line"]);
    let at = |y: usize| {
        render_frame(
            String::new(),
            BlockType::Main,
            BlocFocus::Exit,
            text.clone(),
            &ScrollStatus { x: 0, y: Some(y) },
        )
        .rows(5)
    };
    let rows = lines(&["first", " line", "secon", "d", "third", " line"]);
    assert_eq!(at(0), Rows { rows: rows.clone(), selected: None });
    assert_eq!(at(1), Rows { rows: rows.clone(), selected: Some(1) });
    assert_eq!(at(2), Rows { rows: rows.clone(), selected: Some(3) });
    assert_eq!(at(3), Rows { rows: rows.clone(), selected: Some(5) });
    assert_eq!(at(4), Rows { rows, selected: Some(5) });
}

#[test]
fn panned_pane_wraps_what_is_seen() {
    let pane = render_frame(
        String::new(),
        BlockType::Error,
        BlocFocus::Exit,
        lines(&["0123456789", "ab"]),
        &ScrollStatus { x: 3, y: None },
    );
    assert_eq!(pane.rows(4), Rows { rows: lines(&["3456", "789", ""]), selected: Some(2) });
}

#[test]
fn empty_pane_has_no_rows() {
    let pane = render_frame(
        String::new(),
        BlockType::Main,
        BlocFocus::Enter(0),
        Vec::new(),
        &ScrollStatus { x: 0, y: Some(3) },
    );
    assert_eq!(pane.rows(10), Rows { rows: Vec::new(), selected: None });
}

#[test]
fn selection_outside_the_pane_gives_no_row() {
    let mut pane = render_frame(
        String::new(),
        BlockType::Main,
        BlocFocus::Enter(0),
        lines(&["a"]),
        &ScrollStatus { x: 0, y: None },
    );
    pane.selected = Some(4);
    assert_eq!(pane.rows(10), Rows { rows: lines(&["a"]), selected: None });
    pane.selected = None;
    assert_eq!(pane.rows(10), Rows { rows: lines(&["a"]), selected: None });
}
