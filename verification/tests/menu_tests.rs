use term_menu::engine::{select_model, SelectError, SelectionOutcome, TerminalModel};
use term_menu::key::{KeyCode, KeyPress};
use term_menu::menu::{MenuState, StepResult};
use term_menu::render::render_lines;

fn key(code: KeyCode) -> KeyPress {
    KeyPress::bare(code)
}

fn options(names: &[&str]) -> Vec<String> {
    names.iter().map(|s| s.to_string()).collect()
}

#[test]
fn down_down_enter_selects_third() {
    let mut term = TerminalModel::at_rest();
    let keys = vec![key(KeyCode::Down), key(KeyCode::Down), key(KeyCode::Enter)];
    let r = select_model(
        &mut term,
        "Select position".to_string(),
        options(&["left", "right", "above", "below"]),
        &keys,
    );
    assert_eq!(r, Ok(SelectionOutcome::Selected("above".to_string())));
    assert!(!term.raw_mode);
    assert!(term.cursor_visible);
    assert!(term.region.is_empty());
}

#[test]
fn up_at_top_then_q_cancels() {
    let mut term = TerminalModel::at_rest();
    let keys = vec![key(KeyCode::Up), key(KeyCode::Char('q'))];
    let r = select_model(
        &mut term,
        "Select display".to_string(),
        options(&["HDMI-1", "DP-1"]),
        &keys,
    );
    assert_eq!(r, Ok(SelectionOutcome::Cancelled));
    assert!(!term.raw_mode);
    assert!(term.cursor_visible);
    assert!(term.region.is_empty());
}

#[test]
fn immediate_enter_selects_single_option() {
    let mut term = TerminalModel::at_rest();
    let keys = vec![key(KeyCode::Enter)];
    let r = select_model(&mut term, "Select display".to_string(), options(&["DP-2"]), &keys);
    assert_eq!(r, Ok(SelectionOutcome::Selected("DP-2".to_string())));
    assert!(!term.raw_mode);
    assert!(term.cursor_visible);
}

#[test]
fn empty_option_list_short_circuits() {
    let mut term = TerminalModel::at_rest();
    let keys = vec![key(KeyCode::Enter)];
    let r = select_model(&mut term, "Select display".to_string(), options(&[]), &keys);
    assert_eq!(r, Ok(SelectionOutcome::Cancelled));
    // The terminal was never touched: no raw mode, cursor still visible,
    // nothing drawn.
    assert!(!term.raw_mode);
    assert!(term.cursor_visible);
    assert!(term.region.is_empty());
}

#[test]
fn escape_cancels_like_q() {
    let opts = ["HDMI-1", "DP-1"];
    let mut term_q = TerminalModel::at_rest();
    let r_q = select_model(
        &mut term_q,
        "t".to_string(),
        options(&opts),
        &vec![key(KeyCode::Char('q'))],
    );
    let mut term_esc = TerminalModel::at_rest();
    let r_esc = select_model(
        &mut term_esc,
        "t".to_string(),
        options(&opts),
        &vec![key(KeyCode::Esc)],
    );
    assert_eq!(r_q, r_esc);
    assert_eq!(r_q, Ok(SelectionOutcome::Cancelled));
    assert_eq!(term_q.raw_mode, term_esc.raw_mode);
    assert_eq!(term_q.cursor_visible, term_esc.cursor_visible);
    assert_eq!(term_q.region, term_esc.region);
}

#[test]
fn exhausted_input_reports_read_failure_and_restores_terminal() {
    let mut term = TerminalModel::at_rest();
    let keys = vec![key(KeyCode::Down), key(KeyCode::Char('x'))];
    let r = select_model(&mut term, "title".to_string(), options(&["a", "b"]), &keys);
    assert_eq!(r, Err(SelectError::InputReadFailure));
    // The guard still ran: mode and cursor are restored.
    assert!(!term.raw_mode);
    assert!(term.cursor_visible);
    // The last frame is still on screen and shows the moved highlight.
    assert_eq!(term.region, vec!["title".to_string(), "  a".to_string(), "> b".to_string()]);
}

#[test]
fn down_clamps_at_last_option() {
    let mut s = MenuState::new("t".to_string(), options(&["a", "b", "c"]));
    for _ in 0..5 {
        let r = s.step(key(KeyCode::Down));
        assert_eq!(r, StepResult::Continue);
    }
    assert_eq!(s.highlighted_index, 2);
}

#[test]
fn up_clamps_at_first_option() {
    let mut s = MenuState::new("t".to_string(), options(&["a", "b", "c"]));
    s.step(key(KeyCode::Down));
    for _ in 0..5 {
        let r = s.step(key(KeyCode::Up));
        assert_eq!(r, StepResult::Continue);
    }
    assert_eq!(s.highlighted_index, 0);
}

#[test]
fn other_keys_leave_state_alone() {
    let mut s = MenuState::new("t".to_string(), options(&["a", "b"]));
    assert_eq!(s.step(key(KeyCode::Char('x'))), StepResult::Continue);
    assert_eq!(s.step(key(KeyCode::Other)), StepResult::Continue);
    // 'q' with a modifier held is not the cancel key.
    let modified_q = KeyPress { code: KeyCode::Char('q'), modifiers_empty: false };
    assert_eq!(s.step(modified_q), StepResult::Continue);
    assert_eq!(s.highlighted_index, 0);
}

#[test]
fn enter_reports_accept_without_moving() {
    let mut s = MenuState::new("t".to_string(), options(&["a", "b"]));
    s.step(key(KeyCode::Down));
    assert_eq!(s.step(key(KeyCode::Enter)), StepResult::Accept);
    assert_eq!(s.highlighted_index, 1);
}

#[test]
fn render_marks_exactly_the_highlighted_line() {
    let mut s = MenuState::new("Pick one".to_string(), options(&["first", "second", "third"]));
    s.step(key(KeyCode::Down));
    let lines = render_lines(&s);
    assert_eq!(
        lines,
        vec![
            "Pick one".to_string(),
            "  first".to_string(),
            "> second".to_string(),
            "  third".to_string(),
        ]
    );
    let marked = lines.iter().filter(|l| l.starts_with("> ")).count();
    assert_eq!(marked, 1);
}

#[test]
fn render_of_fresh_menu_highlights_first_option() {
    let s = MenuState::new("Title".to_string(), options(&["only"]));
    let lines = render_lines(&s);
    assert_eq!(lines, vec!["Title".to_string(), "> only".to_string()]);
}
