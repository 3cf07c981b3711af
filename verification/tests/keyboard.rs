use alacritty_terminal::term::cell::Cell;
use alacritty_terminal::term::TermMode;
use alacritty_terminal::Grid;
use modernterm::grid::ViewMode;
use modernterm::keyboard::KeyOutcome;
use modernterm::keys::{KeyCode, KeyEvent, KeyModifiers};
use modernterm::state::{AppState, SpawnedTerminal};
use modernterm::terminal::{BackendEffect, SpawnError};

fn spawned(pty_id: u32) -> Result<SpawnedTerminal, SpawnError> {
    Ok(SpawnedTerminal {
        pty_id,
        grid: Grid::new(2, 2, 0),
        cursor: Cell::default(),
        terminal_mode: TermMode::empty(),
    })
}

fn with_tabs(count: usize) -> AppState {
    let mut state = AppState::new();
    for _ in 0..count {
        state.create_new_tab(spawned(100), "zsh".to_string(), None).unwrap();
    }
    state
}

fn key(key_code: KeyCode, control: bool, shift: bool) -> KeyEvent {
    KeyEvent {
        key_code,
        is_repeat: false,
        modifiers: KeyModifiers { shift, control, alt: false, logo: false },
    }
}

fn write(terminal_id: u64, bytes: &[u8]) -> KeyOutcome {
    KeyOutcome::Effect {
        terminal_id,
        effect: BackendEffect::Write { bytes: bytes.to_vec(), scroll_to_bottom: true },
    }
}

#[test]
fn enter_commits_the_line_and_sends_a_carriage_return() {
    let mut state = with_tabs(1);
    state.handle_text_input("make");
    state.follow_output.insert(1, false);
    let outcome = state.handle_key_down(&TermMode::empty(), &key(KeyCode::ReturnKey, false, false));
    assert_eq!(outcome, write(1, b"\r"));
    assert_eq!(state.tabs.get(&1).unwrap().command_history, vec!["make".to_string()]);
    assert_eq!(state.tabs.get(&1).unwrap().input_buffer, "");
    assert_eq!(state.follow_output.get(&1), Some(&true));
}

#[test]
fn enter_without_focus_does_nothing() {
    let mut state = with_tabs(1);
    state.handle_text_input("make");
    state.focused_terminal = None;
    let outcome = state.handle_key_down(&TermMode::empty(), &key(KeyCode::ReturnKey, false, false));
    assert_eq!(outcome, KeyOutcome::Nothing);
    assert_eq!(state.tabs.get(&1).unwrap().input_buffer, "make");
}

#[test]
fn enter_for_a_dead_session_only_commits() {
    let mut state = with_tabs(1);
    state.handle_text_input("make");
    state.focused_terminal = Some(70);
    assert_eq!(state.commit_active_line(), KeyOutcome::Refresh);
    assert_eq!(state.tabs.get(&1).unwrap().command_history, vec!["make".to_string()]);
}

#[test]
fn the_application_shortcuts_are_handed_back() {
    let mut state = with_tabs(1);
    let mode = TermMode::empty();
    assert_eq!(state.handle_key_down(&mode, &key(KeyCode::KeyT, true, false)), KeyOutcome::OpenTab);
    assert_eq!(state.handle_key_down(&mode, &key(KeyCode::KeyQ, true, false)), KeyOutcome::Quit);
    assert_eq!(state.handle_key_down(&mode, &key(KeyCode::KeyR, true, false)), KeyOutcome::Refresh);
    assert_eq!(state.handle_key_down(&mode, &key(KeyCode::KeyC, true, false)), KeyOutcome::Nothing);
    assert_eq!(state.tab_order, vec![1]);
}

#[test]
fn control_w_closes_the_active_tab_or_quits() {
    let mut state = with_tabs(2);
    let mode = TermMode::empty();
    assert_eq!(
        state.handle_key_down(&mode, &key(KeyCode::KeyW, true, false)),
        KeyOutcome::Closed { tab_id: 2, removed: vec![2] }
    );
    assert_eq!(state.tab_order, vec![1]);
    assert_eq!(state.handle_key_down(&mode, &key(KeyCode::KeyW, true, false)), KeyOutcome::Quit);
    assert_eq!(state.tab_order, vec![1]);
}

#[test]
fn control_s_toggles_the_grid() {
    let mut state = with_tabs(3);
    let mode = TermMode::empty();
    assert_eq!(state.handle_key_down(&mode, &key(KeyCode::KeyS, true, false)), KeyOutcome::Redraw);
    assert_eq!(
        state.view_mode,
        ViewMode::Grid { rows: 2, cols: 2, col_ratios: vec![1, 1], row_ratios: vec![1, 1] }
    );
    assert_eq!(state.handle_key_down(&mode, &key(KeyCode::KeyS, true, false)), KeyOutcome::Redraw);
    assert_eq!(state.view_mode, ViewMode::Single);
}

#[test]
fn control_shift_l_clears_the_screen() {
    let mut state = with_tabs(1);
    let outcome = state.handle_key_down(&TermMode::empty(), &key(KeyCode::KeyL, true, true));
    assert_eq!(outcome, write(1, b"clear\r"));
    assert_eq!(state.follow_output.get(&1), Some(&true));
    state.focused_terminal = None;
    assert_eq!(state.clear_focused_screen(), KeyOutcome::Nothing);
}

#[test]
fn page_keys_scroll_the_focused_session() {
    let mut state = with_tabs(1);
    let plain = TermMode::empty();
    assert_eq!(
        state.handle_key_down(&plain, &key(KeyCode::PageUp, false, false)),
        KeyOutcome::Effect { terminal_id: 1, effect: BackendEffect::ScrollDisplay(-5) }
    );
    assert_eq!(
        state.handle_key_down(&plain, &key(KeyCode::PageDown, false, true)),
        KeyOutcome::Effect { terminal_id: 1, effect: BackendEffect::ScrollDisplay(10) }
    );
    assert_eq!(state.follow_output.get(&1), None);
    let application = TermMode::ALT_SCREEN | TermMode::ALTERNATE_SCROLL;
    let outcome = state.handle_key_down(&application, &key(KeyCode::PageUp, false, false));
    let mut escapes = Vec::new();
    for _ in 0..5 {
        escapes.extend_from_slice(b"\x1bOA");
    }
    assert_eq!(
        outcome,
        KeyOutcome::Effect {
            terminal_id: 1,
            effect: BackendEffect::Write { bytes: escapes, scroll_to_bottom: false }
        }
    );
    state.focused_terminal = None;
    assert_eq!(
        state.handle_key_down(&plain, &key(KeyCode::PageUp, false, false)),
        KeyOutcome::Nothing
    );
}

#[test]
fn control_digit_keys_switch_the_active_tab() {
    let mut state = with_tabs(3);
    let mode = TermMode::empty();
    assert_eq!(state.handle_key_down(&mode, &key(KeyCode::Key1, true, false)), KeyOutcome::Redraw);
    assert_eq!(state.active_tab_id, 1);
    assert_eq!(state.focused_terminal, Some(1));
    assert_eq!(state.handle_key_down(&mode, &key(KeyCode::Key7, true, false)), KeyOutcome::Nothing);
    assert_eq!(state.active_tab_id, 1);
}

#[test]
fn other_keys_are_forwarded_and_resume_following() {
    let mut state = with_tabs(1);
    state.follow_output.insert(1, false);
    let outcome = state.handle_key_down(&TermMode::empty(), &key(KeyCode::ArrowUp, false, false));
    assert_eq!(outcome, write(1, b"\x1b[A"));
    assert_eq!(state.follow_output.get(&1), Some(&true));
    state.follow_output.insert(1, false);
    let outcome = state.handle_key_down(&TermMode::empty(), &key(KeyCode::KeyA, false, false));
    assert_eq!(outcome, KeyOutcome::Nothing);
    assert_eq!(state.follow_output.get(&1), Some(&true));
}

#[test]
fn forwarding_without_focus_does_nothing() {
    let mut state = with_tabs(1);
    state.focused_terminal = None;
    assert_eq!(
        state.forward_key_to_terminal(&key(KeyCode::ArrowUp, false, false)),
        KeyOutcome::Nothing
    );
    assert!(state.follow_output.is_empty());
}

#[test]
fn apply_key_takes_the_scroll_mode_as_given() {
    let mut state = with_tabs(1);
    assert_eq!(
        state.apply_key(true, &key(KeyCode::PageDown, false, false)),
        KeyOutcome::Effect {
            terminal_id: 1,
            effect: BackendEffect::Write { bytes: b"\x1bOB".repeat(5), scroll_to_bottom: false }
        }
    );
    assert_eq!(
        state.apply_key(false, &key(KeyCode::PageDown, false, false)),
        KeyOutcome::Effect { terminal_id: 1, effect: BackendEffect::ScrollDisplay(5) }
    );
    assert_eq!(state.apply_key(true, &key(KeyCode::F1, false, false)), write(1, b"\x1bOP"));
}
