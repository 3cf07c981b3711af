use alacritty_terminal::term::cell::Cell;
use alacritty_terminal::term::TermMode;
use alacritty_terminal::Grid;
use modernterm::input::{char_is_control, char_to_bytes, encode_char, TextInputOutcome};
use modernterm::state::{AppState, SpawnedTerminal, TerminalTab};
use modernterm::terminal::SpawnError;

fn spawned(pty_id: u32) -> Result<SpawnedTerminal, SpawnError> {
    Ok(SpawnedTerminal {
        pty_id,
        grid: Grid::new(2, 2, 0),
        cursor: Cell::default(),
        terminal_mode: TermMode::empty(),
    })
}

fn with_tabs(count: usize) -> AppState {
    let mut state = AppState::new();
    for _ in 0..count {
        state.create_new_tab(spawned(100), "zsh".to_string(), None).unwrap();
    }
    state
}

fn tab() -> TerminalTab {
    TerminalTab {
        id: 1,
        title: "zsh 1".to_string(),
        current_directory: None,
        process_name: Some("zsh".to_string()),
        input_buffer: String::new(),
        command_history: Vec::new(),
        output_lines: Vec::new(),
    }
}

#[test]
fn control_codes_are_recognised() {
    assert!(char_is_control('\u{0}'));
    assert!(char_is_control('\t'));
    assert!(char_is_control('\u{1f}'));
    assert!(!char_is_control(' '));
    assert!(!char_is_control('~'));
    assert!(char_is_control('\u{7f}'));
    assert!(char_is_control('\u{9f}'));
    assert!(!char_is_control('\u{a0}'));
    assert!(!char_is_control('한'));
    for code in 0..0x3000u32 {
        if let Some(ch) = char::from_u32(code) {
            assert_eq!(char_is_control(ch), ch.is_control());
        }
    }
}

#[test]
fn characters_are_encoded_as_utf8() {
    assert_eq!(encode_char('a'), vec![0x61]);
    assert_eq!(encode_char('é'), vec![0xc3, 0xa9]);
    assert_eq!(encode_char('한'), vec![0xed, 0x95, 0x9c]);
    assert_eq!(encode_char('😀'), vec![0xf0, 0x9f, 0x98, 0x80]);
}

#[test]
fn each_character_sends_at_most_one_write() {
    assert_eq!(char_to_bytes('\r'), Some(vec![0x0d]));
    assert_eq!(char_to_bytes('\n'), Some(vec![0x0d]));
    assert_eq!(char_to_bytes('\u{8}'), None);
    assert_eq!(char_to_bytes('\u{7f}'), None);
    assert_eq!(char_to_bytes('\t'), None);
    assert_eq!(char_to_bytes('x'), Some(vec![0x78]));
    assert_eq!(char_to_bytes('한'), Some(vec![0xed, 0x95, 0x9c]));
}

#[test]
fn typing_fills_the_buffer() {
    let mut tab = tab();
    for ch in "ls -l".chars() {
        tab.type_char(ch);
    }
    assert_eq!(tab.input_buffer, "ls -l");
    tab.type_char('\u{7f}');
    assert_eq!(tab.input_buffer, "ls -");
    tab.type_char('\u{8}');
    assert_eq!(tab.input_buffer, "ls ");
    tab.type_char('\u{1b}');
    assert_eq!(tab.input_buffer, "ls ");
}

#[test]
fn erasing_an_empty_buffer_changes_nothing() {
    let mut tab = tab();
    tab.type_char('\u{8}');
    assert_eq!(tab.input_buffer, "");
}

#[test]
fn committing_a_line_records_the_trimmed_command() {
    let mut tab = tab();
    tab.input_buffer = "  cargo build \t".to_string();
    assert_eq!(tab.commit_line(), Some("cargo build".to_string()));
    assert_eq!(tab.command_history, vec!["cargo build".to_string()]);
    assert!(tab.output_lines.is_empty());
    assert_eq!(tab.input_buffer, "");
    assert_eq!(tab.title, "zsh 1");
}

#[test]
fn committing_a_blank_line_leaves_a_blank_output_line() {
    let mut tab = tab();
    tab.input_buffer = "   ".to_string();
    assert_eq!(tab.commit_line(), None);
    assert!(tab.command_history.is_empty());
    assert_eq!(tab.output_lines, vec![String::new()]);
    assert_eq!(tab.input_buffer, "");
    tab.type_char('\n');
    assert_eq!(tab.output_lines, vec![String::new(), String::new()]);
}

#[test]
fn text_input_goes_to_the_active_tab_and_the_focused_session() {
    let mut state = with_tabs(2);
    let outcome = state.handle_text_input("ls\r");
    assert_eq!(
        outcome,
        Some(TextInputOutcome { terminal_id: 2, writes: vec![vec![b'l'], vec![b's'], vec![0x0d]] })
    );
    let tab = state.tabs.get(&2).unwrap();
    assert_eq!(tab.command_history, vec!["ls".to_string()]);
    assert_eq!(tab.input_buffer, "");
    assert_eq!(state.tabs.get(&1).unwrap().input_buffer, "");
    assert_eq!(state.follow_output.get(&2), Some(&true));
}

#[test]
fn text_input_without_a_line_end_keeps_the_line_open() {
    let mut state = with_tabs(1);
    state.follow_output.insert(1, false);
    let outcome = state.handle_text_input("a\u{8}bc\u{1}");
    assert_eq!(
        outcome,
        Some(TextInputOutcome { terminal_id: 1, writes: vec![vec![b'a'], vec![b'b'], vec![b'c']] })
    );
    assert_eq!(state.tabs.get(&1).unwrap().input_buffer, "bc");
    assert_eq!(state.follow_output.get(&1), Some(&false));
}

#[test]
fn text_input_without_focus_is_dropped() {
    let mut state = with_tabs(1);
    state.focused_terminal = None;
    assert_eq!(state.handle_text_input("ls\r"), None);
    assert_eq!(state.tabs.get(&1).unwrap().input_buffer, "");
    assert!(state.tabs.get(&1).unwrap().command_history.is_empty());
}

#[test]
fn text_input_for_a_dead_session_is_typed_but_not_written() {
    let mut state = with_tabs(1);
    state.focused_terminal = Some(50);
    let outcome = state.handle_text_input("ls\r");
    assert_eq!(outcome, Some(TextInputOutcome { terminal_id: 50, writes: vec![] }));
    assert_eq!(state.tabs.get(&1).unwrap().command_history, vec!["ls".to_string()]);
    assert!(state.follow_output.is_empty());
}

#[test]
fn empty_text_input_changes_nothing() {
    let mut state = with_tabs(1);
    assert_eq!(
        state.handle_text_input(""),
        Some(TextInputOutcome { terminal_id: 1, writes: vec![] })
    );
    assert_eq!(state.tabs.get(&1).unwrap().input_buffer, "");
}

#[test]
fn multibyte_text_is_written_character_by_character() {
    let mut state = with_tabs(1);
    let outcome = state.handle_text_input("한글").unwrap();
    assert_eq!(outcome.writes, vec![vec![0xed, 0x95, 0x9c], vec![0xea, 0xb8, 0x80]]);
    assert_eq!(state.tabs.get(&1).unwrap().input_buffer, "한글");
}

#[test]
fn recording_a_command_appends_it_to_the_history() {
    let mut tab = tab();
    tab.input_buffer = "  ls  ".to_string();
    tab.command_history.push("pwd".to_string());
    assert_eq!(tab.record_line("ls".to_string()), Some("ls".to_string()));
    assert_eq!(tab.command_history, vec!["pwd".to_string(), "ls".to_string()]);
    assert_eq!(tab.input_buffer, "");
    assert_eq!(tab.record_line(String::new()), None);
    assert_eq!(tab.command_history.len(), 2);
    assert_eq!(tab.output_lines, vec![String::new()]);
}
