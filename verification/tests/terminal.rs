use alacritty_terminal::term::cell::Cell;
use alacritty_terminal::term::TermMode;
use alacritty_terminal::Grid;
use modernterm::size::{Size, TerminalSize, WindowDimensions};
use modernterm::terminal::{
    scroll_sequence, BackendCommand, BackendEffect, BackendSettings, EngineSyncError,
    RenderableContent, TerminalBackend,
};

fn backend() -> TerminalBackend {
    TerminalBackend::new(4, 321, Grid::new(2, 3, 0), Cell::default(), TermMode::empty())
}

#[test]
fn settings_force_the_utf8_locale() {
    let settings = BackendSettings::for_shell(Some("/bin/bash".to_string()));
    assert_eq!(settings.shell, "/bin/bash");
    assert!(settings.args.is_empty());
    assert!(settings.working_directory.is_none());
    let expected: Vec<(String, String)> = vec![
        ("LANG".to_string(), "en_US.UTF-8".to_string()),
        ("LC_ALL".to_string(), "en_US.UTF-8".to_string()),
        ("LC_CTYPE".to_string(), "en_US.UTF-8".to_string()),
    ];
    assert_eq!(settings.env, expected);
}

#[test]
fn settings_fall_back_to_zsh() {
    assert_eq!(BackendSettings::for_shell(None).shell, "/bin/zsh");
}

#[test]
fn a_new_backend_has_the_default_size() {
    let backend = backend();
    assert_eq!(backend.id(), 4);
    assert_eq!(backend.pty_id(), 321);
    assert_eq!(backend.size(), TerminalSize::default());
    assert_eq!(backend.last_content().cursor_line, 0);
    assert_eq!(backend.last_content().cursor_col, 0);
    assert!(backend.last_content().selectable_range.is_none());
    assert_eq!(backend.last_content().terminal_size, TerminalSize::default());
}

#[test]
fn scroll_sequence_has_one_triple_per_line() {
    assert_eq!(scroll_sequence(0), Vec::<u8>::new());
    assert_eq!(scroll_sequence(1), vec![0x1b, b'O', b'B']);
    assert_eq!(scroll_sequence(-1), vec![0x1b, b'O', b'A']);
    assert_eq!(
        scroll_sequence(-3),
        vec![0x1b, b'O', b'A', 0x1b, b'O', b'A', 0x1b, b'O', b'A']
    );
    assert_eq!(scroll_sequence(5).len(), 15);
}

#[test]
fn write_asks_for_the_bytes_and_the_bottom() {
    let mut backend = backend();
    let effect = backend.apply_command(false, BackendCommand::Write(b"ls\r".to_vec()));
    assert_eq!(effect, BackendEffect::Write { bytes: b"ls\r".to_vec(), scroll_to_bottom: true });
    assert_eq!(backend.size(), TerminalSize::default());
}

#[test]
fn scroll_in_application_mode_sends_escapes_only() {
    let mut backend = backend();
    let effect = backend.apply_command(true, BackendCommand::Scroll(-2));
    assert_eq!(
        effect,
        BackendEffect::Write {
            bytes: vec![0x1b, b'O', b'A', 0x1b, b'O', b'A'],
            scroll_to_bottom: false
        }
    );
}

#[test]
fn scroll_otherwise_moves_the_viewport_only() {
    let mut backend = backend();
    assert_eq!(
        backend.apply_command(false, BackendCommand::Scroll(-2)),
        BackendEffect::ScrollDisplay(-2)
    );
    assert_eq!(
        backend.apply_command(false, BackendCommand::Scroll(7)),
        BackendEffect::ScrollDisplay(7)
    );
}

#[test]
fn the_mode_decides_where_a_scroll_goes() {
    let mut backend = backend();
    let both = TermMode::ALT_SCREEN | TermMode::ALTERNATE_SCROLL;
    assert_eq!(
        backend.process_command(&both, BackendCommand::Scroll(2)),
        BackendEffect::Write {
            bytes: vec![0x1b, b'O', b'B', 0x1b, b'O', b'B'],
            scroll_to_bottom: false
        }
    );
    assert_eq!(
        backend.process_command(&TermMode::ALT_SCREEN, BackendCommand::Scroll(2)),
        BackendEffect::ScrollDisplay(2)
    );
    assert_eq!(
        backend.process_command(&TermMode::ALTERNATE_SCROLL, BackendCommand::Scroll(2)),
        BackendEffect::ScrollDisplay(2)
    );
    assert_eq!(
        backend.process_command(&TermMode::empty(), BackendCommand::Scroll(2)),
        BackendEffect::ScrollDisplay(2)
    );
}

#[test]
fn resize_command_reports_the_new_window_once() {
    let mut backend = backend();
    let layout = Size { width: 600, height: 240 };
    let font = Size { width: 6, height: 12 };
    assert_eq!(
        backend.process_command(&TermMode::empty(), BackendCommand::Resize(layout, font)),
        BackendEffect::Resize(WindowDimensions {
            num_lines: 20,
            num_cols: 100,
            cell_width: 6,
            cell_height: 12
        })
    );
    assert_eq!(backend.size().columns(), 100);
    assert_eq!(
        backend.process_command(&TermMode::empty(), BackendCommand::Resize(layout, font)),
        BackendEffect::Nothing
    );
    assert_eq!(backend.resize(layout, font), None);
}

#[test]
fn resize_command_below_one_cell_is_dropped() {
    let mut backend = backend();
    let effect = backend.apply_command(
        false,
        BackendCommand::Resize(Size { width: 3, height: 300 }, Size { width: 6, height: 12 }),
    );
    assert_eq!(effect, BackendEffect::Nothing);
    assert_eq!(backend.size(), TerminalSize::default());
}

#[test]
fn sync_caches_what_was_read_with_the_current_size() {
    let mut backend = backend();
    backend.resize(Size { width: 600, height: 240 }, Size { width: 6, height: 12 });
    let fresh = RenderableContent {
        grid: Grid::new(1, 1, 0),
        selectable_range: None,
        cursor: Cell::default(),
        terminal_mode: TermMode::ALT_SCREEN,
        terminal_size: TerminalSize::default(),
        cursor_line: 5,
        cursor_col: 9,
    };
    backend.sync(Ok(fresh));
    assert_eq!(backend.last_content().cursor_line, 5);
    assert_eq!(backend.last_content().cursor_col, 9);
    assert_eq!(backend.last_content().terminal_mode, TermMode::ALT_SCREEN);
    assert_eq!(backend.last_content().terminal_size, backend.size());
    assert_eq!(backend.last_content().terminal_size.columns(), 100);
}

#[test]
fn sync_serves_the_stale_copy_when_the_engine_cannot_be_read() {
    let mut backend = backend();
    let fresh = RenderableContent {
        grid: Grid::new(1, 1, 0),
        selectable_range: None,
        cursor: Cell::default(),
        terminal_mode: TermMode::empty(),
        terminal_size: TerminalSize::default(),
        cursor_line: 5,
        cursor_col: 9,
    };
    backend.sync(Ok(fresh));
    backend.sync(Err(EngineSyncError::Lock));
    assert_eq!(backend.last_content().cursor_line, 5);
    backend.sync(Err(EngineSyncError::Inconsistent));
    assert_eq!(backend.last_content().cursor_col, 9);
}

#[test]
fn default_content_is_empty() {
    let content = RenderableContent::default();
    assert_eq!(content.cursor_line, 0);
    assert_eq!(content.cursor_col, 0);
    assert!(content.selectable_range.is_none());
    assert_eq!(content.terminal_mode, TermMode::empty());
    assert_eq!(content.terminal_size, TerminalSize::default());
    let mut backend = backend();
    assert_eq!(
        backend.process_command(&content.terminal_mode, BackendCommand::Scroll(1)),
        BackendEffect::ScrollDisplay(1)
    );
}

#[test]
fn the_first_resize_of_a_new_session_is_applied() {
    let mut backend = backend();
    let notice = backend.resize(Size { width: 800, height: 600 }, Size { width: 6, height: 12 });
    assert_eq!(
        notice,
        Some(WindowDimensions { num_lines: 50, num_cols: 133, cell_width: 6, cell_height: 12 })
    );
    assert_eq!(backend.size().columns(), 133);
    assert_eq!(backend.size().screen_lines(), 50);
    assert_eq!(
        backend.resize(Size { width: 800, height: 600 }, Size { width: 6, height: 12 }),
        None
    );
}

#[test]
fn no_environment_name_occurs_twice() {
    let settings = BackendSettings::for_shell(None);
    for (i, first) in settings.env.iter().enumerate() {
        for second in settings.env.iter().skip(i + 1) {
            assert_ne!(first.0, second.0);
        }
    }
}
