use alacritty_terminal::index::{Column, Line};
use alacritty_terminal::term::cell::Cell;
use alacritty_terminal::term::TermMode;
use alacritty_terminal::Grid;
use modernterm::display::{
    checked_grid_text, draw_cursor, extract_grid_text, grid_is_readable, join_lines, text_or_notice,
};
use modernterm::size::TerminalSize;
use modernterm::terminal::RenderableContent;

const NOTICE: &str = "ModernTerm Terminal - Real PTY Mode\nType any command and press Enter!\n\n$ ";

fn content(rows: &[&str], columns: usize, cursor_line: usize, cursor_col: usize) -> RenderableContent {
    let mut grid: Grid<Cell> = Grid::new(rows.len(), columns, 0);
    for (line, text) in rows.iter().enumerate() {
        for (column, ch) in text.chars().enumerate() {
            grid[Line(line as i32)][Column(column)].c = ch;
        }
    }
    RenderableContent {
        grid,
        selectable_range: None,
        cursor: Cell::default(),
        terminal_mode: TermMode::empty(),
        terminal_size: TerminalSize::default(),
        cursor_line,
        cursor_col,
    }
}

#[test]
fn lines_are_joined_and_trimmed_and_the_cursor_is_drawn() {
    let content = content(&["$ ls", "a.txt", "$"], 6, 2, 2);
    assert_eq!(extract_grid_text(&content), "$ ls\na.txt\n$ \u{2588}   ");
}

#[test]
fn the_cursor_line_keeps_its_full_width() {
    let content = content(&["ab", "cd"], 4, 0, 0);
    assert_eq!(extract_grid_text(&content), "\u{2588}b  \ncd");
}

#[test]
fn a_cursor_beyond_the_grid_is_drawn_in_the_last_cell() {
    let content = content(&["ab", "cd"], 3, 9, 9);
    assert_eq!(extract_grid_text(&content), "ab\ncd\u{2588}");
}

#[test]
fn blank_lines_stay_as_empty_lines() {
    let content = content(&["x", "", "y"], 3, 0, 1);
    assert_eq!(extract_grid_text(&content), "x\u{2588} \n\ny");
}

#[test]
fn an_empty_grid_shows_the_notice() {
    assert_eq!(extract_grid_text(&RenderableContent::default()), NOTICE);
    assert_eq!(checked_grid_text(&RenderableContent::default()), Some(NOTICE.to_string()));
}

#[test]
fn a_small_grid_is_readable() {
    let content = content(&["a"], 1, 0, 0);
    assert!(grid_is_readable(&content));
    assert_eq!(checked_grid_text(&content), Some("\u{2588}".to_string()));
}

#[test]
fn the_cursor_is_drawn_in_its_cell_or_the_last() {
    assert_eq!(draw_cursor(vec!['a', 'b', 'c'], 1), vec!['a', '\u{2588}', 'c']);
    assert_eq!(draw_cursor(vec!['a', 'b', 'c'], 3), vec!['a', 'b', '\u{2588}']);
    assert_eq!(draw_cursor(vec!['a', 'b', 'c'], 0), vec!['\u{2588}', 'b', 'c']);
    assert_eq!(draw_cursor(Vec::new(), 0), Vec::<char>::new());
}

#[test]
fn lines_are_joined_with_line_feeds() {
    assert_eq!(join_lines(&Vec::new()), "");
    assert_eq!(join_lines(&vec!["only".to_string()]), "only");
    assert_eq!(
        join_lines(&vec!["a".to_string(), String::new(), "c".to_string()]),
        "a\n\nc"
    );
}

#[test]
fn the_notice_stands_for_a_blank_text() {
    assert_eq!(text_or_notice("  \n ".to_string(), ""), NOTICE);
    assert_eq!(text_or_notice("  ls ".to_string(), "ls"), "  ls ");
}

#[test]
fn a_grid_of_spaces_with_the_cursor_is_not_blank() {
    let content = content(&["", ""], 2, 1, 0);
    assert_eq!(extract_grid_text(&content), "\n\u{2588} ");
}
