//! The text that stands for a session's grid on the screen.

use crate::engine::{grid_chars, grid_line, grid_screen_lines};
use crate::terminal::RenderableContent;
use crate::text::{end_trimmed, string_from_chars, texts, trim_end_text, trim_text, trimmed};
use vstd::prelude::*;
use vstd::string::StringExecFns;

verus! {

/// The full block that marks the cursor.
pub const CURSOR_BLOCK: char = '\u{2588}';

/// The line on which the cursor is drawn: the line of the cursor, or the
/// last line where the cursor lies below it.
pub open spec fn cursor_line_shown(lines: nat, cursor_line: nat) -> nat {
    if lines == 0 {
        0
    } else if cursor_line < lines {
        cursor_line
    } else {
        (lines - 1) as nat
    }
}

/// A line with the cursor on it: the cursor's cell, or the last cell where
/// the cursor lies right of it, shows the block. Nothing is trimmed.
pub open spec fn line_with_cursor(row: Seq<char>, cursor_col: nat) -> Seq<char> {
    if row.len() == 0 {
        row
    } else if cursor_col < row.len() {
        row.update(cursor_col as int, CURSOR_BLOCK)
    } else {
        row.update(row.len() - 1, CURSOR_BLOCK)
    }
}

/// How each line of the grid is shown: the cursor's line with the cursor,
/// every other line without the white space at its end.
pub open spec fn shown(rows: Seq<Seq<char>>, cursor_line: nat, cursor_col: nat) -> Seq<Seq<char>> {
    Seq::new(
        rows.len(),
        |i: int|
            if i == cursor_line_shown(rows.len(), cursor_line) {
                line_with_cursor(rows[i], cursor_col)
            } else {
                end_trimmed(rows[i])
            },
    )
}

/// The lines with a line feed between every two of them.
pub open spec fn joined(lines: Seq<Seq<char>>) -> Seq<char>
    decreases lines.len(),
{
    if lines.len() == 0 {
        Seq::<char>::empty()
    } else if lines.len() == 1 {
        lines[0]
    } else {
        joined(lines.drop_last()) + seq!['\n'] + lines.last()
    }
}

/// What is shown in place of a grid that is blank.
pub open spec fn blank_notice() -> Seq<char> {
    "ModernTerm Terminal - Real PTY Mode\nType any command and press Enter!\n\n$ "@
}

/// A text of which trimming leaves `rest`, or the notice in its place
/// where trimming leaves nothing.
pub open spec fn or_notice(text: Seq<char>, rest: Seq<char>) -> Seq<char> {
    if rest.len() == 0 {
        blank_notice()
    } else {
        text
    }
}

/// The text that stands for a grid: its lines as they are shown, joined,
/// or the notice where that is nothing but white space.
pub open spec fn display_text(rows: Seq<Seq<char>>, cursor_line: nat, cursor_col: nat) -> Seq<
    char,
> {
    let text = joined(shown(rows, cursor_line, cursor_col));
    or_notice(text, trimmed(text))
}

/// Draws the cursor on a line.
pub fn draw_cursor(row: Vec<char>, cursor_col: usize) -> (line: Vec<char>)
    ensures
        line@ == line_with_cursor(row@, cursor_col as nat),
{
    let mut line = row;
    let len = line.len();
    if len == 0 {
    } else if cursor_col < len {
        line.set(cursor_col, CURSOR_BLOCK);
    } else {
        line.set(len - 1, CURSOR_BLOCK);
    }
    line
}

/// Joins lines with a line feed between every two of them.
pub fn join_lines(lines: &Vec<String>) -> (text: String)
    ensures
        text@ == joined(texts(lines@)),
{
    let mut text = String::new();
    let mut i: usize = 0;
    while i < lines.len()
        invariant
            i <= lines.len(),
            text@ == joined(texts(lines@).take(i as int)),
        decreases lines.len() - i,
    {
        if i > 0 {
            proof {
                reveal_strlit("\n");
            }
            text.append("\n");
            assert("\n"@ =~= seq!['\n']);
        }
        text.append(lines[i].as_str());
        proof {
            let next = texts(lines@).take(i + 1);
            assert(next.drop_last() =~= texts(lines@).take(i as int));
            assert(next.last() == lines@[i as int]@);
        }
        i = i + 1;
    }
    assert(texts(lines@).take(lines@.len() as int) =~= texts(lines@));
    text
}

/// The text itself, or the notice where trimming leaves nothing of it.
pub fn text_or_notice(text: String, rest: &str) -> (shown: String)
    ensures
        shown@ == or_notice(text@, rest@),
{
    if rest.unicode_len() == 0 {
        String::from_str(
            "ModernTerm Terminal - Real PTY Mode\nType any command and press Enter!\n\n$ ",
        )
    } else {
        text
    }
}

/// Whether every line of the content's grid can be read: the engine counts
/// lines in thirty-two signed bits.
pub fn grid_is_readable(content: &RenderableContent) -> (readable: bool)
    ensures
        readable == (grid_chars(content.grid).len() <= 0x8000_0000),
{
    grid_screen_lines(&content.grid) <= 0x8000_0000
}

/// The text that stands for the content's grid on the screen.
pub fn extract_grid_text(content: &RenderableContent) -> (text: String)
    requires
        grid_chars(content.grid).len() <= 0x8000_0000,
    ensures
        text@ == display_text(
            grid_chars(content.grid),
            content.cursor_line as nat,
            content.cursor_col as nat,
        ),
{
    let ghost rows = grid_chars(content.grid);
    let ghost all = shown(rows, content.cursor_line as nat, content.cursor_col as nat);
    let num_lines = grid_screen_lines(&content.grid);
    let cursor_line_idx: usize = if num_lines == 0 {
        0
    } else if content.cursor_line < num_lines {
        content.cursor_line
    } else {
        num_lines - 1
    };
    let mut lines: Vec<String> = Vec::new();
    let mut line_index: usize = 0;
    while line_index < num_lines
        invariant
            line_index <= num_lines,
            num_lines == rows.len(),
            rows == grid_chars(content.grid),
            num_lines <= 0x8000_0000,
            cursor_line_idx == cursor_line_shown(rows.len(), content.cursor_line as nat),
            all == shown(rows, content.cursor_line as nat, content.cursor_col as nat),
            texts(lines@) == all.take(line_index as int),
        decreases num_lines - line_index,
    {
        let row = grid_line(&content.grid, line_index);
        let line = if line_index == cursor_line_idx {
            string_from_chars(&draw_cursor(row, content.cursor_col))
        } else {
            trim_end_text(string_from_chars(&row).as_str())
        };
        let ghost before = texts(lines@);
        lines.push(line);
        assert(texts(lines@) =~= before.push(line@));
        assert(before.push(line@) =~= all.take(line_index + 1));
        line_index = line_index + 1;
    }
    assert(all.take(all.len() as int) =~= all);
    let text = join_lines(&lines);
    let rest = trim_text(text.as_str());
    text_or_notice(text, rest.as_str())
}

/// The text that stands for the content's grid on the screen, or nothing
/// where the grid has more lines than can be read.
pub fn checked_grid_text(content: &RenderableContent) -> (text: Option<String>)
    ensures
        match text {
            Some(shown) => grid_chars(content.grid).len() <= 0x8000_0000 && shown@ == display_text(
                grid_chars(content.grid),
                content.cursor_line as nat,
                content.cursor_col as nat,
            ),
            None => grid_chars(content.grid).len() > 0x8000_0000,
        },
{
    if grid_is_readable(content) {
        Some(extract_grid_text(content))
    } else {
        None
    }
}

} // verus!
