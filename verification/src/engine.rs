//! The terminal emulation engine as this library sees it: the values of
//! `alacritty_terminal` that are carried through, and the few calls that
//! read them. Nothing in this file is proved; each contract states what the
//! engine's source shows.

use alacritty_terminal::event::Event;
use alacritty_terminal::grid::Dimensions;
use alacritty_terminal::index::Line;
use alacritty_terminal::selection::SelectionRange;
use alacritty_terminal::term::cell::Cell;
use alacritty_terminal::term::TermMode;
use alacritty_terminal::Grid;
use vstd::prelude::*;

verus! {

/// `alacritty_terminal::Grid`, the engine's matrix of cells.
#[verifier::external_type_specification]
#[verifier::external_body]
#[verifier::reject_recursive_types(T)]
pub struct ExGrid<T>(Grid<T>);

/// `alacritty_terminal::term::cell::Cell`, one cell with its character and style.
#[verifier::external_type_specification]
#[verifier::external_body]
pub struct ExCell(Cell);

/// `alacritty_terminal::term::TermMode`, the engine's set of mode flags.
#[verifier::external_type_specification]
#[verifier::external_body]
pub struct ExTermMode(TermMode);

/// `alacritty_terminal::selection::SelectionRange`, the selected cells.
#[verifier::external_type_specification]
#[verifier::external_body]
pub struct ExSelectionRange(SelectionRange);

/// `alacritty_terminal::event::Event`, what the engine reports to its listener.
#[verifier::external_type_specification]
#[verifier::external_body]
pub struct ExEvent(Event);

/// The characters on a grid's screen: one sequence for each line from the
/// first to the last line of the screen, holding the character of each
/// cell of that line's row, left to right.
pub uninterp spec fn grid_chars(grid: Grid<Cell>) -> Seq<Seq<char>>;

/// Whether a mode has both the alternate screen and alternate scroll on, so
/// that the running application scrolls for itself.
pub uninterp spec fn application_scroll(mode: TermMode) -> bool;

/// `Dimensions::screen_lines` of a `Grid`: the number of lines of the
/// screen, which is the number of lines that `grid_chars` holds.
#[verifier::external_body]
pub(crate) fn grid_screen_lines(grid: &Grid<Cell>) -> (lines: usize)
    ensures
        lines == grid_chars(*grid).len(),
{
    grid.screen_lines()
}

/// Indexes a `Grid` by `Line` and walks the row: the characters of the cells
/// of one line of the screen, left to right. The line must be on the screen
/// and fit the engine's signed line index.
#[verifier::external_body]
pub(crate) fn grid_line(grid: &Grid<Cell>, line: usize) -> (chars: Vec<char>)
    requires
        line < grid_chars(*grid).len(),
        line <= i32::MAX,
    ensures
        chars@ == grid_chars(*grid)[line as int],
{
    grid[Line::from(line)].into_iter().map(|cell| cell.c).collect()
}

/// `Grid::new(0, 0, 0)`: a grid without lines.
#[verifier::external_body]
pub(crate) fn empty_grid() -> (grid: Grid<Cell>)
    ensures
        grid_chars(grid) == Seq::<Seq<char>>::empty(),
{
    Grid::new(0, 0, 0)
}

/// `Cell::default()`: a blank cell.
#[verifier::external_body]
pub(crate) fn blank_cell() -> Cell {
    Cell::default()
}

/// `TermMode::empty()`: no flag is set, so the application does not scroll
/// for itself.
#[verifier::external_body]
pub(crate) fn empty_mode() -> (mode: TermMode)
    ensures
        !application_scroll(mode),
{
    TermMode::empty()
}

/// `TermMode::contains` of `ALTERNATE_SCROLL | ALT_SCREEN`.
#[verifier::external_body]
pub(crate) fn mode_is_application_scroll(mode: &TermMode) -> (both: bool)
    ensures
        both == application_scroll(*mode),
{
    mode.contains(TermMode::ALTERNATE_SCROLL | TermMode::ALT_SCREEN)
}

/// Whether an event is `Event::Exit`, which the engine sends last, when the
/// session's process is gone.
pub uninterp spec fn is_exit_event(event: Event) -> bool;

/// Tells `Event::Exit` from the other variants of `Event`.
#[verifier::external_body]
pub(crate) fn event_is_exit(event: &Event) -> (exit: bool)
    ensures
        exit == is_exit_event(*event),
{
    match event {
        Event::Exit => true,
        _ => false,
    }
}

} // verus!
