//! Pixel sizes, cell sizes, and the rule that turns a pixel rectangle into a
//! number of columns and lines.

use vstd::prelude::*;

verus! {

/// A size in whole pixels: of a layout rectangle, or of one cell of the font.
#[derive(Debug, Clone, Copy, PartialEq, Eq, Structural)]
pub struct Size {
    pub width: u32,
    pub height: u32,
}

impl Default for Size {
    fn default() -> (size: Self)
        ensures
            size == (Size { width: 800, height: 600 }),
    {
        Size { width: 800, height: 600 }
    }
}

/// What a process is told about its window: the grid in cells, and the size
/// of one cell in pixels.
#[derive(Debug, Clone, Copy, PartialEq, Eq, Structural)]
pub struct WindowDimensions {
    pub num_lines: u16,
    pub num_cols: u16,
    pub cell_width: u16,
    pub cell_height: u16,
}

/// How many cells of `cell` pixels fit in `pixels` pixels: the quotient
/// rounded down, held to what sixteen bits can count. A cell of no extent
/// fits without bound into any positive length, and not at all into none.
pub open spec fn cells_in(pixels: u32, cell: u32) -> u16 {
    if cell == 0 {
        if pixels == 0 {
            0
        } else {
            u16::MAX
        }
    } else if pixels / cell > u16::MAX {
        u16::MAX
    } else {
        (pixels / cell) as u16
    }
}

/// A cell extent in pixels as the sixteen bits that a window size carries.
pub open spec fn cell_metric(extent: u32) -> u16 {
    if extent > u16::MAX {
        u16::MAX
    } else {
        extent as u16
    }
}

/// No cell fits exactly when the length is shorter than one cell, or empty.
pub proof fn lemma_no_cell_fits(pixels: u32, cell: u32)
    ensures
        cells_in(pixels, cell) == 0 <==> (pixels < cell || pixels == 0),
{
    if cell > 0 {
        assert(pixels / cell == 0 <==> pixels < cell) by (nonlinear_arith)
            requires
                cell > 0,
                pixels >= 0,
        ;
    }
}

/// Computes `cells_in`.
pub fn count_cells(pixels: u32, cell: u32) -> (count: u16)
    ensures
        count == cells_in(pixels, cell),
{
    if cell == 0 {
        if pixels == 0 {
            0
        } else {
            u16::MAX
        }
    } else {
        let quotient: u32 = pixels / cell;
        if quotient > 65535 {
            u16::MAX
        } else {
            quotient as u16
        }
    }
}

/// Computes `cell_metric`.
pub fn clamp_metric(extent: u32) -> (metric: u16)
    ensures
        metric == cell_metric(extent),
{
    if extent > 65535 {
        u16::MAX
    } else {
        extent as u16
    }
}

/// `count` cells is what a length of `pixels` pixels derives at a cell
/// extent that a window size carries as `metric`: the number of cells that
/// fit, or, where the metric stands for a larger extent than sixteen bits
/// hold, no more than fit at the metric itself.
pub open spec fn derives(pixels: u32, metric: u16, count: u16) -> bool {
    &&& count <= cells_in(pixels, metric as u32)
    &&& metric < u16::MAX ==> count == cells_in(pixels, metric as u32)
}

/// The cells that fit at a cell extent are derived at its metric.
pub proof fn lemma_cells_are_derived(pixels: u32, extent: u32)
    ensures
        derives(pixels, cell_metric(extent), cells_in(pixels, extent)),
{
    if extent > u16::MAX {
        assert(pixels / extent <= pixels / 65535u32) by (nonlinear_arith)
            requires
                extent > 65535,
                pixels >= 0,
        ;
    }
}

/// The size of a session: its grid in cells, the pixel size of one cell,
/// and the pixel rectangle from which the grid was last derived. A session
/// that has not been resized yet holds no rectangle.
#[derive(Debug, Clone, Copy, PartialEq, Eq, Structural)]
pub struct TerminalSize {
    pub cell_width: u16,
    pub cell_height: u16,
    pub num_cols: u16,
    pub num_lines: u16,
    pub layout_size: Option<Size>,
}

impl Default for TerminalSize {
    /// The size with which a session starts.
    fn default() -> (size: Self)
        ensures
            size == TerminalSize::initial(),
            size.well_formed(),
    {
        TerminalSize {
            cell_width: 6,
            cell_height: 12,
            num_cols: 120,
            num_lines: 30,
            layout_size: None,
        }
    }
}

impl TerminalSize {
    /// The size with which a session starts: 120 columns and 30 lines of
    /// cells of 6 by 12 pixels, derived from no rectangle, so that the first
    /// resize request is applied whatever its geometry.
    pub open spec fn initial() -> TerminalSize {
        TerminalSize {
            cell_width: 6,
            cell_height: 12,
            num_cols: 120,
            num_lines: 30,
            layout_size: None,
        }
    }

    /// The grid is what the rectangle derives on each axis.
    pub open spec fn derived_from(self, rectangle: Size) -> bool {
        &&& derives(rectangle.width, self.cell_width, self.num_cols)
        &&& derives(rectangle.height, self.cell_height, self.num_lines)
    }

    /// The grid has at least one column and one line, and agrees with the
    /// rectangle from which it was derived, where it holds one.
    pub open spec fn well_formed(self) -> bool {
        &&& self.num_cols >= 1
        &&& self.num_lines >= 1
        &&& self.layout_size matches Some(rectangle) ==> self.derived_from(rectangle)
    }

    /// The pixel rectangle and the cell metrics are those last applied.
    pub open spec fn same_geometry(self, layout_size: Size, font_size: Size) -> bool {
        &&& self.layout_size == Some(layout_size)
        &&& cell_metric(font_size.width) == self.cell_width
        &&& cell_metric(font_size.height) == self.cell_height
    }

    /// A resize request takes effect when the geometry is new and leaves
    /// room for at least one cell on each axis.
    pub open spec fn resize_takes_effect(self, layout_size: Size, font_size: Size) -> bool {
        &&& !self.same_geometry(layout_size, font_size)
        &&& cells_in(layout_size.width, font_size.width) > 0
        &&& cells_in(layout_size.height, font_size.height) > 0
    }

    /// The size after a resize request.
    pub open spec fn resized(self, layout_size: Size, font_size: Size) -> TerminalSize {
        if self.resize_takes_effect(layout_size, font_size) {
            TerminalSize {
                cell_width: cell_metric(font_size.width),
                cell_height: cell_metric(font_size.height),
                num_cols: cells_in(layout_size.width, font_size.width),
                num_lines: cells_in(layout_size.height, font_size.height),
                layout_size: Some(layout_size),
            }
        } else {
            self
        }
    }

    /// What the process and the engine are told after a resize request:
    /// the new window, or nothing when the request changes nothing.
    pub open spec fn resize_notice(self, layout_size: Size, font_size: Size) -> Option<
        WindowDimensions,
    > {
        if self.resize_takes_effect(layout_size, font_size) {
            Some(self.resized(layout_size, font_size).window())
        } else {
            None
        }
    }

    /// The window that this size describes.
    pub open spec fn window(self) -> WindowDimensions {
        WindowDimensions {
            num_lines: self.num_lines,
            num_cols: self.num_cols,
            cell_width: self.cell_width,
            cell_height: self.cell_height,
        }
    }

    /// The first request to a session that starts is applied whenever it
    /// leaves room for a cell on each axis: the grid is then the rounded-down
    /// quotient on each axis, and the process and the engine are told once.
    pub proof fn lemma_first_resize_is_applied(layout_size: Size, font_size: Size)
        requires
            cells_in(layout_size.width, font_size.width) > 0,
            cells_in(layout_size.height, font_size.height) > 0,
        ensures
            Self::initial().resized(layout_size, font_size).num_cols == cells_in(
                layout_size.width,
                font_size.width,
            ),
            Self::initial().resized(layout_size, font_size).num_lines == cells_in(
                layout_size.height,
                font_size.height,
            ),
            Self::initial().resize_notice(layout_size, font_size) == Some(
                Self::initial().resized(layout_size, font_size).window(),
            ),
    {
    }

    /// Resizing is idempotent: a second request with the same pixel size
    /// and cell metrics changes nothing and notifies nobody.
    pub proof fn lemma_resize_idempotent(self, layout_size: Size, font_size: Size)
        ensures
            self.resized(layout_size, font_size).resize_notice(layout_size, font_size) is None,
            self.resized(layout_size, font_size).resized(layout_size, font_size) == self.resized(
                layout_size,
                font_size,
            ),
    {
    }

    /// A rectangle that is narrower or lower than one cell leaves the size
    /// as it was, and a valid size stays valid through every request.
    pub proof fn lemma_resize_keeps_valid_size(self, layout_size: Size, font_size: Size)
        ensures
            (layout_size.width < font_size.width || layout_size.height < font_size.height)
                ==> self.resized(layout_size, font_size) == self,
            self.well_formed() ==> self.resized(layout_size, font_size).well_formed(),
    {
        lemma_no_cell_fits(layout_size.width, font_size.width);
        lemma_no_cell_fits(layout_size.height, font_size.height);
        lemma_cells_are_derived(layout_size.width, font_size.width);
        lemma_cells_are_derived(layout_size.height, font_size.height);
    }

    /// Applies a resize request and returns what to tell the process and
    /// the engine, if anything.
    pub fn resize(&mut self, layout_size: Size, font_size: Size) -> (notice: Option<
        WindowDimensions,
    >)
        ensures
            *final(self) == old(self).resized(layout_size, font_size),
            notice == old(self).resize_notice(layout_size, font_size),
            old(self).well_formed() ==> final(self).well_formed(),
    {
        let cell_width = clamp_metric(font_size.width);
        let cell_height = clamp_metric(font_size.height);
        let same_rectangle = match self.layout_size {
            Some(applied) => applied.width == layout_size.width && applied.height
                == layout_size.height,
            None => false,
        };
        if same_rectangle && cell_width == self.cell_width && cell_height == self.cell_height {
            return None;
        }
        proof {
            old(self).lemma_resize_keeps_valid_size(layout_size, font_size);
        }
        let lines = count_cells(layout_size.height, font_size.height);
        let cols = count_cells(layout_size.width, font_size.width);
        if lines > 0 && cols > 0 {
            *self = TerminalSize {
                cell_width,
                cell_height,
                num_cols: cols,
                num_lines: lines,
                layout_size: Some(layout_size),
            };
            Some(self.to_window())
        } else {
            None
        }
    }

    /// The window that this size describes.
    pub fn to_window(&self) -> (window: WindowDimensions)
        ensures
            window == self.window(),
    {
        WindowDimensions {
            num_lines: self.num_lines,
            num_cols: self.num_cols,
            cell_width: self.cell_width,
            cell_height: self.cell_height,
        }
    }

    /// Lines in the buffer; a size keeps no history, so the visible ones.
    pub fn total_lines(&self) -> (lines: usize)
        ensures
            lines == self.num_lines,
    {
        self.screen_lines()
    }

    /// Height of the viewport in lines.
    pub fn screen_lines(&self) -> (lines: usize)
        ensures
            lines == self.num_lines,
    {
        self.num_lines as usize
    }

    /// Width of the viewport in columns.
    pub fn columns(&self) -> (columns: usize)
        ensures
            columns == self.num_cols,
    {
        self.num_cols as usize
    }

    /// Index of the last column.
    pub fn last_column(&self) -> (column: usize)
        requires
            self.num_cols >= 1,
        ensures
            column == self.num_cols - 1,
    {
        self.num_cols as usize - 1
    }

    /// Index of the lowest visible line.
    pub fn bottommost_line(&self) -> (line: i32)
        ensures
            line == self.num_lines - 1,
    {
        self.num_lines as i32 - 1
    }
}

} // verus!
