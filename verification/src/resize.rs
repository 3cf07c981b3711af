//! Fitting the sessions of the registry to the window: the pixel area that
//! sessions get, and the resize of one session and of all.

use crate::size::{Size, WindowDimensions};
use crate::state::AppState;
use crate::terminal::TerminalBackend;
use vstd::prelude::*;

verus! {

broadcast use vstd::std_specs::hash::group_hash_axioms;

/// Pixels taken from each axis of the terminal area by its padding.
pub const AREA_PADDING: u32 = 24;

/// Fewest pixels that sessions get on an axis.
pub const MIN_AREA_EXTENT: u32 = 100;

/// Pixel width of one cell of the font in use.
pub const FONT_CELL_WIDTH: u32 = 6;

/// Pixel height of one cell of the font in use.
pub const FONT_CELL_HEIGHT: u32 = 12;

/// The pixel size of one cell of the font in use.
pub fn font_cell_size() -> (cell: Size)
    ensures
        cell == (Size { width: FONT_CELL_WIDTH, height: FONT_CELL_HEIGHT }),
{
    Size { width: FONT_CELL_WIDTH, height: FONT_CELL_HEIGHT }
}

/// What is left of an extent of the terminal area for the sessions: the
/// extent without the padding, and never less than the minimum.
pub open spec fn usable_extent(extent: u32) -> u32 {
    if extent < AREA_PADDING + MIN_AREA_EXTENT {
        MIN_AREA_EXTENT
    } else {
        (extent - AREA_PADDING) as u32
    }
}

/// The pixel rectangle that sessions get out of the terminal area.
pub fn terminal_area_size(area: Size) -> (usable: Size)
    ensures
        usable == (Size { width: usable_extent(area.width), height: usable_extent(area.height) }),
        usable.width >= MIN_AREA_EXTENT,
        usable.height >= MIN_AREA_EXTENT,
{
    let width = if area.width < AREA_PADDING + MIN_AREA_EXTENT {
        MIN_AREA_EXTENT
    } else {
        area.width - AREA_PADDING
    };
    let height = if area.height < AREA_PADDING + MIN_AREA_EXTENT {
        MIN_AREA_EXTENT
    } else {
        area.height - AREA_PADDING
    };
    Size { width, height }
}

/// The windows to announce when the sessions with an id below `bound` are
/// fitted to a rectangle, in the order of their ids: one for each session
/// whose grid changes.
pub open spec fn notices_below(
    sessions: Map<u64, TerminalBackend>,
    bound: nat,
    layout_size: Size,
    font_size: Size,
) -> Seq<(u64, WindowDimensions)>
    decreases bound,
{
    if bound == 0 {
        Seq::<(u64, WindowDimensions)>::empty()
    } else {
        let id = (bound - 1) as u64;
        let before = notices_below(sessions, (bound - 1) as nat, layout_size, font_size);
        if sessions.contains_key(id) {
            match sessions[id].size().resize_notice(layout_size, font_size) {
                Some(window) => before.push((id, window)),
                None => before,
            }
        } else {
            before
        }
    }
}

impl AppState {
    /// `later` has the sessions of this registry, of which those with an id
    /// below `bound` are fitted to the rectangle and the others are as they
    /// were.
    pub open spec fn resized_below(
        &self,
        later: &AppState,
        bound: nat,
        layout_size: Size,
        font_size: Size,
    ) -> bool {
        &&& later.terminals@.dom() == self.terminals@.dom()
        &&& forall|id: u64|
            self.terminals@.contains_key(id) ==> {
                &&& (#[trigger] later.terminals@[id]).size() == (if id < bound {
                    self.terminals@[id].size().resized(layout_size, font_size)
                } else {
                    self.terminals@[id].size()
                })
                &&& later.terminals@[id].id() == self.terminals@[id].id()
                &&& later.terminals@[id].pty_id() == self.terminals@[id].pty_id()
                &&& *later.terminals@[id].last_content() == *self.terminals@[id].last_content()
            }
    }

    /// Fits the session `terminal_id` to a pixel rectangle, given the pixel
    /// size of one cell. Returns the window to tell its process and engine,
    /// if the session exists and its grid has changed.
    pub fn resize_terminal(
        &mut self,
        terminal_id: u64,
        layout_size: Size,
        font_size: Size,
    ) -> (notice: Option<WindowDimensions>)
        ensures
            notice == (if old(self).terminals@.contains_key(terminal_id) {
                old(self).terminals@[terminal_id].size().resize_notice(layout_size, font_size)
            } else {
                None
            }),
            !old(self).terminals@.contains_key(terminal_id) ==> final(self).terminals@ == old(
                self,
            ).terminals@,
            old(self).terminals@.contains_key(terminal_id) ==> old(self).session_resized(
                final(self),
                terminal_id,
                old(self).terminals@[terminal_id].size().resized(layout_size, font_size),
            ),
            final(self).next_terminal_id == old(self).next_terminal_id,
            final(self).korean_input_states@ == old(self).korean_input_states@,
            final(self).follow_output@ == old(self).follow_output@,
            final(self).scroll_offset@ == old(self).scroll_offset@,
            final(self).selected_terminals@ == old(self).selected_terminals@,
            final(self).same_tabs(old(self)),
            final(self).same_settings(old(self)),
            old(self).wf() ==> final(self).wf(),
    {
        match self.terminals.remove(&terminal_id) {
            None => {
                assert(self.terminals@ =~= old(self).terminals@);
                None
            },
            Some(backend) => {
                let mut backend = backend;
                let notice = backend.resize(layout_size, font_size);
                self.terminals.insert(terminal_id, backend);
                proof {
                    assert(final(self).terminals@ =~= old(self).terminals@.insert(
                        terminal_id,
                        final(self).terminals@[terminal_id],
                    ));
                    if old(self).wf() {
                        let size = old(self).terminals@[terminal_id].size();
                        size.lemma_resize_keeps_valid_size(layout_size, font_size);
                        old(self).lemma_session_resized_stays_valid(
                            final(self),
                            terminal_id,
                            size.resized(layout_size, font_size),
                        );
                        old(self).lemma_same_members_keep_wf(final(self));
                    }
                }
                notice
            },
        }
    }

    /// Fits every session to the window's terminal area: the area without
    /// its padding, in cells of the font in use. The sessions are taken in
    /// the order of their ids, up to the next id to be given. Returns, for
    /// each session whose grid has changed, the window to tell its process
    /// and engine.
    pub fn handle_window_resize(&mut self, area: Size) -> (notices: Vec<(u64, WindowDimensions)>)
        ensures
            notices@ == notices_below(
                old(self).terminals@,
                old(self).next_terminal_id as nat,
                Size { width: usable_extent(area.width), height: usable_extent(area.height) },
                Size { width: FONT_CELL_WIDTH, height: FONT_CELL_HEIGHT },
            ),
            old(self).resized_below(
                final(self),
                old(self).next_terminal_id as nat,
                Size { width: usable_extent(area.width), height: usable_extent(area.height) },
                Size { width: FONT_CELL_WIDTH, height: FONT_CELL_HEIGHT },
            ),
            final(self).next_terminal_id == old(self).next_terminal_id,
            final(self).korean_input_states@ == old(self).korean_input_states@,
            final(self).follow_output@ == old(self).follow_output@,
            final(self).scroll_offset@ == old(self).scroll_offset@,
            final(self).selected_terminals@ == old(self).selected_terminals@,
            final(self).same_tabs(old(self)),
            final(self).same_settings(old(self)),
            old(self).wf() ==> final(self).wf(),
    {
        let layout_size = terminal_area_size(area);
        let font_size = font_cell_size();
        let bound = self.next_terminal_id;
        let mut notices: Vec<(u64, WindowDimensions)> = Vec::new();
        let mut id: u64 = 0;
        while id < bound
            invariant
                id <= bound,
                bound == old(self).next_terminal_id,
                notices@ == notices_below(old(self).terminals@, id as nat, layout_size, font_size),
                old(self).resized_below(self, id as nat, layout_size, font_size),
                self.next_terminal_id == old(self).next_terminal_id,
                self.korean_input_states@ == old(self).korean_input_states@,
                self.follow_output@ == old(self).follow_output@,
                self.scroll_offset@ == old(self).scroll_offset@,
                self.selected_terminals@ == old(self).selected_terminals@,
                self.same_tabs(old(self)),
                self.same_settings(old(self)),
                old(self).wf() ==> self.wf(),
            decreases bound - id,
        {
            let ghost before = *self;
            match self.resize_terminal(id, layout_size, font_size) {
                Some(window) => {
                    notices.push((id, window));
                },
                None => {},
            }
            proof {
                assert(self.terminals@.dom() =~= old(self).terminals@.dom());
                assert forall|other: u64| old(self).terminals@.contains_key(other) implies {
                    &&& (#[trigger] self.terminals@[other]).size() == (if other < id + 1 {
                        old(self).terminals@[other].size().resized(layout_size, font_size)
                    } else {
                        old(self).terminals@[other].size()
                    })
                    &&& self.terminals@[other].id() == old(self).terminals@[other].id()
                    &&& self.terminals@[other].pty_id() == old(self).terminals@[other].pty_id()
                    &&& *self.terminals@[other].last_content() == *old(
                        self,
                    ).terminals@[other].last_content()
                } by {
                    assert(before.terminals@.contains_key(other));
                    let held = before.terminals@[other];
                    if other != id {
                        assert(self.terminals@[other] == held);
                    }
                }
            }
            id = id + 1;
        }
        notices
    }
}

} // verus!
