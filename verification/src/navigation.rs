//! Moving between tabs and between the two view modes.

use crate::grid::{calculate_optimal_grid_size, optimal_grid, ViewMode};
use crate::layout::PanelContent;
use crate::state::AppState;
use vstd::prelude::*;

verus! {

broadcast use vstd::std_specs::hash::group_hash_axioms;

impl AppState {
    /// The first session of a layout: the leaf reached by descending into
    /// `first` at every split.
    pub fn find_first_terminal_in_layout(&self, layout: &PanelContent) -> (first: Option<u64>)
        ensures
            first == Some(layout.first_leaf()),
            layout.contains(layout.first_leaf()),
    {
        Some(layout.first_terminal())
    }

    /// Whether a layout has the session `terminal_id` among its leaves.
    pub fn contains_terminal_in_layout(&self, layout: &PanelContent, terminal_id: u64) -> (found:
        bool)
        ensures
            found == layout.contains(terminal_id),
    {
        layout.contains_terminal(terminal_id)
    }

    /// The session that input goes to: the focused one, or else the first
    /// session of the active tab.
    pub open spec fn active_terminal(&self) -> Option<u64> {
        match self.focused_terminal {
            Some(id) => Some(id),
            None => if self.tab_layouts@.contains_key(self.active_tab_id) {
                Some(self.tab_layouts@[self.active_tab_id].first_leaf())
            } else {
                None
            },
        }
    }

    /// The session that input goes to.
    pub fn get_active_terminal(&self) -> (active: Option<u64>)
        ensures
            active == self.active_terminal(),
    {
        match self.focused_terminal {
            Some(id) => Some(id),
            None => match self.tab_layouts.get(&self.active_tab_id) {
                Some(layout) => self.find_first_terminal_in_layout(layout),
                None => None,
            },
        }
    }

    /// The number `number`, counted from one, names a tab in the order.
    pub open spec fn names_tab(&self, number: usize) -> bool {
        0 < number <= self.tab_order@.len()
    }

    /// `later` has the active tab and the focus that this registry has
    /// after a switch to the tab with the given number.
    pub open spec fn switched_to(&self, later: &AppState, number: usize) -> bool {
        if self.names_tab(number) {
            &&& later.active_tab_id == self.tab_order@[number - 1]
            &&& later.focused_terminal == self.focus_in(self.tab_order@[number - 1])
        } else {
            &&& later.active_tab_id == self.active_tab_id
            &&& later.focused_terminal == self.focused_terminal
        }
    }

    /// Makes the tab with the given number, counted from one, active and
    /// focuses its first leaf. A number that names no tab changes nothing.
    pub fn switch_to_tab_by_number(&mut self, number: usize) -> (switched: bool)
        ensures
            switched == old(self).names_tab(number),
            old(self).switched_to(final(self), number),
            final(self).tabs@ == old(self).tabs@,
            final(self).tab_order@ == old(self).tab_order@,
            final(self).next_tab_id == old(self).next_tab_id,
            final(self).tab_layouts@ == old(self).tab_layouts@,
            final(self).same_sessions(old(self)),
            final(self).same_settings(old(self)),
            old(self).wf() ==> final(self).wf(),
            old(self).wf() && switched ==> final(self).focused_terminal == Some(
                final(self).tab_layouts@[final(self).active_tab_id].first_leaf(),
            ),
    {
        if number > 0 && number <= self.tab_order.len() {
            let tab_id = self.tab_order[number - 1];
            self.active_tab_id = tab_id;
            let focus = match self.tab_layouts.get(&tab_id) {
                Some(layout) => Some(layout.first_terminal()),
                None => None,
            };
            match focus {
                Some(id) => {
                    self.focused_terminal = Some(id);
                },
                None => {},
            }
            proof {
                if old(self).wf() {
                    assert(old(self).tab_order@.contains(tab_id));
                    assert(old(self).tabs@.contains_key(tab_id));
                    assert(old(self).tab_layouts@.contains_key(tab_id));
                    old(self).tab_layouts@[tab_id].lemma_first_leaf();
                }
            }
            true
        } else {
            false
        }
    }

    /// Whether the grid view may be entered: it shows at least two tabs.
    pub open spec fn can_enter_grid(&self) -> bool {
        self.tabs@.len() > 1
    }

    /// `later` has the view that this registry has after a switch of views.
    pub open spec fn view_toggled(&self, later: &AppState) -> bool {
        if self.view_mode is Grid {
            later.view_mode == ViewMode::Single
        } else if self.can_enter_grid() {
            later.view_mode.is_uniform_grid(
                optimal_grid(self.tabs@.len()).0,
                optimal_grid(self.tabs@.len()).1,
            )
        } else {
            later.view_mode == ViewMode::Single
        }
    }

    /// Switches between the single view and the grid view. The grid is
    /// entered only with two or more tabs; it then has the optimal number of
    /// rows and columns for the tabs, all rows and all columns alike. With
    /// fewer tabs nothing changes.
    pub fn toggle_grid_view(&mut self)
        ensures
            old(self).view_toggled(final(self)),
            final(self).same_tabs(old(self)),
            final(self).same_sessions(old(self)),
            final(self).broadcast_mode == old(self).broadcast_mode,
            final(self).initialized == old(self).initialized,
            final(self).pty_thread_started == old(self).pty_thread_started,
            old(self).wf() ==> final(self).wf(),
    {
        let in_grid = self.view_mode.is_grid();
        if in_grid {
            self.view_mode = ViewMode::Single;
        } else {
            let tab_count = self.tabs.len();
            if tab_count > 1 {
                let (rows, cols) = calculate_optimal_grid_size(tab_count);
                self.view_mode = ViewMode::uniform_grid(rows, cols);
            }
        }
    }
}

} // verus!
