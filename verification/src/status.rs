//! The status line.

use crate::grid::ViewMode;
use crate::state::AppState;
use crate::teardown::position_of;
use crate::text::{decimal, decimal_string};
use vstd::prelude::*;
use vstd::string::StringExecFns;

verus! {

broadcast use vstd::std_specs::hash::group_hash_axioms;

/// How the status line names the view.
pub open spec fn view_label(mode: ViewMode) -> Seq<char> {
    match mode {
        ViewMode::Single => "Single Mode"@,
        ViewMode::Grid { rows, cols, .. } => "Grid "@ + decimal(rows as nat) + "x"@ + decimal(
            cols as nat,
        ),
    }
}

/// How the status line names the focused session.
pub open spec fn focus_label(focused: Option<u64>) -> Seq<char> {
    match focused {
        Some(id) => "Terminal "@ + decimal(id as nat),
        None => "No Terminal"@,
    }
}

impl AppState {
    /// The number of the active tab in the order, counted from one, or
    /// zero where the order does not list it.
    pub open spec fn active_tab_number(&self) -> nat {
        match self.tab_order@.index_of_first(self.active_tab_id) {
            Some(index) => (index + 1) as nat,
            None => 0,
        }
    }

    /// The status line: the view, the active tab's number out of the number
    /// of tabs, the focused session, and the shortcuts.
    pub open spec fn status_line(&self) -> Seq<char> {
        "Ready | "@ + view_label(self.view_mode) + " | Tab "@ + decimal(self.active_tab_number())
            + "/"@ + decimal(self.tabs@.len()) + " | "@ + focus_label(self.focused_terminal)
            + " | Ctrl+T:New Ctrl+W:Close Ctrl+Q:Quit"@
    }

    /// The text of the status line.
    pub fn status_text(&self) -> (text: String)
        ensures
            text@ == self.status_line(),
    {
        let mut text = String::from_str("Ready | ");
        match &self.view_mode {
            ViewMode::Single => {
                text.append("Single Mode");
            },
            ViewMode::Grid { rows, cols, .. } => {
                text.append("Grid ");
                text.append(decimal_string(*rows as u64).as_str());
                text.append("x");
                text.append(decimal_string(*cols as u64).as_str());
            },
        }
        text.append(" | Tab ");
        proof {
            self.tab_order@.index_of_first_ensures(self.active_tab_id);
        }
        let listed = self.tab_order.len();
        let number: u64 = match position_of(&self.tab_order, self.active_tab_id) {
            Some(index) => {
                assert(index < listed);
                index as u64 + 1
            },
            None => 0,
        };
        text.append(decimal_string(number).as_str());
        text.append("/");
        text.append(decimal_string(self.tabs.len() as u64).as_str());
        text.append(" | ");
        match self.focused_terminal {
            Some(id) => {
                text.append("Terminal ");
                text.append(decimal_string(id).as_str());
            },
            None => {
                text.append("No Terminal");
            },
        }
        text.append(" | Ctrl+T:New Ctrl+W:Close Ctrl+Q:Quit");
        assert(text@ =~= self.status_line());
        text
    }
}

} // verus!
