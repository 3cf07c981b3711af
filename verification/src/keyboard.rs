//! What a key does to the registry, and what it asks of the application.

use crate::engine::{application_scroll, mode_is_application_scroll};
use crate::keys::{classify_key, key_action, key_bytes, key_to_bytes, KeyAction, KeyEvent};
use crate::state::AppState;
use crate::teardown::{removed_from, CloseOutcome};
use crate::terminal::{BackendCommand, BackendEffect, CommandView, EffectView};
use alacritty_terminal::term::TermMode;
use vstd::prelude::*;

verus! {

broadcast use vstd::std_specs::hash::group_hash_axioms;

/// What the application is to do after a key.
#[derive(Debug, PartialEq, Eq)]
pub enum KeyOutcome {
    /// Nothing.
    Nothing,
    /// Shut down.
    Quit,
    /// Start a session and open a tab for it.
    OpenTab,
    /// Read the focused session anew and show it.
    Refresh,
    /// Draw the window anew: the view or the active tab has changed.
    Redraw,
    /// Drop the sessions `removed` of the closed tab `tab_id`.
    Closed { tab_id: u64, removed: Vec<u64> },
    /// Perform `effect` on the session `terminal_id`.
    Effect { terminal_id: u64, effect: BackendEffect },
}

/// The bytes of the command that has the shell clear its screen.
pub open spec fn clear_command() -> Seq<u8> {
    seq![0x63u8, 0x6cu8, 0x65u8, 0x61u8, 0x72u8, 0x0du8]
}

impl AppState {
    /// The tabs after the active tab has committed its line.
    pub open spec fn tabs_committed(&self, later: &AppState) -> bool {
        if self.tabs@.contains_key(self.active_tab_id) {
            &&& later.tabs@.contains_key(self.active_tab_id)
            &&& later.tabs@ == self.tabs@.insert(
                self.active_tab_id,
                later.tabs@[self.active_tab_id],
            )
            &&& later.tabs@[self.active_tab_id].same_tab(&self.tabs@[self.active_tab_id])
            &&& later.tabs@[self.active_tab_id].line_state()
                == self.tabs@[self.active_tab_id].line_state().committed()
        } else {
            later.tabs@ == self.tabs@
        }
    }

    /// Nothing but the tabs' lines and the auto-scroll flags differs
    /// between the two.
    pub open spec fn same_but_lines(&self, later: &AppState) -> bool {
        &&& later.tab_order@ == self.tab_order@
        &&& later.active_tab_id == self.active_tab_id
        &&& later.next_tab_id == self.next_tab_id
        &&& later.tab_layouts@ == self.tab_layouts@
        &&& later.focused_terminal == self.focused_terminal
        &&& later.terminals@ == self.terminals@
        &&& later.next_terminal_id == self.next_terminal_id
        &&& later.korean_input_states@ == self.korean_input_states@
        &&& later.scroll_offset@ == self.scroll_offset@
        &&& later.selected_terminals@ == self.selected_terminals@
        &&& later.same_settings(self)
    }

    /// `outcome` asks to write the bytes to the session `id`, where it is
    /// live, and is `otherwise` where it is not.
    pub open spec fn written(
        &self,
        id: u64,
        bytes: Seq<u8>,
        outcome: KeyOutcome,
        otherwise: KeyOutcome,
    ) -> bool {
        if self.terminals@.contains_key(id) {
            &&& outcome matches KeyOutcome::Effect { terminal_id, effect }
            &&& terminal_id == id
            &&& effect@ == (EffectView::Write { bytes, scroll_to_bottom: true })
        } else {
            outcome == otherwise
        }
    }

    /// Enter: the active tab commits its line, and a carriage return goes
    /// to the focused session.
    pub open spec fn line_committed(&self, later: &AppState, outcome: KeyOutcome) -> bool {
        match self.focused_terminal {
            None => {
                &&& outcome is Nothing
                &&& later.tabs@ == self.tabs@
                &&& later.follow_output@ == self.follow_output@
            },
            Some(id) => {
                &&& self.tabs_committed(later)
                &&& self.written(id, seq![0x0du8], outcome, KeyOutcome::Refresh)
                &&& later.follow_output@ == (if self.terminals@.contains_key(id) {
                    self.follow_output@.insert(id, true)
                } else {
                    self.follow_output@
                })
            },
        }
    }

    /// The shell of the focused session is told to clear its screen.
    pub open spec fn screen_cleared(&self, later: &AppState, outcome: KeyOutcome) -> bool {
        match self.focused_live() {
            None => {
                &&& outcome is Nothing
                &&& later.follow_output@ == self.follow_output@
            },
            Some(id) => {
                &&& self.written(id, clear_command(), outcome, KeyOutcome::Nothing)
                &&& later.follow_output@ == self.follow_output@.insert(id, true)
            },
        }
    }

    /// The key's bytes go to the focused session, which follows its output
    /// again.
    pub open spec fn key_forwarded(
        &self,
        later: &AppState,
        key_event: KeyEvent,
        outcome: KeyOutcome,
    ) -> bool {
        match self.focused_terminal {
            None => {
                &&& outcome is Nothing
                &&& later.follow_output@ == self.follow_output@
            },
            Some(id) => {
                &&& later.follow_output@ == self.follow_output@.insert(id, true)
                &&& match key_bytes(key_event.key_code, key_event.modifiers.control) {
                    Some(bytes) => self.written(id, bytes, outcome, KeyOutcome::Nothing),
                    None => outcome is Nothing,
                }
            },
        }
    }

    /// The focused session is scrolled by `delta` lines.
    pub open spec fn key_scrolled(
        &self,
        later: &AppState,
        app_scroll: bool,
        delta: i32,
        outcome: KeyOutcome,
    ) -> bool {
        match self.focused_live() {
            None => {
                &&& outcome is Nothing
                &&& later.same_sessions(self)
            },
            Some(id) => {
                &&& outcome matches KeyOutcome::Effect { terminal_id, effect }
                &&& terminal_id == id
                &&& self.command_applied(later, id, app_scroll, CommandView::Scroll(delta), effect@)
            },
        }
    }

    /// The active tab is closed, or the application told to quit where it
    /// is the only one.
    pub open spec fn key_closed(&self, later: &AppState, outcome: KeyOutcome) -> bool {
        if self.tabs@.len() <= 1 {
            &&& outcome is Quit
            &&& later.same_tabs(self)
            &&& later.same_sessions(self)
        } else {
            &&& outcome matches KeyOutcome::Closed { tab_id, removed }
            &&& tab_id == self.active_tab_id
            &&& removed@ == removed_from(
                self.leaves_of(self.active_tab_id),
                self.terminals@.dom(),
            )
            &&& self.tab_closed(later, self.active_tab_id)
        }
    }

    /// `later` is this registry after a key, and `outcome` what is left for
    /// the application to do, given whether the application running in the
    /// focused session scrolls for itself.
    pub open spec fn key_handled(
        &self,
        later: &AppState,
        app_scroll: bool,
        key_event: KeyEvent,
        outcome: KeyOutcome,
    ) -> bool {
        match key_action(key_event.key_code, key_event.modifiers) {
            KeyAction::CommitLine => {
                &&& self.line_committed(later, outcome)
                &&& self.same_but_lines(later)
            },
            KeyAction::NewTab => outcome is OpenTab && *later == *self,
            KeyAction::CloseTab => {
                &&& self.key_closed(later, outcome)
                &&& later.same_settings(self)
            },
            KeyAction::ToggleGrid => {
                &&& outcome is Redraw
                &&& self.view_toggled(later)
                &&& later.same_tabs(self)
                &&& later.same_sessions(self)
                &&& later.broadcast_mode == self.broadcast_mode
                &&& later.initialized == self.initialized
                &&& later.pty_thread_started == self.pty_thread_started
            },
            KeyAction::Quit => outcome is Quit && *later == *self,
            KeyAction::Refresh => outcome is Refresh && *later == *self,
            KeyAction::ClearScreen => {
                &&& self.screen_cleared(later, outcome)
                &&& later.tabs@ == self.tabs@
                &&& self.same_but_lines(later)
            },
            KeyAction::Scroll(delta) => {
                &&& self.key_scrolled(
                    later,
                    app_scroll,
                    delta,
                    outcome,
                )
                &&& later.same_tabs(self)
                &&& later.same_settings(self)
            },
            KeyAction::SwitchToTab(number) => {
                &&& self.switched_to(later, number as usize)
                &&& if self.names_tab(number as usize) {
                    outcome is Redraw
                } else {
                    outcome is Nothing
                }
                &&& later.tabs@ == self.tabs@
                &&& later.tab_order@ == self.tab_order@
                &&& later.tab_layouts@ == self.tab_layouts@
                &&& later.same_sessions(self)
                &&& later.same_settings(self)
            },
            KeyAction::Ignore => outcome is Nothing && *later == *self,
            KeyAction::Forward => {
                &&& self.key_forwarded(later, key_event, outcome)
                &&& later.tabs@ == self.tabs@
                &&& self.same_but_lines(later)
            },
        }
    }

    /// Handles a key going down, under the engine's current mode for the
    /// focused session: does what the key asks of the registry, and returns
    /// what is left for the application to do.
    pub fn handle_key_down(&mut self, mode: &TermMode, key_event: &KeyEvent) -> (outcome:
        KeyOutcome)
        ensures
            old(self).key_handled(final(self), application_scroll(*mode), *key_event, outcome),
            old(self).wf() ==> final(self).wf(),
    {
        let app_scroll = mode_is_application_scroll(mode);
        self.apply_key(app_scroll, key_event)
    }

    /// Handles a key going down, given whether the application running in
    /// the focused session scrolls for itself: does what the key asks of the
    /// registry, and returns what is left for the application to do.
    pub fn apply_key(&mut self, app_scroll: bool, key_event: &KeyEvent) -> (outcome: KeyOutcome)
        ensures
            old(self).key_handled(final(self), app_scroll, *key_event, outcome),
            old(self).wf() ==> final(self).wf(),
    {
        match classify_key(key_event) {
            KeyAction::CommitLine => self.commit_active_line(),
            KeyAction::NewTab => KeyOutcome::OpenTab,
            KeyAction::CloseTab => match self.close_current_tab() {
                CloseOutcome::Shutdown => KeyOutcome::Quit,
                CloseOutcome::Closed { tab_id, removed } => KeyOutcome::Closed { tab_id, removed },
            },
            KeyAction::ToggleGrid => {
                self.toggle_grid_view();
                KeyOutcome::Redraw
            },
            KeyAction::Quit => KeyOutcome::Quit,
            KeyAction::Refresh => KeyOutcome::Refresh,
            KeyAction::ClearScreen => self.clear_focused_screen(),
            KeyAction::Scroll(delta) => match self.focused_terminal {
                None => KeyOutcome::Nothing,
                Some(id) => match self.apply_command(id, app_scroll, BackendCommand::Scroll(delta)) {
                    Some(effect) => KeyOutcome::Effect { terminal_id: id, effect },
                    None => KeyOutcome::Nothing,
                },
            },
            KeyAction::SwitchToTab(number) => {
                if self.switch_to_tab_by_number(number as usize) {
                    KeyOutcome::Redraw
                } else {
                    KeyOutcome::Nothing
                }
            },
            KeyAction::Ignore => KeyOutcome::Nothing,
            KeyAction::Forward => self.forward_key_to_terminal(key_event),
        }
    }

    /// Enter: the active tab commits its line, and a carriage return goes
    /// to the focused session.
    pub fn commit_active_line(&mut self) -> (outcome: KeyOutcome)
        ensures
            old(self).line_committed(final(self), outcome),
            old(self).same_but_lines(final(self)),
            old(self).wf() ==> final(self).wf(),
    {
        let terminal_id = match self.focused_terminal {
            None => {
                return KeyOutcome::Nothing;
            },
            Some(id) => id,
        };
        let active = self.active_tab_id;
        match self.tabs.remove(&active) {
            Some(tab) => {
                let mut tab = tab;
                tab.commit_line();
                self.tabs.insert(active, tab);
                assert(self.tabs@ =~= old(self).tabs@.insert(active, self.tabs@[active]));
            },
            None => {
                assert(self.tabs@ =~= old(self).tabs@);
            },
        }
        let ghost typed = *self;
        proof {
            if old(self).wf() {
                old(self).lemma_same_members_keep_wf(&typed);
            }
        }
        let bytes = vec![0x0du8];
        assert(bytes@ =~= seq![0x0du8]);
        assert(bytes@[0] == 0x0du8);
        match self.write_to_terminal(terminal_id, bytes) {
            Some(effect) => KeyOutcome::Effect { terminal_id, effect },
            None => KeyOutcome::Refresh,
        }
    }

    /// Has the shell of the focused session clear its screen.
    pub fn clear_focused_screen(&mut self) -> (outcome: KeyOutcome)
        ensures
            old(self).screen_cleared(final(self), outcome),
            final(self).tabs@ == old(self).tabs@,
            old(self).same_but_lines(final(self)),
            old(self).wf() ==> final(self).wf(),
    {
        match self.focused_terminal {
            None => KeyOutcome::Nothing,
            Some(id) => {
                let bytes = vec![0x63u8, 0x6cu8, 0x65u8, 0x61u8, 0x72u8, 0x0du8];
                assert(bytes@ =~= clear_command());
                assert(bytes@[5] == 0x0du8);
                match self.write_to_terminal(id, bytes) {
                    Some(effect) => KeyOutcome::Effect { terminal_id: id, effect },
                    None => KeyOutcome::Nothing,
                }
            },
        }
    }

    /// Sends a key's bytes, if it has any, to the focused session, and has
    /// that session follow its output again.
    pub fn forward_key_to_terminal(&mut self, key_event: &KeyEvent) -> (outcome: KeyOutcome)
        ensures
            old(self).key_forwarded(final(self), *key_event, outcome),
            final(self).tabs@ == old(self).tabs@,
            old(self).same_but_lines(final(self)),
            old(self).wf() ==> final(self).wf(),
    {
        let terminal_id = match self.focused_terminal {
            None => {
                return KeyOutcome::Nothing;
            },
            Some(id) => id,
        };
        let outcome = match key_to_bytes(key_event) {
            Some(bytes) => match self.write_to_terminal(terminal_id, bytes) {
                Some(effect) => KeyOutcome::Effect { terminal_id, effect },
                None => KeyOutcome::Nothing,
            },
            None => KeyOutcome::Nothing,
        };
        let ghost written = *self;
        self.follow_output.insert(terminal_id, true);
        proof {
            assert(self.follow_output@ =~= old(self).follow_output@.insert(terminal_id, true));
            if old(self).wf() {
                assert(old(self).tab_layouts@[old(self).active_tab_id].contains(terminal_id));
                assert(old(self).terminals@.contains_key(terminal_id));
                written.lemma_same_members_keep_wf(self);
            }
        }
        outcome
    }
}

} // verus!
