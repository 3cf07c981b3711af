//! Commands sent to one session of the registry, and the auto-scroll rule
//! that goes with them.

use crate::engine::{application_scroll, mode_is_application_scroll};
use crate::size::TerminalSize;
use crate::state::AppState;
use crate::terminal::{
    effect_of, lemma_size_after_valid, size_after, BackendCommand, BackendEffect, CommandView,
    EffectView, EngineSyncError, RenderableContent,
};
use alacritty_terminal::term::TermMode;
use vstd::prelude::*;

verus! {

broadcast use vstd::std_specs::hash::group_hash_axioms;

/// The bytes hold a line feed or a carriage return.
pub open spec fn has_line_end(bytes: Seq<u8>) -> bool {
    bytes.contains(0x0au8) || bytes.contains(0x0du8)
}

/// Computes `has_line_end`.
pub fn contains_line_end(bytes: &Vec<u8>) -> (found: bool)
    ensures
        found == has_line_end(bytes@),
{
    let mut i: usize = 0;
    while i < bytes.len()
        invariant
            i <= bytes.len(),
            forall|j: int| 0 <= j < i ==> bytes@[j] != 0x0au8 && bytes@[j] != 0x0du8,
        decreases bytes.len() - i,
    {
        if bytes[i] == 0x0a || bytes[i] == 0x0d {
            assert(bytes@.contains(bytes@[i as int]));
            return true;
        }
        i = i + 1;
    }
    false
}

/// Whether a command makes the view follow the latest output again: a
/// write that holds a line end does.
pub open spec fn resumes_following(command: CommandView) -> bool {
    command matches CommandView::Write(bytes) && has_line_end(bytes)
}

impl AppState {
    /// `later` differs from this registry in the session `id` alone, which
    /// has the size `size` and is otherwise as it was.
    pub open spec fn session_resized(&self, later: &AppState, id: u64, size: TerminalSize) -> bool {
        &&& later.terminals@.contains_key(id)
        &&& later.terminals@ == self.terminals@.insert(id, later.terminals@[id])
        &&& later.terminals@[id].size() == size
        &&& later.terminals@[id].id() == self.terminals@[id].id()
        &&& later.terminals@[id].pty_id() == self.terminals@[id].pty_id()
        &&& *later.terminals@[id].last_content() == *self.terminals@[id].last_content()
    }

    /// Whether each session follows its output after a command to `id`.
    pub open spec fn follow_after(&self, id: u64, command: CommandView) -> Map<u64, bool> {
        if resumes_following(command) {
            self.follow_output@.insert(id, true)
        } else {
            self.follow_output@
        }
    }

    /// `later` is this registry after `command` has been applied to its live
    /// session `id`, and `asked` is what the command asks for.
    pub open spec fn command_applied(
        &self,
        later: &AppState,
        id: u64,
        app_scroll: bool,
        command: CommandView,
        asked: EffectView,
    ) -> bool {
        &&& asked == effect_of(self.terminals@[id].size(), app_scroll, command)
        &&& self.session_resized(later, id, size_after(self.terminals@[id].size(), command))
        &&& later.follow_output@ == self.follow_after(id, command)
        &&& later.next_terminal_id == self.next_terminal_id
        &&& later.korean_input_states@ == self.korean_input_states@
        &&& later.scroll_offset@ == self.scroll_offset@
        &&& later.selected_terminals@ == self.selected_terminals@
    }

    /// Sends bytes to the session `terminal_id`: they are to be queued on
    /// its process's input, and its viewport moved to the latest output.
    /// After bytes that hold a line end the session follows its output
    /// again, whatever scrolling did before. There is nothing to do for a
    /// session that does not exist.
    pub fn write_to_terminal(&mut self, terminal_id: u64, bytes: Vec<u8>) -> (effect: Option<
        BackendEffect,
    >)
        ensures
            !old(self).terminals@.contains_key(terminal_id) ==> {
                &&& effect is None
                &&& final(self).same_sessions(old(self))
            },
            old(self).terminals@.contains_key(terminal_id) ==> {
                &&& effect matches Some(asked)
                &&& asked@ == (EffectView::Write { bytes: bytes@, scroll_to_bottom: true })
                &&& final(self).terminals@ == old(self).terminals@
                &&& final(self).follow_output@ == old(self).follow_after(
                    terminal_id,
                    CommandView::Write(bytes@),
                )
                &&& has_line_end(bytes@) ==> final(self).follow_output@.contains_key(terminal_id)
                    && final(self).follow_output@[terminal_id]
                &&& final(self).next_terminal_id == old(self).next_terminal_id
                &&& final(self).korean_input_states@ == old(self).korean_input_states@
                &&& final(self).scroll_offset@ == old(self).scroll_offset@
                &&& final(self).selected_terminals@ == old(self).selected_terminals@
            },
            final(self).same_tabs(old(self)),
            final(self).same_settings(old(self)),
            old(self).wf() ==> final(self).wf(),
    {
        if !self.terminals.contains_key(&terminal_id) {
            return None;
        }
        if contains_line_end(&bytes) {
            self.follow_output.insert(terminal_id, true);
        }
        proof {
            if old(self).wf() {
                old(self).lemma_same_members_keep_wf(final(self));
            }
        }
        Some(BackendEffect::Write { bytes, scroll_to_bottom: true })
    }

    /// Applies a command to the session `terminal_id` under the engine's
    /// current mode, and returns what to ask of its process and engine.
    /// There is nothing to do for a session that does not exist. After a
    /// write that holds a line end, the session follows its output again.
    pub fn process_command(
        &mut self,
        terminal_id: u64,
        mode: &TermMode,
        command: BackendCommand,
    ) -> (effect: Option<BackendEffect>)
        ensures
            !old(self).terminals@.contains_key(terminal_id) ==> {
                &&& effect is None
                &&& final(self).same_sessions(old(self))
            },
            old(self).terminals@.contains_key(terminal_id) ==> {
                &&& effect matches Some(asked)
                &&& old(self).command_applied(
                    final(self),
                    terminal_id,
                    application_scroll(*mode),
                    command@,
                    asked@,
                )
            },
            final(self).same_tabs(old(self)),
            final(self).same_settings(old(self)),
            old(self).wf() ==> final(self).wf(),
    {
        let app_scroll = mode_is_application_scroll(mode);
        self.apply_command(terminal_id, app_scroll, command)
    }

    /// Applies a command to the session `terminal_id`, given whether the
    /// application running in it scrolls for itself, and returns what to ask
    /// of its process and engine. There is nothing to do for a session that
    /// does not exist. After a write that holds a line end, the session
    /// follows its output again.
    pub fn apply_command(
        &mut self,
        terminal_id: u64,
        app_scroll: bool,
        command: BackendCommand,
    ) -> (effect: Option<BackendEffect>)
        ensures
            !old(self).terminals@.contains_key(terminal_id) ==> {
                &&& effect is None
                &&& final(self).same_sessions(old(self))
            },
            old(self).terminals@.contains_key(terminal_id) ==> {
                &&& effect matches Some(asked)
                &&& old(self).command_applied(
                    final(self),
                    terminal_id,
                    app_scroll,
                    command@,
                    asked@,
                )
            },
            final(self).same_tabs(old(self)),
            final(self).same_settings(old(self)),
            old(self).wf() ==> final(self).wf(),
    {
        match self.terminals.remove(&terminal_id) {
            None => {
                assert(self.terminals@ =~= old(self).terminals@);
                None
            },
            Some(backend) => {
                let mut backend = backend;
                let follows = match &command {
                    BackendCommand::Write(bytes) => contains_line_end(bytes),
                    _ => false,
                };
                let effect = backend.apply_command(app_scroll, command);
                self.terminals.insert(terminal_id, backend);
                if follows {
                    self.follow_output.insert(terminal_id, true);
                }
                proof {
                    assert(final(self).terminals@ =~= old(self).terminals@.insert(
                        terminal_id,
                        final(self).terminals@[terminal_id],
                    ));
                    if old(self).wf() {
                        let size = old(self).terminals@[terminal_id].size();
                        lemma_size_after_valid(size, command@);
                        old(self).lemma_session_resized_stays_valid(
                            final(self),
                            terminal_id,
                            size_after(size, command@),
                        );
                        old(self).lemma_same_members_keep_wf(final(self));
                    }
                }
                Some(effect)
            },
        }
    }

    /// When one session gets a valid size and is otherwise as it was, every
    /// session is still stored under its id with a valid size.
    pub(crate) proof fn lemma_session_resized_stays_valid(
        &self,
        later: &AppState,
        id: u64,
        size: TerminalSize,
    )
        requires
            self.sessions_valid(),
            self.terminals@.contains_key(id),
            self.session_resized(later, id, size),
            size.well_formed(),
        ensures
            later.sessions_valid(),
            later.terminals@.dom() == self.terminals@.dom(),
    {
        assert(later.terminals@.dom() =~= self.terminals@.dom());
        assert forall|other: u64| later.terminals@.contains_key(other) implies (
        #[trigger] later.terminals@[other]).id() == other
            && later.terminals@[other].size().well_formed() by {
            if other != id {
                assert(later.terminals@[other] == self.terminals@[other]);
            } else {
                assert(self.terminals@[id].id() == id);
            }
        }
    }

    /// `later` is this registry after its focused session, where it is live,
    /// has been scrolled by `delta` lines and stopped from following its
    /// output, and `scrolled` names the session and what to ask of it.
    pub open spec fn focus_scrolled(
        &self,
        later: &AppState,
        app_scroll: bool,
        delta: i32,
        scrolled: Option<(u64, BackendEffect)>,
    ) -> bool {
        match self.focused_live() {
            None => {
                &&& scrolled is None
                &&& later.same_sessions(self)
            },
            Some(id) => {
                &&& scrolled matches Some(pair)
                &&& pair.0 == id
                &&& pair.1@ == effect_of(
                    self.terminals@[id].size(),
                    app_scroll,
                    CommandView::Scroll(delta),
                )
                &&& self.session_resized(later, id, self.terminals@[id].size())
                &&& later.follow_output@ == self.follow_output@.insert(id, false)
                &&& later.next_terminal_id == self.next_terminal_id
                &&& later.korean_input_states@ == self.korean_input_states@
                &&& later.scroll_offset@ == self.scroll_offset@
                &&& later.selected_terminals@ == self.selected_terminals@
            },
        }
    }

    /// Scrolls the focused session by `delta` lines under the engine's
    /// current mode, and stops it from following its output. Returns the
    /// session and what to ask of its process and engine; nothing where no
    /// live session is focused.
    pub fn handle_scroll(&mut self, mode: &TermMode, delta: i32) -> (scrolled: Option<
        (u64, BackendEffect),
    >)
        ensures
            old(self).focus_scrolled(final(self), application_scroll(*mode), delta, scrolled),
            final(self).same_tabs(old(self)),
            final(self).same_settings(old(self)),
            old(self).wf() ==> final(self).wf(),
    {
        let app_scroll = mode_is_application_scroll(mode);
        self.scroll_focused(app_scroll, delta)
    }

    /// Scrolls the focused session by `delta` lines, given whether the
    /// application running in it scrolls for itself, and stops it from
    /// following its output. Returns the session and what to ask of its
    /// process and engine; nothing where no live session is focused.
    pub fn scroll_focused(&mut self, app_scroll: bool, delta: i32) -> (scrolled: Option<
        (u64, BackendEffect),
    >)
        ensures
            old(self).focus_scrolled(final(self), app_scroll, delta, scrolled),
            final(self).same_tabs(old(self)),
            final(self).same_settings(old(self)),
            old(self).wf() ==> final(self).wf(),
    {
        match self.focused_terminal {
            None => None,
            Some(id) => {
                match self.apply_command(id, app_scroll, BackendCommand::Scroll(delta)) {
                    None => None,
                    Some(effect) => {
                        let ghost before = *self;
                        self.follow_output.insert(id, false);
                        proof {
                            if old(self).wf() {
                                before.lemma_same_members_keep_wf(final(self));
                            }
                        }
                        Some((id, effect))
                    },
                }
            },
        }
    }

    /// Whether the view of the session `terminal_id` follows its latest
    /// output: it does unless scrolling has stopped it.
    pub open spec fn follows(&self, terminal_id: u64) -> bool {
        if self.follow_output@.contains_key(terminal_id) {
            self.follow_output@[terminal_id]
        } else {
            true
        }
    }

    /// Whether the view of the session `terminal_id` follows its latest
    /// output.
    pub fn follows_output(&self, terminal_id: u64) -> (follows: bool)
        ensures
            follows == self.follows(terminal_id),
    {
        match self.follow_output.get(&terminal_id) {
            Some(flag) => *flag,
            None => true,
        }
    }

    /// The focused session, where it is live.
    pub open spec fn focused_live(&self) -> Option<u64> {
        match self.focused_terminal {
            Some(id) => if self.terminals@.contains_key(id) {
                Some(id)
            } else {
                None
            },
            None => None,
        }
    }

    /// Caches what was read from the engine of the session `terminal_id`.
    /// Where the engine could not be read, the session's last copy is
    /// served. Tells whether the session exists.
    pub fn sync_terminal(
        &mut self,
        terminal_id: u64,
        fresh: Result<RenderableContent, EngineSyncError>,
    ) -> (live: bool)
        ensures
            live == old(self).terminals@.contains_key(terminal_id),
            !live ==> final(self).terminals@ == old(self).terminals@,
            live ==> {
                &&& final(self).terminals@.contains_key(terminal_id)
                &&& final(self).terminals@ == old(self).terminals@.insert(
                    terminal_id,
                    final(self).terminals@[terminal_id],
                )
                &&& final(self).terminals@[terminal_id].size() == old(
                    self,
                ).terminals@[terminal_id].size()
                &&& final(self).terminals@[terminal_id].id() == old(self).terminals@[terminal_id].id()
                &&& final(self).terminals@[terminal_id].pty_id() == old(
                    self,
                ).terminals@[terminal_id].pty_id()
                &&& *final(self).terminals@[terminal_id].last_content() == (match fresh {
                    Ok(content) => RenderableContent {
                        terminal_size: old(self).terminals@[terminal_id].size(),
                        ..content
                    },
                    Err(_) => *old(self).terminals@[terminal_id].last_content(),
                })
            },
            final(self).next_terminal_id == old(self).next_terminal_id,
            final(self).korean_input_states@ == old(self).korean_input_states@,
            final(self).follow_output@ == old(self).follow_output@,
            final(self).scroll_offset@ == old(self).scroll_offset@,
            final(self).selected_terminals@ == old(self).selected_terminals@,
            final(self).same_tabs(old(self)),
            final(self).same_settings(old(self)),
            old(self).wf() ==> final(self).wf(),
    {
        match self.terminals.remove(&terminal_id) {
            None => {
                assert(self.terminals@ =~= old(self).terminals@);
                false
            },
            Some(backend) => {
                let mut backend = backend;
                backend.sync(fresh);
                self.terminals.insert(terminal_id, backend);
                proof {
                    assert(final(self).terminals@ =~= old(self).terminals@.insert(
                        terminal_id,
                        final(self).terminals@[terminal_id],
                    ));
                    if old(self).wf() {
                        assert(final(self).terminals@.dom() =~= old(self).terminals@.dom());
                        let synced = final(self).terminals@;
                        assert forall|other: u64| synced.contains_key(other) implies (
                        #[trigger] synced[other]).id() == other
                            && synced[other].size().well_formed() by {
                            if other != terminal_id {
                                assert(synced[other] == old(self).terminals@[other]);
                            } else {
                                assert(old(self).terminals@[terminal_id].id() == terminal_id);
                            }
                        }
                        old(self).lemma_same_members_keep_wf(final(self));
                    }
                }
                true
            },
        }
    }
}

} // verus!
