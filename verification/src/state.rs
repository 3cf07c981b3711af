//! The registry: every tab, its layout and its sessions, the order of the
//! tabs, and which tab and session are active.

use crate::grid::ViewMode;
use crate::layout::PanelContent;
use crate::terminal::{RenderableContent, SpawnError, TerminalBackend};
use crate::text::{tab_title, title_of};
use alacritty_terminal::term::cell::Cell;
use alacritty_terminal::term::TermMode;
use alacritty_terminal::Grid;
use std::collections::{HashMap, HashSet};
use vstd::prelude::*;

verus! {

broadcast use vstd::std_specs::hash::group_hash_axioms;

/// One tab: its title and the line being composed in it.
#[derive(Debug, Clone)]
pub struct TerminalTab {
    pub id: u64,
    pub title: String,
    pub current_directory: Option<String>,
    pub process_name: Option<String>,
    pub input_buffer: String,
    pub command_history: Vec<String>,
    pub output_lines: Vec<String>,
}

/// The state of Hangul composition in one session.
#[derive(Debug, Clone, Copy, PartialEq, Eq, Structural)]
pub struct KoreanInputState {
    pub composing: bool,
    pub chosung: Option<char>,
    pub jungsung: Option<char>,
    pub jongsung: Option<char>,
    pub composed_char: Option<char>,
}

impl KoreanInputState {
    /// The state in which nothing is being composed.
    pub open spec fn cleared() -> KoreanInputState {
        KoreanInputState {
            composing: false,
            chosung: None,
            jungsung: None,
            jongsung: None,
            composed_char: None,
        }
    }

    /// No syllable is under way.
    pub fn new() -> (state: Self)
        ensures
            state == Self::cleared(),
    {
        KoreanInputState {
            composing: false,
            chosung: None,
            jungsung: None,
            jongsung: None,
            composed_char: None,
        }
    }

    /// Drops the syllable under way.
    pub fn clear(&mut self)
        ensures
            *final(self) == Self::cleared(),
    {
        self.composing = false;
        self.chosung = None;
        self.jungsung = None;
        self.jongsung = None;
        self.composed_char = None;
    }

    /// Whether no syllable is under way: nothing is composing and no
    /// consonant or vowel is held.
    pub fn is_empty(&self) -> (empty: bool)
        ensures
            empty == (!self.composing && self.chosung is None && self.jungsung is None
                && self.jongsung is None),
    {
        !self.composing && self.chosung.is_none() && self.jungsung.is_none()
            && self.jongsung.is_none()
    }
}

impl Default for KoreanInputState {
    fn default() -> (state: Self)
        ensures
            state == Self::cleared(),
    {
        KoreanInputState::new()
    }
}

/// What the platform hands over when it has started a session's process.
pub struct SpawnedTerminal {
    pub pty_id: u32,
    pub grid: Grid<Cell>,
    pub cursor: Cell,
    pub terminal_mode: TermMode,
}

/// The registry of tabs and sessions.
pub struct AppState {
    pub tabs: HashMap<u64, TerminalTab>,
    pub tab_order: Vec<u64>,
    pub active_tab_id: u64,
    pub next_tab_id: u64,
    pub terminals: HashMap<u64, TerminalBackend>,
    pub next_terminal_id: u64,
    pub tab_layouts: HashMap<u64, PanelContent>,
    pub view_mode: ViewMode,
    pub focused_terminal: Option<u64>,
    pub broadcast_mode: bool,
    pub selected_terminals: HashSet<u64>,
    pub korean_input_states: HashMap<u64, KoreanInputState>,
    pub follow_output: HashMap<u64, bool>,
    pub scroll_offset: HashMap<u64, i32>,
    pub initialized: bool,
    pub pty_thread_started: bool,
}

impl AppState {
    /// The tabs in `tab_order` are the tabs that exist, each once, each with
    /// a layout, each stored under its own id, and all older than the next id.
    pub open spec fn tabs_agree(&self) -> bool {
        &&& self.tab_order@.no_duplicates()
        &&& forall|id: u64| self.tab_order@.contains(id) <==> self.tabs@.contains_key(id)
        &&& forall|id: u64| self.tabs@.contains_key(id) <==> self.tab_layouts@.contains_key(id)
        &&& forall|id: u64|
            self.tabs@.contains_key(id) ==> (#[trigger] self.tabs@[id]).id == id && id
                < self.next_tab_id
    }

    /// The order lists no tab twice, and every tab that it lists has a
    /// record and a layout.
    pub open spec fn order_listed(&self) -> bool {
        &&& self.tab_order@.no_duplicates()
        &&& forall|i: int|
            0 <= i < self.tab_order@.len() ==> self.tabs@.contains_key(
                #[trigger] self.tab_order@[i],
            ) && self.tab_layouts@.contains_key(self.tab_order@[i])
    }

    /// Every leaf of every tab's layout names a live session.
    pub open spec fn leaves_live(&self) -> bool {
        forall|tab: u64, id: u64|
            self.tab_layouts@.contains_key(tab) && (#[trigger] self.tab_layouts@[tab].contains(id))
                ==> self.terminals@.contains_key(id)
    }

    /// No session is shown twice: not in one layout, and not in two.
    pub open spec fn leaves_distinct(&self) -> bool {
        &&& forall|tab: u64|
            self.tab_layouts@.contains_key(tab) ==> (#[trigger] self.tab_layouts@[tab]).leaves().no_duplicates()
        &&& forall|a: u64, b: u64, id: u64|
            self.tab_layouts@.contains_key(a) && self.tab_layouts@.contains_key(b)
                && #[trigger] self.tab_layouts@[a].contains(id)
                && #[trigger] self.tab_layouts@[b].contains(id) ==> a == b
    }

    /// Every split of every layout gives its first half a share within
    /// the bounds.
    pub open spec fn ratios_valid(&self) -> bool {
        forall|tab: u64|
            self.tab_layouts@.contains_key(tab) ==> (#[trigger] self.tab_layouts@[tab]).ratios_in_range()
    }

    /// While there are tabs, one of them is active; a focused session is a
    /// leaf of the active tab's layout.
    pub open spec fn focus_valid(&self) -> bool {
        &&& self.tab_order@.len() > 0 ==> self.tabs@.contains_key(self.active_tab_id)
        &&& self.focused_terminal matches Some(id) ==> {
            &&& self.tab_layouts@.contains_key(self.active_tab_id)
            &&& self.tab_layouts@[self.active_tab_id].contains(id)
        }
    }

    /// Every session is stored under its own id, and its grid has at least
    /// one column and one line.
    pub open spec fn sessions_valid(&self) -> bool {
        forall|id: u64|
            self.terminals@.contains_key(id) ==> (#[trigger] self.terminals@[id]).id() == id
                && self.terminals@[id].size().well_formed()
    }

    /// What is kept for each session is kept for live sessions only, and
    /// every live session is older than the next id.
    pub open spec fn session_state_live(&self) -> bool {
        &&& forall|id: u64| self.terminals@.contains_key(id) ==> id < self.next_terminal_id
        &&& forall|id: u64|
            self.korean_input_states@.contains_key(id) <==> self.terminals@.contains_key(id)
        &&& forall|id: u64| self.follow_output@.contains_key(id) ==> self.terminals@.contains_key(id)
        &&& forall|id: u64| self.scroll_offset@.contains_key(id) ==> self.terminals@.contains_key(id)
        &&& forall|id: u64| self.selected_terminals@.contains(id) ==> self.terminals@.contains_key(id)
    }

    /// The registry's invariant.
    pub open spec fn wf(&self) -> bool {
        &&& self.tabs_agree()
        &&& self.leaves_live()
        &&& self.leaves_distinct()
        &&& self.ratios_valid()
        &&& self.focus_valid()
        &&& self.sessions_valid()
        &&& self.session_state_live()
        &&& self.view_mode.well_formed()
    }

    /// Tabs, order, layouts, focus and view are the same in both.
    pub open spec fn same_tabs(&self, other: &AppState) -> bool {
        &&& self.tabs@ == other.tabs@
        &&& self.tab_order@ == other.tab_order@
        &&& self.active_tab_id == other.active_tab_id
        &&& self.next_tab_id == other.next_tab_id
        &&& self.tab_layouts@ == other.tab_layouts@
        &&& self.focused_terminal == other.focused_terminal
    }

    /// Sessions and what is kept for each are the same in both.
    pub open spec fn same_sessions(&self, other: &AppState) -> bool {
        &&& self.terminals@ == other.terminals@
        &&& self.next_terminal_id == other.next_terminal_id
        &&& self.korean_input_states@ == other.korean_input_states@
        &&& self.follow_output@ == other.follow_output@
        &&& self.scroll_offset@ == other.scroll_offset@
        &&& self.selected_terminals@ == other.selected_terminals@
    }

    /// View mode and the flags are the same in both.
    pub open spec fn same_settings(&self, other: &AppState) -> bool {
        &&& self.view_mode == other.view_mode
        &&& self.broadcast_mode == other.broadcast_mode
        &&& self.initialized == other.initialized
        &&& self.pty_thread_started == other.pty_thread_started
    }

    /// In a well-formed registry the order lists as many tabs as exist, and
    /// every tab that it lists exists.
    pub proof fn lemma_order_matches_tabs(&self)
        requires
            self.tabs_agree(),
        ensures
            self.tab_order@.len() == self.tabs@.len(),
            forall|i: int|
                0 <= i < self.tab_order@.len() ==> self.tabs@.contains_key(
                    #[trigger] self.tab_order@[i],
                ),
    {
        self.tab_order@.unique_seq_to_set();
        assert(self.tab_order@.to_set() =~= self.tabs@.dom());
        assert forall|i: int| 0 <= i < self.tab_order@.len() implies self.tabs@.contains_key(
            #[trigger] self.tab_order@[i],
        ) by {
            assert(self.tab_order@.contains(self.tab_order@[i]));
        }
    }

    /// A registry stays well formed while it keeps its members: the same
    /// tabs under the same ids in the same order with the same layouts and
    /// focus, the same sessions under the same ids, each valid, and what is
    /// kept for a session kept for live sessions only. The lines of a tab,
    /// the size and content of a session and the auto-scroll flags may
    /// differ.
    pub(crate) proof fn lemma_same_members_keep_wf(&self, later: &AppState)
        requires
            self.wf(),
            later.tabs@.dom() == self.tabs@.dom(),
            forall|id: u64|
                self.tabs@.contains_key(id) ==> (#[trigger] later.tabs@[id]).id
                    == self.tabs@[id].id,
            later.tab_order@ == self.tab_order@,
            later.active_tab_id == self.active_tab_id,
            later.next_tab_id == self.next_tab_id,
            later.tab_layouts@ == self.tab_layouts@,
            later.focused_terminal == self.focused_terminal,
            later.terminals@.dom() == self.terminals@.dom(),
            later.sessions_valid(),
            later.next_terminal_id == self.next_terminal_id,
            later.korean_input_states@.dom() == self.korean_input_states@.dom(),
            later.follow_output@.dom().subset_of(later.terminals@.dom()),
            later.scroll_offset@.dom().subset_of(later.terminals@.dom()),
            later.selected_terminals@.subset_of(later.terminals@.dom()),
            later.view_mode.well_formed(),
        ensures
            later.wf(),
    {
        assert(later.tabs_agree()) by {
            assert forall|id: u64| later.tab_order@.contains(id) <==> later.tabs@.contains_key(
                id,
            ) by {
                assert(later.tabs@.contains_key(id) == self.tabs@.dom().contains(id));
            }
            assert forall|id: u64| later.tabs@.contains_key(id)
                <==> later.tab_layouts@.contains_key(id) by {
                assert(later.tabs@.contains_key(id) == self.tabs@.dom().contains(id));
            }
            assert forall|id: u64| later.tabs@.contains_key(id) implies (
            #[trigger] later.tabs@[id]).id == id && id < later.next_tab_id by {
                assert(self.tabs@.dom().contains(id));
                assert(self.tabs@[id].id == id);
            }
        }
        assert(later.leaves_live()) by {
            assert forall|tab: u64, id: u64|
                later.tab_layouts@.contains_key(tab) && (#[trigger] later.tab_layouts@[tab].contains(
                    id,
                )) implies later.terminals@.contains_key(id) by {
                assert(self.tab_layouts@[tab].contains(id));
                assert(self.terminals@.dom().contains(id));
            }
        }
        assert(later.leaves_distinct());
        assert(later.focus_valid()) by {
            assert(later.tabs@.contains_key(later.active_tab_id) == self.tabs@.dom().contains(
                self.active_tab_id,
            ));
        }
        assert(later.session_state_live()) by {
            assert forall|id: u64| later.terminals@.contains_key(id) implies id
                < later.next_terminal_id by {
                assert(self.terminals@.dom().contains(id));
            }
            assert forall|id: u64| later.korean_input_states@.contains_key(id)
                <==> later.terminals@.contains_key(id) by {
                assert(later.korean_input_states@.contains_key(id)
                    == self.korean_input_states@.dom().contains(id));
                assert(later.terminals@.contains_key(id) == self.terminals@.dom().contains(id));
            }
        }
    }

    /// The registry holds nothing: no tab, no session and nothing kept for
    /// one, the single view, no flag set; the first tab and the first
    /// session will get the id 1.
    pub open spec fn is_empty(&self) -> bool {
        &&& self.tabs@ == Map::<u64, TerminalTab>::empty()
        &&& self.tab_order@ == Seq::<u64>::empty()
        &&& self.active_tab_id == 0
        &&& self.next_tab_id == 1
        &&& self.terminals@ == Map::<u64, TerminalBackend>::empty()
        &&& self.next_terminal_id == 1
        &&& self.tab_layouts@ == Map::<u64, PanelContent>::empty()
        &&& self.view_mode == ViewMode::Single
        &&& self.focused_terminal is None
        &&& !self.broadcast_mode
        &&& self.selected_terminals@ == Set::<u64>::empty()
        &&& self.korean_input_states@ == Map::<u64, KoreanInputState>::empty()
        &&& self.follow_output@ == Map::<u64, bool>::empty()
        &&& self.scroll_offset@ == Map::<u64, i32>::empty()
        &&& !self.initialized
        &&& !self.pty_thread_started
    }

    /// An empty registry.
    pub fn new() -> (state: Self)
        ensures
            state.wf(),
            state.is_empty(),
    {
        AppState {
            tabs: HashMap::new(),
            tab_order: Vec::new(),
            active_tab_id: 0,
            next_tab_id: 1,
            terminals: HashMap::new(),
            next_terminal_id: 1,
            tab_layouts: HashMap::new(),
            view_mode: ViewMode::Single,
            focused_terminal: None,
            broadcast_mode: false,
            selected_terminals: HashSet::new(),
            korean_input_states: HashMap::new(),
            follow_output: HashMap::new(),
            scroll_offset: HashMap::new(),
            initialized: false,
            pty_thread_started: false,
        }
    }

    /// Whether the first tab has been opened.
    pub fn is_initialized(&self) -> (initialized: bool)
        ensures
            initialized == self.initialized,
    {
        self.initialized
    }

    /// Records that the first tab has been opened.
    pub fn mark_initialized(&mut self)
        ensures
            final(self).initialized,
            final(self).same_tabs(old(self)),
            final(self).same_sessions(old(self)),
            final(self).view_mode == old(self).view_mode,
            final(self).broadcast_mode == old(self).broadcast_mode,
            final(self).pty_thread_started == old(self).pty_thread_started,
            old(self).wf() ==> final(self).wf(),
    {
        self.initialized = true;
    }
}

impl AppState {
    /// A session can be registered: the platform started its process, and
    /// an id is left for it.
    pub open spec fn can_register(&self, spawned: Result<SpawnedTerminal, SpawnError>) -> bool {
        spawned is Ok && self.next_terminal_id < u64::MAX
    }

    /// The error with which registering a session fails.
    pub open spec fn register_error(
        &self,
        spawned: Result<SpawnedTerminal, SpawnError>,
    ) -> SpawnError {
        match spawned {
            Err(error) => error,
            Ok(_) => SpawnError::IdsExhausted,
        }
    }

    /// `later` is this registry with one more session, `id`, made from
    /// `spawned` at the default size, with nothing composed in it.
    pub open spec fn session_added(
        &self,
        later: &AppState,
        id: u64,
        spawned: SpawnedTerminal,
    ) -> bool {
        &&& id == self.next_terminal_id
        &&& later.next_terminal_id == id + 1
        &&& later.terminals@.contains_key(id)
        &&& later.terminals@ == self.terminals@.insert(id, later.terminals@[id])
        &&& later.terminals@[id].id() == id
        &&& later.terminals@[id].pty_id() == spawned.pty_id
        &&& later.terminals@[id].size().well_formed()
        &&& *later.terminals@[id].last_content() == (RenderableContent {
            grid: spawned.grid,
            selectable_range: None,
            cursor: spawned.cursor,
            terminal_mode: spawned.terminal_mode,
            terminal_size: later.terminals@[id].size(),
            cursor_line: 0,
            cursor_col: 0,
        })
        &&& later.korean_input_states@ == self.korean_input_states@.insert(
            id,
            KoreanInputState::cleared(),
        )
        &&& later.follow_output@ == self.follow_output@
        &&& later.scroll_offset@ == self.scroll_offset@
        &&& later.selected_terminals@ == self.selected_terminals@
    }

    /// Registers a session whose process the platform has started, under
    /// the next session id. A failed start is handed back and changes
    /// nothing.
    pub fn create_terminal(&mut self, spawned: Result<SpawnedTerminal, SpawnError>) -> (created:
        Result<u64, SpawnError>)
        ensures
            old(self).can_register(spawned) ==> created is Ok && old(self).session_added(
                final(self),
                created->Ok_0,
                spawned->Ok_0,
            ),
            !old(self).can_register(spawned) ==> created == Err::<u64, SpawnError>(
                old(self).register_error(spawned),
            ) && final(self).same_sessions(old(self)),
            final(self).same_tabs(old(self)),
            final(self).same_settings(old(self)),
            old(self).wf() ==> final(self).wf(),
    {
        match spawned {
            Err(error) => Err(error),
            Ok(terminal) => {
                if self.next_terminal_id == u64::MAX {
                    return Err(SpawnError::IdsExhausted);
                }
                let terminal_id = self.next_terminal_id;
                self.next_terminal_id = terminal_id + 1;
                let backend = TerminalBackend::new(
                    terminal_id,
                    terminal.pty_id,
                    terminal.grid,
                    terminal.cursor,
                    terminal.terminal_mode,
                );
                self.terminals.insert(terminal_id, backend);
                self.korean_input_states.insert(terminal_id, KoreanInputState::new());
                proof {
                    if old(self).wf() {
                        assert forall|id: u64| self.terminals@.contains_key(id) implies (
                        #[trigger] self.terminals@[id]).id() == id
                            && self.terminals@[id].size().well_formed() by {
                            if id != terminal_id {
                                assert(self.terminals@[id] == old(self).terminals@[id]);
                            }
                        }
                    }
                }
                Ok(terminal_id)
            },
        }
    }

    /// A tab can be opened: its session can be registered, and an id is
    /// left for the tab.
    pub open spec fn can_open(&self, spawned: Result<SpawnedTerminal, SpawnError>) -> bool {
        self.can_register(spawned) && self.next_tab_id < u64::MAX
    }

    /// Opens a tab for a session whose process the platform has started: the
    /// tab gets the next tab id and a layout of one leaf, goes to the end of
    /// the order, and becomes active with its session focused. A failed
    /// start is handed back, and then no tab is created.
    pub fn create_new_tab(
        &mut self,
        spawned: Result<SpawnedTerminal, SpawnError>,
        shell_name: String,
        current_directory: Option<String>,
    ) -> (opened: Result<u64, SpawnError>)
        ensures
            !old(self).can_open(spawned) ==> {
                &&& opened == Err::<u64, SpawnError>(old(self).register_error(spawned))
                &&& final(self).same_tabs(old(self))
                &&& final(self).same_sessions(old(self))
            },
            old(self).can_open(spawned) ==> {
                &&& opened == Ok::<u64, SpawnError>(old(self).next_tab_id)
                &&& old(self).session_added(
                    final(self),
                    old(self).next_terminal_id,
                    spawned->Ok_0,
                )
                &&& final(self).next_tab_id == old(self).next_tab_id + 1
                &&& final(self).tab_order@ == old(self).tab_order@.push(old(self).next_tab_id)
                &&& final(self).active_tab_id == old(self).next_tab_id
                &&& final(self).focused_terminal == Some(old(self).next_terminal_id)
                &&& final(self).tab_layouts@ == old(self).tab_layouts@.insert(
                    old(self).next_tab_id,
                    PanelContent::Terminal(old(self).next_terminal_id),
                )
                &&& final(self).tabs@.contains_key(old(self).next_tab_id)
                &&& final(self).tabs@ == old(self).tabs@.insert(
                    old(self).next_tab_id,
                    final(self).tabs@[old(self).next_tab_id],
                )
                &&& final(self).tabs@[old(self).next_tab_id].is_fresh(
                    old(self).next_tab_id,
                    shell_name@,
                    current_directory,
                )
            },
            old(self).can_open(spawned) ==> {
                &&& final(self).tab_order@.len() == old(self).tab_order@.len() + 1
                &&& !old(self).tabs@.contains_key(old(self).next_tab_id)
                    ==> final(self).tabs@.len() == old(self).tabs@.len() + 1
                &&& old(self).order_listed() && !old(self).tab_order@.contains(
                    old(self).next_tab_id,
                ) ==> final(self).order_listed()
            },
            final(self).same_settings(old(self)),
            old(self).wf() ==> final(self).wf(),
            old(self).wf() ==> final(self).tab_order@.len() == final(self).tabs@.len(),
    {
        proof {
            if self.wf() {
                self.lemma_order_matches_tabs();
            }
        }
        if self.next_tab_id == u64::MAX {
            return match spawned {
                Err(error) => Err(error),
                Ok(_) => Err(SpawnError::IdsExhausted),
            };
        }
        let terminal_id = match self.create_terminal(spawned) {
            Err(error) => {
                return Err(error);
            },
            Ok(id) => id,
        };
        let tab_id = self.next_tab_id;
        self.next_tab_id = tab_id + 1;
        let tab = TerminalTab {
            id: tab_id,
            title: tab_title(shell_name.as_str(), tab_id),
            current_directory,
            process_name: Some(shell_name),
            input_buffer: String::new(),
            command_history: Vec::new(),
            output_lines: Vec::new(),
        };
        let layout = PanelContent::single(terminal_id);
        self.tabs.insert(tab_id, tab);
        self.tab_order.push(tab_id);
        self.tab_layouts.insert(tab_id, layout);
        self.active_tab_id = tab_id;
        self.focused_terminal = Some(terminal_id);
        proof {
            if old(self).wf() {
                old(self).lemma_tab_opened(final(self), tab_id, terminal_id);
                final(self).lemma_order_matches_tabs();
            }
            old(self).lemma_tab_listed(final(self), tab_id);
        }
        Ok(tab_id)
    }

    /// A tab that joins the end of the order with its record and layout
    /// makes the tabs one more, where its id had no record, and leaves the
    /// order listed, where it was and did not list the id.
    proof fn lemma_tab_listed(&self, later: &AppState, tab_id: u64)
        requires
            later.tab_order@ == self.tab_order@.push(tab_id),
            later.tabs@.contains_key(tab_id),
            later.tabs@ == self.tabs@.insert(tab_id, later.tabs@[tab_id]),
            later.tab_layouts@.contains_key(tab_id),
            later.tab_layouts@.dom() == self.tab_layouts@.dom().insert(tab_id),
        ensures
            !self.tabs@.contains_key(tab_id) ==> later.tabs@.len() == self.tabs@.len() + 1,
            self.order_listed() && !self.tab_order@.contains(tab_id) ==> later.order_listed(),
    {
        if !self.tabs@.contains_key(tab_id) {
            assert(later.tabs@.dom() =~= self.tabs@.dom().insert(tab_id));
        }
        if self.order_listed() && !self.tab_order@.contains(tab_id) {
            assert forall|i: int, j: int|
                0 <= i < later.tab_order@.len() && 0 <= j < later.tab_order@.len() && i
                    != j implies later.tab_order@[i] != later.tab_order@[j] by {
                if i < self.tab_order@.len() {
                    assert(self.tab_order@.contains(self.tab_order@[i]));
                }
                if j < self.tab_order@.len() {
                    assert(self.tab_order@.contains(self.tab_order@[j]));
                }
            }
            assert forall|i: int| 0 <= i < later.tab_order@.len() implies later.tabs@.contains_key(
                #[trigger] later.tab_order@[i],
            ) && later.tab_layouts@.contains_key(later.tab_order@[i]) by {
                if i < self.tab_order@.len() {
                    assert(self.tabs@.contains_key(self.tab_order@[i]));
                    assert(self.tab_layouts@.dom().contains(self.tab_order@[i]));
                }
            }
        }
    }

    /// Opening a tab with a new session keeps the registry well formed.
    proof fn lemma_tab_opened(&self, later: &AppState, tab_id: u64, terminal_id: u64)
        requires
            self.wf(),
            tab_id == self.next_tab_id,
            terminal_id == self.next_terminal_id,
            later.next_tab_id == tab_id + 1,
            later.next_terminal_id == terminal_id + 1,
            later.tab_order@ == self.tab_order@.push(tab_id),
            later.active_tab_id == tab_id,
            later.focused_terminal == Some(terminal_id),
            later.tab_layouts@ == self.tab_layouts@.insert(tab_id, PanelContent::Terminal(terminal_id)),
            later.tabs@.contains_key(tab_id),
            later.tabs@ == self.tabs@.insert(tab_id, later.tabs@[tab_id]),
            later.tabs@[tab_id].id == tab_id,
            later.terminals@.contains_key(terminal_id),
            later.terminals@ == self.terminals@.insert(terminal_id, later.terminals@[terminal_id]),
            later.sessions_valid(),
            later.korean_input_states@ == self.korean_input_states@.insert(
                terminal_id,
                KoreanInputState::cleared(),
            ),
            later.follow_output@ == self.follow_output@,
            later.scroll_offset@ == self.scroll_offset@,
            later.selected_terminals@ == self.selected_terminals@,
            later.view_mode == self.view_mode,
        ensures
            later.wf(),
    {
        let leaf = PanelContent::Terminal(terminal_id);
        assert(leaf.leaves() == seq![terminal_id]);
        assert forall|id: u64| leaf.contains(id) implies id == terminal_id by {
            let i = choose|i: int| 0 <= i < leaf.leaves().len() && leaf.leaves()[i] == id;
            assert(seq![terminal_id][i] == terminal_id);
        }
        assert(leaf.contains(terminal_id)) by {
            assert(leaf.leaves()[0] == terminal_id);
        }
        // The order gains one id that no tab had.
        assert(!self.tab_order@.contains(tab_id)) by {
            if self.tab_order@.contains(tab_id) {
                assert(self.tabs@[tab_id].id == tab_id);
            }
        }
        assert(later.tab_order@.no_duplicates()) by {
            assert forall|i: int, j: int|
                0 <= i < later.tab_order@.len() && 0 <= j < later.tab_order@.len() && i
                    != j implies later.tab_order@[i] != later.tab_order@[j] by {
                if i < self.tab_order@.len() {
                    assert(self.tab_order@.contains(self.tab_order@[i]));
                }
                if j < self.tab_order@.len() {
                    assert(self.tab_order@.contains(self.tab_order@[j]));
                }
            }
        }
        assert forall|id: u64| later.tab_order@.contains(id) <==> later.tabs@.contains_key(
            id,
        ) by {
            if later.tab_order@.contains(id) {
                let i = choose|i: int| 0 <= i < later.tab_order@.len() && later.tab_order@[i] == id;
                if i < self.tab_order@.len() {
                    assert(self.tab_order@.contains(id));
                }
            }
            if later.tabs@.contains_key(id) {
                if id == tab_id {
                    assert(later.tab_order@[self.tab_order@.len() as int] == tab_id);
                } else {
                    assert(self.tab_order@.contains(id));
                    let i = choose|i: int| 0 <= i < self.tab_order@.len() && self.tab_order@[i] == id;
                    assert(later.tab_order@[i] == id);
                }
            }
        }
        assert(later.tabs_agree());
        assert(later.leaves_live()) by {
            assert forall|tab: u64, id: u64|
                later.tab_layouts@.contains_key(tab) && (#[trigger] later.tab_layouts@[tab].contains(
                    id,
                )) implies later.terminals@.contains_key(id) by {
                if tab != tab_id {
                    assert(self.tab_layouts@[tab].contains(id));
                }
            }
        }
        assert(later.leaves_distinct()) by {
            assert forall|tab: u64| later.tab_layouts@.contains_key(tab) implies (
            #[trigger] later.tab_layouts@[tab]).leaves().no_duplicates() by {
                if tab != tab_id {
                    assert(self.tab_layouts@[tab].leaves().no_duplicates());
                }
            }
            assert forall|a: u64, b: u64, id: u64|
                later.tab_layouts@.contains_key(a) && later.tab_layouts@.contains_key(b)
                    && #[trigger] later.tab_layouts@[a].contains(id)
                    && #[trigger] later.tab_layouts@[b].contains(id) implies a == b by {
                if a != tab_id && b != tab_id {
                    assert(self.tab_layouts@[a].contains(id));
                    assert(self.tab_layouts@[b].contains(id));
                } else if a == tab_id && b != tab_id {
                    assert(self.tab_layouts@[b].contains(id));
                    assert(self.terminals@.contains_key(id));
                } else if a != tab_id && b == tab_id {
                    assert(self.tab_layouts@[a].contains(id));
                    assert(self.terminals@.contains_key(id));
                }
            }
        }
        assert(later.focus_valid());
        assert(later.session_state_live());
    }
}

impl Default for AppState {
    /// An empty registry.
    fn default() -> (state: Self)
        ensures
            state.wf(),
            state.is_empty(),
    {
        AppState::new()
    }
}

impl TerminalTab {
    /// A tab as it is when opened: titled after its shell and number, with
    /// nothing typed and nothing shown.
    pub open spec fn is_fresh(
        &self,
        tab_id: u64,
        shell_name: Seq<char>,
        current_directory: Option<String>,
    ) -> bool {
        &&& self.id == tab_id
        &&& self.title@ == title_of(shell_name, tab_id)
        &&& self.current_directory == current_directory
        &&& self.process_name matches Some(name)
        &&& name@ == shell_name
        &&& self.input_buffer@ == Seq::<char>::empty()
        &&& self.command_history@ == Seq::<String>::empty()
        &&& self.output_lines@ == Seq::<String>::empty()
    }
}

} // verus!
