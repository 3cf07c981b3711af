//! Tearing a layout down, and closing a tab.

use crate::layout::PanelContent;
use crate::state::AppState;
use vstd::prelude::*;

verus! {

broadcast use vstd::std_specs::hash::group_hash_axioms;

/// The sessions that go when the leaves are visited in order: each leaf
/// that names a live session, once, at its first visit.
pub open spec fn removed_from(leaves: Seq<u64>, live: Set<u64>) -> Seq<u64>
    decreases leaves.len(),
{
    if leaves.len() == 0 {
        Seq::<u64>::empty()
    } else {
        let before = removed_from(leaves.drop_last(), live);
        if live.contains(leaves.last()) && !before.contains(leaves.last()) {
            before.push(leaves.last())
        } else {
            before
        }
    }
}

/// What is removed holds no session twice, and holds exactly the leaves
/// that name a live session.
pub proof fn lemma_removed_from(leaves: Seq<u64>, live: Set<u64>)
    ensures
        removed_from(leaves, live).no_duplicates(),
        removed_from(leaves, live).len() <= leaves.len(),
        forall|id: u64|
            #![trigger removed_from(leaves, live).contains(id)]
            #![trigger leaves.contains(id)]
            removed_from(leaves, live).contains(id) <==> leaves.contains(id) && live.contains(id),
    decreases leaves.len(),
{
    if leaves.len() > 0 {
        let front = leaves.drop_last();
        let last = leaves.last();
        let before = removed_from(front, live);
        let all = removed_from(leaves, live);
        lemma_removed_from(front, live);
        assert forall|id: u64|
            #![trigger all.contains(id)]
            #![trigger leaves.contains(id)]
            all.contains(id) <==> leaves.contains(id) && live.contains(id) by {
            if all.contains(id) {
                let i = choose|i: int| 0 <= i < all.len() && all[i] == id;
                if i < before.len() {
                    assert(before[i] == id);
                    assert(before.contains(id));
                    let j = choose|j: int| 0 <= j < front.len() && front[j] == id;
                    assert(leaves[j] == id);
                } else {
                    assert(id == last);
                    assert(leaves[leaves.len() - 1] == id);
                }
            }
            if leaves.contains(id) && live.contains(id) {
                let j = choose|j: int| 0 <= j < leaves.len() && leaves[j] == id;
                if j < front.len() {
                    assert(front[j] == id);
                    assert(front.contains(id));
                    let i = choose|i: int| 0 <= i < before.len() && before[i] == id;
                    assert(all[i] == id);
                } else if before.contains(id) {
                    let i = choose|i: int| 0 <= i < before.len() && before[i] == id;
                    assert(all[i] == id);
                } else {
                    assert(all[before.len() as int] == id);
                }
            }
        }
    }
}

/// Where no leaf repeats and every leaf names a live session, each leaf's
/// session is removed, in the order of the leaves.
pub proof fn lemma_removed_all(leaves: Seq<u64>, live: Set<u64>)
    requires
        leaves.no_duplicates(),
        forall|i: int| 0 <= i < leaves.len() ==> live.contains(#[trigger] leaves[i]),
    ensures
        removed_from(leaves, live) == leaves,
    decreases leaves.len(),
{
    if leaves.len() > 0 {
        let front = leaves.drop_last();
        lemma_removed_all(front, live);
        lemma_removed_from(front, live);
        if front.contains(leaves.last()) {
            let j = choose|j: int| 0 <= j < front.len() && front[j] == leaves.last();
            assert(leaves[j] == leaves[leaves.len() - 1]);
        }
        assert(front.push(leaves.last()) =~= leaves);
    }
}

/// Tearing down is idempotent: once the leaves' sessions are gone, a second
/// visit of the same leaves removes nothing.
pub proof fn lemma_teardown_idempotent(leaves: Seq<u64>, live: Set<u64>)
    ensures
        removed_from(leaves, live.difference(leaves.to_set())) == Seq::<u64>::empty(),
{
    let rest = live.difference(leaves.to_set());
    lemma_removed_from(leaves, rest);
    let second = removed_from(leaves, rest);
    if second.len() > 0 {
        assert(second.contains(second[0]));
        assert(leaves.contains(second[0]) && rest.contains(second[0]));
    }
    assert(second =~= Seq::<u64>::empty());
}

/// Removes one session and what is kept for it; tells whether it was live.
fn forget_terminal(state: &mut AppState, id: u64) -> (was_live: bool)
    ensures
        was_live == old(state).terminals@.contains_key(id),
        final(state).terminals@ == old(state).terminals@.remove(id),
        final(state).korean_input_states@ == old(state).korean_input_states@.remove(id),
        final(state).follow_output@ == old(state).follow_output@.remove(id),
        final(state).scroll_offset@ == old(state).scroll_offset@.remove(id),
        final(state).selected_terminals@ == old(state).selected_terminals@.remove(id),
        final(state).next_terminal_id == old(state).next_terminal_id,
        final(state).same_tabs(old(state)),
        final(state).same_settings(old(state)),
{
    let was_live = state.terminals.remove(&id).is_some();
    state.korean_input_states.remove(&id);
    state.follow_output.remove(&id);
    state.scroll_offset.remove(&id);
    state.selected_terminals.remove(&id);
    was_live
}

impl AppState {
    /// `later` is this registry without the sessions named by `leaves`, and
    /// without what was kept for them; tabs and settings are the same.
    pub open spec fn sessions_removed(&self, later: &AppState, leaves: Set<u64>) -> bool {
        &&& later.terminals@ == self.terminals@.remove_keys(leaves)
        &&& later.korean_input_states@ == self.korean_input_states@.remove_keys(leaves)
        &&& later.follow_output@ == self.follow_output@.remove_keys(leaves)
        &&& later.scroll_offset@ == self.scroll_offset@.remove_keys(leaves)
        &&& later.selected_terminals@ == self.selected_terminals@.difference(leaves)
        &&& later.next_terminal_id == self.next_terminal_id
    }

    /// No leaf of `layout` is a leaf of a tab's layout.
    pub open spec fn detached(&self, layout: PanelContent) -> bool {
        forall|tab: u64, id: u64|
            self.tab_layouts@.contains_key(tab) && (#[trigger] self.tab_layouts@[tab].contains(id))
                ==> !layout.contains(id)
    }

    /// No leaf of `layout` repeats, and each names a live session.
    pub open spec fn shows_live_sessions_once(&self, layout: PanelContent) -> bool {
        &&& layout.leaves().no_duplicates()
        &&& forall|i: int|
            0 <= i < layout.leaves().len() ==> self.terminals@.dom().contains(
                #[trigger] layout.leaves()[i],
            )
    }

    /// Tears a layout down: visits every leaf and removes its session and
    /// what is kept for it. Returns the sessions removed, each once, in the
    /// order of the leaves. Of a tree whose leaves are so many different
    /// live sessions, whatever its shape, exactly these sessions are
    /// removed, as many as it has leaves.
    pub fn cleanup_terminals_in_layout(&mut self, layout: &PanelContent) -> (removed: Vec<u64>)
        ensures
            removed@ == removed_from(layout.leaves(), old(self).terminals@.dom()),
            old(self).sessions_removed(final(self), layout.leaves().to_set()),
            final(self).terminals@.len() + removed@.len() == old(self).terminals@.len(),
            old(self).shows_live_sessions_once(*layout) ==> removed@ == layout.leaves(),
            final(self).same_tabs(old(self)),
            final(self).same_settings(old(self)),
            old(self).wf() && old(self).detached(*layout) ==> final(self).wf(),
    {
        proof {
            if self.shows_live_sessions_once(*layout) {
                lemma_removed_all(layout.leaves(), self.terminals@.dom());
            }
        }
        let ids = layout.terminal_ids();
        let mut removed: Vec<u64> = Vec::new();
        let ghost live = self.terminals@.dom();
        let mut i: usize = 0;
        assert(ids@.take(0).to_set() =~= Set::<u64>::empty());
        assert(self.terminals@.remove_keys(Set::<u64>::empty()) =~= self.terminals@);
        assert(self.korean_input_states@.remove_keys(Set::<u64>::empty())
            =~= self.korean_input_states@);
        assert(self.follow_output@.remove_keys(Set::<u64>::empty()) =~= self.follow_output@);
        assert(self.scroll_offset@.remove_keys(Set::<u64>::empty()) =~= self.scroll_offset@);
        assert(self.selected_terminals@.difference(Set::<u64>::empty())
            =~= self.selected_terminals@);
        while i < ids.len()
            invariant
                i <= ids.len(),
                ids@ == layout.leaves(),
                live == old(self).terminals@.dom(),
                old(self).sessions_removed(self, ids@.take(i as int).to_set()),
                removed@ == removed_from(ids@.take(i as int), live),
                self.terminals@.len() + removed@.len() == old(self).terminals@.len(),
                self.same_tabs(old(self)),
                self.same_settings(old(self)),
            decreases ids.len() - i,
        {
            let id = ids[i];
            let ghost seen = ids@.take(i as int);
            let ghost next = ids@.take(i + 1);
            let ghost before = *self;
            proof {
                lemma_removed_from(seen, live);
                assert(next.drop_last() =~= seen);
                assert(next =~= seen.push(id));
                seen.lemma_push_to_set_commute(id);
                assert(before.terminals@.contains_key(id) <==> live.contains(id) && !seen.contains(
                    id,
                ));
                if before.terminals@.contains_key(id) {
                    before.terminals@.lemma_remove_key_len(id);
                } else {
                    assert(before.terminals@.remove(id) =~= before.terminals@);
                }
            }
            let was_live = forget_terminal(self, id);
            if was_live {
                removed.push(id);
            }
            i = i + 1;
            proof {
                let leaves = next.to_set();
                assert(self.terminals@ =~= old(self).terminals@.remove_keys(leaves));
                assert(self.korean_input_states@ =~= old(self).korean_input_states@.remove_keys(
                    leaves,
                ));
                assert(self.follow_output@ =~= old(self).follow_output@.remove_keys(leaves));
                assert(self.scroll_offset@ =~= old(self).scroll_offset@.remove_keys(leaves));
                assert(self.selected_terminals@ =~= old(self).selected_terminals@.difference(leaves));
            }
        }
        proof {
            assert(ids@.take(ids@.len() as int) =~= ids@);
            if old(self).wf() && old(self).detached(*layout) {
                old(self).lemma_sessions_removed_keeps_wf(self, *layout);
            }
        }
        removed
    }

    /// Removing the sessions of a layout that no tab shows keeps the
    /// registry well formed.
    proof fn lemma_sessions_removed_keeps_wf(&self, later: &AppState, layout: PanelContent)
        requires
            self.wf(),
            self.detached(layout),
            self.sessions_removed(later, layout.leaves().to_set()),
            later.same_tabs(self),
            later.same_settings(self),
        ensures
            later.wf(),
    {
        assert(later.tabs_agree());
        assert(later.leaves_live()) by {
            assert forall|tab: u64, id: u64|
                later.tab_layouts@.contains_key(tab) && (#[trigger] later.tab_layouts@[tab].contains(
                    id,
                )) implies later.terminals@.contains_key(id) by {
                assert(self.tab_layouts@[tab].contains(id));
                assert(!layout.contains(id));
            }
        }
        assert(later.leaves_distinct());
        assert(later.focus_valid());
        assert(later.session_state_live());
    }
}

/// How closing the active tab ended.
#[derive(Debug, PartialEq, Eq)]
pub enum CloseOutcome {
    /// The tab was the last one: nothing was closed, and the application is
    /// to shut down.
    Shutdown,
    /// The tab `tab_id` is gone, and with it the sessions `removed`.
    Closed { tab_id: u64, removed: Vec<u64> },
}

/// Where `id` first stands in `order`.
pub fn position_of(order: &Vec<u64>, id: u64) -> (found: Option<usize>)
    ensures
        match found {
            Some(index) => order@.index_of_first(id) == Some(index as int),
            None => order@.index_of_first(id) is None,
        },
{
    let mut i: usize = 0;
    while i < order.len()
        invariant
            i <= order.len(),
            forall|j: int| 0 <= j < i ==> order@[j] != id,
        decreases order.len() - i,
    {
        if order[i] == id {
            proof {
                order@.index_of_first_ensures(id);
                assert(order@[i as int] == id);
                assert(order@.contains(id));
            }
            return Some(i);
        }
        i = i + 1;
    }
    proof {
        order@.index_of_first_ensures(id);
    }
    None
}

impl AppState {
    /// The order of the tabs once the tab `closing` has left it.
    pub open spec fn order_after_close(&self, closing: u64) -> Seq<u64> {
        match self.tab_order@.index_of_first(closing) {
            Some(position) => self.tab_order@.remove(position),
            None => self.tab_order@,
        }
    }

    /// The tab that takes over when the tab `closing` closes: the tab that
    /// then stands at its position in the order, or the new last tab where
    /// the closed one was last.
    pub open spec fn successor(&self, closing: u64) -> Option<u64> {
        match self.tab_order@.index_of_first(closing) {
            Some(position) => {
                let rest = self.tab_order@.remove(position);
                if rest.len() == 0 {
                    None
                } else if position >= rest.len() {
                    Some(rest[rest.len() - 1])
                } else {
                    Some(rest[position])
                }
            },
            None => None,
        }
    }

    /// The focus once `tab` is active: the first leaf of its layout.
    pub open spec fn focus_in(&self, tab: u64) -> Option<u64> {
        if self.tab_layouts@.contains_key(tab) {
            Some(self.tab_layouts@[tab].first_leaf())
        } else {
            self.focused_terminal
        }
    }

    /// The leaves of the layout of the tab `tab`.
    pub open spec fn leaves_of(&self, tab: u64) -> Seq<u64> {
        if self.tab_layouts@.contains_key(tab) {
            self.tab_layouts@[tab].leaves()
        } else {
            Seq::<u64>::empty()
        }
    }

    /// `later` is this registry after its tab `closing` has been closed.
    pub open spec fn tab_closed(&self, later: &AppState, closing: u64) -> bool {
        &&& later.tab_order@ == self.order_after_close(closing)
        &&& later.tabs@ == self.tabs@.remove(closing)
        &&& later.tab_layouts@ == self.tab_layouts@.remove(closing)
        &&& later.next_tab_id == self.next_tab_id
        &&& later.active_tab_id == (match self.successor(closing) {
            Some(tab) => tab,
            None => self.active_tab_id,
        })
        &&& later.focused_terminal == (match self.successor(closing) {
            Some(tab) => self.focus_in(tab),
            None => self.focused_terminal,
        })
        &&& self.sessions_removed(later, self.leaves_of(closing).to_set())
    }

    /// Closes the active tab, as `close_tab` does for it.
    pub fn close_current_tab(&mut self) -> (outcome: CloseOutcome)
        ensures
            old(self).tabs@.len() <= 1 ==> {
                &&& outcome is Shutdown
                &&& final(self).same_tabs(old(self))
                &&& final(self).same_sessions(old(self))
            },
            old(self).tabs@.len() > 1 ==> {
                &&& outcome matches CloseOutcome::Closed { tab_id, removed }
                &&& tab_id == old(self).active_tab_id
                &&& removed@ == removed_from(
                    old(self).leaves_of(old(self).active_tab_id),
                    old(self).terminals@.dom(),
                )
                &&& final(self).terminals@.len() + removed@.len() == old(self).terminals@.len()
                &&& old(self).tab_closed(final(self), old(self).active_tab_id)
            },
            final(self).same_settings(old(self)),
            old(self).wf() ==> final(self).wf(),
            old(self).wf() ==> final(self).tab_order@.len() == final(self).tabs@.len(),
            old(self).wf() && old(self).tabs@.len() > 1 ==> {
                &&& outcome matches CloseOutcome::Closed { tab_id, removed }
                &&& removed@ == old(self).tab_layouts@[old(self).active_tab_id].leaves()
                &&& final(self).tab_order@.len() == old(self).tab_order@.len() - 1
                &&& final(self).tabs@.contains_key(final(self).active_tab_id)
                &&& final(self).focused_terminal == Some(
                    final(self).tab_layouts@[final(self).active_tab_id].first_leaf(),
                )
            },
    {
        proof {
            if self.wf() && self.tabs@.len() > 1 {
                self.lemma_order_matches_tabs();
            }
        }
        self.close_tab(self.active_tab_id)
    }

    /// Closes the tab `tab_id`. The only tab is never closed: the
    /// application is told to shut down instead, and the registry stays as
    /// it is. Otherwise the tab leaves the order, its successor becomes
    /// active with its first leaf focused, and the tab's layout is torn down
    /// with all its sessions.
    pub fn close_tab(&mut self, tab_id: u64) -> (outcome: CloseOutcome)
        ensures
            old(self).tabs@.len() <= 1 ==> {
                &&& outcome is Shutdown
                &&& final(self).same_tabs(old(self))
                &&& final(self).same_sessions(old(self))
            },
            old(self).tabs@.len() > 1 ==> {
                &&& outcome matches CloseOutcome::Closed { tab_id: closed, removed }
                &&& closed == tab_id
                &&& removed@ == removed_from(old(self).leaves_of(tab_id), old(self).terminals@.dom())
                &&& final(self).terminals@.len() + removed@.len() == old(self).terminals@.len()
                &&& old(self).tab_closed(final(self), tab_id)
            },
            final(self).same_settings(old(self)),
            old(self).wf() ==> final(self).wf(),
            old(self).wf() ==> final(self).tab_order@.len() == final(self).tabs@.len(),
            old(self).wf() && old(self).tabs@.len() > 1 && old(self).tabs@.contains_key(tab_id) ==> {
                &&& outcome matches CloseOutcome::Closed { tab_id: closed, removed }
                &&& removed@ == old(self).tab_layouts@[tab_id].leaves()
                &&& final(self).tab_order@.len() == old(self).tab_order@.len() - 1
                &&& final(self).tabs@.contains_key(final(self).active_tab_id)
                &&& final(self).focused_terminal == Some(
                    final(self).tab_layouts@[final(self).active_tab_id].first_leaf(),
                )
            },
    {
        if self.tabs.len() <= 1 {
            proof {
                if self.wf() {
                    self.lemma_order_matches_tabs();
                }
            }
            return CloseOutcome::Shutdown;
        }
        proof {
            self.tab_order@.index_of_first_ensures(tab_id);
        }
        match position_of(&self.tab_order, tab_id) {
            Some(position) => {
                self.tab_order.remove(position);
                let len = self.tab_order.len();
                if len > 0 {
                    let new_index = if position >= len {
                        len - 1
                    } else {
                        position
                    };
                    let new_active = self.tab_order[new_index];
                    self.active_tab_id = new_active;
                    let focus = match self.tab_layouts.get(&new_active) {
                        Some(layout) => Some(layout.first_terminal()),
                        None => None,
                    };
                    match focus {
                        Some(id) => {
                            self.focused_terminal = Some(id);
                        },
                        None => {},
                    }
                }
            },
            None => {},
        }
        self.tabs.remove(&tab_id);
        let closed = self.tab_layouts.remove(&tab_id);
        proof {
            if old(self).wf() {
                if old(self).tabs@.contains_key(tab_id) {
                    old(self).lemma_tab_removed_keeps_wf(self, tab_id);
                } else {
                    assert(!old(self).tab_order@.contains(tab_id));
                    assert(self.tabs@ =~= old(self).tabs@);
                    assert(self.tab_layouts@ =~= old(self).tab_layouts@);
                    assert(self.wf());
                }
            }
        }
        let removed = match closed {
            Some(layout) => {
                proof {
                    if old(self).wf() {
                        assert(self.detached(layout)) by {
                            assert forall|tab: u64, id: u64|
                                self.tab_layouts@.contains_key(tab) && (
                                #[trigger] self.tab_layouts@[tab].contains(id))
                                    implies !layout.contains(id) by {
                                assert(old(self).tab_layouts@[tab].contains(id));
                                if layout.contains(id) {
                                    assert(old(self).tab_layouts@[tab_id].contains(id));
                                }
                            }
                        }
                        assert forall|i: int| 0 <= i < layout.leaves().len() implies old(
                            self,
                        ).terminals@.dom().contains(#[trigger] layout.leaves()[i]) by {
                            assert(layout.leaves().contains(layout.leaves()[i]));
                            assert(old(self).tab_layouts@[tab_id].contains(layout.leaves()[i]));
                        }
                        lemma_removed_all(layout.leaves(), old(self).terminals@.dom());
                    }
                }
                self.cleanup_terminals_in_layout(&layout)
            },
            None => {
                proof {
                    let none = Set::<u64>::empty();
                    assert(Seq::<u64>::empty().to_set() =~= none);
                    assert(self.terminals@.remove_keys(none) =~= self.terminals@);
                    assert(self.korean_input_states@.remove_keys(none)
                        =~= self.korean_input_states@);
                    assert(self.follow_output@.remove_keys(none) =~= self.follow_output@);
                    assert(self.scroll_offset@.remove_keys(none) =~= self.scroll_offset@);
                    assert(self.selected_terminals@.difference(none) =~= self.selected_terminals@);
                }
                Vec::new()
            },
        };
        proof {
            if old(self).wf() {
                self.lemma_order_matches_tabs();
            }
        }
        CloseOutcome::Closed { tab_id, removed }
    }

    /// Taking an open tab out of the order, the tabs and the layouts, and
    /// handing activity and focus to its successor, keeps a registry of two
    /// or more tabs well formed.
    proof fn lemma_tab_removed_keeps_wf(&self, later: &AppState, closing: u64)
        requires
            self.wf(),
            self.tabs@.len() > 1,
            self.tabs@.contains_key(closing),
            later.tab_order@ == self.order_after_close(closing),
            later.tabs@ == self.tabs@.remove(closing),
            later.tab_layouts@ == self.tab_layouts@.remove(closing),
            later.next_tab_id == self.next_tab_id,
            later.active_tab_id == (match self.successor(closing) {
                Some(tab) => tab,
                None => self.active_tab_id,
            }),
            later.focused_terminal == (match self.successor(closing) {
                Some(tab) => self.focus_in(tab),
                None => self.focused_terminal,
            }),
            later.same_sessions(self),
            later.same_settings(self),
        ensures
            later.wf(),
            later.tab_order@.len() == self.tab_order@.len() - 1,
            later.tabs@.contains_key(later.active_tab_id),
            later.focused_terminal == Some(later.tab_layouts@[later.active_tab_id].first_leaf()),
    {
        let active = closing;
        let order = self.tab_order@;
        self.lemma_order_matches_tabs();
        order.index_of_first_ensures(active);
        assert(order.contains(active));
        let position = order.index_of_first(active)->Some_0;
        let rest = order.remove(position);
        assert(later.tab_order@ == rest);
        assert forall|i: int| 0 <= i < rest.len() implies #[trigger] rest[i] != active
            && order.contains(rest[i]) by {
            if i < position {
                assert(rest[i] == order[i]);
            } else {
                assert(rest[i] == order[i + 1]);
            }
        }
        assert(rest.no_duplicates()) by {
            assert forall|i: int, j: int| 0 <= i < rest.len() && 0 <= j < rest.len() && i
                != j implies rest[i] != rest[j] by {
                let a = if i < position { i } else { i + 1 };
                let b = if j < position { j } else { j + 1 };
                assert(rest[i] == order[a]);
                assert(rest[j] == order[b]);
            }
        }
        assert forall|id: u64| rest.contains(id) <==> later.tabs@.contains_key(id) by {
            if rest.contains(id) {
                let i = choose|i: int| 0 <= i < rest.len() && rest[i] == id;
                assert(rest[i] != active && order.contains(rest[i]));
            }
            if later.tabs@.contains_key(id) {
                assert(order.contains(id));
                let k = choose|k: int| 0 <= k < order.len() && order[k] == id;
                if k < position {
                    assert(rest[k] == id);
                } else {
                    assert(rest[k - 1] == id);
                }
            }
        }
        assert(later.tabs_agree());
        assert(later.leaves_live()) by {
            assert forall|tab: u64, id: u64|
                later.tab_layouts@.contains_key(tab) && (#[trigger] later.tab_layouts@[tab].contains(
                    id,
                )) implies later.terminals@.contains_key(id) by {
                assert(self.tab_layouts@[tab].contains(id));
            }
        }
        assert(later.leaves_distinct()) by {
            assert forall|tab: u64| later.tab_layouts@.contains_key(tab) implies (
            #[trigger] later.tab_layouts@[tab]).leaves().no_duplicates() by {
                assert(self.tab_layouts@[tab].leaves().no_duplicates());
            }
            assert forall|a: u64, b: u64, id: u64|
                later.tab_layouts@.contains_key(a) && later.tab_layouts@.contains_key(b)
                    && #[trigger] later.tab_layouts@[a].contains(id)
                    && #[trigger] later.tab_layouts@[b].contains(id) implies a == b by {
                assert(self.tab_layouts@[a].contains(id));
                assert(self.tab_layouts@[b].contains(id));
            }
        }
        let successor = self.successor(closing)->Some_0;
        assert(rest.len() > 0);
        assert(rest.contains(successor)) by {
            if position >= rest.len() {
                assert(rest[rest.len() - 1] == successor);
            } else {
                assert(rest[position] == successor);
            }
        }
        assert(later.tabs@.contains_key(successor));
        assert(later.tab_layouts@.contains_key(successor));
        self.tab_layouts@[successor].lemma_first_leaf();
        assert(later.focus_valid());
        assert(later.session_state_live());
    }
}

} // verus!
