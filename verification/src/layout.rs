//! The recursive panel layout of a tab: a tree whose leaves are sessions.

use vstd::prelude::*;

verus! {

/// Direction in which a panel is divided in two.
#[derive(Debug, Clone, Copy, PartialEq, Eq, Structural)]
pub enum SplitDirection {
    Horizontal,
    Vertical,
}

/// Smallest share of a split, in thousandths, that `first` may not reach.
pub const MIN_RATIO: u16 = 100;

/// Largest share of a split, in thousandths, that `first` may not reach.
pub const MAX_RATIO: u16 = 900;

/// How the sessions of one tab are arranged.
///
/// A leaf names one session. A split owns two sub-trees; `ratio` is the share
/// of the space given to `first`, in thousandths.
#[derive(Debug, PartialEq, Eq)]
pub enum PanelContent {
    Terminal(u64),
    Split {
        direction: SplitDirection,
        first: Box<PanelContent>,
        second: Box<PanelContent>,
        ratio: u16,
    },
}

impl Clone for PanelContent {
    /// A deep copy: the same tree, in new boxes.
    fn clone(&self) -> (copy: Self)
        ensures
            copy == *self,
        decreases *self,
    {
        match self {
            PanelContent::Terminal(id) => PanelContent::Terminal(*id),
            PanelContent::Split { direction, first, second, ratio } => {
                let first_copy = PanelContent::clone(first);
                let second_copy = PanelContent::clone(second);
                PanelContent::Split {
                    direction: *direction,
                    first: Box::new(first_copy),
                    second: Box::new(second_copy),
                    ratio: *ratio,
                }
            },
        }
    }
}

impl PanelContent {
    /// The session ids at the leaves, left to right.
    pub open spec fn leaves(self) -> Seq<u64>
        decreases self,
    {
        match self {
            PanelContent::Terminal(id) => seq![id],
            PanelContent::Split { first, second, .. } => first.leaves() + second.leaves(),
        }
    }

    /// The leaf reached by descending into `first` at every split.
    pub open spec fn first_leaf(self) -> u64
        decreases self,
    {
        match self {
            PanelContent::Terminal(id) => id,
            PanelContent::Split { first, .. } => first.first_leaf(),
        }
    }

    /// Whether some leaf names the session `id`.
    pub open spec fn contains(self, id: u64) -> bool {
        self.leaves().contains(id)
    }

    /// Every split gives `first` a share strictly between the two bounds.
    pub open spec fn ratios_in_range(self) -> bool
        decreases self,
    {
        match self {
            PanelContent::Terminal(_) => true,
            PanelContent::Split { first, second, ratio, .. } => {
                &&& MIN_RATIO < ratio < MAX_RATIO
                &&& first.ratios_in_range()
                &&& second.ratios_in_range()
            },
        }
    }

    /// A tree has at least one leaf, and its first leaf is the first of `leaves`.
    pub proof fn lemma_first_leaf(self)
        ensures
            self.leaves().len() >= 1,
            self.leaves()[0] == self.first_leaf(),
            self.contains(self.first_leaf()),
        decreases self,
    {
        match self {
            PanelContent::Terminal(id) => {
                assert(seq![id][0] == id);
            },
            PanelContent::Split { first, second, .. } => {
                first.lemma_first_leaf();
                assert((first.leaves() + second.leaves())[0] == first.leaves()[0]);
            },
        }
        assert(self.leaves()[0] == self.first_leaf());
    }

    /// Membership in a split is membership in one of its halves.
    pub proof fn lemma_contains_split(self, id: u64)
        requires
            self is Split,
        ensures
            self.contains(id) <==> (self->first.contains(id) || self->second.contains(id)),
    {
        let a = self->first.leaves();
        let b = self->second.leaves();
        assert(self.leaves() == a + b);
        if a.contains(id) {
            let i = choose|i: int| 0 <= i < a.len() && a[i] == id;
            assert((a + b)[i] == id);
        }
        if b.contains(id) {
            let i = choose|i: int| 0 <= i < b.len() && b[i] == id;
            assert((a + b)[a.len() + i] == id);
        }
        if (a + b).contains(id) {
            let i = choose|i: int| 0 <= i < (a + b).len() && (a + b)[i] == id;
            if i < a.len() {
                assert(a[i] == id);
            } else {
                assert(b[i - a.len()] == id);
            }
        }
    }

    /// A single-leaf layout for the session `id`.
    pub fn single(id: u64) -> (layout: PanelContent)
        ensures
            layout == PanelContent::Terminal(id),
            layout.leaves() == seq![id],
            layout.ratios_in_range(),
    {
        PanelContent::Terminal(id)
    }

    /// The first session of the layout: the leaf found by always taking `first`.
    pub fn first_terminal(&self) -> (id: u64)
        ensures
            id == self.first_leaf(),
            id == self.leaves()[0],
            self.contains(id),
        decreases *self,
    {
        proof {
            self.lemma_first_leaf();
        }
        match self {
            PanelContent::Terminal(id) => *id,
            PanelContent::Split { first, .. } => first.first_terminal(),
        }
    }

    /// Whether the session `terminal_id` is a leaf of the layout.
    pub fn contains_terminal(&self, terminal_id: u64) -> (found: bool)
        ensures
            found == self.contains(terminal_id),
        decreases *self,
    {
        match self {
            PanelContent::Terminal(id) => {
                assert(seq![*id][0] == *id);
                *id == terminal_id
            },
            PanelContent::Split { first, second, .. } => {
                proof {
                    self.lemma_contains_split(terminal_id);
                }
                first.contains_terminal(terminal_id) || second.contains_terminal(terminal_id)
            },
        }
    }

    /// Appends the leaves of the layout to `out`, left to right.
    fn collect_terminals(&self, out: &mut Vec<u64>)
        ensures
            final(out)@ == old(out)@ + self.leaves(),
        decreases *self,
    {
        match self {
            PanelContent::Terminal(id) => {
                out.push(*id);
            },
            PanelContent::Split { first, second, .. } => {
                first.collect_terminals(out);
                second.collect_terminals(out);
                assert(old(out)@ + first.leaves() + second.leaves() == old(out)@ + (first.leaves()
                    + second.leaves()));
            },
        }
    }

    /// The session ids at the leaves, left to right.
    pub fn terminal_ids(&self) -> (ids: Vec<u64>)
        ensures
            ids@ == self.leaves(),
    {
        let mut ids: Vec<u64> = Vec::new();
        self.collect_terminals(&mut ids);
        ids
    }
}

} // verus!
