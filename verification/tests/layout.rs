use modernterm::layout::{PanelContent, SplitDirection};

fn split(first: PanelContent, second: PanelContent) -> PanelContent {
    PanelContent::Split {
        direction: SplitDirection::Vertical,
        first: Box::new(first),
        second: Box::new(second),
        ratio: 500,
    }
}

#[test]
fn single_leaf_is_its_own_first_terminal() {
    let layout = PanelContent::single(7);
    assert_eq!(layout, PanelContent::Terminal(7));
    assert_eq!(layout.first_terminal(), 7);
    assert!(layout.contains_terminal(7));
    assert!(!layout.contains_terminal(8));
    assert_eq!(layout.terminal_ids(), vec![7]);
}

#[test]
fn first_terminal_descends_into_first_at_every_split() {
    let layout = split(
        split(PanelContent::Terminal(3), PanelContent::Terminal(9)),
        split(PanelContent::Terminal(1), PanelContent::Terminal(4)),
    );
    assert_eq!(layout.first_terminal(), 3);
}

#[test]
fn contains_looks_into_both_halves() {
    let layout = split(
        PanelContent::Terminal(3),
        split(PanelContent::Terminal(1), PanelContent::Terminal(4)),
    );
    assert!(layout.contains_terminal(3));
    assert!(layout.contains_terminal(1));
    assert!(layout.contains_terminal(4));
    assert!(!layout.contains_terminal(2));
}

#[test]
fn terminal_ids_lists_the_leaves_left_to_right() {
    let layout = split(
        split(PanelContent::Terminal(5), PanelContent::Terminal(2)),
        PanelContent::Terminal(8),
    );
    assert_eq!(layout.terminal_ids(), vec![5, 2, 8]);
}

#[test]
fn clone_copies_the_whole_tree() {
    let layout = split(
        PanelContent::Terminal(5),
        split(PanelContent::Terminal(2), PanelContent::Terminal(8)),
    );
    let copy = layout.clone();
    assert_eq!(copy, layout);
    assert_eq!(copy.terminal_ids(), vec![5, 2, 8]);
}
