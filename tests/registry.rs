use dock_viewport::registry::{
    find, initial_tree, insert, menu_entries, menu_tab_names, remove, toggle_tab,
};
use egui_dock::{NodeIndex, Tree};

fn names(list: &[&str]) -> Vec<String> {
    list.iter().map(|s| s.to_string()).collect()
}

fn initial_layout() -> Tree<String> {
    let mut tree = initial_tree();
    let [a, b] = tree.split_left(NodeIndex::root(), 0.3, names(&["Scene Control"]));
    let [_, _] = tree.split_below(a, 0.7, names(&["Tab 2"]));
    let [_, _] = tree.split_below(b, 0.5, names(&["Tab 3"]));
    tree
}

#[test]
fn initial_tree_holds_viewport_and_first_tab() {
    let tree = initial_tree();
    assert_eq!(find(&tree, "Viewport"), Some((0, 0)));
    assert_eq!(find(&tree, "Tab 1"), Some((0, 1)));
    assert_eq!(tree.num_tabs(), 2);
    assert_eq!(tree.len(), 1);
}

#[test]
fn initial_layout_holds_all_five_tabs() {
    let tree = initial_layout();
    for name in ["Viewport", "Tab 1", "Scene Control", "Tab 2", "Tab 3"] {
        assert!(find(&tree, name).is_some(), "{name} missing");
    }
    assert!(find(&tree, "Tab 4").is_none());
}

#[test]
fn toggling_tab_two_off_then_on_brings_it_back() {
    let mut tree = initial_layout();
    assert!(find(&tree, "Tab 2").is_some());
    assert!(!toggle_tab(&mut tree, "Tab 2"));
    assert!(find(&tree, "Tab 2").is_none());
    assert!(toggle_tab(&mut tree, "Tab 2"));
    assert!(find(&tree, "Tab 2").is_some());
    for name in ["Viewport", "Tab 1", "Scene Control", "Tab 3"] {
        assert!(find(&tree, name).is_some(), "{name} missing");
    }
    assert_eq!(tree.num_tabs(), 5);
}

#[test]
fn insert_then_find_succeeds() {
    let mut tree = Tree::new(names(&["Viewport"]));
    assert!(find(&tree, "Notes").is_none());
    insert(&mut tree, "Notes");
    let slot = find(&tree, "Notes").unwrap();
    assert_eq!(tree.num_tabs(), 2);
    assert_eq!(remove(&mut tree, slot), "Notes");
    assert!(find(&tree, "Notes").is_none());
    assert_eq!(tree.num_tabs(), 1);
}

#[test]
fn insert_into_empty_tree_creates_a_leaf() {
    let mut tree: Tree<String> = Tree::new(Vec::new());
    insert(&mut tree, "Tab 1");
    assert_eq!(find(&tree, "Tab 1"), Some((0, 0)));
}

#[test]
fn find_returns_the_first_of_equal_names() {
    let tree = Tree::new(names(&["Tab 1", "Tab 2", "Tab 1"]));
    assert_eq!(find(&tree, "Tab 1"), Some((0, 0)));
    assert_eq!(find(&tree, "Tab 2"), Some((0, 1)));
}

#[test]
fn removing_one_of_two_equal_names_keeps_the_other() {
    let mut tree = Tree::new(names(&["Tab 1", "Tab 2", "Tab 1"]));
    assert!(!toggle_tab(&mut tree, "Tab 1"));
    assert_eq!(find(&tree, "Tab 1"), Some((0, 1)));
}

#[test]
fn removing_the_last_tab_of_a_leaf_collapses_it() {
    let mut tree = initial_layout();
    let slot = find(&tree, "Scene Control").unwrap();
    assert_eq!(remove(&mut tree, slot), "Scene Control");
    assert!(find(&tree, "Scene Control").is_none());
    assert_eq!(tree.num_tabs(), 4);
}

#[test]
fn repeated_toggles_alternate_presence() {
    let mut tree = initial_layout();
    for round in 0..6 {
        let shown = toggle_tab(&mut tree, "Viewport");
        assert_eq!(shown, round % 2 == 1);
        assert_eq!(find(&tree, "Viewport").is_some(), shown);
    }
}

#[test]
fn menu_lists_names_in_order() {
    let list = menu_tab_names();
    assert_eq!(list, names(&["Viewport", "Scene Control", "Tab 1", "Tab 2", "Tab 3"]));
}

#[test]
fn menu_checks_exactly_the_present_tabs() {
    let mut tree = initial_layout();
    toggle_tab(&mut tree, "Tab 3");
    let entries = menu_entries(&tree);
    let got: Vec<(String, bool)> = entries.into_iter().map(|e| (e.name, e.checked)).collect();
    assert_eq!(
        got,
        vec![
            ("Viewport".to_string(), true),
            ("Scene Control".to_string(), true),
            ("Tab 1".to_string(), true),
            ("Tab 2".to_string(), true),
            ("Tab 3".to_string(), false),
        ]
    );
}

#[test]
fn insert_appends_to_the_first_leaf_when_none_is_focused() {
    let mut tree = Tree::new(names(&["A", "B"]));
    insert(&mut tree, "C");
    assert_eq!(find(&tree, "A"), Some((0, 0)));
    assert_eq!(find(&tree, "B"), Some((0, 1)));
    assert_eq!(find(&tree, "C"), Some((0, 2)));
}

#[test]
fn insert_appends_to_the_focused_leaf() {
    let mut tree = initial_layout();
    let slot = find(&tree, "Tab 3").unwrap();
    tree.set_focused_node(NodeIndex(slot.0));
    insert(&mut tree, "Notes");
    let notes = find(&tree, "Notes").unwrap();
    assert_eq!(notes, (slot.0, slot.1 + 1));
}

#[test]
fn removing_from_a_shared_leaf_keeps_the_others_in_order() {
    let mut tree = Tree::new(names(&["A", "B", "C"]));
    assert_eq!(remove(&mut tree, (0, 1)), "B");
    assert_eq!(find(&tree, "A"), Some((0, 0)));
    assert_eq!(find(&tree, "C"), Some((0, 1)));
}

#[test]
fn turning_every_tab_off_keeps_a_root_leaf_and_one_back_on_works() {
    let mut tree = initial_layout();
    for name in ["Viewport", "Scene Control", "Tab 1", "Tab 2", "Tab 3"] {
        assert!(!toggle_tab(&mut tree, name));
    }
    assert_eq!(tree.num_tabs(), 0);
    assert_eq!(tree.len(), 1);
    assert!(tree[NodeIndex::root()].is_leaf());
    assert!(toggle_tab(&mut tree, "Tab 2"));
    assert_eq!(find(&tree, "Tab 2"), Some((0, 0)));
}

#[test]
fn removing_the_only_tab_leaves_an_empty_root_leaf() {
    let mut tree = Tree::new(names(&["A"]));
    assert_eq!(remove(&mut tree, (0, 0)), "A");
    assert_eq!(tree.len(), 1);
    assert!(tree[NodeIndex::root()].is_leaf());
    assert_eq!(tree.num_tabs(), 0);
    insert(&mut tree, "B");
    assert_eq!(find(&tree, "B"), Some((0, 0)));
}
