use egui_dock::{NodeIndex, TabIndex, Tree};
use vstd::multiset::Multiset;
use vstd::prelude::*;

verus! {

/// `egui_dock::Tree`, the docking tree that holds the tabs; opaque here and
/// seen only through the names below.
#[verifier::external_type_specification]
#[verifier::external_body]
#[verifier::reject_recursive_types(Tab)]
pub struct ExTree<Tab>(Tree<Tab>);

/// The multiset of tab names held in the leaves of a dock tree.
pub uninterp spec fn dock_tabs(t: Tree<String>) -> Multiset<Seq<char>>;

/// The leaves of a dock tree: for each node index that holds a leaf, the
/// names of its tabs in order.
pub uninterp spec fn dock_leaves(t: Tree<String>) -> Map<usize, Seq<Seq<char>>>;

/// The node index of the focused leaf of a dock tree, if any.
pub uninterp spec fn dock_focus(t: Tree<String>) -> Option<usize>;

/// The tree has the shape that `egui_dock` relies on: the root node, if
/// there is one, is not empty; every node below a leaf or an empty node is
/// empty; every parent node has two non-empty children; and the focused node
/// is `None`, or a leaf of the tree, or the tree holds no nodes at all.
pub uninterp spec fn dock_well_formed(t: Tree<String>) -> bool;

/// The tab name at each `(node, tab)` slot of a leaf in a dock tree.
pub open spec fn dock_slots(t: Tree<String>) -> Map<(usize, usize), Seq<char>> {
    Map::new(
        |s: (usize, usize)|
            dock_leaves(t).contains_key(s.0) && s.1 < dock_leaves(t)[s.0].len(),
        |s: (usize, usize)| dock_leaves(t)[s.0][s.1 as int],
    )
}

/// Whether a tab of the given name is in the multiset.
pub open spec fn present(tabs: Multiset<Seq<char>>, name: Seq<char>) -> bool {
    tabs.count(name) > 0
}

/// Slot `a` comes before slot `b` in the order in which a dock tree is searched.
pub open spec fn slot_before(a: (usize, usize), b: (usize, usize)) -> bool {
    a.0 < b.0 || (a.0 == b.0 && a.1 < b.1)
}

/// `s` is the first slot, in search order, that holds `name`.
pub open spec fn is_first_slot(
    slots: Map<(usize, usize), Seq<char>>,
    name: Seq<char>,
    s: (usize, usize),
) -> bool {
    &&& slots.contains_key(s)
    &&& slots[s] == name
    &&& forall|k: (usize, usize)|
        slots.contains_key(k) && #[trigger] slot_before(k, s) ==> slots[k] != name
}

/// `m` is the leaf with the smallest node index.
pub open spec fn is_first_leaf(leaves: Map<usize, Seq<Seq<char>>>, m: usize) -> bool {
    &&& leaves.contains_key(m)
    &&& forall|k: usize| #[trigger] leaves.contains_key(k) ==> m <= k
}

/// The leaf that a pushed tab goes to: the focused one, else the first.
pub open spec fn push_target(leaves: Map<usize, Seq<Seq<char>>>, focus: Option<usize>) -> usize {
    match focus {
        Some(f) => f,
        None => choose|m: usize| is_first_leaf(leaves, m),
    }
}

/// The leaves after a tab is pushed: appended to its target leaf, or, in a
/// tree without leaves, alone in a new root leaf.
pub open spec fn pushed(
    leaves: Map<usize, Seq<Seq<char>>>,
    focus: Option<usize>,
    tab: Seq<char>,
) -> Map<usize, Seq<Seq<char>>> {
    if leaves.dom() == Set::<usize>::empty() {
        map![0usize => seq![tab]]
    } else {
        let n = push_target(leaves, focus);
        leaves.insert(n, leaves[n].push(tab))
    }
}

/// `after` is `before` with the tab at slot `s` taken out. A leaf that keeps
/// other tabs keeps them in order, and nothing else moves; a leaf left empty
/// is collapsed, and every other leaf survives with its tabs, possibly under
/// another node index.
pub open spec fn removed_at(
    before: Map<usize, Seq<Seq<char>>>,
    after: Map<usize, Seq<Seq<char>>>,
    s: (usize, usize),
) -> bool {
    if before[s.0].len() > 1 {
        after == before.insert(s.0, before[s.0].remove(s.1 as int))
    } else {
        &&& forall|n: usize|
            #[trigger] before.contains_key(n) && n != s.0 ==> exists|m: usize|
                #[trigger] after.contains_key(m) && after[m] == before[n]
        &&& forall|m: usize|
            #[trigger] after.contains_key(m) ==> exists|n: usize|
                #[trigger] before.contains_key(n) && n != s.0 && before[n] == after[m]
    }
}

/// Taking out the tab at slot `s` leaves no leaf at all: it is the only tab
/// of the only leaf.
pub open spec fn removal_empties(leaves: Map<usize, Seq<Seq<char>>>, s: (usize, usize)) -> bool {
    &&& leaves[s.0].len() <= 1
    &&& forall|n: usize| #[trigger] leaves.contains_key(n) ==> n == s.0
}

/// `after` is `before` with the tab at slot `s` taken out, where a tree left
/// without leaves gets back an empty root leaf.
pub open spec fn removed_keeping_root(
    before: Map<usize, Seq<Seq<char>>>,
    after: Map<usize, Seq<Seq<char>>>,
    s: (usize, usize),
) -> bool {
    if removal_empties(before, s) {
        after == map![0usize => Seq::<Seq<char>>::empty()]
    } else {
        removed_at(before, after, s)
    }
}

/// The names of a list of tabs.
pub open spec fn tab_names(tabs: Seq<String>) -> Seq<Seq<char>> {
    tabs.map_values(|t: String| t@)
}

/// Relies on `Tree::new`: a tree of one root leaf that holds the given tabs,
/// with no node focused.
#[verifier::external_body]
fn tree_with_root_tabs(tabs: Vec<String>) -> (r: Tree<String>)
    ensures
        dock_tabs(r) == tab_names(tabs@).to_multiset(),
        dock_leaves(r) == map![0usize => tab_names(tabs@)],
        dock_focus(r) is None,
        dock_well_formed(r),
{
    Tree::new(tabs)
}

/// The tabs that the root leaf starts with, before the layout is split.
pub open spec fn initial_root_tabs() -> Multiset<Seq<char>> {
    Multiset::empty().insert("Viewport"@).insert("Tab 1"@)
}

/// A tree of one root leaf holding the viewport and the first plain tab.
pub fn initial_tree() -> (r: Tree<String>)
    ensures
        dock_tabs(r) == initial_root_tabs(),
        dock_leaves(r) == map![0usize => seq!["Viewport"@, "Tab 1"@]],
        dock_focus(r) is None,
        dock_well_formed(r),
{
    let mut tabs: Vec<String> = Vec::new();
    tabs.push(String::from_str("Viewport"));
    tabs.push(String::from_str("Tab 1"));
    proof {
        broadcast use vstd::seq_lib::group_to_multiset_ensures;

        let names = tab_names(tabs@);
        // the pushed form feeds the multiset lemmas, the literal form the leaves
        assert(names =~= seq![].push("Viewport"@).push("Tab 1"@));
        assert(names =~= seq!["Viewport"@, "Tab 1"@]);
        assert(seq![].push("Viewport"@).to_multiset() =~= Multiset::empty().insert("Viewport"@))
            by {
            assert(Seq::<Seq<char>>::empty().to_multiset() =~= Multiset::empty());
        }
    }
    tree_with_root_tabs(tabs)
}

/// Relies on `Tree::is_empty`: whether the tree holds no nodes. In a
/// well-formed tree that is exactly when it holds no leaf, and a tree without
/// nodes holds no tab.
#[verifier::external_body]
fn tree_has_no_nodes(tree: &Tree<String>) -> (r: bool)
    ensures
        dock_well_formed(*tree) ==> (r <==> dock_leaves(*tree).dom() == Set::<usize>::empty()),
        r ==> dock_tabs(*tree) == Multiset::<Seq<char>>::empty(),
{
    tree.is_empty()
}

/// Relies on `Tree::find_tab`: it walks the leaves in node order and the tabs
/// of each leaf in order, and returns the first slot whose tab equals the
/// needle, or `None` when no tab does.
#[verifier::external_body]
fn find_tab_slot(tree: &Tree<String>, name: &String) -> (r: Option<(usize, usize)>)
    ensures
        r is Some <==> present(dock_tabs(*tree), name@),
        r matches Some(s) ==> is_first_slot(dock_slots(*tree), name@, s),
        r is None ==> forall|k: (usize, usize)|
            #[trigger] dock_slots(*tree).contains_key(k) ==> dock_slots(*tree)[k] != name@,
{
    tree.find_tab(name).map(|(n, t)| (n.0, t.0))
}

/// Relies on `Tree::remove_tab`: it takes the tab out of its leaf, collapses
/// the leaf into its sibling when it becomes empty, and returns the tab.
#[verifier::external_body]
fn remove_tab_slot(tree: &mut Tree<String>, slot: (usize, usize)) -> (r: Option<String>)
    requires
        dock_well_formed(*old(tree)),
        dock_slots(*old(tree)).contains_key(slot),
    ensures
        r matches Some(tab) && tab@ == dock_slots(*old(tree))[slot],
        removed_at(dock_leaves(*old(tree)), dock_leaves(*final(tree)), slot),
        dock_tabs(*final(tree)) == dock_tabs(*old(tree)).remove(dock_slots(*old(tree))[slot]),
        dock_well_formed(*final(tree)),
{
    tree.remove_tab((NodeIndex(slot.0), TabIndex(slot.1)))
}

/// Relies on `Tree::push_to_focused_leaf`: the tab is appended to the focused
/// leaf, or to the first leaf when none is focused, or put in a new root leaf
/// when the tree has no leaf.
#[verifier::external_body]
fn push_tab_to_focused_leaf(tree: &mut Tree<String>, tab: String)
    requires
        dock_well_formed(*old(tree)),
    ensures
        dock_leaves(*final(tree)) == pushed(
            dock_leaves(*old(tree)),
            dock_focus(*old(tree)),
            tab@,
        ),
        dock_tabs(*final(tree)) == dock_tabs(*old(tree)).insert(tab@),
        dock_well_formed(*final(tree)),
{
    tree.push_to_focused_leaf(tab)
}

/// Looks a tab up by name: the first slot, in search order, that holds it.
pub fn find(tree: &Tree<String>, name: &str) -> (r: Option<(usize, usize)>)
    ensures
        r is Some <==> present(dock_tabs(*tree), name@),
        r matches Some(s) ==> is_first_slot(dock_slots(*tree), name@, s),
        r is None ==> forall|k: (usize, usize)|
            #[trigger] dock_slots(*tree).contains_key(k) ==> dock_slots(*tree)[k] != name@,
{
    let needle = String::from_str(name);
    find_tab_slot(tree, &needle)
}

/// Appends a tab of the given name to the focused leaf (or the first leaf
/// when none is focused).
pub fn insert(tree: &mut Tree<String>, name: &str)
    requires
        dock_well_formed(*old(tree)),
    ensures
        dock_leaves(*final(tree)) == pushed(
            dock_leaves(*old(tree)),
            dock_focus(*old(tree)),
            name@,
        ),
        dock_leaves(*final(tree)).dom() != Set::<usize>::empty(),
        dock_tabs(*final(tree)) == dock_tabs(*old(tree)).insert(name@),
        dock_well_formed(*final(tree)),
{
    let ghost before = dock_leaves(*tree);
    let ghost focus = dock_focus(*tree);
    push_tab_to_focused_leaf(tree, String::from_str(name));
    proof {
        if before.dom() == Set::<usize>::empty() {
            assert(dock_leaves(*tree).contains_key(0usize));
        } else {
            assert(dock_leaves(*tree).contains_key(push_target(before, focus)));
        }
    }
}

/// Removes the tab at a slot and hands it back; an emptied leaf collapses
/// into its sibling, and a tree left without leaves gets back an empty root
/// leaf.
pub fn remove(tree: &mut Tree<String>, slot: (usize, usize)) -> (r: String)
    requires
        dock_well_formed(*old(tree)),
        dock_slots(*old(tree)).contains_key(slot),
    ensures
        r@ == dock_slots(*old(tree))[slot],
        removed_keeping_root(dock_leaves(*old(tree)), dock_leaves(*final(tree)), slot),
        dock_leaves(*final(tree)).dom() != Set::<usize>::empty(),
        dock_tabs(*final(tree)) == dock_tabs(*old(tree)).remove(r@),
        dock_well_formed(*final(tree)),
{
    let ghost before = dock_leaves(*tree);
    let ghost tabs_before = dock_tabs(*tree);
    let tab = remove_tab_slot(tree, slot).unwrap();
    let ghost after = dock_leaves(*tree);
    if tree_has_no_nodes(tree) {
        proof {
            if !removal_empties(before, slot) {
                if before[slot.0].len() > 1 {
                    assert(after.contains_key(slot.0));
                } else {
                    let n = choose|n: usize| before.contains_key(n) && n != slot.0;
                    assert(before.contains_key(n) && n != slot.0);
                    let m = choose|m: usize| after.contains_key(m) && after[m] == before[n];
                    assert(after.contains_key(m));
                }
            }
        }
        *tree = tree_with_root_tabs(Vec::new());
        proof {
            assert(tab_names(Seq::<String>::empty()) =~= Seq::<Seq<char>>::empty());
            assert(Seq::<Seq<char>>::empty().to_multiset() =~= Multiset::empty()) by {
                broadcast use vstd::seq_lib::group_to_multiset_ensures;
            }
            assert(dock_leaves(*tree).contains_key(0usize));
        }
    } else {
        proof {
            if removal_empties(before, slot) {
                assert(before[slot.0].len() == 1);
                assert forall|m: usize| !after.contains_key(m) by {
                    if after.contains_key(m) {
                        let n = choose|n: usize|
                            before.contains_key(n) && n != slot.0 && before[n] == after[m];
                        assert(before.contains_key(n));
                    }
                }
                assert(after.dom() =~= Set::<usize>::empty());
            }
        }
    }
    tab
}

/// The tabs after a menu toggle of `name`: one occurrence taken out when
/// present, else one added.
pub open spec fn toggled(tabs: Multiset<Seq<char>>, name: Seq<char>) -> Multiset<Seq<char>> {
    if present(tabs, name) {
        tabs.remove(name)
    } else {
        tabs.insert(name)
    }
}

/// The tabs after a run of menu toggles, applied in order.
pub open spec fn toggled_run(tabs: Multiset<Seq<char>>, clicks: Seq<Seq<char>>) -> Multiset<
    Seq<char>,
>
    decreases clicks.len(),
{
    if clicks.len() == 0 {
        tabs
    } else {
        toggled_run(toggled(tabs, clicks[0]), clicks.drop_first())
    }
}

/// A click on a menu entry: removes the first tab of that name when there is
/// one, else inserts one. Returns whether the tab is shown afterwards.
pub fn toggle_tab(tree: &mut Tree<String>, name: &str) -> (shown: bool)
    requires
        dock_well_formed(*old(tree)),
    ensures
        shown == !present(dock_tabs(*old(tree)), name@),
        present(dock_tabs(*old(tree)), name@) ==> exists|s: (usize, usize)|
            #[trigger] is_first_slot(dock_slots(*old(tree)), name@, s) && removed_keeping_root(
                dock_leaves(*old(tree)),
                dock_leaves(*final(tree)),
                s,
            ),
        !present(dock_tabs(*old(tree)), name@) ==> dock_leaves(*final(tree)) == pushed(
            dock_leaves(*old(tree)),
            dock_focus(*old(tree)),
            name@,
        ),
        dock_tabs(*final(tree)) == toggled(dock_tabs(*old(tree)), name@),
        dock_leaves(*final(tree)).dom() != Set::<usize>::empty(),
        dock_well_formed(*final(tree)),
{
    match find(tree, name) {
        Some(slot) => {
            remove(tree, slot);
            false
        },
        None => {
            insert(tree, name);
            true
        },
    }
}

/// The names that the window menu offers to show or hide, in menu order.
pub open spec fn menu_names() -> Seq<Seq<char>> {
    seq!["Viewport"@, "Scene Control"@, "Tab 1"@, "Tab 2"@, "Tab 3"@]
}

/// One entry of the window menu: a tab name, checked when the tab is shown.
pub struct MenuEntry {
    pub name: String,
    pub checked: bool,
}

/// The names that the window menu offers, in menu order.
pub fn menu_tab_names() -> (r: Vec<String>)
    ensures
        r@.len() == menu_names().len(),
        forall|i: int| 0 <= i < r@.len() ==> (#[trigger] r@[i])@ == menu_names()[i],
{
    let mut r: Vec<String> = Vec::new();
    r.push(String::from_str("Viewport"));
    r.push(String::from_str("Scene Control"));
    r.push(String::from_str("Tab 1"));
    r.push(String::from_str("Tab 2"));
    r.push(String::from_str("Tab 3"));
    r
}

/// The window menu for the current tree: each offered name, checked exactly
/// when a tab of that name is in the tree.
pub fn menu_entries(tree: &Tree<String>) -> (r: Vec<MenuEntry>)
    ensures
        r@.len() == menu_names().len(),
        forall|i: int|
            0 <= i < r@.len() ==> {
                &&& (#[trigger] r@[i]).name@ == menu_names()[i]
                &&& r@[i].checked == present(dock_tabs(*tree), menu_names()[i])
            },
{
    let names = menu_tab_names();
    let mut r: Vec<MenuEntry> = Vec::new();
    let mut i: usize = 0;
    while i < names.len()
        invariant
            names@.len() == menu_names().len(),
            forall|j: int| 0 <= j < names@.len() ==> (#[trigger] names@[j])@ == menu_names()[j],
            0 <= i <= names@.len(),
            r@.len() == i,
            forall|j: int|
                0 <= j < i ==> {
                    &&& (#[trigger] r@[j]).name@ == menu_names()[j]
                    &&& r@[j].checked == present(dock_tabs(*tree), menu_names()[j])
                },
        decreases names@.len() - i,
    {
        let name = names[i].clone();
        let checked = find(tree, name.as_str()).is_some();
        r.push(MenuEntry { name, checked });
        i = i + 1;
    }
    r
}

/// Inserting a name makes it present.
pub proof fn law_insert_then_present(tabs: Multiset<Seq<char>>, name: Seq<char>)
    ensures
        present(tabs.insert(name), name),
{
}

/// Removing the only tab of a name makes it absent.
pub proof fn law_remove_only_then_absent(tabs: Multiset<Seq<char>>, name: Seq<char>)
    requires
        tabs.count(name) == 1,
    ensures
        !present(tabs.remove(name), name),
{
}

/// While a name occurs at most once, a toggle flips whether it is present
/// and it still occurs at most once afterwards.
pub proof fn law_toggle_flips(tabs: Multiset<Seq<char>>, name: Seq<char>)
    requires
        tabs.count(name) <= 1,
    ensures
        present(toggled(tabs, name), name) == !present(tabs, name),
        toggled(tabs, name).count(name) <= 1,
{
}

/// Any run of menu toggles keeps every name that occurred at most once at
/// most once, so each later toggle of it flips its presence.
pub proof fn law_toggle_run_keeps_single(
    tabs: Multiset<Seq<char>>,
    clicks: Seq<Seq<char>>,
    name: Seq<char>,
)
    requires
        tabs.count(name) <= 1,
    ensures
        toggled_run(tabs, clicks).count(name) <= 1,
    decreases clicks.len(),
{
    if clicks.len() > 0 {
        let next = toggled(tabs, clicks[0]);
        assert(next.count(name) <= 1);
        law_toggle_run_keeps_single(next, clicks.drop_first(), name);
    }
}

} // verus!
