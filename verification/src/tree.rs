use vstd::prelude::*;
use crate::settings::{Settings, text_is};

verus! {

/// One entry of a context menu.
#[derive(Debug)]
pub enum MenuNode {
    Leaf { id: String, label: String, enabled: bool },
    Separator,
    Submenu { id: String, label: String, children: Vec<MenuNode> },
    RadioItem { id: String, label: String, group: String, selected: bool },
}

/// What a `MenuNode` holds, as mathematical values.
pub ghost enum NodeView {
    Leaf { id: Seq<char>, label: Seq<char>, enabled: bool },
    Separator,
    Submenu { id: Seq<char>, label: Seq<char>, children: Seq<NodeView> },
    RadioItem { id: Seq<char>, label: Seq<char>, group: Seq<char>, selected: bool },
}

/// The views of the nodes of `nodes`, in order.
pub open spec fn nodes_view(nodes: Seq<MenuNode>) -> Seq<NodeView>
    decreases nodes, 1nat,
{
    Seq::new(
        nodes.len(),
        |i: int|
            if 0 <= i < nodes.len() {
                node_view(nodes[i])
            } else {
                NodeView::Separator
            },
    )
}

/// The view of one node.
pub open spec fn node_view(node: MenuNode) -> NodeView
    decreases node, 0nat,
{
    match node {
        MenuNode::Leaf { id, label, enabled } => NodeView::Leaf { id: id@, label: label@, enabled },
        MenuNode::Separator => NodeView::Separator,
        MenuNode::Submenu { id, label, children } => NodeView::Submenu {
            id: id@,
            label: label@,
            children: nodes_view(children@),
        },
        MenuNode::RadioItem { id, label, group, selected } => NodeView::RadioItem {
            id: id@,
            label: label@,
            group: group@,
            selected,
        },
    }
}

/// Number of selected radio items of `group` among the first `n` nodes of
/// `nodes` and everything nested below them.
pub open spec fn selected_upto(nodes: Seq<NodeView>, n: nat, group: Seq<char>) -> nat
    decreases nodes, n,
{
    if n == 0 || n > nodes.len() {
        0
    } else {
        selected_below(nodes[n - 1], group) + selected_upto(nodes, (n - 1) as nat, group)
    }
}

/// Number of selected radio items of `group` at `node` and below it.
pub open spec fn selected_below(node: NodeView, group: Seq<char>) -> nat
    decreases node, 0nat,
{
    match node {
        NodeView::RadioItem { group: g, selected, .. } => if selected && g == group {
            1
        } else {
            0
        },
        NodeView::Submenu { children, .. } => selected_upto(children, children.len(), group),
        _ => 0,
    }
}

/// Number of radio items of `group` among the first `n` nodes of `nodes` and
/// everything nested below them.
pub open spec fn members_upto(nodes: Seq<NodeView>, n: nat, group: Seq<char>) -> nat
    decreases nodes, n,
{
    if n == 0 || n > nodes.len() {
        0
    } else {
        members_below(nodes[n - 1], group) + members_upto(nodes, (n - 1) as nat, group)
    }
}

/// Number of radio items of `group` at `node` and below it.
pub open spec fn members_below(node: NodeView, group: Seq<char>) -> nat
    decreases node, 0nat,
{
    match node {
        NodeView::RadioItem { group: g, .. } => if g == group {
            1
        } else {
            0
        },
        NodeView::Submenu { children, .. } => members_upto(children, children.len(), group),
        _ => 0,
    }
}

/// Number of selected radio items of `group` anywhere in `tree`. Group
/// membership is a flat tag: the nesting level of an item does not matter.
pub open spec fn selected_count(tree: Seq<NodeView>, group: Seq<char>) -> nat {
    selected_upto(tree, tree.len(), group)
}

/// Number of radio items of `group` anywhere in `tree`.
pub open spec fn member_count(tree: Seq<NodeView>, group: Seq<char>) -> nat {
    members_upto(tree, tree.len(), group)
}

/// An enabled plain item.
pub open spec fn leaf_view(id: Seq<char>, label: Seq<char>) -> NodeView {
    NodeView::Leaf { id, label, enabled: true }
}

/// A radio item of `group` that is selected exactly when `chosen` is its id.
pub open spec fn radio_view(
    id: Seq<char>,
    label: Seq<char>,
    group: Seq<char>,
    chosen: Seq<char>,
) -> NodeView {
    NodeView::RadioItem { id, label, group, selected: chosen == id }
}

/// The items of the "Sort By" submenu for the settings value `chosen`.
pub open spec fn sort_items(chosen: Seq<char>) -> Seq<NodeView> {
    seq![
        radio_view("NameAsc"@, "Name(Asc)"@, "Sort"@, chosen),
        radio_view("NameDesc"@, "Name(Desc)"@, "Sort"@, chosen),
        radio_view("DateAsc"@, "Date(Asc)"@, "Sort"@, chosen),
        radio_view("DateDesc"@, "Date(Desc)"@, "Sort"@, chosen),
    ]
}

/// The items of the "Timestamp" submenu for the settings value `chosen`.
pub open spec fn timestamp_items(chosen: Seq<char>) -> Seq<NodeView> {
    seq![
        radio_view("Normal"@, "Normal"@, "Timestamp"@, chosen),
        radio_view("Unchanged"@, "Unchanged"@, "Timestamp"@, chosen),
    ]
}

/// The items of the "Mode" submenu for the settings value `chosen`.
pub open spec fn mode_items(chosen: Seq<char>) -> Seq<NodeView> {
    seq![
        radio_view("Keyboard"@, "Keyboard"@, "Mode"@, chosen),
        radio_view("Mouse"@, "Mouse"@, "Mode"@, chosen),
    ]
}

/// The items of the "Theme" submenu for the settings value `chosen`.
pub open spec fn theme_items(chosen: Seq<char>) -> Seq<NodeView> {
    seq![
        radio_view("dark"@, "Dark"@, "Theme"@, chosen),
        radio_view("light"@, "Light"@, "Theme"@, chosen),
    ]
}

/// The context menu for the given settings values: node order and labels are
/// fixed, and in each radio group the item whose id equals the settings value
/// is selected. A value that names no item of its group selects none.
pub open spec fn menu_of(
    sort: Seq<char>,
    timestamp: Seq<char>,
    mode: Seq<char>,
    theme: Seq<char>,
) -> Seq<NodeView> {
    seq![
        leaf_view("OpenFile"@, "Open File"@),
        leaf_view("Reveal"@, "Reveal in File Explorer"@),
        leaf_view("History"@, "History"@),
        leaf_view("ShowActualSize"@, "Show Actual Size"@),
        NodeView::Separator,
        leaf_view("ToFirst"@, "Move to First"@),
        leaf_view("ToLast"@, "Move to Last"@),
        NodeView::Submenu { id: "Sort"@, label: "Sort By"@, children: sort_items(sort) },
        NodeView::Separator,
        NodeView::Submenu {
            id: "Timestamp"@,
            label: "Timestamp"@,
            children: timestamp_items(timestamp),
        },
        NodeView::Submenu { id: "Mode"@, label: "Mode"@, children: mode_items(mode) },
        NodeView::Submenu { id: "Theme"@, label: "Theme"@, children: theme_items(theme) },
        NodeView::Separator,
        leaf_view("Reload"@, "Reload"@),
    ]
}

/// The contents of one window's context menu.
#[derive(Debug)]
pub struct MenuTree {
    pub nodes: Vec<MenuNode>,
}

impl View for MenuTree {
    type V = Seq<NodeView>;

    open spec fn view(&self) -> Seq<NodeView> {
        nodes_view(self.nodes@)
    }
}

fn leaf(id: &str, label: &str) -> (res: MenuNode)
    ensures
        node_view(res) == leaf_view(id@, label@),
{
    MenuNode::Leaf { id: id.to_owned(), label: label.to_owned(), enabled: true }
}

fn radio(id: &str, label: &str, group: &str, chosen: &String) -> (res: MenuNode)
    ensures
        node_view(res) == radio_view(id@, label@, group@, chosen@),
{
    MenuNode::RadioItem {
        id: id.to_owned(),
        label: label.to_owned(),
        group: group.to_owned(),
        selected: text_is(chosen, id),
    }
}

fn submenu(id: &str, label: &str, children: Vec<MenuNode>) -> (res: MenuNode)
    ensures
        node_view(res) == (NodeView::Submenu {
            id: id@,
            label: label@,
            children: nodes_view(children@),
        }),
{
    MenuNode::Submenu { id: id.to_owned(), label: label.to_owned(), children }
}

fn sort_submenu(chosen: &String) -> (res: MenuNode)
    ensures
        node_view(res) == (NodeView::Submenu {
            id: "Sort"@,
            label: "Sort By"@,
            children: sort_items(chosen@),
        }),
{
    let mut items: Vec<MenuNode> = Vec::new();
    items.push(radio("NameAsc", "Name(Asc)", "Sort", chosen));
    items.push(radio("NameDesc", "Name(Desc)", "Sort", chosen));
    items.push(radio("DateAsc", "Date(Asc)", "Sort", chosen));
    items.push(radio("DateDesc", "Date(Desc)", "Sort", chosen));
    assert(nodes_view(items@) =~= sort_items(chosen@));
    submenu("Sort", "Sort By", items)
}

fn timestamp_submenu(chosen: &String) -> (res: MenuNode)
    ensures
        node_view(res) == (NodeView::Submenu {
            id: "Timestamp"@,
            label: "Timestamp"@,
            children: timestamp_items(chosen@),
        }),
{
    let mut items: Vec<MenuNode> = Vec::new();
    items.push(radio("Normal", "Normal", "Timestamp", chosen));
    items.push(radio("Unchanged", "Unchanged", "Timestamp", chosen));
    assert(nodes_view(items@) =~= timestamp_items(chosen@));
    submenu("Timestamp", "Timestamp", items)
}

fn mode_submenu(chosen: &String) -> (res: MenuNode)
    ensures
        node_view(res) == (NodeView::Submenu {
            id: "Mode"@,
            label: "Mode"@,
            children: mode_items(chosen@),
        }),
{
    let mut items: Vec<MenuNode> = Vec::new();
    items.push(radio("Keyboard", "Keyboard", "Mode", chosen));
    items.push(radio("Mouse", "Mouse", "Mode", chosen));
    assert(nodes_view(items@) =~= mode_items(chosen@));
    submenu("Mode", "Mode", items)
}

fn theme_submenu(chosen: &String) -> (res: MenuNode)
    ensures
        node_view(res) == (NodeView::Submenu {
            id: "Theme"@,
            label: "Theme"@,
            children: theme_items(chosen@),
        }),
{
    let mut items: Vec<MenuNode> = Vec::new();
    items.push(radio("dark", "Dark", "Theme", chosen));
    items.push(radio("light", "Light", "Theme", chosen));
    assert(nodes_view(items@) =~= theme_items(chosen@));
    submenu("Theme", "Theme", items)
}

impl MenuTree {
    /// Builds the context menu for `settings`. The result depends on the
    /// four settings values alone.
    pub fn build(settings: &Settings) -> (res: MenuTree)
        ensures
            res@ == menu_of(settings.sort@, settings.timestamp@, settings.mode@, settings.theme@),
    {
        let mut nodes: Vec<MenuNode> = Vec::new();
        nodes.push(leaf("OpenFile", "Open File"));
        nodes.push(leaf("Reveal", "Reveal in File Explorer"));
        nodes.push(leaf("History", "History"));
        nodes.push(leaf("ShowActualSize", "Show Actual Size"));
        nodes.push(MenuNode::Separator);
        nodes.push(leaf("ToFirst", "Move to First"));
        nodes.push(leaf("ToLast", "Move to Last"));
        nodes.push(sort_submenu(&settings.sort));
        nodes.push(MenuNode::Separator);
        nodes.push(timestamp_submenu(&settings.timestamp));
        nodes.push(mode_submenu(&settings.mode));
        nodes.push(theme_submenu(&settings.theme));
        nodes.push(MenuNode::Separator);
        nodes.push(leaf("Reload", "Reload"));
        assert(nodes_view(nodes@) =~= menu_of(
            settings.sort@,
            settings.timestamp@,
            settings.mode@,
            settings.theme@,
        ));
        MenuTree { nodes }
    }
}

/// The ids of the options of one radio group differ from each other, and so do
/// the names of the four groups.
pub proof fn lemma_names_differ()
    ensures
        "NameAsc"@ != "NameDesc"@,
        "NameAsc"@ != "DateAsc"@,
        "NameAsc"@ != "DateDesc"@,
        "NameDesc"@ != "DateAsc"@,
        "NameDesc"@ != "DateDesc"@,
        "DateAsc"@ != "DateDesc"@,
        "Normal"@ != "Unchanged"@,
        "Keyboard"@ != "Mouse"@,
        "dark"@ != "light"@,
        "Sort"@ != "Timestamp"@,
        "Sort"@ != "Mode"@,
        "Sort"@ != "Theme"@,
        "Timestamp"@ != "Mode"@,
        "Timestamp"@ != "Theme"@,
        "Mode"@ != "Theme"@,
{
    reveal_strlit("NameAsc");
    reveal_strlit("NameDesc");
    reveal_strlit("DateAsc");
    reveal_strlit("DateDesc");
    reveal_strlit("Normal");
    reveal_strlit("Unchanged");
    reveal_strlit("Keyboard");
    reveal_strlit("Mouse");
    reveal_strlit("dark");
    reveal_strlit("light");
    reveal_strlit("Sort");
    reveal_strlit("Timestamp");
    reveal_strlit("Mode");
    reveal_strlit("Theme");
    assert("NameAsc"@.len() == 7 && "DateAsc"@.len() == 7);
    assert("NameDesc"@.len() == 8 && "DateDesc"@.len() == 8);
    assert("Normal"@.len() == 6 && "Unchanged"@.len() == 9);
    assert("Keyboard"@.len() == 8 && "Mouse"@.len() == 5);
    assert("dark"@.len() == 4 && "light"@.len() == 5);
    assert("Sort"@.len() == 4 && "Mode"@.len() == 4);
    assert("Timestamp"@.len() == 9 && "Theme"@.len() == 5);
    assert("NameAsc"@[0] != "DateAsc"@[0]);
    assert("NameDesc"@[0] != "DateDesc"@[0]);
    assert("Sort"@[0] != "Mode"@[0]);
}

/// Whether `value` is the id of an option of the radio group `group`.
pub open spec fn names_option(group: Seq<char>, value: Seq<char>) -> bool {
    if group == "Sort"@ {
        value == "NameAsc"@ || value == "NameDesc"@ || value == "DateAsc"@ || value == "DateDesc"@
    } else if group == "Timestamp"@ {
        value == "Normal"@ || value == "Unchanged"@
    } else if group == "Mode"@ {
        value == "Keyboard"@ || value == "Mouse"@
    } else if group == "Theme"@ {
        value == "dark"@ || value == "light"@
    } else {
        false
    }
}

/// The settings value that seeds the radio group `group`.
pub open spec fn value_for(
    group: Seq<char>,
    sort: Seq<char>,
    timestamp: Seq<char>,
    mode: Seq<char>,
    theme: Seq<char>,
) -> Seq<char> {
    if group == "Sort"@ {
        sort
    } else if group == "Timestamp"@ {
        timestamp
    } else if group == "Mode"@ {
        mode
    } else {
        theme
    }
}

/// In a built menu the radio groups are Sort, Timestamp, Mode and Theme, with
/// four, two, two and two members; a group has one selected member when its
/// settings value names one of its options, and none otherwise.
pub proof fn lemma_group_counts(
    sort: Seq<char>,
    timestamp: Seq<char>,
    mode: Seq<char>,
    theme: Seq<char>,
    group: Seq<char>,
)
    ensures
        member_count(menu_of(sort, timestamp, mode, theme), group) == (if group == "Sort"@ {
            4nat
        } else if group == "Timestamp"@ || group == "Mode"@ || group == "Theme"@ {
            2nat
        } else {
            0nat
        }),
        selected_count(menu_of(sort, timestamp, mode, theme), group) == (if names_option(
            group,
            value_for(group, sort, timestamp, mode, theme),
        ) {
            1nat
        } else {
            0nat
        }),
{
    lemma_names_differ();
    reveal_with_fuel(selected_upto, 16);
    reveal_with_fuel(members_upto, 16);
    let menu = menu_of(sort, timestamp, mode, theme);
    assert(menu.len() == 14);
    assert(sort_items(sort).len() == 4);
    assert(timestamp_items(timestamp).len() == 2);
    assert(mode_items(mode).len() == 2);
    assert(theme_items(theme).len() == 2);
}

/// Every radio group of a menu built from accepted settings has exactly one
/// selected member.
pub proof fn lemma_exactly_one_selected(settings: Settings, group: Seq<char>)
    requires
        settings.accepted(),
        member_count(
            menu_of(settings.sort@, settings.timestamp@, settings.mode@, settings.theme@),
            group,
        ) > 0,
    ensures
        selected_count(
            menu_of(settings.sort@, settings.timestamp@, settings.mode@, settings.theme@),
            group,
        ) == 1,
{
    lemma_group_counts(settings.sort@, settings.timestamp@, settings.mode@, settings.theme@, group);
}

/// Whatever the settings hold, no radio group of a built menu has more than
/// one selected member.
pub proof fn lemma_at_most_one_selected(settings: Settings, group: Seq<char>)
    ensures
        selected_count(
            menu_of(settings.sort@, settings.timestamp@, settings.mode@, settings.theme@),
            group,
        ) <= 1,
{
    lemma_group_counts(settings.sort@, settings.timestamp@, settings.mode@, settings.theme@, group);
}

/// Whether `node` is a radio item of `group` that is selected exactly when
/// its id is `chosen`.
pub open spec fn follows_choice(node: NodeView, group: Seq<char>, chosen: Seq<char>) -> bool {
    match node {
        NodeView::RadioItem { id, group: g, selected, .. } => g == group && selected == (id
            == chosen),
        _ => false,
    }
}

/// In a built menu, the selected item of a submenu is the one whose id is the
/// settings value of its group, and each of its siblings is unselected.
pub proof fn lemma_selection_follows_settings(settings: Settings)
    ensures
        forall|i: int|
            0 <= i < 4 ==> follows_choice(
                #[trigger] sort_items(settings.sort@)[i],
                "Sort"@,
                settings.sort@,
            ),
        forall|i: int|
            0 <= i < 2 ==> follows_choice(
                #[trigger] timestamp_items(settings.timestamp@)[i],
                "Timestamp"@,
                settings.timestamp@,
            ),
        forall|i: int|
            0 <= i < 2 ==> follows_choice(
                #[trigger] mode_items(settings.mode@)[i],
                "Mode"@,
                settings.mode@,
            ),
        forall|i: int|
            0 <= i < 2 ==> follows_choice(
                #[trigger] theme_items(settings.theme@)[i],
                "Theme"@,
                settings.theme@,
            ),
{
}

} // verus!
