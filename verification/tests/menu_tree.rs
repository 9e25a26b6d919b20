use context_menu::settings::{get_menu_config, MenuConfig, Settings, Theme};
use context_menu::tree::{MenuNode, MenuTree};

fn settings(theme: &str, sort: &str, timestamp: &str, mode: &str) -> Settings {
    Settings {
        timestamp: timestamp.to_string(),
        theme: theme.to_string(),
        sort: sort.to_string(),
        mode: mode.to_string(),
    }
}

fn count(nodes: &[MenuNode], group: &str, only_selected: bool) -> usize {
    let mut n = 0;
    for node in nodes {
        match node {
            MenuNode::RadioItem { group: g, selected, .. } => {
                if g == group && (*selected || !only_selected) {
                    n += 1;
                }
            }
            MenuNode::Submenu { children, .. } => n += count(children, group, only_selected),
            _ => {}
        }
    }
    n
}

fn radio_states(node: &MenuNode) -> Vec<(String, String, String, bool)> {
    match node {
        MenuNode::Submenu { children, .. } => children
            .iter()
            .map(|c| match c {
                MenuNode::RadioItem { id, label, group, selected } => {
                    (id.clone(), label.clone(), group.clone(), *selected)
                }
                other => panic!("not a radio item: {:?}", other),
            })
            .collect(),
        other => panic!("not a submenu: {:?}", other),
    }
}

fn leaf_is(node: &MenuNode, want_id: &str, want_label: &str) -> bool {
    matches!(node, MenuNode::Leaf { id, label, enabled } if id == want_id && label == want_label && *enabled)
}

fn submenu_is(node: &MenuNode, want_id: &str, want_label: &str) -> bool {
    matches!(node, MenuNode::Submenu { id, label, .. } if id == want_id && label == want_label)
}

#[test]
fn tree_has_the_fixed_node_order() {
    let tree = MenuTree::build(&settings("dark", "NameAsc", "Normal", "Mouse"));
    let n = &tree.nodes;
    assert_eq!(n.len(), 14);
    assert!(leaf_is(&n[0], "OpenFile", "Open File"));
    assert!(leaf_is(&n[1], "Reveal", "Reveal in File Explorer"));
    assert!(leaf_is(&n[2], "History", "History"));
    assert!(leaf_is(&n[3], "ShowActualSize", "Show Actual Size"));
    assert!(matches!(n[4], MenuNode::Separator));
    assert!(leaf_is(&n[5], "ToFirst", "Move to First"));
    assert!(leaf_is(&n[6], "ToLast", "Move to Last"));
    assert!(submenu_is(&n[7], "Sort", "Sort By"));
    assert!(matches!(n[8], MenuNode::Separator));
    assert!(submenu_is(&n[9], "Timestamp", "Timestamp"));
    assert!(submenu_is(&n[10], "Mode", "Mode"));
    assert!(submenu_is(&n[11], "Theme", "Theme"));
    assert!(matches!(n[12], MenuNode::Separator));
    assert!(leaf_is(&n[13], "Reload", "Reload"));
}

#[test]
fn submenus_hold_their_radio_items() {
    let tree = MenuTree::build(&settings("dark", "NameAsc", "Normal", "Mouse"));
    let row = |id: &str, label: &str, group: &str, selected: bool| {
        (id.to_string(), label.to_string(), group.to_string(), selected)
    };
    assert_eq!(
        radio_states(&tree.nodes[7]),
        vec![
            row("NameAsc", "Name(Asc)", "Sort", true),
            row("NameDesc", "Name(Desc)", "Sort", false),
            row("DateAsc", "Date(Asc)", "Sort", false),
            row("DateDesc", "Date(Desc)", "Sort", false),
        ]
    );
    assert_eq!(
        radio_states(&tree.nodes[9]),
        vec![
            row("Normal", "Normal", "Timestamp", true),
            row("Unchanged", "Unchanged", "Timestamp", false),
        ]
    );
    assert_eq!(
        radio_states(&tree.nodes[10]),
        vec![row("Keyboard", "Keyboard", "Mode", false), row("Mouse", "Mouse", "Mode", true)]
    );
    assert_eq!(
        radio_states(&tree.nodes[11]),
        vec![row("dark", "Dark", "Theme", true), row("light", "Light", "Theme", false)]
    );
}

#[test]
fn every_group_has_exactly_one_selected_member() {
    for sort in ["NameAsc", "NameDesc", "DateAsc", "DateDesc"] {
        for timestamp in ["Normal", "Unchanged"] {
            for mode in ["Keyboard", "Mouse"] {
                for theme in ["dark", "light"] {
                    let s = settings(theme, sort, timestamp, mode);
                    assert!(s.is_accepted());
                    let tree = MenuTree::build(&s);
                    for group in ["Sort", "Timestamp", "Mode", "Theme"] {
                        assert_eq!(count(&tree.nodes, group, true), 1);
                    }
                    assert_eq!(count(&tree.nodes, "Sort", false), 4);
                    assert_eq!(count(&tree.nodes, "Timestamp", false), 2);
                    assert_eq!(count(&tree.nodes, "Mode", false), 2);
                    assert_eq!(count(&tree.nodes, "Theme", false), 2);
                    assert_eq!(count(&tree.nodes, "Other", false), 0);
                }
            }
        }
    }
}

#[test]
fn same_settings_give_the_same_tree() {
    let s = settings("light", "DateAsc", "Unchanged", "Keyboard");
    let first = format!("{:?}", MenuTree::build(&s));
    let second = format!("{:?}", MenuTree::build(&s));
    assert_eq!(first, second);
}

#[test]
fn date_desc_is_selected_and_its_siblings_are_not() {
    let tree = MenuTree::build(&settings("dark", "DateDesc", "Normal", "Mouse"));
    let states: Vec<(String, bool)> =
        radio_states(&tree.nodes[7]).into_iter().map(|r| (r.0, r.3)).collect();
    assert_eq!(
        states,
        vec![
            ("NameAsc".to_string(), false),
            ("NameDesc".to_string(), false),
            ("DateAsc".to_string(), false),
            ("DateDesc".to_string(), true),
        ]
    );
}

#[test]
fn unknown_value_selects_no_member() {
    let s = settings("solarized", "SizeAsc", "", "Touch");
    assert!(!s.is_accepted());
    let tree = MenuTree::build(&s);
    for group in ["Sort", "Timestamp", "Mode", "Theme"] {
        assert_eq!(count(&tree.nodes, group, true), 0);
    }
    assert_eq!(count(&tree.nodes, "Sort", false), 4);
}

#[test]
fn one_unknown_value_leaves_the_other_groups_alone() {
    let s = settings("light", "namedesc", "Unchanged", "Keyboard");
    assert!(!s.is_accepted());
    let tree = MenuTree::build(&s);
    assert_eq!(count(&tree.nodes, "Sort", true), 0);
    assert_eq!(count(&tree.nodes, "Timestamp", true), 1);
    assert_eq!(count(&tree.nodes, "Mode", true), 1);
    assert_eq!(count(&tree.nodes, "Theme", true), 1);
}

#[test]
fn menu_config_follows_the_theme_setting() {
    let dark = get_menu_config(&settings("dark", "NameAsc", "Normal", "Mouse"));
    assert_eq!(
        dark,
        MenuConfig {
            theme: Theme::Dark,
            dark_color: 0xefefef,
            dark_background_color: 0x202020,
            dark_hover_background_color: 0x373535,
            border_size: 0,
            item_horizontal_padding: 20,
        }
    );
    let light = get_menu_config(&settings("light", "NameAsc", "Normal", "Mouse"));
    assert_eq!(light.theme, Theme::Light);
    let other = get_menu_config(&settings("blue", "NameAsc", "Normal", "Mouse"));
    assert_eq!(other.theme, Theme::Light);
}

#[test]
fn theme_names_are_read_both_ways() {
    assert_eq!(Theme::from_menu_setting(&"dark".to_string()), Theme::Dark);
    assert_eq!(Theme::from_menu_setting(&"light".to_string()), Theme::Light);
    assert_eq!(Theme::from_menu_setting(&"Dark".to_string()), Theme::Light);
    assert_eq!(Theme::from_window_setting(&"dark".to_string()), Theme::Dark);
    assert_eq!(Theme::from_window_setting(&"light".to_string()), Theme::Light);
    assert_eq!(Theme::from_window_setting(&"".to_string()), Theme::Dark);
    assert_eq!(Theme::Dark.name(), "dark");
    assert_eq!(Theme::Light.name(), "light");
}
