//! Authorization-filtered menu assembly.

use dictionary_gateway::menu::allowed_menu;
use dictionary_gateway::menu::has_action_in_childrens;
use dictionary_gateway::menu::load_valid_children;
use dictionary_gateway::menu::Menu;
use dictionary_gateway::menu_item::MenuItem;
use dictionary_gateway::menu_tree::MenuTree;
use dictionary_gateway::queries::menu_items_from_role;
use dictionary_gateway::role::Role;

fn s(v: &str) -> String {
    v.to_owned()
}

fn item(internal_id: i32, name: &str) -> MenuItem {
    let mut m = MenuItem::empty();
    m.internal_id = Some(internal_id);
    m.id = Some(s(name));
    m.name = Some(s(name));
    m
}

fn action_item(internal_id: i32, name: &str, action: &str, uuid: &str, action_id: i32) -> MenuItem {
    let mut m = item(internal_id, name);
    m.action = Some(s(action));
    m.action_uuid = Some(s(uuid));
    m.action_id = Some(action_id);
    m
}

fn summary_item(internal_id: i32, name: &str) -> MenuItem {
    let mut m = item(internal_id, name);
    m.is_summary = Some(true);
    m
}

fn node(node_id: i32, sequence: i32, children: Vec<MenuTree>) -> MenuTree {
    let mut n = MenuTree::empty();
    n.node_id = Some(node_id);
    n.sequence = Some(sequence);
    if !children.is_empty() {
        n.children = Some(children);
    }
    n
}

fn role_with_window_access(uuids: Vec<&str>) -> Role {
    let mut r = Role::empty();
    r.uuid = Some(s("role-1"));
    r.tree_id = Some(100);
    r.tree_uuid = Some(s("tree-100"));
    r.window_access = Some(uuids.into_iter().map(s).collect());
    r
}

fn tree_m3_m2_m1() -> MenuTree {
    // M3 -> M2 -> M1
    let mut root = MenuTree::empty();
    root.uuid = Some(s("tree-100"));
    root.children = Some(vec![node(3, 30, vec![node(2, 20, vec![node(1, 10, vec![])])])]);
    root
}

#[test]
fn summaries_with_an_allowed_leaf_are_retained() {
    // Role grants W-1; the pool holds M1 (action W on W-1) and the two
    // summaries above it; the whole chain survives, sequences taken from
    // the tree.
    let role = role_with_window_access(vec!["W-1"]);
    let pool = vec![
        action_item(1, "M1", "W", "W-1", 11),
        summary_item(2, "M2"),
        summary_item(3, "M3"),
    ];
    let allowed = menu_items_from_role(pool, &role);
    assert_eq!(allowed.len(), 3);
    let tree = tree_m3_m2_m1();
    let response = allowed_menu(&role, allowed, &tree).unwrap();
    let menus = response.menus.unwrap();
    assert_eq!(menus.len(), 1);
    let m3 = &menus[0];
    assert_eq!(m3.name, Some(s("M3")));
    assert_eq!(m3.sequence, Some(30));
    let m2 = &m3.children.as_ref().unwrap()[0];
    assert_eq!(m2.name, Some(s("M2")));
    assert_eq!(m2.sequence, Some(20));
    let m1 = &m2.children.as_ref().unwrap()[0];
    assert_eq!(m1.name, Some(s("M1")));
    assert_eq!(m1.sequence, Some(10));
    assert!(has_action_in_childrens(m3));
}

#[test]
fn summaries_with_no_action_descendants_are_pruned() {
    // As above, but M1 targets W-2, which the role does not grant: the
    // pool filter drops it, and both summaries collapse away.
    let role = role_with_window_access(vec!["W-1"]);
    let pool = vec![
        action_item(1, "M1", "W", "W-2", 11),
        summary_item(2, "M2"),
        summary_item(3, "M3"),
    ];
    let allowed = menu_items_from_role(pool, &role);
    assert_eq!(allowed.len(), 2);
    let tree = tree_m3_m2_m1();
    let response = allowed_menu(&role, allowed, &tree).unwrap();
    let menus = response.menus.unwrap();
    assert!(menus.is_empty());
}

#[test]
fn roles_without_a_tree_are_rejected() {
    let mut role = role_with_window_access(vec!["W-1"]);
    role.tree_uuid = None;
    let tree = tree_m3_m2_m1();
    assert!(allowed_menu(&role, Vec::new(), &tree).is_err());
    role.tree_uuid = Some(s("tree-100"));
    role.tree_id = None;
    assert!(allowed_menu(&role, Vec::new(), &tree).is_err());
}

#[test]
fn siblings_come_out_sorted_by_tree_sequence() {
    // Three leaves under the root, tree sequences 3, 1, 2; equal pool data.
    let role = role_with_window_access(vec!["W-1"]);
    let pool = vec![
        action_item(1, "A", "W", "W-1", 5),
        action_item(2, "B", "W", "W-1", 6),
        action_item(3, "C", "W", "W-1", 7),
    ];
    let mut root = MenuTree::empty();
    root.children = Some(vec![
        node(1, 3, vec![]),
        node(2, 1, vec![]),
        node(3, 2, vec![]),
    ]);
    let menus = load_valid_children(root.children.as_ref().unwrap(), &pool);
    let names: Vec<String> = menus.iter().map(|m| m.name.clone().unwrap()).collect();
    assert_eq!(names, vec![s("B"), s("C"), s("A")]);
}

#[test]
fn the_report_kind_shares_the_process_access_list() {
    let mut role = role_with_window_access(vec![]);
    role.process_access = Some(vec![s("P-7")]);
    let pool = vec![
        action_item(1, "R1", "R", "P-7", 3),
        action_item(2, "P1", "P", "P-7", 4),
        action_item(3, "X1", "X", "P-7", 5),
    ];
    let allowed = menu_items_from_role(pool, &role);
    let names: Vec<String> = allowed.iter().map(|m| m.name.clone().unwrap()).collect();
    assert_eq!(names, vec![s("R1"), s("P1")]);
}

#[test]
fn non_summary_nodes_without_actions_are_kept_as_leaves() {
    // A plain node (not a summary, no action) that the pool carries is not
    // pruned; pruning applies to summary nodes only.
    let role = role_with_window_access(vec!["W-1"]);
    let pool = vec![item(1, "Plain")];
    let mut root = MenuTree::empty();
    root.children = Some(vec![node(1, 1, vec![])]);
    let menus = load_valid_children(root.children.as_ref().unwrap(), &pool);
    assert_eq!(menus.len(), 1);
    assert_eq!(menus[0].name, Some(s("Plain")));
}

#[test]
fn menu_nodes_inherit_presentation_from_the_pool() {
    let mut pool_item = action_item(1, "M1", "W", "W-1", 11);
    pool_item.description = Some(s("described"));
    pool_item.is_read_only = Some(true);
    let m = Menu::from_menu_item(pool_item);
    assert_eq!(m.description, Some(s("described")));
    assert_eq!(m.is_read_only, Some(true));
    assert_eq!(m.action_uuid, Some(s("W-1")));
}
