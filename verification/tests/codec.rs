//! Round trips between stored payloads and typed records, and the
//! normalization applied on the query path.

use dictionary_gateway::browser::Browser;
use dictionary_gateway::browser::BrowserField;
use dictionary_gateway::dictionary::DictionaryEntity;
use dictionary_gateway::dictionary::MenuAction;
use dictionary_gateway::form::Form;
use dictionary_gateway::menu_item::MenuItem;
use dictionary_gateway::menu_tree::MenuTree;
use dictionary_gateway::process::Process;
use dictionary_gateway::process::ProcessParameters;
use dictionary_gateway::queries::parse_browser;
use dictionary_gateway::queries::parse_menu_tree;
use dictionary_gateway::queries::parse_process;
use dictionary_gateway::queries::parse_window;
use dictionary_gateway::role::Role;
use dictionary_gateway::value::Key;
use dictionary_gateway::value::Value;
use dictionary_gateway::window::Window;
use dictionary_gateway::window::WindowField;
use dictionary_gateway::window::WindowProcess;
use dictionary_gateway::window::WindowTab;

fn s(v: &str) -> String {
    v.to_owned()
}

#[test]
fn menu_item_round_trips() {
    let mut m = MenuItem::empty();
    m.uuid = Some(s("u-1"));
    m.internal_id = Some(42);
    m.id = Some(s("MI-1"));
    m.parent_id = Some(7);
    m.sequence = Some(10);
    m.name = Some(s("Orders"));
    m.is_summary = Some(false);
    m.action = Some(s("W"));
    m.action_id = Some(130);
    m.action_uuid = Some(s("W-9"));
    let mut action = MenuAction::empty();
    action.uuid = Some(s("W-9"));
    action.name = Some(s("Order Window"));
    m.window = Some(action);
    let decoded = MenuItem::decode(&m.encode()).unwrap();
    assert_eq!(decoded.uuid, m.uuid);
    assert_eq!(decoded.internal_id, m.internal_id);
    assert_eq!(decoded.id, m.id);
    assert_eq!(decoded.parent_id, m.parent_id);
    assert_eq!(decoded.sequence, m.sequence);
    assert_eq!(decoded.name, m.name);
    assert_eq!(decoded.action, m.action);
    assert_eq!(decoded.action_id, m.action_id);
    assert_eq!(decoded.action_uuid, m.action_uuid);
    let w = decoded.window.unwrap();
    assert_eq!(w.uuid, Some(s("W-9")));
    assert_eq!(w.name, Some(s("Order Window")));
}

#[test]
fn role_round_trips_with_access_lists() {
    let mut r = Role::empty();
    r.uuid = Some(s("role-1"));
    r.id = Some(s("R1"));
    r.tree_id = Some(5);
    r.tree_uuid = Some(s("tree-5"));
    r.window_access = Some(vec![s("W-1"), s("W-2")]);
    r.process_access = Some(vec![s("P-1")]);
    r.dashboard_access = Some(vec![]);
    let decoded = Role::decode(&r.encode()).unwrap();
    assert_eq!(decoded.uuid, r.uuid);
    assert_eq!(decoded.tree_uuid, r.tree_uuid);
    assert_eq!(decoded.window_access, Some(vec![s("W-1"), s("W-2")]));
    assert_eq!(decoded.process_access, Some(vec![s("P-1")]));
    assert_eq!(decoded.dashboard_access, Some(vec![]));
    assert_eq!(decoded.form_access, None);
}

#[test]
fn form_round_trips() {
    let mut f = Form::empty();
    f.id = Some(s("F-1"));
    f.file_name = Some(s("org.example.CustomForm"));
    f.is_active = Some(true);
    let decoded = Form::decode(&f.encode()).unwrap();
    assert_eq!(decoded.id, f.id);
    assert_eq!(decoded.file_name, f.file_name);
    assert_eq!(decoded.is_active, Some(true));
}

#[test]
fn menu_tree_round_trips_recursively() {
    let mut leaf = MenuTree::empty();
    leaf.node_id = Some(3);
    leaf.sequence = Some(1);
    let mut root = MenuTree::empty();
    root.id = Some(s("T-1"));
    root.node_id = Some(1);
    root.children = Some(vec![leaf]);
    let decoded = MenuTree::decode(&root.encode()).unwrap();
    assert_eq!(decoded.id, Some(s("T-1")));
    let children = decoded.children.unwrap();
    assert_eq!(children.len(), 1);
    assert_eq!(children[0].node_id, Some(3));
    assert_eq!(children[0].sequence, Some(1));
}

#[test]
fn unknown_fields_are_ignored_on_decode() {
    let v = Value::Object(vec![
        (Key::Id, Value::Text(s("F-2"))),
        (Key::Terms, Value::Int(9)),
        (Key::Name, Value::Text(s("named"))),
    ]);
    let decoded = Form::decode(&v).unwrap();
    assert_eq!(decoded.id, Some(s("F-2")));
    assert_eq!(decoded.name, Some(s("named")));
    assert_eq!(decoded.description, None);
}

fn field_with(seq: i32, name: &str) -> WindowField {
    let mut f = WindowField::empty();
    f.sequence = Some(seq);
    f.name = Some(s(name));
    f
}

#[test]
fn window_normalization_sorts_and_filters() {
    let mut tab = WindowTab::empty();
    tab.sequence = Some(2);
    tab.fields = Some(vec![field_with(30, "c"), field_with(10, "a"), field_with(20, "b")]);
    let mut allowed = WindowProcess::empty();
    allowed.uuid = Some(s("P-OK"));
    allowed.name = Some(s("zeta"));
    let mut denied = WindowProcess::empty();
    denied.uuid = Some(s("P-NO"));
    denied.name = Some(s("alpha"));
    let mut allowed2 = WindowProcess::empty();
    allowed2.uuid = Some(s("P-OK2"));
    allowed2.name = Some(s("beta"));
    tab.processes = Some(vec![allowed, denied, allowed2]);
    let mut direct = WindowProcess::empty();
    direct.uuid = Some(s("P-NO"));
    tab.process = Some(direct);
    let mut first_tab = WindowTab::empty();
    first_tab.sequence = Some(1);
    let mut w = Window::empty();
    w.id = Some(s("W-1"));
    w.tabs = Some(vec![tab, first_tab]);
    let access = vec![s("P-OK"), s("P-OK2")];
    let normalized = parse_window(&w.encode(), &access).unwrap();
    let tabs = normalized.tabs.unwrap();
    // tabs sorted by sequence
    assert_eq!(tabs[0].sequence, Some(1));
    assert_eq!(tabs[1].sequence, Some(2));
    let second = &tabs[1];
    // the direct process was not granted
    assert!(second.process.is_none());
    // processes filtered by access, then sorted by name
    let names: Vec<String> =
        second.processes.as_ref().unwrap().iter().map(|p| p.name.clone().unwrap()).collect();
    assert_eq!(names, vec![s("beta"), s("zeta")]);
    // fields sorted by sequence
    let fields: Vec<i32> =
        second.fields.as_ref().unwrap().iter().map(|f| f.sequence.unwrap()).collect();
    assert_eq!(fields, vec![10, 20, 30]);
}

#[test]
fn browser_fields_come_out_sorted() {
    let mut b = Browser::empty();
    b.id = Some(s("B-1"));
    let mut f1 = BrowserField::empty();
    f1.sequence = Some(2);
    f1.name = Some(s("second"));
    let mut f2 = BrowserField::empty();
    f2.sequence = Some(1);
    f2.name = Some(s("first"));
    b.fields = Some(vec![f1, f2]);
    let parsed = parse_browser(&b.encode()).unwrap();
    let fields = parsed.fields.unwrap();
    assert_eq!(fields[0].name, Some(s("first")));
    assert_eq!(fields[1].name, Some(s("second")));
}

#[test]
fn process_parameters_come_out_sorted_stably() {
    let mut p = Process::empty();
    p.id = Some(s("P-1"));
    let mk = |id: &str, seq: i32| {
        let mut param = ProcessParameters::empty();
        param.id = Some(s(id));
        param.sequence = Some(seq);
        param
    };
    p.parameters = Some(vec![mk("b", 5), mk("a", 1), mk("c", 5), mk("d", 2)]);
    let parsed = parse_process(&p.encode()).unwrap();
    let ids: Vec<String> =
        parsed.parameters.unwrap().iter().map(|q| q.id.clone().unwrap()).collect();
    // equal sequences keep their input order: b before c
    assert_eq!(ids, vec![s("a"), s("d"), s("b"), s("c")]);
}

#[test]
fn fetched_menu_trees_sort_children_recursively() {
    let mk = |node_id: i32, seq: i32, children: Option<Vec<MenuTree>>| {
        let mut n = MenuTree::empty();
        n.node_id = Some(node_id);
        n.sequence = Some(seq);
        n.children = children;
        n
    };
    let inner = vec![mk(21, 2, None), mk(22, 1, None)];
    let root_children = vec![mk(2, 9, Some(inner)), mk(1, 3, None)];
    let mut root = MenuTree::empty();
    root.children = Some(root_children);
    let parsed = parse_menu_tree(&root.encode()).unwrap();
    let children = parsed.children.unwrap();
    assert_eq!(children[0].node_id, Some(1));
    assert_eq!(children[1].node_id, Some(2));
    let nested = children[1].children.as_ref().unwrap();
    assert_eq!(nested[0].node_id, Some(22));
    assert_eq!(nested[1].node_id, Some(21));
}

#[test]
fn dictionary_entities_round_trip() {
    let mut d = DictionaryEntity::empty();
    d.uuid = Some(s("D-1"));
    d.help = Some(s("help text"));
    let decoded = DictionaryEntity::decode(&d.encode()).unwrap();
    assert_eq!(decoded.uuid, d.uuid);
    assert_eq!(decoded.help, d.help);
}
