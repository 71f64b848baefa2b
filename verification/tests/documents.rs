//! The projection contract: index names, ids, mappings and search bodies.

use dictionary_gateway::document::IndexDocument;
use dictionary_gateway::menu_item::MenuItem;
use dictionary_gateway::menu_tree::MenuTree;
use dictionary_gateway::role::Role;
use dictionary_gateway::value::Key;
use dictionary_gateway::value::Value;
use dictionary_gateway::window::Window;

fn s(v: &str) -> String {
    v.to_owned()
}

fn field<'a>(v: &'a Value, k: Key) -> &'a Value {
    match v {
        Value::Object(fs) => {
            for (key, val) in fs {
                if *key == k {
                    return val;
                }
            }
            panic!("missing field");
        },
        _ => panic!("not an object"),
    }
}

#[test]
fn index_names_honor_the_injected_audience_index() {
    let mut w = Window::empty();
    assert_eq!(w.index_name(), "window");
    w.index_value = Some(s("window_en_c1"));
    assert_eq!(w.index_name(), "window_en_c1");
    let t = MenuTree::empty();
    assert_eq!(t.index_name(), "menu");
}

#[test]
fn records_without_an_id_read_as_empty_where_tolerated() {
    let t = MenuTree::empty();
    assert_eq!(t.id(), "");
    let mut r = Role::empty();
    r.id = Some(s("R-1"));
    assert_eq!(r.id(), "R-1");
}

#[test]
fn the_wildcard_query_wraps_the_term() {
    let w = Window::empty();
    let q = w.find(s("sales"));
    let term = field(field(field(&q, Key::Query), Key::QueryString), Key::Query);
    match term {
        Value::Text(t) => assert_eq!(t, "*sales*"),
        _ => panic!("expected text"),
    }
}

#[test]
fn mappings_declare_the_documented_properties() {
    let w = Window::empty();
    let mapping = w.mapping();
    let props = field(field(&mapping, Key::Mappings), Key::Properties);
    let uuid_type = field(field(props, Key::Uuid), Key::Type);
    match uuid_type {
        Value::Text(t) => assert_eq!(t, "keyword"),
        _ => panic!("expected text"),
    }
    let name_type = field(field(props, Key::Name), Key::Type);
    match name_type {
        Value::Text(t) => assert_eq!(t, "text"),
        _ => panic!("expected text"),
    }
}

#[test]
fn the_role_filter_body_names_every_action_kind() {
    let mut role = Role::empty();
    role.window_access = Some(vec![s("W-1")]);
    let body = MenuItem::get_find_body_from_role(&role);
    let should = field(field(field(&body, Key::Query), Key::Bool), Key::Should);
    let clauses = match should {
        Value::List(cs) => cs,
        _ => panic!("expected list"),
    };
    assert_eq!(clauses.len(), 7);
    // the second clause grants windows: its terms list the granted UUIDs
    let musts = match field(&clauses[1], Key::Bool) {
        v => field(v, Key::Must),
    };
    let parts = match musts {
        Value::List(ps) => ps,
        _ => panic!("expected list"),
    };
    let uuids = field(field(&parts[0], Key::Terms), Key::ActionUuid);
    match uuids {
        Value::List(us) => {
            assert_eq!(us.len(), 1);
            match &us[0] {
                Value::Text(t) => assert_eq!(t, "W-1"),
                _ => panic!("expected text"),
            }
        },
        _ => panic!("expected list"),
    }
    let letter = field(field(&parts[1], Key::Match), Key::Action);
    match letter {
        Value::Text(t) => assert_eq!(t, "W"),
        _ => panic!("expected text"),
    }
}

#[test]
fn payloads_keep_every_field_under_its_key() {
    let mut w = Window::empty();
    w.id = Some(s("W-1"));
    w.name = Some(s("Sales Order"));
    let data = w.data();
    match field(&data, Key::Name) {
        Value::Text(t) => assert_eq!(t, "Sales Order"),
        _ => panic!("expected text"),
    }
    match field(&data, Key::Description) {
        Value::Null => {},
        _ => panic!("absent fields are stored as null"),
    }
}
