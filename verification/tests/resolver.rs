//! Index-name composition and fallback resolution.

use dictionary_gateway::errors::ServiceError;
use dictionary_gateway::indexes::client_index_only;
use dictionary_gateway::indexes::compose_index_name;
use dictionary_gateway::indexes::default_index;
use dictionary_gateway::indexes::get_index_name;
use dictionary_gateway::indexes::language_index;
use dictionary_gateway::indexes::legacy_chain;
use dictionary_gateway::indexes::resolve_index;

fn s(v: &str) -> String {
    v.to_owned()
}

#[test]
fn composes_full_audience_name_in_order() {
    let name = compose_index_name(
        s("Menu"),
        Some(&s("ES")),
        Some(&s("C1")),
        Some(&s("R1")),
        Some(&s("U1")),
        Some(&s("D1")),
    );
    assert_eq!(name, "menu_es_c1_r1_u1_d1");
}

#[test]
fn skips_blank_components() {
    let name = compose_index_name(
        s("window"),
        Some(&s("  ")),
        None,
        Some(&s("R1")),
        None,
        None,
    );
    assert_eq!(name, "window_r1");
}

#[test]
fn lowercases_every_level() {
    assert_eq!(default_index(s("WINDOW")), "window");
    assert_eq!(language_index(s("Window"), Some(&s("EN"))), "window_en");
    assert_eq!(client_index_only(s("Role"), Some(&s("C9"))), "role_c9");
}

#[test]
fn language_is_mandatory_for_dictionary_lookups() {
    let err = get_index_name(s("menu_item"), None, None);
    assert!(matches!(err, Err(ServiceError::Validation(_))));
    let err2 = get_index_name(s("menu_item"), Some(&s("   ")), None);
    assert!(matches!(err2, Err(ServiceError::Validation(_))));
    let ok = get_index_name(s("menu_item"), Some(&s("en")), Some(&s("d7")));
    assert_eq!(ok.unwrap(), "menu_item_en_d7");
}

#[test]
fn fallback_hits_language_level_when_client_chain_misses() {
    // Available indices: {window_en}; request (language=en, client=42).
    let candidates = legacy_chain(s("window"), Some(&s("en")), Some(&s("42")), None, None, None);
    assert_eq!(
        candidates,
        vec![
            s("window_en_42"),
            s("window_en_42"),
            s("window_en_42"),
            s("window_en"),
            s("window"),
        ]
    );
    let probes: Vec<bool> = candidates.iter().map(|c| c == "window_en").collect();
    let resolved = resolve_index(candidates, &probes).unwrap();
    assert_eq!(resolved, "window_en");
}

#[test]
fn resolver_reports_every_attempted_name() {
    let candidates = vec![s("a"), s("b")];
    let probes = vec![false, false];
    match resolve_index(candidates, &probes) {
        Err(ServiceError::IndexNotFound(tried)) => {
            assert_eq!(tried, vec![s("a"), s("b")]);
        },
        other => panic!("expected IndexNotFound, got {:?}", other),
    }
}
