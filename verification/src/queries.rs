//! Post-fetch normalization and input validation for the query services.
//!
//! A fetched `_source` is decoded into its typed record and normalized:
//! window tabs come out sorted by sequence, with each tab's fields sorted by
//! sequence, its processes filtered by the caller role's process access and
//! sorted by name; browser fields and process parameters come out sorted by
//! sequence; menu-tree children come out recursively sorted.

use vstd::prelude::*;
use crate::browser::Browser;
use crate::errors::ServiceError;
use crate::menu::item_matches_role;
use crate::menu::menu_item_models;
use crate::menu_item::MenuItem;
use crate::menu_tree::MenuTree;
use crate::menu_tree::MenuTreeModel;
use crate::ordering::browser_field_models;
use crate::ordering::menu_tree_models;
use crate::ordering::process_parameters_models;
use crate::ordering::sort_browser_fields;
use crate::ordering::sort_menu_trees;
use crate::ordering::sort_process_parameters_list;
use crate::ordering::sort_window_fields;
use crate::ordering::sort_window_processes_by_name;
use crate::ordering::sort_window_tabs;
use crate::ordering::window_field_models;
use crate::ordering::window_process_models;
use crate::ordering::window_tab_models;
use crate::process::Process;
use crate::role::Role;
use crate::sort::spec_sort;
use crate::sort::spec_sort_by_name;
use crate::text::contains_string;
use crate::text::is_missing;
use crate::text::seq_contains_str;
use crate::text::spec_missing;
use crate::text::view_opt;
use crate::value::Value;
use crate::window::Window;
use crate::window::WindowModel;
use crate::window::WindowProcess;
use crate::window::WindowProcessModel;
use crate::window::WindowTab;
use crate::window::WindowTabModel;

verus! {

/// The views of an access list.
pub open spec fn access_view(v: Seq<String>) -> Seq<Seq<char>> {
    Seq::new(v.len(), |i: int| v[i]@)
}

/// Rejects a missing or blank identifier with a validation error carrying
/// the given message.
pub fn validate_identifier(id: &Option<String>, message: &str) -> (r: Result<bool, ServiceError>)
    ensures
        spec_missing(view_opt(*id)) <==> r is Err,
        r matches Err(e) ==> e matches ServiceError::Validation(m) && m@ == message@,
{
    if is_missing(id) {
        Result::Err(ServiceError::Validation(message.to_owned()))
    } else {
        Result::Ok(true)
    }
}

// --- window normalization ----------------------------------------------------

/// A tab's direct process survives when its UUID is in the access list.
pub open spec fn spec_allowed_process(
    p: Option<WindowProcessModel>,
    acc: Seq<Seq<char>>,
) -> Option<WindowProcessModel> {
    match p {
        Option::Some(proc) => match proc.uuid {
            Option::Some(u) => if acc.contains(u) {
                Option::Some(proc)
            } else {
                Option::None
            },
            Option::None => Option::None,
        },
        Option::None => Option::None,
    }
}

/// The tab processes whose UUID is in the access list, in input order.
pub open spec fn spec_filter_processes(
    ps: Seq<WindowProcessModel>,
    acc: Seq<Seq<char>>,
) -> Seq<WindowProcessModel>
    decreases ps,
{
    if ps.len() == 0 {
        Seq::empty()
    } else {
        let keep = match ps[0].uuid {
            Option::Some(u) => acc.contains(u),
            Option::None => false,
        };
        if keep {
            seq![ps[0]] + spec_filter_processes(ps.drop_first(), acc)
        } else {
            spec_filter_processes(ps.drop_first(), acc)
        }
    }
}

/// One normalized tab: the direct process filtered by access, the process
/// list filtered and sorted by name, the fields sorted by sequence.
pub open spec fn spec_normalize_tab(t: WindowTabModel, acc: Seq<Seq<char>>) -> WindowTabModel {
    WindowTabModel {
        process: spec_allowed_process(t.process, acc),
        processes: match t.processes {
            Option::None => Option::None,
            Option::Some(ps) => Option::Some(spec_sort_by_name(spec_filter_processes(ps, acc))),
        },
        fields: match t.fields {
            Option::None => Option::None,
            Option::Some(fs) => Option::Some(spec_sort(fs)),
        },
        ..t
    }
}

/// Point-wise normalization of a tab list.
pub open spec fn spec_normalize_tabs(
    ts: Seq<WindowTabModel>,
    acc: Seq<Seq<char>>,
) -> Seq<WindowTabModel> {
    Seq::new(ts.len(), |i: int| spec_normalize_tab(ts[i], acc))
}

/// The normalized window: tabs sorted by sequence, each tab normalized.
pub open spec fn spec_normalize_window(m: WindowModel, acc: Seq<Seq<char>>) -> WindowModel {
    WindowModel {
        tabs: match m.tabs {
            Option::None => Option::None,
            Option::Some(ts) => Option::Some(spec_normalize_tabs(spec_sort(ts), acc)),
        },
        ..m
    }
}

/// Keeps the processes whose UUID is in the access list.
#[verifier::loop_isolation(false)]
fn filter_processes(ps: Vec<WindowProcess>, process_access: &Vec<String>) -> (r: Vec<WindowProcess>)
    ensures
        window_process_models(r@) == spec_filter_processes(
            window_process_models(ps@),
            access_view(process_access@),
        ),
{
    let ghost acc = access_view(process_access@);
    let ghost orig = window_process_models(ps@);
    let mut ps = ps;
    let mut out: Vec<WindowProcess> = Vec::new();
    proof {
        assert(window_process_models(out@) + spec_filter_processes(orig, acc)
            =~= spec_filter_processes(orig, acc));
        assert(window_process_models(ps@) =~= orig);
    }
    while ps.len() > 0
        invariant
            spec_filter_processes(orig, acc) == window_process_models(out@)
                + spec_filter_processes(window_process_models(ps@), acc),
        decreases ps@.len(),
    {
        let ghost oldm = window_process_models(ps@);
        let p = ps.remove(0);
        proof {
            assert(oldm[0] == p.model());
            assert(oldm.drop_first() =~= window_process_models(ps@));
        }
        let keep = match &p.uuid {
            Option::Some(u) => contains_string(process_access, u),
            Option::None => false,
        };
        proof {
            assert(keep == (match p.model().uuid {
                Option::Some(u) => acc.contains(u),
                Option::None => false,
            })) by {
                if p.uuid is Some {
                    let u = p.uuid->Some_0;
                    assert(seq_contains_str(process_access@, u@) == acc.contains(u@)) by {
                        if seq_contains_str(process_access@, u@) {
                            let w = choose|w: int|
                                0 <= w < process_access@.len() && process_access@[w]@ == u@;
                            assert(acc[w] == u@);
                        }
                        if acc.contains(u@) {
                            let w = choose|w: int| 0 <= w < acc.len() && acc[w] == u@;
                            assert(process_access@[w]@ == u@);
                        }
                    }
                }
            }
        }
        if keep {
            let ghost before = window_process_models(out@);
            out.push(p);
            proof {
                assert(window_process_models(out@) =~= before + seq![oldm[0]]);
                assert(before + (seq![oldm[0]] + spec_filter_processes(
                    window_process_models(ps@),
                    acc,
                )) =~= before + seq![oldm[0]] + spec_filter_processes(
                    window_process_models(ps@),
                    acc,
                ));
            }
        }
    }
    proof {
        assert(window_process_models(ps@) =~= Seq::<WindowProcessModel>::empty());
        assert(spec_filter_processes(window_process_models(ps@), acc) =~= Seq::<
            WindowProcessModel,
        >::empty());
        assert(spec_filter_processes(orig, acc) =~= window_process_models(out@));
    }
    out
}

/// Normalizes one tab against the caller's process access.
fn normalize_tab(tab: WindowTab, process_access: &Vec<String>) -> (r: WindowTab)
    ensures
        r.model() == spec_normalize_tab(tab.model(), access_view(process_access@)),
{
    let mut tab = tab;
    let direct = tab.process;
    tab.process = match direct {
        Option::Some(p) => {
            let keep = match &p.uuid {
                Option::Some(u) => contains_string(process_access, u),
                Option::None => false,
            };
            proof {
                if p.uuid is Some {
                    let u = p.uuid->Some_0;
                    assert(seq_contains_str(process_access@, u@) == access_view(
                        process_access@,
                    ).contains(u@)) by {
                        if seq_contains_str(process_access@, u@) {
                            let w = choose|w: int|
                                0 <= w < process_access@.len() && process_access@[w]@ == u@;
                            assert(access_view(process_access@)[w] == u@);
                        }
                        if access_view(process_access@).contains(u@) {
                            let w = choose|w: int|
                                0 <= w < access_view(process_access@).len() && access_view(
                                    process_access@,
                                )[w] == u@;
                            assert(process_access@[w]@ == u@);
                        }
                    }
                }
            }
            if keep {
                Option::Some(p)
            } else {
                Option::None
            }
        },
        Option::None => Option::None,
    };
    let procs = tab.processes;
    tab.processes = match procs {
        Option::Some(ps) => Option::Some(
            sort_window_processes_by_name(filter_processes(ps, process_access)),
        ),
        Option::None => Option::None,
    };
    let fields = tab.fields;
    tab.fields = match fields {
        Option::Some(fs) => Option::Some(sort_window_fields(fs)),
        Option::None => Option::None,
    };
    tab
}

/// Normalizes a fetched window against the caller's process access: tabs
/// sorted, fields sorted, tab processes filtered and sorted by name.
#[verifier::loop_isolation(false)]
pub fn normalize_window(window: Window, process_access: &Vec<String>) -> (r: Window)
    ensures
        r.model() == spec_normalize_window(window.model(), access_view(process_access@)),
{
    let ghost acc = access_view(process_access@);
    let mut window = window;
    let tabs = window.tabs;
    window.tabs = match tabs {
        Option::None => Option::None,
        Option::Some(ts) => {
            let sorted = sort_window_tabs(ts);
            let ghost sm = window_tab_models(sorted@);
            let mut rest = sorted;
            let mut out: Vec<WindowTab> = Vec::new();
            proof {
                assert(window_tab_models(rest@) =~= sm);
            }
            while rest.len() > 0
                invariant
                    window_tab_models(rest@) == sm.subrange(
                        sm.len() - rest@.len(),
                        sm.len() as int,
                    ),
                    out@.len() + rest@.len() == sm.len(),
                    forall|j: int|
                        0 <= j < out@.len() ==> #[trigger] out@[j].model() == spec_normalize_tab(
                            sm[j],
                            acc,
                        ),
                decreases rest@.len(),
            {
                let ghost k = sm.len() - rest@.len();
                let ghost oldm = window_tab_models(rest@);
                let t = rest.remove(0);
                proof {
                    assert(oldm[0] == t.model());
                    assert(oldm[0] == sm[k]);
                    assert(oldm.drop_first() =~= window_tab_models(rest@));
                    assert(window_tab_models(rest@) =~= sm.subrange(k + 1, sm.len() as int));
                }
                let nt = normalize_tab(t, process_access);
                out.push(nt);
            }
            proof {
                assert(window_tab_models(out@) =~= spec_normalize_tabs(sm, acc));
            }
            Option::Some(out)
        },
    };
    window
}

/// Decodes a fetched window `_source` and normalizes it.
pub fn parse_window(value: &Value, process_access: &Vec<String>) -> (r: Option<Window>)
    ensures
        match (r, Window::dec(value.model())) {
            (Option::Some(w), Option::Some(m)) => w.model() == spec_normalize_window(
                m,
                access_view(process_access@),
            ),
            (Option::None, Option::None) => true,
            _ => false,
        },
{
    match Window::decode(value) {
        Option::Some(w) => Option::Some(normalize_window(w, process_access)),
        Option::None => Option::None,
    }
}

/// Decodes a fetched browser `_source`; its fields come out sorted by
/// sequence.
pub fn parse_browser(value: &Value) -> (r: Option<Browser>)
    ensures
        match (r, Browser::dec(value.model())) {
            (Option::Some(b), Option::Some(m)) => b.model()
                == (crate::browser::BrowserModel {
                fields: match m.fields {
                    Option::None => Option::None,
                    Option::Some(fs) => Option::Some(spec_sort(fs)),
                },
                ..m
            }),
            (Option::None, Option::None) => true,
            _ => false,
        },
{
    match Browser::decode(value) {
        Option::Some(b) => {
            let mut b = b;
            let fields = b.fields;
            b.fields = match fields {
                Option::Some(fs) => Option::Some(sort_browser_fields(fs)),
                Option::None => Option::None,
            };
            Option::Some(b)
        },
        Option::None => Option::None,
    }
}

/// Decodes a fetched process `_source`; its parameters come out sorted by
/// sequence.
pub fn parse_process(value: &Value) -> (r: Option<Process>)
    ensures
        match (r, Process::dec(value.model())) {
            (Option::Some(p), Option::Some(m)) => p.model()
                == (crate::process::ProcessModel {
                parameters: match m.parameters {
                    Option::None => Option::None,
                    Option::Some(ps) => Option::Some(spec_sort(ps)),
                },
                ..m
            }),
            (Option::None, Option::None) => true,
            _ => false,
        },
{
    match Process::decode(value) {
        Option::Some(p) => {
            let mut p = p;
            let parameters = p.parameters;
            p.parameters = match parameters {
                Option::Some(ps) => Option::Some(sort_process_parameters_list(ps)),
                Option::None => Option::None,
            };
            Option::Some(p)
        },
        Option::None => Option::None,
    }
}

// --- menu-tree normalization --------------------------------------------------

/// A tree with every level of children sorted by sequence.
pub open spec fn spec_sorted_tree(m: MenuTreeModel) -> MenuTreeModel
    decreases m, 1int,
{
    MenuTreeModel {
        children: match m.children {
            Option::None => Option::None,
            Option::Some(cs) => Option::Some(spec_sort(spec_sorted_forest(cs))),
        },
        ..m
    }
}

pub open spec fn spec_sorted_forest(cs: Seq<MenuTreeModel>) -> Seq<MenuTreeModel>
    decreases cs, 0int,
{
    if cs.len() == 0 {
        Seq::empty()
    } else {
        seq![spec_sorted_tree(cs[0])] + spec_sorted_forest(cs.drop_first())
    }
}

/// Sorts a fetched menu tree's children by sequence, recursively.
#[verifier::loop_isolation(false)]
pub fn sort_tree(tree: MenuTree) -> (r: MenuTree)
    ensures
        r.model() == spec_sorted_tree(tree.model()),
    decreases tree,
{
    let ghost t0 = tree;
    let mut tree = tree;
    let children = tree.children;
    tree.children = match children {
        Option::None => Option::None,
        Option::Some(cs) => {
            let ghost cs0 = cs@;
            let ghost csm = MenuTree::models_of_vec(cs@);
            proof {
                crate::menu_tree::lemma_menu_tree_models_of_vec(cs@);
            }
            let mut rest = cs;
            let mut out: Vec<MenuTree> = Vec::new();
            proof {
                assert(rest@ =~= cs0.subrange(0, cs0.len() as int));
                assert(MenuTree::models_of_vec(rest@) =~= csm);
            }
            while rest.len() > 0
                invariant
                    rest@ == cs0.subrange(cs0.len() - rest@.len(), cs0.len() as int),
                    MenuTree::models_of_vec(rest@) == csm.subrange(
                        csm.len() - rest@.len(),
                        csm.len() as int,
                    ),
                    csm.len() == cs0.len(),
                    out@.len() + rest@.len() == csm.len(),
                    forall|j: int|
                        0 <= j < out@.len() ==> #[trigger] out@[j].model() == spec_sorted_tree(
                            csm[j],
                        ),
                decreases rest@.len(),
            {
                let ghost k = csm.len() - rest@.len();
                let ghost oldrest = rest@;
                let ghost oldm = MenuTree::models_of_vec(rest@);
                proof {
                    crate::menu_tree::lemma_menu_tree_models_of_vec(rest@);
                }
                let c = rest.remove(0);
                proof {
                    crate::menu_tree::lemma_menu_tree_models_of_vec(rest@);
                    assert(c == oldrest[0]);
                    assert(oldm[0] == c.model());
                    assert(oldm[0] == csm[k]);
                    assert(oldm.drop_first() =~= MenuTree::models_of_vec(rest@));
                    assert(rest@ =~= cs0.subrange(k + 1, cs0.len() as int));
                    assert(MenuTree::models_of_vec(rest@) =~= csm.subrange(
                        k + 1,
                        csm.len() as int,
                    ));
                    assert(c == cs0[k]);
                    assert(decreases_to!(t0 => t0.children));
                    assert(decreases_to!(t0.children => t0.children->Some_0));
                    assert(t0.children->Some_0@ == cs0);
                    assert(decreases_to!(t0.children->Some_0 => cs0));
                    assert(decreases_to!(cs0 => cs0[k]));
                }
                let nc = sort_tree(c);
                let ghost before = out@;
                out.push(nc);
                proof {
                    crate::menu_tree::lemma_menu_tree_models_of_vec(out@);
                    crate::menu_tree::lemma_menu_tree_models_of_vec(before);
                }
            }
            proof {
                crate::menu_tree::lemma_menu_tree_models_of_vec(out@);
                assert forall|j: int|
                    0 <= j < out@.len() implies MenuTree::models_of_vec(out@)[j]
                    == spec_sorted_forest(csm)[j] by {
                    lemma_sorted_forest_index(csm);
                    assert(MenuTree::models_of_vec(out@)[j] == out@[j].model());
                }
                lemma_sorted_forest_index(csm);
                assert(MenuTree::models_of_vec(out@) =~= spec_sorted_forest(csm));
            }
            let sorted = sort_menu_trees(out);
            proof {
                crate::menu_tree::lemma_menu_tree_models_of_vec(sorted@);
                assert forall|j: int| 0 <= j < sorted@.len() implies MenuTree::models_of_vec(
                    sorted@,
                )[j] == menu_tree_models(sorted@)[j] by {
                    assert(MenuTree::models_of_vec(sorted@)[j] == sorted@[j].model());
                }
                assert(MenuTree::models_of_vec(sorted@) =~= menu_tree_models(sorted@));
                assert forall|j: int| 0 <= j < out@.len() implies MenuTree::models_of_vec(out@)[j]
                    == menu_tree_models(out@)[j] by {
                    assert(MenuTree::models_of_vec(out@)[j] == out@[j].model());
                }
                assert(MenuTree::models_of_vec(out@) =~= menu_tree_models(out@));
                assert(MenuTree::models_of_vec(sorted@) == spec_sort(
                    MenuTree::models_of_vec(out@),
                ));
            }
            Option::Some(sorted)
        },
    };
    tree
}

/// `spec_sorted_forest` indexes point-wise.
proof fn lemma_sorted_forest_index(cs: Seq<MenuTreeModel>)
    ensures
        spec_sorted_forest(cs).len() == cs.len(),
        forall|i: int|
            0 <= i < cs.len() ==> spec_sorted_forest(cs)[i] == spec_sorted_tree(#[trigger] cs[i]),
    decreases cs,
{
    if cs.len() > 0 {
        lemma_sorted_forest_index(cs.drop_first());
        assert forall|i: int|
            0 <= i < cs.len() implies spec_sorted_forest(cs)[i] == spec_sorted_tree(
            #[trigger] cs[i],
        ) by {
            if i > 0 {
                assert(cs.drop_first()[i - 1] == cs[i]);
                assert(spec_sorted_forest(cs)[i] == spec_sorted_forest(cs.drop_first())[i - 1]);
            }
        }
    }
}

/// Decodes a fetched menu tree `_source` with its children recursively
/// sorted by sequence.
pub fn parse_menu_tree(value: &Value) -> (r: Option<MenuTree>)
    ensures
        match (r, MenuTree::dec(value.model())) {
            (Option::Some(t), Option::Some(m)) => t.model() == spec_sorted_tree(m),
            (Option::None, Option::None) => true,
            _ => false,
        },
{
    match MenuTree::decode(value) {
        Option::Some(t) => Option::Some(sort_tree(t)),
        Option::None => Option::None,
    }
}

// --- the pool filter, executed locally ----------------------------------------

/// Whether a pool item passes the role's filter; the executable counterpart
/// of [`item_matches_role`].
pub fn menu_item_allowed(item: &MenuItem, role: &Role) -> (r: bool)
    ensures
        r == item_matches_role(item.model(), role.model()),
{
    let summary = match &item.is_summary {
        Option::Some(b) => *b,
        Option::None => false,
    };
    if summary {
        proof {
            assert(item.model().is_summary == Option::Some(true));
        }
        return true;
    }
    let in_window = access_clause_matches(&item.action, "W", &item.action_uuid, &role.window_access);
    let in_form = access_clause_matches(&item.action, "X", &item.action_uuid, &role.form_access);
    let in_browser = access_clause_matches(
        &item.action,
        "S",
        &item.action_uuid,
        &role.browser_access,
    );
    let in_process = access_clause_matches(
        &item.action,
        "P",
        &item.action_uuid,
        &role.process_access,
    );
    let in_report = access_clause_matches(
        &item.action,
        "R",
        &item.action_uuid,
        &role.process_access,
    );
    let in_workflow = access_clause_matches(
        &item.action,
        "F",
        &item.action_uuid,
        &role.workflow_access,
    );
    in_window || in_form || in_browser || in_process || in_report || in_workflow
}

/// One clause of the role filter: the action letter matches and the action
/// UUID is in the access list.
fn access_clause_matches(
    action: &Option<String>,
    letter: &str,
    action_uuid: &Option<String>,
    access: &Option<Vec<String>>,
) -> (r: bool)
    ensures
        r == (view_opt(*action) == Option::Some(letter@) && crate::menu::uuid_allowed(
            view_opt(*action_uuid),
            crate::value::view_opt_texts(*access),
        )),
{
    let action_matches = match action {
        Option::Some(a) => crate::text::str_eq(a, letter),
        Option::None => false,
    };
    if !action_matches {
        return false;
    }
    match (action_uuid, access) {
        (Option::Some(u), Option::Some(lst)) => {
            let r = contains_string(lst, u);
            proof {
                let acc = crate::value::view_opt_texts(*access)->Some_0;
                assert(seq_contains_str(lst@, u@) == acc.contains(u@)) by {
                    if seq_contains_str(lst@, u@) {
                        let w = choose|w: int| 0 <= w < lst@.len() && lst@[w]@ == u@;
                        assert(acc[w] == u@);
                    }
                    if acc.contains(u@) {
                        let w = choose|w: int| 0 <= w < acc.len() && acc[w] == u@;
                        assert(lst@[w]@ == u@);
                    }
                }
            }
            r
        },
        _ => false,
    }
}

/// The pool items that pass the role's filter, in input order; the local
/// counterpart of the store-side raw query.
#[verifier::loop_isolation(false)]
pub fn menu_items_from_role(items: Vec<MenuItem>, role: &Role) -> (r: Vec<MenuItem>)
    ensures
        menu_item_models(r@) == spec_filter_items(menu_item_models(items@), role.model()),
        forall|i: int|
            0 <= i < r@.len() ==> item_matches_role(
                #[trigger] menu_item_models(r@)[i],
                role.model(),
            ),
{
    let ghost orig = menu_item_models(items@);
    let mut items = items;
    let mut out: Vec<MenuItem> = Vec::new();
    proof {
        assert(menu_item_models(out@) + spec_filter_items(orig, role.model())
            =~= spec_filter_items(orig, role.model()));
        assert(menu_item_models(items@) =~= orig);
    }
    while items.len() > 0
        invariant
            spec_filter_items(orig, role.model()) == menu_item_models(out@) + spec_filter_items(
                menu_item_models(items@),
                role.model(),
            ),
            forall|i: int|
                0 <= i < out@.len() ==> item_matches_role(
                    #[trigger] menu_item_models(out@)[i],
                    role.model(),
                ),
        decreases items@.len(),
    {
        let ghost oldm = menu_item_models(items@);
        let item = items.remove(0);
        proof {
            assert(oldm[0] == item.model());
            assert(oldm.drop_first() =~= menu_item_models(items@));
        }
        if menu_item_allowed(&item, role) {
            let ghost before = menu_item_models(out@);
            out.push(item);
            proof {
                assert(menu_item_models(out@) =~= before + seq![oldm[0]]);
                assert(before + (seq![oldm[0]] + spec_filter_items(
                    menu_item_models(items@),
                    role.model(),
                )) =~= before + seq![oldm[0]] + spec_filter_items(
                    menu_item_models(items@),
                    role.model(),
                ));
            }
        }
    }
    proof {
        assert(menu_item_models(items@) =~= Seq::<crate::menu_item::MenuItemModel>::empty());
        assert(spec_filter_items(menu_item_models(items@), role.model()) =~= Seq::<
            crate::menu_item::MenuItemModel,
        >::empty());
        assert(spec_filter_items(orig, role.model()) =~= menu_item_models(out@));
    }
    out
}

/// The pool items a role's filter admits, in input order.
pub open spec fn spec_filter_items(
    items: Seq<crate::menu_item::MenuItemModel>,
    role: crate::role::RoleModel,
) -> Seq<crate::menu_item::MenuItemModel>
    decreases items,
{
    if items.len() == 0 {
        Seq::empty()
    } else if item_matches_role(items[0], role) {
        seq![items[0]] + spec_filter_items(items.drop_first(), role)
    } else {
        spec_filter_items(items.drop_first(), role)
    }
}

/// The caller role's process access as a plain list; absent access reads
/// empty.
pub fn role_process_access(role: &Role) -> (r: Vec<String>)
    ensures
        access_view(r@) == (match role.model().process_access {
            Option::Some(a) => a,
            Option::None => Seq::empty(),
        }),
{
    match &role.process_access {
        Option::Some(v) => {
            let mut out: Vec<String> = Vec::new();
            let mut i: usize = 0;
            while i < v.len()
                invariant
                    0 <= i <= v@.len(),
                    out@.len() == i,
                    forall|j: int| 0 <= j < i ==> #[trigger] out@[j]@ == v@[j]@,
                decreases v@.len() - i,
            {
                out.push(v[i].clone());
                i = i + 1;
            }
            proof {
                assert(access_view(out@) =~= crate::value::view_opt_texts(
                    role.process_access,
                )->Some_0);
            }
            out
        },
        Option::None => {
            let out: Vec<String> = Vec::new();
            proof {
                assert(access_view(out@) =~= Seq::<Seq<char>>::empty());
            }
            out
        },
    }
}

} // verus!
