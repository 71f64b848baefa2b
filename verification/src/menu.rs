//! Authorization-filtered menu assembly.
//!
//! A role's menu is the join of three stored inputs: the role record (for
//! validation and the access lists), the pool of menu items the role may see,
//! and the structural menu tree.  [`load_valid_children`] walks the tree,
//! takes presentation data from the first pool item whose `internal_id`
//! matches the node, lets the tree's `sequence` override the item's, sorts
//! siblings by sequence, and prunes summary nodes with no action-bearing
//! descendant.  [`lemma_menu_pruning`] states the guarantee: when every pool
//! item passes the role filter, every returned node is either an allowed
//! action leaf or a summary with an action-bearing descendant.

use vstd::prelude::*;
use crate::dictionary::MenuAction;
use crate::dictionary::MenuActionModel;
use crate::errors::ServiceError;
use crate::menu_item::MenuItem;
use crate::menu_item::MenuItemModel;
use crate::menu_tree::MenuTree;
use crate::menu_tree::MenuTreeModel;
use crate::role::Role;
use crate::role::RoleModel;
use crate::sort::insert_sorted;
use crate::sort::lemma_insert_sorted_at;
use crate::sort::lemma_sort_stable;
use crate::sort::sorted_by_key;
use crate::sort::spec_sort;
use crate::sort::SortKey;
use crate::text::view_opt;

verus! {

broadcast use vstd::seq_lib::group_to_multiset_ensures;

/// A node of the assembled, authorization-filtered menu.
#[derive(Debug)]
pub struct Menu {
    pub uuid: Option<String>,
    pub internal_id: Option<i32>,
    pub id: Option<String>,
    pub parent_id: Option<i32>,
    pub sequence: Option<i32>,
    pub name: Option<String>,
    pub description: Option<String>,
    pub is_summary: Option<bool>,
    pub is_sales_transaction: Option<bool>,
    pub is_read_only: Option<bool>,
    pub action: Option<String>,
    pub action_id: Option<i32>,
    pub action_uuid: Option<String>,
    pub window: Option<MenuAction>,
    pub process: Option<MenuAction>,
    pub form: Option<MenuAction>,
    pub browser: Option<MenuAction>,
    pub workflow: Option<MenuAction>,
    pub children: Option<Vec<Menu>>,
}

/// The mathematical model of a [`Menu`].
pub struct MenuModel {
    pub uuid: Option<Seq<char>>,
    pub internal_id: Option<i32>,
    pub id: Option<Seq<char>>,
    pub parent_id: Option<i32>,
    pub sequence: Option<i32>,
    pub name: Option<Seq<char>>,
    pub description: Option<Seq<char>>,
    pub is_summary: Option<bool>,
    pub is_sales_transaction: Option<bool>,
    pub is_read_only: Option<bool>,
    pub action: Option<Seq<char>>,
    pub action_id: Option<i32>,
    pub action_uuid: Option<Seq<char>>,
    pub window: Option<MenuActionModel>,
    pub process: Option<MenuActionModel>,
    pub form: Option<MenuActionModel>,
    pub browser: Option<MenuActionModel>,
    pub workflow: Option<MenuActionModel>,
    pub children: Option<Seq<MenuModel>>,
}

/// The response around one menu node.
#[derive(Debug)]
pub struct MenuResponse {
    pub menu: Option<Menu>,
}

/// The response around an assembled menu.
#[derive(Debug)]
pub struct MenuListResponse {
    pub menus: Option<Vec<Menu>>,
}

impl Default for MenuResponse {
    fn default() -> (r: Self)
        ensures
            r.menu is None,
    {
        MenuResponse { menu: Option::None }
    }
}

impl SortKey for MenuModel {
    open spec fn key(&self) -> int {
        match self.sequence {
            Option::Some(q) => q as int,
            Option::None => 0,
        }
    }
}

impl Menu {
    pub open spec fn model(self) -> MenuModel
        decreases self,
    {
        MenuModel {
            uuid: view_opt(self.uuid),
            internal_id: self.internal_id,
            id: view_opt(self.id),
            parent_id: self.parent_id,
            sequence: self.sequence,
            name: view_opt(self.name),
            description: view_opt(self.description),
            is_summary: self.is_summary,
            is_sales_transaction: self.is_sales_transaction,
            is_read_only: self.is_read_only,
            action: view_opt(self.action),
            action_id: self.action_id,
            action_uuid: view_opt(self.action_uuid),
            window: crate::dictionary::view_opt_menu_action(self.window),
            process: crate::dictionary::view_opt_menu_action(self.process),
            form: crate::dictionary::view_opt_menu_action(self.form),
            browser: crate::dictionary::view_opt_menu_action(self.browser),
            workflow: crate::dictionary::view_opt_menu_action(self.workflow),
            children: match self.children {
                Option::None => Option::None,
                Option::Some(v) => Option::Some(Menu::models_of_vec(v@)),
            },
        }
    }

    /// Models of a sequence of menu nodes, in order.
    pub open spec fn models_of_vec(s: Seq<Menu>) -> Seq<MenuModel>
        decreases s,
    {
        if s.len() == 0 {
            Seq::empty()
        } else {
            seq![s[0].model()] + Menu::models_of_vec(s.drop_first())
        }
    }

    /// A menu node with the documented defaults: root parent, zero
    /// sequence, not a summary, no action, and no children yet.
    pub open spec fn default_model() -> MenuModel {
        MenuModel {
            uuid: Option::None,
            internal_id: Option::None,
            id: Option::None,
            parent_id: Option::Some(0),
            sequence: Option::Some(0),
            name: Option::None,
            description: Option::None,
            is_summary: Option::Some(false),
            is_sales_transaction: Option::Some(false),
            is_read_only: Option::None,
            action: Option::None,
            action_id: Option::Some(0),
            action_uuid: Option::None,
            window: Option::None,
            process: Option::None,
            form: Option::None,
            browser: Option::None,
            workflow: Option::None,
            children: Option::Some(Seq::empty()),
        }
    }

    /// A menu node carrying only an id.
    pub fn from_id(id: Option<String>) -> (r: Menu)
        ensures
            r.model() == (MenuModel { id: view_opt(id), ..Menu::default_model() }),
    {
        let mut menu = Menu::default();
        menu.id = id;
        menu
    }

    /// The presentation data of a pool item carried over to a menu node;
    /// the item's own sequence and parent are kept, children start empty.
    pub open spec fn spec_from_menu_item(item: MenuItemModel) -> MenuModel {
        MenuModel {
            uuid: item.uuid,
            internal_id: item.internal_id,
            id: item.id,
            parent_id: item.parent_id,
            sequence: item.sequence,
            name: item.name,
            description: item.description,
            is_summary: item.is_summary,
            is_sales_transaction: item.is_sales_transaction,
            is_read_only: item.is_read_only,
            action: item.action,
            action_id: item.action_id,
            action_uuid: item.action_uuid,
            window: item.window,
            process: item.process,
            form: item.form,
            browser: item.browser,
            workflow: item.workflow,
            children: Option::Some(Seq::empty()),
        }
    }

    /// Builds a menu node from a pool item.
    pub fn from_menu_item(menu_item: MenuItem) -> (r: Menu)
        ensures
            r.model() == Menu::spec_from_menu_item(menu_item.model()),
    {
        Menu {
            uuid: menu_item.uuid,
            internal_id: menu_item.internal_id,
            id: menu_item.id,
            parent_id: menu_item.parent_id,
            sequence: menu_item.sequence,
            name: menu_item.name,
            description: menu_item.description,
            is_summary: menu_item.is_summary,
            is_sales_transaction: menu_item.is_sales_transaction,
            is_read_only: menu_item.is_read_only,
            action: menu_item.action,
            action_id: menu_item.action_id,
            action_uuid: menu_item.action_uuid,
            window: menu_item.window,
            process: menu_item.process,
            form: menu_item.form,
            browser: menu_item.browser,
            workflow: menu_item.workflow,
            children: Option::Some(Vec::new()),
        }
    }
}

impl Default for Menu {
    fn default() -> (r: Menu)
        ensures
            r.model() == Menu::default_model(),
    {
        Menu {
            uuid: Option::None,
            internal_id: Option::None,
            id: Option::None,
            parent_id: Option::Some(0),
            sequence: Option::Some(0),
            name: Option::None,
            description: Option::None,
            is_summary: Option::Some(false),
            is_sales_transaction: Option::Some(false),
            is_read_only: Option::None,
            action: Option::None,
            action_id: Option::Some(0),
            action_uuid: Option::None,
            window: Option::None,
            process: Option::None,
            form: Option::None,
            browser: Option::None,
            workflow: Option::None,
            children: Option::Some(Vec::new()),
        }
    }
}

/// The menu-node models index point-wise into the vector of nodes.
pub proof fn lemma_menu_models_of_vec(s: Seq<Menu>)
    ensures
        Menu::models_of_vec(s).len() == s.len(),
        forall|i: int| 0 <= i < s.len() ==> Menu::models_of_vec(s)[i] == #[trigger] s[i].model(),
    decreases s,
{
    if s.len() > 0 {
        lemma_menu_models_of_vec(s.drop_first());
        assert forall|i: int|
            0 <= i < s.len() implies Menu::models_of_vec(s)[i] == #[trigger] s[i].model() by {
            if i > 0 {
                assert(s.drop_first()[i - 1] == s[i]);
                assert(Menu::models_of_vec(s)[i] == Menu::models_of_vec(s.drop_first())[i - 1]);
            }
        }
    }
}

/// The models of a pool of menu items, point-wise.
pub open spec fn menu_item_models(s: Seq<MenuItem>) -> Seq<MenuItemModel> {
    Seq::new(s.len(), |i: int| s[i].model())
}

// --- the pool filter a role induces -----------------------------------------

/// Membership of an action UUID in one of the role's access lists.
pub open spec fn uuid_allowed(uuid: Option<Seq<char>>, access: Option<Seq<Seq<char>>>) -> bool {
    uuid is Some && access is Some && access->Some_0.contains(uuid->Some_0)
}

/// The filter the role's raw search body expresses: a pool item matches when
/// it is a summary node, or when its action kind is granted by the matching
/// access list (`W` window, `X` form, `S` smart browser, `P` and `R`
/// process/report, `F` workflow).
pub open spec fn item_matches_role(item: MenuItemModel, role: RoleModel) -> bool {
    ||| item.is_summary == Option::Some(true)
    ||| (item.action == Option::Some("W"@) && uuid_allowed(item.action_uuid, role.window_access))
    ||| (item.action == Option::Some("X"@) && uuid_allowed(item.action_uuid, role.form_access))
    ||| (item.action == Option::Some("S"@) && uuid_allowed(item.action_uuid, role.browser_access))
    ||| (item.action == Option::Some("P"@) && uuid_allowed(item.action_uuid, role.process_access))
    ||| (item.action == Option::Some("R"@) && uuid_allowed(item.action_uuid, role.process_access))
    ||| (item.action == Option::Some("F"@) && uuid_allowed(
        item.action_uuid,
        role.workflow_access,
    ))
}

/// The same filter on an assembled menu node.
pub open spec fn menu_matches_role(m: MenuModel, role: RoleModel) -> bool {
    ||| m.is_summary == Option::Some(true)
    ||| (m.action == Option::Some("W"@) && uuid_allowed(m.action_uuid, role.window_access))
    ||| (m.action == Option::Some("X"@) && uuid_allowed(m.action_uuid, role.form_access))
    ||| (m.action == Option::Some("S"@) && uuid_allowed(m.action_uuid, role.browser_access))
    ||| (m.action == Option::Some("P"@) && uuid_allowed(m.action_uuid, role.process_access))
    ||| (m.action == Option::Some("R"@) && uuid_allowed(m.action_uuid, role.process_access))
    ||| (m.action == Option::Some("F"@) && uuid_allowed(m.action_uuid, role.workflow_access))
}

// --- assembly on the models -------------------------------------------------

/// The first pool item whose `internal_id` is present and equals the node's
/// `node_id`.
pub open spec fn find_item(pool: Seq<MenuItemModel>, node_id: Option<i32>) -> Option<MenuItemModel>
    decreases pool,
{
    if pool.len() == 0 {
        Option::None
    } else if pool[0].internal_id is Some && pool[0].internal_id == node_id {
        Option::Some(pool[0])
    } else {
        find_item(pool.drop_first(), node_id)
    }
}

/// A node carries an action of its own when its `action_id` is positive.
pub open spec fn action_bearing(m: MenuModel) -> bool {
    m.action_id is Some && m.action_id->0 > 0
}

/// Some transitive descendant of the node carries an action.
pub open spec fn spec_has_action(m: MenuModel) -> bool
    decreases m, 1int,
{
    match m.children {
        Option::None => false,
        Option::Some(cs) => spec_any_action(cs),
    }
}

pub open spec fn spec_any_action(cs: Seq<MenuModel>) -> bool
    decreases cs, 0int,
{
    if cs.len() == 0 {
        false
    } else {
        action_bearing(cs[0]) || spec_has_action(cs[0]) || spec_any_action(cs.drop_first())
    }
}

/// One tree node joined with the pool: the first matching item supplies the
/// presentation data, the node supplies sequence and parent, the children
/// are assembled recursively and sorted, and a summary node without an
/// action-bearing descendant is dropped.
pub open spec fn spec_build(node: MenuTreeModel, pool: Seq<MenuItemModel>) -> Option<MenuModel>
    decreases node, 2int,
{
    match find_item(pool, node.node_id) {
        Option::None => Option::None,
        Option::Some(found) => {
            let item = MenuItemModel { sequence: node.sequence, ..found };
            let parent = match node.parent_id {
                Option::Some(p) => p,
                Option::None => 0,
            };
            let base = MenuModel {
                parent_id: Option::Some(parent),
                ..Menu::spec_from_menu_item(item)
            };
            let cur = match node.children {
                Option::None => base,
                Option::Some(cs) => MenuModel {
                    children: Option::Some(spec_sort(spec_load(cs, pool))),
                    ..base
                },
            };
            if cur.is_summary == Option::Some(true) && !spec_has_action(cur) {
                Option::None
            } else {
                Option::Some(cur)
            }
        },
    }
}

/// The nodes a subtree list contributes, in tree order, before sorting.
pub open spec fn spec_collect(nodes: Seq<MenuTreeModel>, pool: Seq<MenuItemModel>) -> Seq<MenuModel>
    decreases nodes, 1int,
{
    if nodes.len() == 0 {
        Seq::empty()
    } else {
        match spec_build(nodes[0], pool) {
            Option::None => spec_collect(nodes.drop_first(), pool),
            Option::Some(m) => seq![m] + spec_collect(nodes.drop_first(), pool),
        }
    }
}

/// The assembled children of a subtree list: contributed nodes, sorted by
/// sequence.
pub open spec fn spec_load(nodes: Seq<MenuTreeModel>, pool: Seq<MenuItemModel>) -> Seq<MenuModel>
    decreases nodes, 3int,
{
    spec_sort(spec_collect(nodes, pool))
}

// --- executable assembly ----------------------------------------------------

fn clone_opt_string(o: &Option<String>) -> (r: Option<String>)
    ensures
        view_opt(r) == view_opt(*o),
{
    match o {
        Option::None => Option::None,
        Option::Some(s) => Option::Some(s.clone()),
    }
}

fn clone_opt_action(o: &Option<MenuAction>) -> (r: Option<MenuAction>)
    ensures
        crate::dictionary::view_opt_menu_action(r) == crate::dictionary::view_opt_menu_action(*o),
{
    match o {
        Option::None => Option::None,
        Option::Some(a) => Option::Some(
            MenuAction {
                internal_id: a.internal_id,
                id: clone_opt_string(&a.id),
                uuid: clone_opt_string(&a.uuid),
                name: clone_opt_string(&a.name),
                description: clone_opt_string(&a.description),
                help: clone_opt_string(&a.help),
            },
        ),
    }
}

fn duplicate_menu_item(p: &MenuItem) -> (r: MenuItem)
    ensures
        r.model() == p.model(),
{
    MenuItem {
        uuid: clone_opt_string(&p.uuid),
        internal_id: p.internal_id,
        id: clone_opt_string(&p.id),
        parent_id: p.parent_id,
        sequence: p.sequence,
        name: clone_opt_string(&p.name),
        description: clone_opt_string(&p.description),
        is_summary: p.is_summary,
        is_sales_transaction: p.is_sales_transaction,
        is_read_only: p.is_read_only,
        index_value: clone_opt_string(&p.index_value),
        language: clone_opt_string(&p.language),
        client_id: clone_opt_string(&p.client_id),
        role_id: clone_opt_string(&p.role_id),
        user_id: clone_opt_string(&p.user_id),
        action: clone_opt_string(&p.action),
        action_id: p.action_id,
        action_uuid: clone_opt_string(&p.action_uuid),
        window: clone_opt_action(&p.window),
        process: clone_opt_action(&p.process),
        form: clone_opt_action(&p.form),
        browser: clone_opt_action(&p.browser),
        workflow: clone_opt_action(&p.workflow),
    }
}

/// The first pool index whose item matches the node id, if any.
#[verifier::loop_isolation(false)]
fn find_pool_index(pool: &Vec<MenuItem>, node_id: &Option<i32>) -> (r: Option<usize>)
    ensures
        match r {
            Option::Some(i) => i < pool@.len() && find_item(menu_item_models(pool@), *node_id)
                == Option::Some(pool@[i as int].model()),
            Option::None => find_item(menu_item_models(pool@), *node_id) is None,
        },
{
    let ghost pms = menu_item_models(pool@);
    let mut i: usize = 0;
    proof {
        assert(pms.subrange(0, pms.len() as int) =~= pms);
    }
    while i < pool.len()
        invariant
            0 <= i <= pool@.len(),
            find_item(pms, *node_id) == find_item(pms.subrange(i as int, pms.len() as int), *node_id),
        decreases pool@.len() - i,
    {
        let ghost rest = pms.subrange(i as int, pms.len() as int);
        proof {
            assert(rest[0] == pms[i as int]);
            assert(rest.drop_first() =~= pms.subrange(i + 1, pms.len() as int));
        }
        let matched = match (&pool[i].internal_id, node_id) {
            (Option::Some(a), Option::Some(b)) => *a == *b,
            _ => false,
        };
        if matched {
            proof {
                assert(rest[0].internal_id is Some && rest[0].internal_id == *node_id);
            }
            return Option::Some(i);
        }
        proof {
            assert(!(rest[0].internal_id is Some && rest[0].internal_id == *node_id));
        }
        i = i + 1;
    }
    proof {
        assert(pms.subrange(pms.len() as int, pms.len() as int) =~= Seq::<MenuItemModel>::empty());
    }
    Option::None
}

/// Whether any transitive descendant of the node carries an action.
#[verifier::loop_isolation(false)]
pub fn has_action_in_childrens(menu: &Menu) -> (r: bool)
    ensures
        r == spec_has_action(menu.model()),
    decreases *menu,
{
    match &menu.children {
        Option::None => false,
        Option::Some(children) => {
            let ghost cms = Menu::models_of_vec(children@);
            proof {
                lemma_menu_models_of_vec(children@);
                assert(cms.subrange(0, cms.len() as int) =~= cms);
            }
            let mut i: usize = 0;
            while i < children.len()
                invariant
                    0 <= i <= children@.len(),
                    spec_any_action(cms) == spec_any_action(
                        cms.subrange(i as int, cms.len() as int),
                    ),
                decreases children@.len() - i,
            {
                let ghost rest = cms.subrange(i as int, cms.len() as int);
                proof {
                    assert(rest[0] == cms[i as int]);
                    assert(rest.drop_first() =~= cms.subrange(i + 1, cms.len() as int));
                }
                let child = &children[i];
                proof {
                    assert(cms[i as int] == children@[i as int].model());
                }
                let bearing = match &child.action_id {
                    Option::Some(a) => *a > 0,
                    Option::None => false,
                };
                if bearing {
                    proof {
                        assert(action_bearing(rest[0]));
                        assert(spec_any_action(rest));
                    }
                    return true;
                }
                proof {
                    assert(decreases_to!(*menu => menu.children));
                    assert(decreases_to!(menu.children => *children));
                    assert(decreases_to!(*children => children@));
                    assert(decreases_to!(children@ => children@[i as int]));
                }
                if has_action_in_childrens(child) {
                    proof {
                        assert(spec_has_action(rest[0]));
                        assert(spec_any_action(rest));
                    }
                    return true;
                }
                i = i + 1;
            }
            proof {
                assert(cms.subrange(cms.len() as int, cms.len() as int) =~= Seq::<
                    MenuModel,
                >::empty());
            }
            false
        },
    }
}

/// Walks a list of tree nodes against the allowed pool and returns the
/// surviving menu nodes, sorted by sequence.
#[verifier::loop_isolation(false)]
pub fn load_valid_children(tree: &Vec<MenuTree>, allowed_menu_items: &Vec<MenuItem>) -> (r: Vec<
    Menu,
>)
    ensures
        Menu::models_of_vec(r@) == spec_load(
            MenuTree::models_of_vec(tree@),
            menu_item_models(allowed_menu_items@),
        ),
    decreases tree@,
{
    let ghost tms = MenuTree::models_of_vec(tree@);
    let ghost pms = menu_item_models(allowed_menu_items@);
    proof {
        crate::menu_tree::lemma_menu_tree_models_of_vec(tree@);
        assert(tms.subrange(0, tms.len() as int) =~= tms);
        assert(Menu::models_of_vec(Seq::<Menu>::empty()) + spec_collect(tms, pms) =~= spec_collect(
            tms,
            pms,
        ));
    }
    let mut menus: Vec<Menu> = Vec::new();
    let mut i: usize = 0;
    while i < tree.len()
        invariant
            0 <= i <= tree@.len(),
            spec_collect(tms, pms) == Menu::models_of_vec(menus@) + spec_collect(
                tms.subrange(i as int, tms.len() as int),
                pms,
            ),
        decreases tree@.len() - i,
    {
        let ghost prev = Menu::models_of_vec(menus@);
        let ghost rest = tms.subrange(i as int, tms.len() as int);
        proof {
            assert(rest[0] == tms[i as int]);
            assert(rest.drop_first() =~= tms.subrange(i + 1, tms.len() as int));
        }
        let tree_value = &tree[i];
        proof {
            assert(rest[0] == tree@[i as int].model());
        }
        let ghost node = rest[0];
        match find_pool_index(allowed_menu_items, &tree_value.node_id) {
            Option::None => {
                proof {
                    assert(node.node_id == tree_value.node_id);
                    assert(spec_build(node, pms) is None);
                }
            },
            Option::Some(idx) => {
                let ghost found = allowed_menu_items@[idx as int].model();
                proof {
                    assert(node.node_id == tree_value.node_id);
                    assert(find_item(pms, node.node_id) == Option::Some(found));
                }
                let mut allowed_item = duplicate_menu_item(&allowed_menu_items[idx]);
                allowed_item.sequence = tree_value.sequence;
                proof {
                    assert(allowed_item.model() == (MenuItemModel { sequence: node.sequence, ..found }));
                }
                let ghost itemm = allowed_item.model();
                let mut current_menu = Menu::from_menu_item(allowed_item);
                let parent_id: i32 = match &tree_value.parent_id {
                    Option::Some(value) => *value,
                    Option::None => 0,
                };
                current_menu.parent_id = Option::Some(parent_id);
                proof {
                    assert(parent_id == (match node.parent_id {
                        Option::Some(p) => p,
                        Option::None => 0,
                    }));
                    assert(current_menu.model() == (MenuModel {
                        parent_id: Option::Some(parent_id),
                        ..Menu::spec_from_menu_item(itemm)
                    }));
                }
                let ghost base = current_menu.model();
                match &tree_value.children {
                    Option::None => {
                        proof {
                            assert(node.children is None);
                        }
                    },
                    Option::Some(cs) => {
                        proof {
                            assert(decreases_to!(tree@ => tree@[i as int]));
                            assert(decreases_to!(tree@[i as int] => tree@[i as int].children));
                            assert(decreases_to!(tree@[i as int].children => *cs));
                            assert(decreases_to!(*cs => cs@));
                            assert(node.children == Option::Some(MenuTree::models_of_vec(cs@)));
                        }
                        let children_loaded = load_valid_children(cs, allowed_menu_items);
                        let children_sorted = sort_menus(children_loaded);
                        current_menu.children = Option::Some(children_sorted);
                        proof {
                            assert(Menu::models_of_vec(children_sorted@) == spec_sort(
                                spec_load(MenuTree::models_of_vec(cs@), pms),
                            ));
                            assert(current_menu.model() == (MenuModel {
                                children: Option::Some(
                                    spec_sort(spec_load(node.children->Some_0, pms)),
                                ),
                                ..base
                            }));
                        }
                    },
                }
                let ghost cur = current_menu.model();
                proof {
                    assert(spec_build(node, pms) == if cur.is_summary == Option::Some(true)
                        && !spec_has_action(cur) {
                        Option::<MenuModel>::None
                    } else {
                        Option::Some(cur)
                    });
                }
                let is_summary = match &current_menu.is_summary {
                    Option::Some(b) => *b,
                    Option::None => false,
                };
                let keep = if is_summary {
                    has_action_in_childrens(&current_menu)
                } else {
                    true
                };
                proof {
                    assert(keep <==> !(cur.is_summary == Option::Some(true) && !spec_has_action(
                        cur,
                    )));
                }
                if keep {
                    let ghost old_menus = menus@;
                    menus.push(current_menu);
                    proof {
                        lemma_menu_models_of_vec(menus@);
                        lemma_menu_models_of_vec(old_menus);
                        assert forall|j: int|
                            0 <= j < menus@.len() implies Menu::models_of_vec(menus@)[j] == (prev
                            + seq![cur])[j] by {
                            assert(Menu::models_of_vec(menus@)[j] == menus@[j].model());
                            if j < menus@.len() - 1 {
                                assert(old_menus[j] == menus@[j]);
                                assert(prev[j] == old_menus[j].model());
                            }
                        }
                        assert(Menu::models_of_vec(menus@) =~= prev + seq![cur]);
                        assert(prev + seq![cur] + spec_collect(
                            tms.subrange(i + 1, tms.len() as int),
                            pms,
                        ) =~= prev + (seq![cur] + spec_collect(
                            tms.subrange(i + 1, tms.len() as int),
                            pms,
                        )));
                    }
                } else {
                    proof {
                        assert(spec_build(node, pms) is None);
                        assert(spec_collect(rest, pms) == spec_collect(
                            tms.subrange(i + 1, tms.len() as int),
                            pms,
                        ));
                    }
                }
            },
        }
        i = i + 1;
    }
    proof {
        assert(tms.subrange(tms.len() as int, tms.len() as int) =~= Seq::<MenuTreeModel>::empty());
        assert(Menu::models_of_vec(menus@) =~= spec_collect(tms, pms));
    }
    sort_menus(menus)
}

/// Stable sort of menu nodes by `sequence`; the models come out exactly as
/// [`spec_sort`] orders them.
#[verifier::loop_isolation(false)]
pub fn sort_menus(v: Vec<Menu>) -> (r: Vec<Menu>)
    ensures
        Menu::models_of_vec(r@) == spec_sort(Menu::models_of_vec(v@)),
{
    let ghost orig = v@;
    let mut v = v;
    let mut out: Vec<Menu> = Vec::new();
    let mut i: usize = 0;
    let n = v.len();
    proof {
        lemma_menu_models_of_vec(orig);
        assert(Menu::models_of_vec(orig.subrange(0, 0)) =~= Seq::<MenuModel>::empty());
        assert(Menu::models_of_vec(out@) =~= Seq::<MenuModel>::empty());
    }
    while i < n
        invariant
            n == orig.len(),
            0 <= i <= n,
            v@ == orig.subrange(i as int, n as int),
            Menu::models_of_vec(out@) == spec_sort(Menu::models_of_vec(orig.subrange(0, i as int))),
        decreases n - i,
    {
        proof {
            lemma_sort_stable::<MenuModel>(Menu::models_of_vec(orig.subrange(0, i as int)), 0);
        }
        let x = v.remove(0);
        proof {
            assert(orig.subrange(i as int, n as int)[0] == orig[i as int]);
            assert(orig.subrange(i as int, n as int).drop_first() =~= orig.subrange(
                i + 1,
                n as int,
            ));
        }
        let xk: i64 = match &x.sequence {
            Option::Some(q) => *q as i64,
            Option::None => 0,
        };
        let mut pos: usize = 0;
        while pos < out.len() && menu_key(&out[pos]) <= xk
            invariant
                0 <= pos <= out@.len(),
                xk as int == x.model().key(),
                forall|j: int|
                    0 <= j < pos ==> #[trigger] Menu::models_of_vec(out@)[j].key()
                        <= x.model().key(),
            decreases out@.len() - pos,
        {
            proof {
                lemma_menu_models_of_vec(out@);
            }
            pos = pos + 1;
        }
        proof {
            lemma_menu_models_of_vec(out@);
            lemma_insert_sorted_at::<MenuModel>(Menu::models_of_vec(out@), x.model(), pos as int);
        }
        let ghost before = out@;
        out.insert(pos, x);
        proof {
            let bm = Menu::models_of_vec(before);
            lemma_menu_models_of_vec(out@);
            lemma_menu_models_of_vec(before);
            assert forall|j: int|
                0 <= j < out@.len() implies #[trigger] Menu::models_of_vec(out@)[j] == (bm.subrange(
                0,
                pos as int,
            ) + seq![x.model()] + bm.subrange(pos as int, bm.len() as int))[j] by {
                assert(Menu::models_of_vec(out@)[j] == out@[j].model());
                if j < pos {
                    assert(out@[j] == before[j]);
                    assert(bm[j] == before[j].model());
                } else if j == pos {
                    assert(out@[j] == x);
                } else {
                    assert(out@[j] == before[j - 1]);
                    assert(bm[j - 1] == before[j - 1].model());
                }
            }
            assert(Menu::models_of_vec(out@) =~= bm.subrange(0, pos as int) + seq![x.model()]
                + bm.subrange(pos as int, bm.len() as int));
            assert(Menu::models_of_vec(out@) == insert_sorted(
                spec_sort(Menu::models_of_vec(orig.subrange(0, i as int))),
                x.model(),
            ));
            lemma_menu_models_of_vec(orig.subrange(0, i + 1));
            lemma_menu_models_of_vec(orig.subrange(0, i as int));
            assert forall|j: int|
                0 <= j < i implies Menu::models_of_vec(orig.subrange(0, i + 1)).drop_last()[j]
                == Menu::models_of_vec(orig.subrange(0, i as int))[j] by {
                assert(Menu::models_of_vec(orig.subrange(0, i + 1))[j] == orig.subrange(
                    0,
                    i + 1,
                )[j].model());
                assert(Menu::models_of_vec(orig.subrange(0, i as int))[j] == orig.subrange(
                    0,
                    i as int,
                )[j].model());
            }
            assert(Menu::models_of_vec(orig.subrange(0, i + 1)).drop_last() =~= Menu::models_of_vec(
                orig.subrange(0, i as int),
            ));
            assert(Menu::models_of_vec(orig.subrange(0, i + 1)).last() == orig.subrange(
                0,
                i + 1,
            )[i as int].model());
            assert(orig.subrange(0, i + 1)[i as int] == orig[i as int]);
        }
        i = i + 1;
    }
    proof {
        assert(orig.subrange(0, n as int) =~= orig);
    }
    out
}

fn menu_key(t: &Menu) -> (k: i64)
    ensures
        k as int == t.model().key(),
{
    match &t.sequence {
        Option::Some(q) => *q as i64,
        Option::None => 0,
    }
}

/// Assembles the authorization-filtered menu for a role from the loaded
/// role record, the allowed pool and the role's menu tree.  The role must
/// name its tree; otherwise the corresponding validation error is returned.
pub fn allowed_menu(role: &Role, menu_items: Vec<MenuItem>, tree: &MenuTree) -> (r: Result<
    MenuListResponse,
    ServiceError,
>)
    ensures
        role.tree_id is None ==> (r matches Err(e) && e is Validation),
        role.tree_id is Some && role.tree_uuid is None ==> (r matches Err(e) && e is Validation),
        role.tree_id is Some && role.tree_uuid is Some ==> (r matches Ok(resp)
            && resp.menus matches Some(menus) && Menu::models_of_vec(menus@) == spec_load(
            match tree.model().children {
                Option::None => Seq::<MenuTreeModel>::empty(),
                Option::Some(cs) => cs,
            },
            menu_item_models(menu_items@),
        )),
{
    if role.tree_id.is_none() {
        return Result::Err(ServiceError::Validation("Tree ID not found".to_owned()));
    }
    if role.tree_uuid.is_none() {
        return Result::Err(ServiceError::Validation("Tree UUID not found".to_owned()));
    }
    let menus: Vec<Menu> = match &tree.children {
        Option::None => {
            let empty_tree: Vec<MenuTree> = Vec::new();
            let r = load_valid_children(&empty_tree, &menu_items);
            proof {
                assert(MenuTree::models_of_vec(empty_tree@) =~= Seq::<MenuTreeModel>::empty());
            }
            r
        },
        Option::Some(children) => load_valid_children(children, &menu_items),
    };
    Result::Ok(MenuListResponse { menus: Option::Some(menus) })
}

// --- the pruning guarantee --------------------------------------------------

/// Every node of a well-pruned menu is an allowed action leaf or a summary
/// with an action-bearing descendant, and its children are well-pruned in
/// turn.
pub open spec fn menu_node_ok(m: MenuModel, role: RoleModel) -> bool
    decreases m, 1int,
{
    &&& (m.is_summary != Option::Some(true) ==> menu_matches_role(m, role))
    &&& (m.is_summary == Option::Some(true) ==> spec_has_action(m))
    &&& match m.children {
        Option::None => true,
        Option::Some(cs) => all_nodes_ok(cs, role),
    }
}

pub open spec fn all_nodes_ok(cs: Seq<MenuModel>, role: RoleModel) -> bool
    decreases cs, 0int,
{
    if cs.len() == 0 {
        true
    } else {
        menu_node_ok(cs[0], role) && all_nodes_ok(cs.drop_first(), role)
    }
}

/// `all_nodes_ok` holds exactly when it holds of every element.
proof fn lemma_all_nodes_ok_pointwise(cs: Seq<MenuModel>, role: RoleModel)
    ensures
        all_nodes_ok(cs, role) <==> (forall|i: int|
            0 <= i < cs.len() ==> menu_node_ok(#[trigger] cs[i], role)),
    decreases cs,
{
    if cs.len() > 0 {
        lemma_all_nodes_ok_pointwise(cs.drop_first(), role);
        assert(forall|i: int| 0 <= i < cs.drop_first().len() ==> cs.drop_first()[i] == cs[i + 1]);
        if all_nodes_ok(cs, role) {
            assert forall|i: int| 0 <= i < cs.len() implies menu_node_ok(#[trigger] cs[i], role) by {
                if i > 0 {
                    assert(cs.drop_first()[i - 1] == cs[i]);
                    assert(menu_node_ok(cs.drop_first()[i - 1], role));
                }
            }
        }
        if forall|i: int| 0 <= i < cs.len() ==> menu_node_ok(#[trigger] cs[i], role) {
            assert(menu_node_ok(cs[0], role));
            assert forall|i: int|
                0 <= i < cs.drop_first().len() implies menu_node_ok(
                #[trigger] cs.drop_first()[i],
                role,
            ) by {
                assert(cs.drop_first()[i] == cs[i + 1]);
            }
        }
    }
}

/// A found pool item is a member of the pool.
proof fn lemma_find_item_membership(pool: Seq<MenuItemModel>, node_id: Option<i32>)
    ensures
        find_item(pool, node_id) matches Some(it) ==> pool.contains(it),
    decreases pool,
{
    if pool.len() > 0 {
        lemma_find_item_membership(pool.drop_first(), node_id);
        if !(pool[0].internal_id is Some && pool[0].internal_id == node_id) {
            match find_item(pool.drop_first(), node_id) {
                Option::Some(it) => {
                    let w = choose|w: int|
                        0 <= w < pool.drop_first().len() && pool.drop_first()[w] == it;
                    assert(pool[w + 1] == it);
                },
                Option::None => {
                },
            }
        }
    }
}

/// A permutation of a well-pruned list is well-pruned.
proof fn lemma_all_nodes_ok_permutation(a: Seq<MenuModel>, b: Seq<MenuModel>, role: RoleModel)
    requires
        a.to_multiset() == b.to_multiset(),
        all_nodes_ok(a, role),
    ensures
        all_nodes_ok(b, role),
{
    lemma_all_nodes_ok_pointwise(a, role);
    lemma_all_nodes_ok_pointwise(b, role);
    assert forall|i: int| 0 <= i < b.len() implies menu_node_ok(#[trigger] b[i], role) by {
        assert(b.to_multiset().count(b[i]) > 0);
        assert(a.to_multiset().count(b[i]) > 0);
        assert(a.contains(b[i]));
    }
}

/// The pruning guarantee for one built node.
proof fn lemma_build_ok(node: MenuTreeModel, pool: Seq<MenuItemModel>, role: RoleModel)
    requires
        forall|i: int| 0 <= i < pool.len() ==> item_matches_role(#[trigger] pool[i], role),
    ensures
        spec_build(node, pool) matches Some(m) ==> menu_node_ok(m, role),
    decreases node, 2int,
{
    match find_item(pool, node.node_id) {
        Option::None => {
        },
        Option::Some(found) => {
            lemma_find_item_membership(pool, node.node_id);
            assert(item_matches_role(found, role));
            match node.children {
                Option::None => {
                },
                Option::Some(cs) => {
                    lemma_menu_pruning(cs, pool, role);
                    lemma_sort_stable::<MenuModel>(spec_load(cs, pool), 0);
                    lemma_all_nodes_ok_permutation(
                        spec_load(cs, pool),
                        spec_sort(spec_load(cs, pool)),
                        role,
                    );
                },
            }
        },
    }
}

/// The pruning guarantee for the collected nodes of a subtree list.
proof fn lemma_collect_ok(nodes: Seq<MenuTreeModel>, pool: Seq<MenuItemModel>, role: RoleModel)
    requires
        forall|i: int| 0 <= i < pool.len() ==> item_matches_role(#[trigger] pool[i], role),
    ensures
        all_nodes_ok(spec_collect(nodes, pool), role),
    decreases nodes, 1int,
{
    if nodes.len() > 0 {
        lemma_build_ok(nodes[0], pool, role);
        lemma_collect_ok(nodes.drop_first(), pool, role);
        match spec_build(nodes[0], pool) {
            Option::None => {
            },
            Option::Some(m) => {
                let r = seq![m] + spec_collect(nodes.drop_first(), pool);
                assert(r[0] == m);
                assert(r.drop_first() =~= spec_collect(nodes.drop_first(), pool));
            },
        }
    }
}

/// The menu-pruning law: when every pool item passes the role's filter,
/// every node the assembly returns, at any depth, is either an allowed
/// action leaf or a summary node with an action-bearing descendant.
pub proof fn lemma_menu_pruning(
    nodes: Seq<MenuTreeModel>,
    pool: Seq<MenuItemModel>,
    role: RoleModel,
)
    requires
        forall|i: int| 0 <= i < pool.len() ==> item_matches_role(#[trigger] pool[i], role),
    ensures
        all_nodes_ok(spec_load(nodes, pool), role),
    decreases nodes, 2int,
{
    lemma_collect_ok(nodes, pool, role);
    lemma_sort_stable::<MenuModel>(spec_collect(nodes, pool), 0);
    lemma_all_nodes_ok_permutation(
        spec_collect(nodes, pool),
        spec_sort(spec_collect(nodes, pool)),
        role,
    );
}

} // verus!
