//! Executable stable sorts for the records that query responses present in
//! `sequence` order, and for tab processes presented in name order.

use vstd::prelude::*;
use crate::browser::BrowserField;
use crate::browser::BrowserFieldModel;
use crate::menu_tree::MenuTree;
use crate::menu_tree::MenuTreeModel;
use crate::process::ProcessParameters;
use crate::process::ProcessParametersModel;
use crate::sort::insert_sorted;
use crate::sort::insert_sorted_name;
use crate::sort::lemma_insert_sorted_at;
use crate::sort::lemma_insert_sorted_name_at;
use crate::sort::lemma_sort_by_name_props;
use crate::sort::lemma_sort_stable;
use crate::sort::sorted_by_key;
use crate::sort::sorted_by_name;
use crate::sort::spec_sort;
use crate::sort::spec_sort_by_name;
use crate::sort::NameKey;
use crate::sort::SortKey;
use crate::text::lex_leq;
use crate::window::WindowField;
use crate::window::WindowFieldModel;
use crate::window::WindowProcess;
use crate::window::WindowProcessModel;
use crate::window::WindowTab;
use crate::window::WindowTabModel;

verus! {

impl SortKey for WindowTabModel {
    open spec fn key(&self) -> int {
        match self.sequence {
            Option::Some(q) => q as int,
            Option::None => 0,
        }
    }
}

/// The models of a vector of window tab records, point-wise.
pub open spec fn window_tab_models(s: Seq<WindowTab>) -> Seq<WindowTabModel> {
    Seq::new(s.len(), |i: int| s[i].model())
}

fn window_tab_key(t: &WindowTab) -> (k: i64)
    ensures
        k as int == t.model().key(),
{
    match &t.sequence {
        Option::Some(q) => *q as i64,
        Option::None => 0,
    }
}

/// Stable sort of window tab records by `sequence`; the models come
/// out exactly as [`spec_sort`] orders them.
pub fn sort_window_tabs(v: Vec<WindowTab>) -> (r: Vec<WindowTab>)
    ensures
        window_tab_models(r@) == spec_sort(window_tab_models(v@)),
{
    let ghost orig = v@;
    let mut v = v;
    let mut out: Vec<WindowTab> = Vec::new();
    let mut i: usize = 0;
    let n = v.len();
    proof {
        assert(window_tab_models(orig.subrange(0, 0)) =~= Seq::<WindowTabModel>::empty());
        assert(window_tab_models(out@) =~= Seq::<WindowTabModel>::empty());
    }
    while i < n
        invariant
            n == orig.len(),
            0 <= i <= n,
            v@ == orig.subrange(i as int, n as int),
            window_tab_models(out@) == spec_sort(window_tab_models(orig.subrange(0, i as int))),
        decreases n - i,
    {
        proof {
            lemma_sort_stable::<WindowTabModel>(window_tab_models(orig.subrange(0, i as int)), 0);
        }
        let x = v.remove(0);
        proof {
            assert(orig.subrange(i as int, n as int)[0] == orig[i as int]);
            assert(orig.subrange(i as int, n as int).drop_first() =~= orig.subrange(
                i + 1,
                n as int,
            ));
        }
        let xk = window_tab_key(&x);
        let mut pos: usize = 0;
        while pos < out.len() && window_tab_key(&out[pos]) <= xk
            invariant
                0 <= pos <= out@.len(),
                xk as int == x.model().key(),
                sorted_by_key(window_tab_models(out@)),
                forall|j: int| 0 <= j < pos ==> #[trigger] window_tab_models(out@)[j].key() <= x.model().key(),
            decreases out@.len() - pos,
        {
            pos = pos + 1;
        }
        proof {
            lemma_insert_sorted_at::<WindowTabModel>(window_tab_models(out@), x.model(), pos as int);
        }
        let ghost before = out@;
        out.insert(pos, x);
        proof {
            let bm = window_tab_models(before);
            assert forall|j: int| 0 <= j < out@.len() implies #[trigger] window_tab_models(out@)[j] == (
            bm.subrange(0, pos as int) + seq![x.model()] + bm.subrange(
                pos as int,
                bm.len() as int,
            ))[j] by {
                if j < pos {
                    assert(out@[j] == before[j]);
                } else if j == pos {
                    assert(out@[j] == x);
                } else {
                    assert(out@[j] == before[j - 1]);
                }
            }
            assert(window_tab_models(out@) =~= bm.subrange(0, pos as int) + seq![x.model()]
                + bm.subrange(pos as int, bm.len() as int));
            assert(window_tab_models(out@) == insert_sorted(
                spec_sort(window_tab_models(orig.subrange(0, i as int))),
                x.model(),
            ));
            assert(window_tab_models(orig.subrange(0, i + 1)).drop_last() =~= window_tab_models(
                orig.subrange(0, i as int),
            ));
            assert(window_tab_models(orig.subrange(0, i + 1)).last() == orig[i as int].model());
        }
        i = i + 1;
    }
    proof {
        assert(orig.subrange(0, n as int) =~= orig);
    }
    out
}

impl SortKey for WindowFieldModel {
    open spec fn key(&self) -> int {
        match self.sequence {
            Option::Some(q) => q as int,
            Option::None => 0,
        }
    }
}

/// The models of a vector of window field records, point-wise.
pub open spec fn window_field_models(s: Seq<WindowField>) -> Seq<WindowFieldModel> {
    Seq::new(s.len(), |i: int| s[i].model())
}

fn window_field_key(t: &WindowField) -> (k: i64)
    ensures
        k as int == t.model().key(),
{
    match &t.sequence {
        Option::Some(q) => *q as i64,
        Option::None => 0,
    }
}

/// Stable sort of window field records by `sequence`; the models come
/// out exactly as [`spec_sort`] orders them.
pub fn sort_window_fields(v: Vec<WindowField>) -> (r: Vec<WindowField>)
    ensures
        window_field_models(r@) == spec_sort(window_field_models(v@)),
{
    let ghost orig = v@;
    let mut v = v;
    let mut out: Vec<WindowField> = Vec::new();
    let mut i: usize = 0;
    let n = v.len();
    proof {
        assert(window_field_models(orig.subrange(0, 0)) =~= Seq::<WindowFieldModel>::empty());
        assert(window_field_models(out@) =~= Seq::<WindowFieldModel>::empty());
    }
    while i < n
        invariant
            n == orig.len(),
            0 <= i <= n,
            v@ == orig.subrange(i as int, n as int),
            window_field_models(out@) == spec_sort(window_field_models(orig.subrange(0, i as int))),
        decreases n - i,
    {
        proof {
            lemma_sort_stable::<WindowFieldModel>(window_field_models(orig.subrange(0, i as int)), 0);
        }
        let x = v.remove(0);
        proof {
            assert(orig.subrange(i as int, n as int)[0] == orig[i as int]);
            assert(orig.subrange(i as int, n as int).drop_first() =~= orig.subrange(
                i + 1,
                n as int,
            ));
        }
        let xk = window_field_key(&x);
        let mut pos: usize = 0;
        while pos < out.len() && window_field_key(&out[pos]) <= xk
            invariant
                0 <= pos <= out@.len(),
                xk as int == x.model().key(),
                sorted_by_key(window_field_models(out@)),
                forall|j: int| 0 <= j < pos ==> #[trigger] window_field_models(out@)[j].key() <= x.model().key(),
            decreases out@.len() - pos,
        {
            pos = pos + 1;
        }
        proof {
            lemma_insert_sorted_at::<WindowFieldModel>(window_field_models(out@), x.model(), pos as int);
        }
        let ghost before = out@;
        out.insert(pos, x);
        proof {
            let bm = window_field_models(before);
            assert forall|j: int| 0 <= j < out@.len() implies #[trigger] window_field_models(out@)[j] == (
            bm.subrange(0, pos as int) + seq![x.model()] + bm.subrange(
                pos as int,
                bm.len() as int,
            ))[j] by {
                if j < pos {
                    assert(out@[j] == before[j]);
                } else if j == pos {
                    assert(out@[j] == x);
                } else {
                    assert(out@[j] == before[j - 1]);
                }
            }
            assert(window_field_models(out@) =~= bm.subrange(0, pos as int) + seq![x.model()]
                + bm.subrange(pos as int, bm.len() as int));
            assert(window_field_models(out@) == insert_sorted(
                spec_sort(window_field_models(orig.subrange(0, i as int))),
                x.model(),
            ));
            assert(window_field_models(orig.subrange(0, i + 1)).drop_last() =~= window_field_models(
                orig.subrange(0, i as int),
            ));
            assert(window_field_models(orig.subrange(0, i + 1)).last() == orig[i as int].model());
        }
        i = i + 1;
    }
    proof {
        assert(orig.subrange(0, n as int) =~= orig);
    }
    out
}

impl SortKey for BrowserFieldModel {
    open spec fn key(&self) -> int {
        match self.sequence {
            Option::Some(q) => q as int,
            Option::None => 0,
        }
    }
}

/// The models of a vector of browser field records, point-wise.
pub open spec fn browser_field_models(s: Seq<BrowserField>) -> Seq<BrowserFieldModel> {
    Seq::new(s.len(), |i: int| s[i].model())
}

fn browser_field_key(t: &BrowserField) -> (k: i64)
    ensures
        k as int == t.model().key(),
{
    match &t.sequence {
        Option::Some(q) => *q as i64,
        Option::None => 0,
    }
}

/// Stable sort of browser field records by `sequence`; the models come
/// out exactly as [`spec_sort`] orders them.
pub fn sort_browser_fields(v: Vec<BrowserField>) -> (r: Vec<BrowserField>)
    ensures
        browser_field_models(r@) == spec_sort(browser_field_models(v@)),
{
    let ghost orig = v@;
    let mut v = v;
    let mut out: Vec<BrowserField> = Vec::new();
    let mut i: usize = 0;
    let n = v.len();
    proof {
        assert(browser_field_models(orig.subrange(0, 0)) =~= Seq::<BrowserFieldModel>::empty());
        assert(browser_field_models(out@) =~= Seq::<BrowserFieldModel>::empty());
    }
    while i < n
        invariant
            n == orig.len(),
            0 <= i <= n,
            v@ == orig.subrange(i as int, n as int),
            browser_field_models(out@) == spec_sort(browser_field_models(orig.subrange(0, i as int))),
        decreases n - i,
    {
        proof {
            lemma_sort_stable::<BrowserFieldModel>(browser_field_models(orig.subrange(0, i as int)), 0);
        }
        let x = v.remove(0);
        proof {
            assert(orig.subrange(i as int, n as int)[0] == orig[i as int]);
            assert(orig.subrange(i as int, n as int).drop_first() =~= orig.subrange(
                i + 1,
                n as int,
            ));
        }
        let xk = browser_field_key(&x);
        let mut pos: usize = 0;
        while pos < out.len() && browser_field_key(&out[pos]) <= xk
            invariant
                0 <= pos <= out@.len(),
                xk as int == x.model().key(),
                sorted_by_key(browser_field_models(out@)),
                forall|j: int| 0 <= j < pos ==> #[trigger] browser_field_models(out@)[j].key() <= x.model().key(),
            decreases out@.len() - pos,
        {
            pos = pos + 1;
        }
        proof {
            lemma_insert_sorted_at::<BrowserFieldModel>(browser_field_models(out@), x.model(), pos as int);
        }
        let ghost before = out@;
        out.insert(pos, x);
        proof {
            let bm = browser_field_models(before);
            assert forall|j: int| 0 <= j < out@.len() implies #[trigger] browser_field_models(out@)[j] == (
            bm.subrange(0, pos as int) + seq![x.model()] + bm.subrange(
                pos as int,
                bm.len() as int,
            ))[j] by {
                if j < pos {
                    assert(out@[j] == before[j]);
                } else if j == pos {
                    assert(out@[j] == x);
                } else {
                    assert(out@[j] == before[j - 1]);
                }
            }
            assert(browser_field_models(out@) =~= bm.subrange(0, pos as int) + seq![x.model()]
                + bm.subrange(pos as int, bm.len() as int));
            assert(browser_field_models(out@) == insert_sorted(
                spec_sort(browser_field_models(orig.subrange(0, i as int))),
                x.model(),
            ));
            assert(browser_field_models(orig.subrange(0, i + 1)).drop_last() =~= browser_field_models(
                orig.subrange(0, i as int),
            ));
            assert(browser_field_models(orig.subrange(0, i + 1)).last() == orig[i as int].model());
        }
        i = i + 1;
    }
    proof {
        assert(orig.subrange(0, n as int) =~= orig);
    }
    out
}

impl SortKey for ProcessParametersModel {
    open spec fn key(&self) -> int {
        match self.sequence {
            Option::Some(q) => q as int,
            Option::None => 0,
        }
    }
}

/// The models of a vector of process parameters records, point-wise.
pub open spec fn process_parameters_models(s: Seq<ProcessParameters>) -> Seq<ProcessParametersModel> {
    Seq::new(s.len(), |i: int| s[i].model())
}

fn process_parameters_key(t: &ProcessParameters) -> (k: i64)
    ensures
        k as int == t.model().key(),
{
    match &t.sequence {
        Option::Some(q) => *q as i64,
        Option::None => 0,
    }
}

/// Stable sort of process parameters records by `sequence`; the models come
/// out exactly as [`spec_sort`] orders them.
pub fn sort_process_parameters_list(v: Vec<ProcessParameters>) -> (r: Vec<ProcessParameters>)
    ensures
        process_parameters_models(r@) == spec_sort(process_parameters_models(v@)),
{
    let ghost orig = v@;
    let mut v = v;
    let mut out: Vec<ProcessParameters> = Vec::new();
    let mut i: usize = 0;
    let n = v.len();
    proof {
        assert(process_parameters_models(orig.subrange(0, 0)) =~= Seq::<ProcessParametersModel>::empty());
        assert(process_parameters_models(out@) =~= Seq::<ProcessParametersModel>::empty());
    }
    while i < n
        invariant
            n == orig.len(),
            0 <= i <= n,
            v@ == orig.subrange(i as int, n as int),
            process_parameters_models(out@) == spec_sort(process_parameters_models(orig.subrange(0, i as int))),
        decreases n - i,
    {
        proof {
            lemma_sort_stable::<ProcessParametersModel>(process_parameters_models(orig.subrange(0, i as int)), 0);
        }
        let x = v.remove(0);
        proof {
            assert(orig.subrange(i as int, n as int)[0] == orig[i as int]);
            assert(orig.subrange(i as int, n as int).drop_first() =~= orig.subrange(
                i + 1,
                n as int,
            ));
        }
        let xk = process_parameters_key(&x);
        let mut pos: usize = 0;
        while pos < out.len() && process_parameters_key(&out[pos]) <= xk
            invariant
                0 <= pos <= out@.len(),
                xk as int == x.model().key(),
                sorted_by_key(process_parameters_models(out@)),
                forall|j: int| 0 <= j < pos ==> #[trigger] process_parameters_models(out@)[j].key() <= x.model().key(),
            decreases out@.len() - pos,
        {
            pos = pos + 1;
        }
        proof {
            lemma_insert_sorted_at::<ProcessParametersModel>(process_parameters_models(out@), x.model(), pos as int);
        }
        let ghost before = out@;
        out.insert(pos, x);
        proof {
            let bm = process_parameters_models(before);
            assert forall|j: int| 0 <= j < out@.len() implies #[trigger] process_parameters_models(out@)[j] == (
            bm.subrange(0, pos as int) + seq![x.model()] + bm.subrange(
                pos as int,
                bm.len() as int,
            ))[j] by {
                if j < pos {
                    assert(out@[j] == before[j]);
                } else if j == pos {
                    assert(out@[j] == x);
                } else {
                    assert(out@[j] == before[j - 1]);
                }
            }
            assert(process_parameters_models(out@) =~= bm.subrange(0, pos as int) + seq![x.model()]
                + bm.subrange(pos as int, bm.len() as int));
            assert(process_parameters_models(out@) == insert_sorted(
                spec_sort(process_parameters_models(orig.subrange(0, i as int))),
                x.model(),
            ));
            assert(process_parameters_models(orig.subrange(0, i + 1)).drop_last() =~= process_parameters_models(
                orig.subrange(0, i as int),
            ));
            assert(process_parameters_models(orig.subrange(0, i + 1)).last() == orig[i as int].model());
        }
        i = i + 1;
    }
    proof {
        assert(orig.subrange(0, n as int) =~= orig);
    }
    out
}

impl SortKey for MenuTreeModel {
    open spec fn key(&self) -> int {
        match self.sequence {
            Option::Some(q) => q as int,
            Option::None => 0,
        }
    }
}

/// The models of a vector of menu tree records, point-wise.
pub open spec fn menu_tree_models(s: Seq<MenuTree>) -> Seq<MenuTreeModel> {
    Seq::new(s.len(), |i: int| s[i].model())
}

fn menu_tree_key(t: &MenuTree) -> (k: i64)
    ensures
        k as int == t.model().key(),
{
    match &t.sequence {
        Option::Some(q) => *q as i64,
        Option::None => 0,
    }
}

/// Stable sort of menu tree records by `sequence`; the models come
/// out exactly as [`spec_sort`] orders them.
pub fn sort_menu_trees(v: Vec<MenuTree>) -> (r: Vec<MenuTree>)
    ensures
        menu_tree_models(r@) == spec_sort(menu_tree_models(v@)),
{
    let ghost orig = v@;
    let mut v = v;
    let mut out: Vec<MenuTree> = Vec::new();
    let mut i: usize = 0;
    let n = v.len();
    proof {
        assert(menu_tree_models(orig.subrange(0, 0)) =~= Seq::<MenuTreeModel>::empty());
        assert(menu_tree_models(out@) =~= Seq::<MenuTreeModel>::empty());
    }
    while i < n
        invariant
            n == orig.len(),
            0 <= i <= n,
            v@ == orig.subrange(i as int, n as int),
            menu_tree_models(out@) == spec_sort(menu_tree_models(orig.subrange(0, i as int))),
        decreases n - i,
    {
        proof {
            lemma_sort_stable::<MenuTreeModel>(menu_tree_models(orig.subrange(0, i as int)), 0);
        }
        let x = v.remove(0);
        proof {
            assert(orig.subrange(i as int, n as int)[0] == orig[i as int]);
            assert(orig.subrange(i as int, n as int).drop_first() =~= orig.subrange(
                i + 1,
                n as int,
            ));
        }
        let xk = menu_tree_key(&x);
        let mut pos: usize = 0;
        while pos < out.len() && menu_tree_key(&out[pos]) <= xk
            invariant
                0 <= pos <= out@.len(),
                xk as int == x.model().key(),
                sorted_by_key(menu_tree_models(out@)),
                forall|j: int| 0 <= j < pos ==> #[trigger] menu_tree_models(out@)[j].key() <= x.model().key(),
            decreases out@.len() - pos,
        {
            pos = pos + 1;
        }
        proof {
            lemma_insert_sorted_at::<MenuTreeModel>(menu_tree_models(out@), x.model(), pos as int);
        }
        let ghost before = out@;
        out.insert(pos, x);
        proof {
            let bm = menu_tree_models(before);
            assert forall|j: int| 0 <= j < out@.len() implies #[trigger] menu_tree_models(out@)[j] == (
            bm.subrange(0, pos as int) + seq![x.model()] + bm.subrange(
                pos as int,
                bm.len() as int,
            ))[j] by {
                if j < pos {
                    assert(out@[j] == before[j]);
                } else if j == pos {
                    assert(out@[j] == x);
                } else {
                    assert(out@[j] == before[j - 1]);
                }
            }
            assert(menu_tree_models(out@) =~= bm.subrange(0, pos as int) + seq![x.model()]
                + bm.subrange(pos as int, bm.len() as int));
            assert(menu_tree_models(out@) == insert_sorted(
                spec_sort(menu_tree_models(orig.subrange(0, i as int))),
                x.model(),
            ));
            assert(menu_tree_models(orig.subrange(0, i + 1)).drop_last() =~= menu_tree_models(
                orig.subrange(0, i as int),
            ));
            assert(menu_tree_models(orig.subrange(0, i + 1)).last() == orig[i as int].model());
        }
        i = i + 1;
    }
    proof {
        assert(orig.subrange(0, n as int) =~= orig);
    }
    out
}

impl NameKey for WindowProcessModel {
    open spec fn name_key(&self) -> Seq<char> {
        match self.name {
            Option::Some(s) => s,
            Option::None => Seq::empty(),
        }
    }
}

/// The models of a vector of window process records, point-wise.
pub open spec fn window_process_models(s: Seq<WindowProcess>) -> Seq<WindowProcessModel> {
    Seq::new(s.len(), |i: int| s[i].model())
}

fn window_process_name_key(t: &WindowProcess) -> (k: String)
    ensures
        k@ == t.model().name_key(),
{
    match &t.name {
        Option::Some(s) => s.clone(),
        Option::None => String::new(),
    }
}

/// Stable sort of window process records by name; the models come out
/// exactly as [`spec_sort_by_name`] orders them.
pub fn sort_window_processes_by_name(v: Vec<WindowProcess>) -> (r: Vec<WindowProcess>)
    ensures
        window_process_models(r@) == spec_sort_by_name(window_process_models(v@)),
{
    let ghost orig = v@;
    let mut v = v;
    let mut out: Vec<WindowProcess> = Vec::new();
    let mut i: usize = 0;
    let n = v.len();
    proof {
        assert(window_process_models(orig.subrange(0, 0)) =~= Seq::<WindowProcessModel>::empty());
        assert(window_process_models(out@) =~= Seq::<WindowProcessModel>::empty());
    }
    while i < n
        invariant
            n == orig.len(),
            0 <= i <= n,
            v@ == orig.subrange(i as int, n as int),
            window_process_models(out@) == spec_sort_by_name(window_process_models(orig.subrange(0, i as int))),
        decreases n - i,
    {
        proof {
            lemma_sort_by_name_props::<WindowProcessModel>(window_process_models(orig.subrange(0, i as int)));
        }
        let x = v.remove(0);
        proof {
            assert(orig.subrange(i as int, n as int)[0] == orig[i as int]);
            assert(orig.subrange(i as int, n as int).drop_first() =~= orig.subrange(
                i + 1,
                n as int,
            ));
        }
        let xk = window_process_name_key(&x);
        let mut pos: usize = 0;
        while pos < out.len() && crate::text::str_leq(&window_process_name_key(&out[pos]), &xk)
            invariant
                0 <= pos <= out@.len(),
                xk@ == x.model().name_key(),
                sorted_by_name(window_process_models(out@)),
                forall|j: int|
                    0 <= j < pos ==> lex_leq(
                        #[trigger] window_process_models(out@)[j].name_key(),
                        x.model().name_key(),
                    ),
            decreases out@.len() - pos,
        {
            pos = pos + 1;
        }
        proof {
            lemma_insert_sorted_name_at::<WindowProcessModel>(window_process_models(out@), x.model(), pos as int);
        }
        let ghost before = out@;
        out.insert(pos, x);
        proof {
            let bm = window_process_models(before);
            assert forall|j: int| 0 <= j < out@.len() implies #[trigger] window_process_models(out@)[j] == (
            bm.subrange(0, pos as int) + seq![x.model()] + bm.subrange(
                pos as int,
                bm.len() as int,
            ))[j] by {
                if j < pos {
                    assert(out@[j] == before[j]);
                } else if j == pos {
                    assert(out@[j] == x);
                } else {
                    assert(out@[j] == before[j - 1]);
                }
            }
            assert(window_process_models(out@) =~= bm.subrange(0, pos as int) + seq![x.model()]
                + bm.subrange(pos as int, bm.len() as int));
            assert(window_process_models(out@) == insert_sorted_name(
                spec_sort_by_name(window_process_models(orig.subrange(0, i as int))),
                x.model(),
            ));
            assert(window_process_models(orig.subrange(0, i + 1)).drop_last() =~= window_process_models(
                orig.subrange(0, i as int),
            ));
            assert(window_process_models(orig.subrange(0, i + 1)).last() == orig[i as int].model());
        }
        i = i + 1;
    }
    proof {
        assert(orig.subrange(0, n as int) =~= orig);
    }
    out
}

} // verus!
