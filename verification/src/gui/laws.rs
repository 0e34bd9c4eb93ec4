//! What the first pass of layout computes, said without the map of sizes.
//!
//! The pass records the least size of every widget in a map under the
//! identifier of the widget, and a widget reads the sizes of its children
//! from that map. Where no two widgets of the tree share an identifier, the
//! size that the pass records for a widget is the size that follows from the
//! widget and its children alone, and the rectangle that the second pass
//! records for a widget is the one that the widget chose for itself.

use crate::geom::{Rect, Vec2};
use crate::gui::gui::{
    children_min_size, children_rects_after, children_sizes_after, flex_at, flow_of, flow_step,
    node_min_size, rects_after, single_rects, sizes_after, spec_axis, spec_flex_list, tab_target,
    Axis, Flow, Theme,
};
use crate::gui::widgets::{AnyWidget, Widget};
use vstd::prelude::*;

verus! {

/// The identifiers of the widgets of the tree below `w`.
pub open spec fn tree_ids(w: AnyWidget) -> Set<usize>
    decreases w, 0nat,
{
    let id = w.spec_id().raw;
    match w {
        AnyWidget::Col(c) => seq_ids(c.children@, c.children@.len()).insert(id),
        AnyWidget::Row(c) => seq_ids(c.children@, c.children@.len()).insert(id),
        AnyWidget::Overlap(c) => seq_ids(c.children@, c.children@.len()).insert(id),
        AnyWidget::NoFill(c) => tree_ids(*c.child).insert(id),
        AnyWidget::Inset(c) => tree_ids(*c.child).insert(id),
        AnyWidget::Fill(c) => tree_ids(*c.child).insert(id),
        _ => set![id],
    }
}

/// The identifiers of the widgets of the trees below the first `k` children.
pub open spec fn seq_ids(children: Seq<AnyWidget>, k: nat) -> Set<usize>
    decreases children, k,
{
    if k == 0 || k > children.len() {
        Set::empty()
    } else {
        seq_ids(children, (k - 1) as nat).union(tree_ids(children[k - 1]))
    }
}

/// Whether no two widgets of the tree below `w` share an identifier.
pub open spec fn distinct_ids(w: AnyWidget) -> bool
    decreases w, 0nat,
{
    let id = w.spec_id().raw;
    match w {
        AnyWidget::Col(c) => !seq_ids(c.children@, c.children@.len()).contains(id)
            && seq_distinct(c.children@, c.children@.len()),
        AnyWidget::Row(c) => !seq_ids(c.children@, c.children@.len()).contains(id)
            && seq_distinct(c.children@, c.children@.len()),
        AnyWidget::Overlap(c) => !seq_ids(c.children@, c.children@.len()).contains(id)
            && seq_distinct(c.children@, c.children@.len()),
        AnyWidget::NoFill(c) => !tree_ids(*c.child).contains(id) && distinct_ids(*c.child),
        AnyWidget::Inset(c) => !tree_ids(*c.child).contains(id) && distinct_ids(*c.child),
        AnyWidget::Fill(c) => !tree_ids(*c.child).contains(id) && distinct_ids(*c.child),
        _ => true,
    }
}

/// Whether no two widgets of the trees below the first `k` children share an
/// identifier.
pub open spec fn seq_distinct(children: Seq<AnyWidget>, k: nat) -> bool
    decreases children, k,
{
    if k == 0 || k > children.len() {
        true
    } else {
        &&& seq_distinct(children, (k - 1) as nat)
        &&& distinct_ids(children[k - 1])
        &&& seq_ids(children, (k - 1) as nat).disjoint(tree_ids(children[k - 1]))
    }
}

/// The least size that the widget needs: what `node_min_size` gives where
/// each child has the least size that it needs.
pub open spec fn direct_size(w: AnyWidget, theme: Theme, metrics: Map<usize, Seq<i32>>) -> Option<
    Vec2,
>
    decreases w, 0nat,
{
    let below = match w {
        AnyWidget::Col(c) => direct_sizes(c.children@, c.children@.len(), theme, metrics),
        AnyWidget::Row(c) => direct_sizes(c.children@, c.children@.len(), theme, metrics),
        AnyWidget::Overlap(c) => direct_sizes(c.children@, c.children@.len(), theme, metrics),
        AnyWidget::NoFill(c) => single_direct_size(*c.child, direct_size(*c.child, theme, metrics)),
        AnyWidget::Inset(c) => single_direct_size(*c.child, direct_size(*c.child, theme, metrics)),
        AnyWidget::Fill(c) => single_direct_size(*c.child, direct_size(*c.child, theme, metrics)),
        _ => Some(Map::empty()),
    };
    match below {
        None => None,
        Some(sizes) => node_min_size(w, theme, metrics, sizes),
    }
}

/// The least size of one child, under its identifier.
pub open spec fn single_direct_size(child: AnyWidget, size: Option<Vec2>) -> Option<
    Map<usize, Vec2>,
> {
    match size {
        None => None,
        Some(size) => Some(Map::empty().insert(child.spec_id().raw, size)),
    }
}

/// The least sizes of the first `k` children, each under the identifier of
/// the child.
pub open spec fn direct_sizes(
    children: Seq<AnyWidget>,
    k: nat,
    theme: Theme,
    metrics: Map<usize, Seq<i32>>,
) -> Option<Map<usize, Vec2>>
    decreases children, k,
{
    if k == 0 || k > children.len() {
        Some(Map::empty())
    } else {
        match direct_sizes(children, (k - 1) as nat, theme, metrics) {
            None => None,
            Some(before) => match direct_size(children[k - 1], theme, metrics) {
                None => None,
                Some(size) => Some(before.insert(children[k - 1].spec_id().raw, size)),
            },
        }
    }
}

/// Whether the two maps hold the same under `key`.
pub open spec fn same_at(a: Map<usize, Vec2>, b: Map<usize, Vec2>, key: usize) -> bool {
    a.contains_key(key) == b.contains_key(key) && (a.contains_key(key) ==> a[key] == b[key])
}

/// The identifier of a widget is among the identifiers of its tree.
pub proof fn lemma_root_in_tree_ids(w: AnyWidget)
    ensures
        tree_ids(w).contains(w.spec_id().raw),
{
}

/// The identifiers below one of the first `k` children are among the
/// identifiers below the first `k` children.
pub proof fn lemma_child_ids_in_seq_ids(children: Seq<AnyWidget>, k: nat, i: int)
    requires
        0 <= i < k <= children.len(),
    ensures
        tree_ids(children[i]).subset_of(seq_ids(children, k)),
    decreases k,
{
    if i < k - 1 {
        lemma_child_ids_in_seq_ids(children, (k - 1) as nat, i);
    }
}

/// The first pass over a tree changes the sizes under the identifiers of the
/// tree only, and records a size for the root.
pub proof fn lemma_sizes_frame(
    w: AnyWidget,
    theme: Theme,
    metrics: Map<usize, Seq<i32>>,
    sizes: Map<usize, Vec2>,
)
    requires
        sizes_after(w, theme, metrics, sizes).is_some(),
    ensures
        sizes_after(w, theme, metrics, sizes).unwrap().contains_key(w.spec_id().raw),
        forall|key: usize|
            !tree_ids(w).contains(key) ==> same_at(
                sizes_after(w, theme, metrics, sizes).unwrap(),
                sizes,
                key,
            ),
    decreases w, 0nat,
{
    let id = w.spec_id().raw;
    let after = sizes_after(w, theme, metrics, sizes).unwrap();
    match w {
        AnyWidget::Col(c) => {
            lemma_list_sizes_frame(w, c.children@, theme, metrics, sizes);
        },
        AnyWidget::Row(c) => {
            lemma_list_sizes_frame(w, c.children@, theme, metrics, sizes);
        },
        AnyWidget::Overlap(c) => {
            lemma_list_sizes_frame(w, c.children@, theme, metrics, sizes);
        },
        AnyWidget::NoFill(c) => {
            lemma_single_sizes_frame(w, *c.child, theme, metrics, sizes);
        },
        AnyWidget::Inset(c) => {
            lemma_single_sizes_frame(w, *c.child, theme, metrics, sizes);
        },
        AnyWidget::Fill(c) => {
            lemma_single_sizes_frame(w, *c.child, theme, metrics, sizes);
        },
        _ => {
            assert forall|key: usize| !tree_ids(w).contains(key) implies same_at(
                after,
                sizes,
                key,
            ) by {
                assert(key != id);
            }
        },
    }
}

proof fn lemma_list_sizes_frame(
    w: AnyWidget,
    children: Seq<AnyWidget>,
    theme: Theme,
    metrics: Map<usize, Seq<i32>>,
    sizes: Map<usize, Vec2>,
)
    requires
        w.spec_child_list() == Some(children),
        sizes_after(w, theme, metrics, sizes).is_some(),
    ensures
        sizes_after(w, theme, metrics, sizes).unwrap().contains_key(w.spec_id().raw),
        forall|key: usize|
            !tree_ids(w).contains(key) ==> same_at(
                sizes_after(w, theme, metrics, sizes).unwrap(),
                sizes,
                key,
            ),
    decreases w, 0nat, 0nat,
{
    let id = w.spec_id().raw;
    let after = sizes_after(w, theme, metrics, sizes).unwrap();
    let below = children_sizes_after(children, children.len(), theme, metrics, sizes).unwrap();
    lemma_children_sizes_frame(children, children.len(), theme, metrics, sizes);
    assert forall|key: usize| !tree_ids(w).contains(key) implies same_at(after, sizes, key) by {
        assert(key != id);
        assert(!seq_ids(children, children.len()).contains(key));
        assert(same_at(below, sizes, key));
    }
}

proof fn lemma_single_sizes_frame(
    w: AnyWidget,
    child: AnyWidget,
    theme: Theme,
    metrics: Map<usize, Seq<i32>>,
    sizes: Map<usize, Vec2>,
)
    requires
        w.spec_single_child() == Some(child),
        sizes_after(w, theme, metrics, sizes).is_some(),
    ensures
        sizes_after(w, theme, metrics, sizes).unwrap().contains_key(w.spec_id().raw),
        forall|key: usize|
            !tree_ids(w).contains(key) ==> same_at(
                sizes_after(w, theme, metrics, sizes).unwrap(),
                sizes,
                key,
            ),
    decreases w, 0nat, 0nat,
{
    let id = w.spec_id().raw;
    let after = sizes_after(w, theme, metrics, sizes).unwrap();
    let below = sizes_after(child, theme, metrics, sizes).unwrap();
    lemma_sizes_frame(child, theme, metrics, sizes);
    assert forall|key: usize| !tree_ids(w).contains(key) implies same_at(after, sizes, key) by {
        assert(key != id);
        assert(!tree_ids(child).contains(key));
        assert(same_at(below, sizes, key));
    }
}

/// The first pass over the first `k` children changes the sizes under the
/// identifiers below these children only.
pub proof fn lemma_children_sizes_frame(
    children: Seq<AnyWidget>,
    k: nat,
    theme: Theme,
    metrics: Map<usize, Seq<i32>>,
    sizes: Map<usize, Vec2>,
)
    requires
        children_sizes_after(children, k, theme, metrics, sizes).is_some(),
    ensures
        forall|key: usize|
            !seq_ids(children, k).contains(key) ==> same_at(
                children_sizes_after(children, k, theme, metrics, sizes).unwrap(),
                sizes,
                key,
            ),
    decreases children, k,
{
    if k > 0 && k <= children.len() {
        let before = children_sizes_after(children, (k - 1) as nat, theme, metrics, sizes).unwrap();
        let child = children[k - 1];
        let after = sizes_after(child, theme, metrics, before).unwrap();
        lemma_children_sizes_frame(children, (k - 1) as nat, theme, metrics, sizes);
        lemma_sizes_frame(child, theme, metrics, before);
        assert forall|key: usize| !seq_ids(children, k).contains(key) implies same_at(
            after,
            sizes,
            key,
        ) by {
            assert(!seq_ids(children, (k - 1) as nat).contains(key));
            assert(!tree_ids(child).contains(key));
            assert(same_at(before, sizes, key));
            assert(same_at(after, before, key));
        }
    } else {
        assert forall|key: usize| !seq_ids(children, k).contains(key) implies same_at(
            sizes,
            sizes,
            key,
        ) by {}
    }
}

/// The size of children depends on the sizes under the identifiers of these
/// children only.
pub proof fn lemma_children_min_size_agrees(
    children: Seq<AnyWidget>,
    k: nat,
    axis: Axis,
    a: Map<usize, Vec2>,
    b: Map<usize, Vec2>,
)
    requires
        k <= children.len(),
        forall|i: int| 0 <= i < k ==> same_at(a, b, #[trigger] children[i].spec_id().raw),
    ensures
        children_min_size(children, k, axis, a) == children_min_size(children, k, axis, b),
    decreases k,
{
    if k > 0 {
        lemma_children_min_size_agrees(children, (k - 1) as nat, axis, a, b);
        assert(same_at(a, b, children[k - 1].spec_id().raw));
    }
}

/// Where no two widgets of a tree share an identifier, the size that the
/// first pass records for the root is the least size that the root needs.
pub proof fn lemma_sizes_are_direct(
    w: AnyWidget,
    theme: Theme,
    metrics: Map<usize, Seq<i32>>,
    sizes: Map<usize, Vec2>,
)
    requires
        distinct_ids(w),
        sizes_after(w, theme, metrics, sizes).is_some(),
    ensures
        sizes_after(w, theme, metrics, sizes).unwrap().contains_key(w.spec_id().raw),
        direct_size(w, theme, metrics) == Some(
            sizes_after(w, theme, metrics, sizes).unwrap()[w.spec_id().raw],
        ),
    decreases w, 0nat,
{
    match w {
        AnyWidget::Col(c) => {
            lemma_list_sizes_are_direct(w, c.children@, theme, metrics, sizes);
        },
        AnyWidget::Row(c) => {
            lemma_list_sizes_are_direct(w, c.children@, theme, metrics, sizes);
        },
        AnyWidget::Overlap(c) => {
            lemma_list_sizes_are_direct(w, c.children@, theme, metrics, sizes);
        },
        AnyWidget::NoFill(c) => {
            lemma_sizes_are_direct(*c.child, theme, metrics, sizes);
        },
        AnyWidget::Inset(c) => {
            lemma_sizes_are_direct(*c.child, theme, metrics, sizes);
        },
        AnyWidget::Fill(c) => {
            lemma_sizes_are_direct(*c.child, theme, metrics, sizes);
        },
        _ => {},
    }
}

proof fn lemma_list_sizes_are_direct(
    w: AnyWidget,
    children: Seq<AnyWidget>,
    theme: Theme,
    metrics: Map<usize, Seq<i32>>,
    sizes: Map<usize, Vec2>,
)
    requires
        w.spec_child_list() == Some(children),
        distinct_ids(w),
        sizes_after(w, theme, metrics, sizes).is_some(),
    ensures
        direct_size(w, theme, metrics) == Some(
            sizes_after(w, theme, metrics, sizes).unwrap()[w.spec_id().raw],
        ),
    decreases w, 0nat, 0nat,
{
    let n = children.len();
    let below = children_sizes_after(children, n, theme, metrics, sizes).unwrap();
    lemma_children_sizes_are_direct(children, n, theme, metrics, sizes);
    let direct = direct_sizes(children, n, theme, metrics).unwrap();
    lemma_children_min_size_agrees(children, n, spec_axis(w), below, direct);
}

/// Where no two widgets below the first `k` children share an identifier, the
/// sizes that the first pass records for these children are the least sizes
/// that they need.
pub proof fn lemma_children_sizes_are_direct(
    children: Seq<AnyWidget>,
    k: nat,
    theme: Theme,
    metrics: Map<usize, Seq<i32>>,
    sizes: Map<usize, Vec2>,
)
    requires
        k <= children.len(),
        seq_distinct(children, k),
        children_sizes_after(children, k, theme, metrics, sizes).is_some(),
    ensures
        direct_sizes(children, k, theme, metrics).is_some(),
        forall|i: int|
            0 <= i < k ==> {
                &&& children_sizes_after(children, k, theme, metrics, sizes).unwrap().contains_key(
                    #[trigger] children[i].spec_id().raw,
                )
                &&& same_at(
                    children_sizes_after(children, k, theme, metrics, sizes).unwrap(),
                    direct_sizes(children, k, theme, metrics).unwrap(),
                    children[i].spec_id().raw,
                )
            },
    decreases children, k,
{
    if k > 0 {
        let before = children_sizes_after(children, (k - 1) as nat, theme, metrics, sizes).unwrap();
        let child = children[k - 1];
        let after = sizes_after(child, theme, metrics, before).unwrap();
        lemma_children_sizes_are_direct(children, (k - 1) as nat, theme, metrics, sizes);
        lemma_sizes_are_direct(child, theme, metrics, before);
        lemma_sizes_frame(child, theme, metrics, before);
        lemma_root_in_tree_ids(child);
        let direct_before = direct_sizes(children, (k - 1) as nat, theme, metrics).unwrap();
        let direct = direct_sizes(children, k, theme, metrics).unwrap();
        assert forall|i: int| 0 <= i < k implies {
            &&& after.contains_key(#[trigger] children[i].spec_id().raw)
            &&& same_at(after, direct, children[i].spec_id().raw)
        } by {
            let id = children[i].spec_id().raw;
            if i < k - 1 {
                lemma_child_ids_in_seq_ids(children, (k - 1) as nat, i);
                lemma_root_in_tree_ids(children[i]);
                assert(seq_ids(children, (k - 1) as nat).contains(id));
                assert(!tree_ids(child).contains(id));
                assert(same_at(after, before, id));
                assert(same_at(before, direct_before, id));
            }
        }
    }
}

/// Whether the two maps hold the same under `key`.
pub open spec fn same_rect_at(a: Map<usize, Rect>, b: Map<usize, Rect>, key: usize) -> bool {
    a.contains_key(key) == b.contains_key(key) && (a.contains_key(key) ==> a[key] == b[key])
}

/// The rectangle that a widget records for itself when it is given `rect`.
pub open spec fn own_rect(w: AnyWidget, rect: Rect, theme: Theme, sizes: Map<usize, Vec2>) -> Option<
    Rect,
> {
    if w.spec_child_list().is_some() {
        match flow_of(w, rect, sizes) {
            Some((_, own)) => Some(own),
            None => None,
        }
    } else if w.spec_single_child().is_some() {
        match single_rects(w, rect, theme, sizes) {
            Some((own, _)) => Some(own),
            None => None,
        }
    } else {
        Some(rect)
    }
}

/// The second pass over a tree changes the rectangles under the identifiers
/// of the tree only.
pub proof fn lemma_rects_frame(
    w: AnyWidget,
    rect: Rect,
    theme: Theme,
    sizes: Map<usize, Vec2>,
    rects: Map<usize, Rect>,
)
    requires
        rects_after(w, rect, theme, sizes, rects).is_some(),
    ensures
        forall|key: usize|
            !tree_ids(w).contains(key) ==> same_rect_at(
                rects_after(w, rect, theme, sizes, rects).unwrap(),
                rects,
                key,
            ),
    decreases w, 0nat,
{
    let id = w.spec_id().raw;
    let after = rects_after(w, rect, theme, sizes, rects).unwrap();
    match w {
        AnyWidget::Col(c) => {
            lemma_list_rects_frame(w, c.children@, c.flex@, rect, theme, sizes, rects);
        },
        AnyWidget::Row(c) => {
            lemma_list_rects_frame(w, c.children@, c.flex@, rect, theme, sizes, rects);
        },
        AnyWidget::Overlap(c) => {
            lemma_list_rects_frame(w, c.children@, Seq::empty(), rect, theme, sizes, rects);
        },
        AnyWidget::NoFill(c) => {
            lemma_single_rects_frame(w, *c.child, rect, theme, sizes, rects);
        },
        AnyWidget::Inset(c) => {
            lemma_single_rects_frame(w, *c.child, rect, theme, sizes, rects);
        },
        AnyWidget::Fill(c) => {
            lemma_single_rects_frame(w, *c.child, rect, theme, sizes, rects);
        },
        _ => {
            assert forall|key: usize| !tree_ids(w).contains(key) implies same_rect_at(
                after,
                rects,
                key,
            ) by {
                assert(key != id);
            }
        },
    }
}

proof fn lemma_list_rects_frame(
    w: AnyWidget,
    children: Seq<AnyWidget>,
    flex: Seq<u32>,
    rect: Rect,
    theme: Theme,
    sizes: Map<usize, Vec2>,
    rects: Map<usize, Rect>,
)
    requires
        w.spec_child_list() == Some(children),
        flex == (if w is Overlap {
            Seq::empty()
        } else {
            spec_flex_list(w)
        }),
        rects_after(w, rect, theme, sizes, rects).is_some(),
    ensures
        forall|key: usize|
            !tree_ids(w).contains(key) ==> same_rect_at(
                rects_after(w, rect, theme, sizes, rects).unwrap(),
                rects,
                key,
            ),
    decreases w, 0nat, 0nat,
{
    let id = w.spec_id().raw;
    let after = rects_after(w, rect, theme, sizes, rects).unwrap();
    let (flow, own) = flow_of(w, rect, sizes).unwrap();
    let start = rects.insert(id, own);
    lemma_children_rects_frame(children, children.len(), flow, flex, theme, sizes, start);
    assert forall|key: usize| !tree_ids(w).contains(key) implies same_rect_at(
        after,
        rects,
        key,
    ) by {
        assert(key != id);
        assert(!seq_ids(children, children.len()).contains(key));
        assert(same_rect_at(after, start, key));
    }
}

proof fn lemma_single_rects_frame(
    w: AnyWidget,
    child: AnyWidget,
    rect: Rect,
    theme: Theme,
    sizes: Map<usize, Vec2>,
    rects: Map<usize, Rect>,
)
    requires
        w.spec_single_child() == Some(child),
        rects_after(w, rect, theme, sizes, rects).is_some(),
    ensures
        forall|key: usize|
            !tree_ids(w).contains(key) ==> same_rect_at(
                rects_after(w, rect, theme, sizes, rects).unwrap(),
                rects,
                key,
            ),
    decreases w, 0nat, 0nat,
{
    let id = w.spec_id().raw;
    let after = rects_after(w, rect, theme, sizes, rects).unwrap();
    let (own, inner) = single_rects(w, rect, theme, sizes).unwrap();
    let start = rects.insert(id, own);
    lemma_rects_frame(child, inner, theme, sizes, start);
    assert forall|key: usize| !tree_ids(w).contains(key) implies same_rect_at(
        after,
        rects,
        key,
    ) by {
        assert(key != id);
        assert(!tree_ids(child).contains(key));
        assert(same_rect_at(after, start, key));
    }
}

/// The second pass over the first `k` children changes the rectangles under
/// the identifiers below these children only.
pub proof fn lemma_children_rects_frame(
    children: Seq<AnyWidget>,
    k: nat,
    flow: Flow,
    flex: Seq<u32>,
    theme: Theme,
    sizes: Map<usize, Vec2>,
    rects: Map<usize, Rect>,
)
    requires
        children_rects_after(children, k, flow, flex, theme, sizes, rects).is_some(),
    ensures
        forall|key: usize|
            !seq_ids(children, k).contains(key) ==> same_rect_at(
                children_rects_after(children, k, flow, flex, theme, sizes, rects).unwrap().0,
                rects,
                key,
            ),
    decreases children, k,
{
    if k > 0 && k <= children.len() {
        let (before, pos) = children_rects_after(
            children,
            (k - 1) as nat,
            flow,
            flex,
            theme,
            sizes,
            rects,
        ).unwrap();
        let child = children[k - 1];
        let child_id = child.spec_id().raw;
        let child_min = if sizes.contains_key(child_id) {
            Some(sizes[child_id])
        } else {
            None
        };
        let (child_rect, next) = flow_step(flow, pos, flex_at(flex, k - 1), child_min).unwrap();
        let after = rects_after(child, child_rect, theme, sizes, before).unwrap();
        lemma_children_rects_frame(children, (k - 1) as nat, flow, flex, theme, sizes, rects);
        lemma_rects_frame(child, child_rect, theme, sizes, before);
        assert forall|key: usize| !seq_ids(children, k).contains(key) implies same_rect_at(
            after,
            rects,
            key,
        ) by {
            assert(!seq_ids(children, (k - 1) as nat).contains(key));
            assert(!tree_ids(child).contains(key));
            assert(same_rect_at(before, rects, key));
            assert(same_rect_at(after, before, key));
        }
    } else {
        assert forall|key: usize| !seq_ids(children, k).contains(key) implies same_rect_at(
            rects,
            rects,
            key,
        ) by {}
    }
}

/// Where no two widgets of a tree share an identifier, the rectangle that the
/// second pass records for the root is the one that the root chose for
/// itself in the rectangle that it was given.
pub proof fn lemma_root_rect_is_own(
    w: AnyWidget,
    rect: Rect,
    theme: Theme,
    sizes: Map<usize, Vec2>,
    rects: Map<usize, Rect>,
)
    requires
        distinct_ids(w),
        rects_after(w, rect, theme, sizes, rects).is_some(),
    ensures
        rects_after(w, rect, theme, sizes, rects).unwrap().contains_key(w.spec_id().raw),
        own_rect(w, rect, theme, sizes) == Some(
            rects_after(w, rect, theme, sizes, rects).unwrap()[w.spec_id().raw],
        ),
{
    let id = w.spec_id().raw;
    match w {
        AnyWidget::Col(c) => {
            let (flow, own) = flow_of(w, rect, sizes).unwrap();
            lemma_children_rects_frame(
                c.children@,
                c.children@.len(),
                flow,
                c.flex@,
                theme,
                sizes,
                rects.insert(id, own),
            );
            assert(same_rect_at(
                rects_after(w, rect, theme, sizes, rects).unwrap(),
                rects.insert(id, own),
                id,
            ));
        },
        AnyWidget::Row(c) => {
            let (flow, own) = flow_of(w, rect, sizes).unwrap();
            lemma_children_rects_frame(
                c.children@,
                c.children@.len(),
                flow,
                c.flex@,
                theme,
                sizes,
                rects.insert(id, own),
            );
            assert(same_rect_at(
                rects_after(w, rect, theme, sizes, rects).unwrap(),
                rects.insert(id, own),
                id,
            ));
        },
        AnyWidget::Overlap(c) => {
            let (flow, own) = flow_of(w, rect, sizes).unwrap();
            lemma_children_rects_frame(
                c.children@,
                c.children@.len(),
                flow,
                Seq::empty(),
                theme,
                sizes,
                rects.insert(id, own),
            );
            assert(same_rect_at(
                rects_after(w, rect, theme, sizes, rects).unwrap(),
                rects.insert(id, own),
                id,
            ));
        },
        AnyWidget::NoFill(c) => {
            let (own, inner) = single_rects(w, rect, theme, sizes).unwrap();
            lemma_rects_frame(*c.child, inner, theme, sizes, rects.insert(id, own));
            assert(same_rect_at(
                rects_after(w, rect, theme, sizes, rects).unwrap(),
                rects.insert(id, own),
                id,
            ));
        },
        AnyWidget::Inset(c) => {
            let (own, inner) = single_rects(w, rect, theme, sizes).unwrap();
            lemma_rects_frame(*c.child, inner, theme, sizes, rects.insert(id, own));
            assert(same_rect_at(
                rects_after(w, rect, theme, sizes, rects).unwrap(),
                rects.insert(id, own),
                id,
            ));
        },
        AnyWidget::Fill(c) => {
            let (own, inner) = single_rects(w, rect, theme, sizes).unwrap();
            lemma_rects_frame(*c.child, inner, theme, sizes, rects.insert(id, own));
            assert(same_rect_at(
                rects_after(w, rect, theme, sizes, rects).unwrap(),
                rects.insert(id, own),
                id,
            ));
        },
        _ => {},
    }
}

/// The tab key moves the focus to one of the places, and the tab key with
/// the shift key moves it back from there.
pub proof fn lemma_tab_there_and_back(index: usize, len: nat)
    requires
        index < len,
        len + len <= usize::MAX,
    ensures
        tab_target(index, len, false) matches Some(there) && 0 <= there < len && tab_target(
            there as usize,
            len,
            true,
        ) == Some(index as int),
{
    let n = len as int;
    let there = (index + 1) % n;
    if index + 1 < n {
        assert(there == index + 1) by (nonlinear_arith)
            requires
                there == (index + 1) % n,
                0 <= index + 1 < n,
        ;
        assert((there + n - 1) % n == index) by (nonlinear_arith)
            requires
                there == index + 1,
                0 <= index < n,
        ;
    } else {
        assert(there == 0) by (nonlinear_arith)
            requires
                there == (index + 1) % n,
                index + 1 == n,
                n > 0,
        ;
        assert((there + n - 1) % n == index) by (nonlinear_arith)
            requires
                there == 0,
                index == n - 1,
                n > 0,
        ;
    }
}

} // verus!
