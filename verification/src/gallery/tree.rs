//! Widget trees laid out as tables: each row is one node, under the
//! tree's parent or under an earlier row.
use vstd::prelude::*;

use crate::components::{Button, WidgetComponents};
use crate::ecs::{entity_at, Entity, EntityData, World};
use crate::types::{wrap32, Dimension, Fixed};
use crate::widget::{LayoutStyle, Style};

use super::{add_node, add_text_node, parent_kept, shows, widget_node};

verus! {

/// One node of a tree table: its parent (an earlier row, or the tree's
/// parent when `None`), whether it shows a text, whether it is a button,
/// its background colour and its box.
#[derive(Clone, Copy, Debug, PartialEq, Eq, Structural)]
pub struct TreeRow {
    pub parent: Option<u16>,
    pub labelled: bool,
    pub button: bool,
    pub bg: Option<u32>,
    pub style: Style,
}

/// Spec: a length of `v` pixels, or left to the layout when `v` is
/// negative.
pub open spec fn len_spec(v: i32) -> Dimension {
    if v < 0 {
        Dimension::Auto
    } else {
        Dimension::Px(Fixed { raw: wrap32(v * 256) })
    }
}

fn len_of(v: i32) -> (d: Dimension)
    ensures
        d == len_spec(v),
{
    if v < 0 {
        Dimension::Auto
    } else {
        Dimension::px(v)
    }
}

/// Spec: a box in the flow, `w` x `h` pixels (a negative length is left
/// to the layout).
pub open spec fn flow_box_spec(w: i32, h: i32) -> Style {
    Style {
        layout: LayoutStyle {
            absolute: false,
            left: Dimension::Px(Fixed { raw: 0 }),
            top: Dimension::Px(Fixed { raw: 0 }),
            width: len_spec(w),
            height: len_spec(h),
        },
    }
}

pub fn flow_box(w: i32, h: i32) -> (s: Style)
    ensures
        s == flow_box_spec(w, h),
{
    Style {
        layout: LayoutStyle {
            absolute: false,
            left: Dimension::Px(Fixed::zero()),
            top: Dimension::Px(Fixed::zero()),
            width: len_of(w),
            height: len_of(h),
        },
    }
}

/// Spec: the widget components a row's node carries (besides its text).
pub open spec fn row_components(r: TreeRow) -> WidgetComponents {
    WidgetComponents {
        button: if r.button {
            Some(Button { pressed: false })
        } else {
            None
        },
        bg_color: r.bg,
        ..WidgetComponents::empty()
    }
}

fn row_components_exec(r: TreeRow) -> (wc: WidgetComponents)
    ensures
        wc == row_components(r),
{
    WidgetComponents {
        button: if r.button {
            Some(Button { pressed: false })
        } else {
            None
        },
        bg_color: r.bg,
        ..WidgetComponents::none()
    }
}

/// Spec: every row's parent row comes before it.
pub open spec fn rows_ordered(rows: Seq<TreeRow>) -> bool {
    forall|k: int| 0 <= k < rows.len() ==> ((#[trigger] rows[k]).parent matches Some(p) ==> p < k)
}

/// Spec: the nodes of the first `m` rows whose parent is `q`, in order,
/// when the first row's node is entity `n`.
pub open spec fn kids(rows: Seq<TreeRow>, q: Option<u16>, n: int, m: int) -> Seq<Entity>
    decreases m,
{
    if m <= 0 {
        Seq::empty()
    } else {
        kids(rows, q, n, m - 1) + if rows[m - 1].parent == q {
            seq![entity_at(n + m - 1)]
        } else {
            Seq::empty()
        }
    }
}

/// Spec: the entity row `k`'s node hangs under.
pub open spec fn row_parent(rows: Seq<TreeRow>, k: int, parent: Entity, n: int) -> Entity {
    match rows[k].parent {
        Some(p) => entity_at(n + p),
        None => parent,
    }
}

/// Spec: `d` is row `k`'s node as built (its children aside).
pub open spec fn row_node(d: EntityData, rows: Seq<TreeRow>, texts: Seq<&str>, k: int, parent: Entity, n: int) -> bool {
    if rows[k].labelled {
        &&& widget_node(
            d,
            Some(row_parent(rows, k, parent, n)),
            WidgetComponents { text: d.widgets.text, ..row_components(rows[k]) },
            Some(rows[k].style),
            None,
        )
        &&& shows(d, texts[k])
    } else {
        widget_node(d, Some(row_parent(rows, k, parent, n)), row_components(rows[k]), Some(rows[k].style), None)
    }
}

/// Spec: the first `m` rows of the table are built under `parent`, from
/// `n` pre-existing entities (row `k` is entity `n + k`); `parent` only
/// gained its top-level nodes and no other earlier entity changed.
pub open spec fn tree_built_upto(
    w: &World,
    w2: &World,
    parent: Entity,
    rows: Seq<TreeRow>,
    texts: Seq<&str>,
    m: int,
) -> bool {
    let n = w.entities@.len() as int;
    &&& w2.res == w.res
    &&& w2.entities@.len() == n + m
    &&& parent_kept(w, w2, parent)
    &&& w2.data(parent).children@ == w.data(parent).children@ + kids(rows, None, n, m)
    &&& forall|k: int|
        0 <= k < m ==> row_node(#[trigger] w2.entities@[n + k], rows, texts, k, parent, n)
            && w2.entities@[n + k].children@ == kids(rows, Some(k as u16), n, m)
    &&& forall|i: int| 0 <= i < n && i != parent.id ==> #[trigger] w2.entities@[i] == w.entities@[i]
}

/// Spec: the whole table is built under `parent`.
pub open spec fn tree_built(w: &World, w2: &World, parent: Entity, rows: Seq<TreeRow>, texts: Seq<&str>) -> bool {
    tree_built_upto(w, w2, parent, rows, texts, rows.len() as int)
}

proof fn lemma_no_kids_yet(rows: Seq<TreeRow>, q: u16, n: int, m: int)
    requires
        rows_ordered(rows),
        0 <= m <= q + 1,
        m <= rows.len(),
    ensures
        kids(rows, Some(q), n, m) == Seq::<Entity>::empty(),
    decreases m,
{
    if m > 0 {
        lemma_no_kids_yet(rows, q, n, m - 1);
        let r = rows[m - 1];
        assert(r.parent matches Some(p) ==> (p < m - 1));
        assert(kids(rows, Some(q), n, m) =~= Seq::<Entity>::empty());
    }
}

/// Builds the table's nodes under `parent`, row by row.
#[verifier::rlimit(60)]
pub fn build_tree(world: &mut World, parent: Entity, rows: &Vec<TreeRow>, texts: &Vec<&str>)
    requires
        old(world).has(parent),
        old(world).entities@.len() + rows@.len() < u32::MAX,
        rows@.len() <= 65535,
        texts@.len() == rows@.len(),
        rows_ordered(rows@),
    ensures
        tree_built(old(world), final(world), parent, rows@, texts@),
{
    let ghost w0 = *world;
    let ghost n = w0.entities@.len() as int;
    let base: usize = world.entities.len();
    let mut m: usize = 0;
    assert(w0.data(parent).children@ + kids(rows@, None, n, 0) =~= w0.data(parent).children@);
    while m < rows.len()
        invariant
            n == w0.entities@.len(),
            base == n,
            w0.has(parent),
            m <= rows@.len(),
            n + rows@.len() < u32::MAX,
            rows@.len() <= 65535,
            texts@.len() == rows@.len(),
            rows_ordered(rows@),
            tree_built_upto(&w0, world, parent, rows@, texts@, m as int),
        decreases rows@.len() - m,
    {
        let ghost wm = *world;
        let r = rows[m];
        let pe = match r.parent {
            Some(p) => Entity { id: (base + p as usize) as u32, generation: 0 },
            None => parent,
        };
        proof {
            let k = m as int;
            assert(rows@[k].parent matches Some(p) ==> (p < k));
            match r.parent {
                Some(p) => {
                    assert(row_node(wm.entities@[n + p], rows@, texts@, p as int, parent, n));
                    assert(pe == entity_at(n + p));
                },
                None => {
                    assert(wm.data(parent) == (EntityData { children: wm.data(parent).children, ..w0.data(parent) }));
                },
            }
            assert(wm.has(pe));
        }
        let wc = row_components_exec(r);
        let e = if r.labelled {
            add_text_node(world, pe, wc, texts[m], Some(r.style), None)
        } else {
            add_node(world, pe, wc, Some(r.style), None)
        };
        proof {
            let k = m as int;
            lemma_no_kids_yet(rows@, k as u16, n, k + 1);
            assert(row_parent(rows@, k, parent, n) == pe);
            assert(e == entity_at(n + k));
            assert(kids(rows@, None, n, k + 1) =~= kids(rows@, None, n, k) + if rows@[k].parent == None::<u16> {
                seq![entity_at(n + k)]
            } else {
                Seq::<Entity>::empty()
            });
            // The tree's parent.
            if r.parent is None {
                assert(world.data(parent).children@ =~= w0.data(parent).children@ + kids(rows@, None, n, k + 1));
            } else {
                assert(world.entities@[parent.id as int] == wm.entities@[parent.id as int]);
                assert(world.data(parent).children@ =~= w0.data(parent).children@ + kids(rows@, None, n, k + 1));
            }
            // Earlier rows.
            assert forall|j: int|
                0 <= j < k + 1 implies row_node(#[trigger] world.entities@[n + j], rows@, texts@, j, parent, n)
                && world.entities@[n + j].children@ == kids(rows@, Some(j as u16), n, k + 1) by {
                if j < k {
                    assert(kids(rows@, Some(j as u16), n, k + 1) =~= kids(rows@, Some(j as u16), n, k) + if rows@[k].parent
                        == Some(j as u16) {
                        seq![entity_at(n + k)]
                    } else {
                        Seq::<Entity>::empty()
                    });
                    assert(row_node(wm.entities@[n + j], rows@, texts@, j, parent, n));
                    if rows@[k].parent == Some(j as u16) {
                        assert(pe.id == n + j);
                    } else {
                        assert(rows@[k].parent != Some(j as u16));
                        assert(pe.id != n + j);
                        assert(world.entities@[n + j] == wm.entities@[n + j]);
                    }
                }
            }
            assert forall|i: int| 0 <= i < n && i != parent.id implies #[trigger] world.entities@[i] == w0.entities@[i] by {
                assert(wm.entities@[i] == w0.entities@[i]);
                assert(world.entities@[i] == wm.entities@[i]);
            }
        }
        m = m + 1;
    }
}

} // verus!
