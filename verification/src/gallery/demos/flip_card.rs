//! "flip card": a card spinning about its vertical axis, showing its
//! front colour while it faces the viewer and its back colour otherwise.
use vstd::prelude::*;

use crate::components::WidgetComponents;
use crate::ecs::{entity_at, Entity, EntityData, World};
use crate::gallery::demos::PROJECTIVE_SPIN_PHASE_DEG;
use crate::gallery::{add_node, add_text_node, colored, colored_exec, placed, placed_spec, shows, tall, tall_spec, widget_node, App};
use crate::types::{abs_int, div_i32, div_trunc, wrap32, Dimension, Fixed, Transform3D, TransformStep};
use crate::widget::{root_viewport, root_viewport_spec, LayoutStyle, Style};

verus! {

/// View size assumed before the root has been laid out.
pub const DEFAULT_VIEW_W: u16 = 480;

pub const DEFAULT_VIEW_H: u16 = 320;

/// A spinning card: its angle and per-frame speed in degrees, its two
/// face colours (`0xRRGGBB`) and the root to redraw with it.
#[derive(Clone, Copy, Debug, PartialEq, Eq, Structural)]
pub struct FlipCard {
    pub angle_deg: Fixed,
    pub speed_deg: Fixed,
    pub front_color: u32,
    pub back_color: u32,
    pub root: Entity,
}

/// Spec: the card's box `(left, top, width, height)` in a view of
/// `vw` x `vh` pixels: 5/12 of the width and 9/16 of the height, centred.
pub open spec fn card_box(vw: int, vh: int) -> (int, int, int, int) {
    let w = div_trunc(vw * 5, 12);
    let h = div_trunc(vh * 9, 16);
    (div_trunc(vw - w, 2), div_trunc(vh - h, 2), w, h)
}

/// Spec: the view the cards are placed in: the root's laid-out size in
/// whole pixels, or the default view before the first layout.
pub open spec fn flip_view(w: &World) -> (int, int) {
    match root_viewport_spec(w) {
        Some(r) => (r.w.raw as int / 256, r.h.raw as int / 256),
        None => (DEFAULT_VIEW_W as int, DEFAULT_VIEW_H as int),
    }
}

/// Spec: a card after one frame: turned on by its speed, wrapped once
/// below 360 degrees.
pub open spec fn flip_step(c: FlipCard) -> FlipCard {
    let a = wrap32(c.angle_deg.raw + c.speed_deg.raw);
    FlipCard {
        angle_deg: Fixed { raw: if a >= 360 * 256 { wrap32(a - 360 * 256) } else { a } },
        ..c
    }
}

/// Spec: the colour a card at angle `a` shows: the front within 90
/// degrees of facing the viewer, the back otherwise.
pub open spec fn face_color(c: FlipCard) -> u32 {
    if c.angle_deg.raw < 90 * 256 || c.angle_deg.raw >= 270 * 256 {
        c.front_color
    } else {
        c.back_color
    }
}

/// Spec: `d2` is `d` after one frame in a view whose card box is `b`,
/// where `marked` says that some card names `d` as the root to redraw. A
/// card has turned, took the transform of its new angle and is marked for
/// redraw; if it has a style, that style is moved to the card box and the
/// card shows the colour of the face it turns to the viewer. Any other
/// entity is at most marked for redraw.
pub open spec fn card_flipped(d: EntityData, d2: EntityData, b: (int, int, int, int), marked: bool) -> bool {
    match d.flip_card {
        Some(c) => {
            let q = flip_step(c);
            &&& d2 == (EntityData {
                flip_card: Some(q),
                transform3d: d2.transform3d,
                dirty: true,
                widgets: if d.style is Some {
                    WidgetComponents { bg_color: Some(face_color(q)), ..d.widgets }
                } else {
                    d.widgets
                },
                style: match d.style {
                    Some(s) => Some(
                        Style {
                            layout: LayoutStyle {
                                left: Dimension::Px(Fixed { raw: wrap32(b.0 * 256) }),
                                top: Dimension::Px(Fixed { raw: wrap32(b.1 * 256) }),
                                width: Dimension::Px(Fixed { raw: wrap32(b.2 * 256) }),
                                height: Dimension::Px(Fixed { raw: wrap32(b.3 * 256) }),
                                ..s.layout
                            },
                        },
                    ),
                    None => None,
                },
                ..d
            })
            &&& d2.transform3d matches Some(t) && t.steps@ == seq![
                TransformStep::RotateYPerspective { angle_deg: q.angle_deg, distance: Fixed { raw: 102400i32 } },
            ]
        },
        None => d2 == (EntityData { dirty: d.dirty || marked, ..d }),
    }
}

/// Spec: entity `j` is a card that names entity `i` (as it is now) as its
/// root.
pub open spec fn names_root(ents: Seq<EntityData>, j: int, i: int) -> bool {
    &&& 0 <= i < ents.len()
    &&& ents[j].flip_card matches Some(c) && c.root.id == i && c.root.generation == ents[i].generation
}

/// Spec: one of the first `k` entities is a card naming `i` as its root.
pub open spec fn root_marked(ents: Seq<EntityData>, k: int, i: int) -> bool {
    exists|j: int| 0 <= j < k && #[trigger] names_root(ents, j, i)
}

/// The card box `(left, top, width, height)` in a `vw` x `vh` view.
fn card_geometry(vw: i32, vh: i32) -> (r: (i32, i32, i32, i32))
    requires
        -0x80_0000 <= vw <= 0x80_0000,
        -0x80_0000 <= vh <= 0x80_0000,
    ensures
        (r.0 as int, r.1 as int, r.2 as int, r.3 as int) == card_box(vw as int, vh as int),
{
    let card_w = div_i32(vw * 5, 12);
    let card_h = div_i32(vh * 9, 16);
    let card_left = div_i32(vw - card_w, 2);
    let card_top = div_i32(vh - card_h, 2);
    (card_left, card_top, card_w, card_h)
}

proof fn lemma_root_marked_step(ents: Seq<EntityData>, k: int, i: int)
    requires
        0 <= k,
    ensures
        root_marked(ents, k + 1, i) == (root_marked(ents, k, i) || names_root(ents, k, i)),
{
    if root_marked(ents, k + 1, i) {
        let j = choose|j: int| 0 <= j < k + 1 && #[trigger] names_root(ents, j, i);
        if j < k {
            assert(root_marked(ents, k, i));
        }
    }
    if root_marked(ents, k, i) {
        let j = choose|j: int| 0 <= j < k && #[trigger] names_root(ents, j, i);
        assert(0 <= j < k + 1 && names_root(ents, j, i));
    }
    if names_root(ents, k, i) {
        assert(0 <= k < k + 1 && names_root(ents, k, i));
    }
}

/// Spec: the loop state after the first `k` entities: those are done,
/// the rest are only marked where a done card names them as its root.
pub open spec fn flipped_upto(e0: Seq<EntityData>, e: Seq<EntityData>, k: int, b: (int, int, int, int)) -> bool {
    &&& e.len() == e0.len()
    &&& forall|j: int| 0 <= j < k ==> card_flipped(#[trigger] e0[j], e[j], b, root_marked(e0, k, j))
    &&& forall|j: int|
        k <= j < e0.len() ==> #[trigger] e[j] == (EntityData { dirty: e0[j].dirty || root_marked(e0, k, j), ..e0[j] })
}

/// Turns card `i` (holding `c`) and places it in the box `(left, top, w, h)`.
fn flip_one(world: &mut World, i: usize, c: FlipCard, left: i32, top: i32, w: i32, h: i32)
    requires
        i < old(world).entities@.len(),
        old(world).entities@[i as int].flip_card == Some(c),
    ensures
        final(world).res == old(world).res,
        final(world).entities@.len() == old(world).entities@.len(),
        forall|j: int| 0 <= j < old(world).entities@.len() && j != i ==> #[trigger] final(world).entities@[j] == old(world).entities@[j],
        card_flipped(old(world).entities@[i as int], final(world).entities@[i as int], (left as int, top as int, w as int, h as int), false),
{
    let mut angle = c.angle_deg.add(c.speed_deg);
    let full = Fixed::from_int(360);
    if angle.raw >= full.raw {
        angle = angle.sub(full);
    }
    let q = FlipCard { angle_deg: angle, ..c };
    assert(q == flip_step(c));
    let color = if angle.raw < Fixed::from_int(90).raw || angle.raw >= Fixed::from_int(270).raw {
        c.front_color
    } else {
        c.back_color
    };
    world.entities[i].flip_card = Some(q);
    if let Some(st) = world.entities[i].style {
        world.entities[i].widgets.bg_color = Some(color);
        world.entities[i].style = Some(
            Style {
                layout: LayoutStyle {
                    absolute: st.layout.absolute,
                    left: Dimension::px(left),
                    top: Dimension::px(top),
                    width: Dimension::px(w),
                    height: Dimension::px(h),
                },
            },
        );
    }
    world.entities[i].transform3d = Some(Transform3D::rotate_y_perspective(angle, Fixed::from_int(400)));
    world.entities[i].dirty = true;
}

proof fn lemma_card_mark_irrelevant(d0: EntityData, d: EntityData, b: (int, int, int, int), m1: bool, m2: bool)
    requires
        d0.flip_card is Some,
        card_flipped(d0, d, b, m1),
    ensures
        card_flipped(d0, d, b, m2),
{
}

proof fn lemma_card_redirty(d0: EntityData, d: EntityData, b: (int, int, int, int), m: bool)
    requires
        card_flipped(d0, d, b, m),
    ensures
        card_flipped(d0, EntityData { dirty: true, ..d }, b, true),
{
    if d0.flip_card is Some {
        assert((EntityData { dirty: true, ..d }) == d);
    }
}

proof fn lemma_card_from_marked(d0: EntityData, di: EntityData, d: EntityData, b: (int, int, int, int), x: bool)
    requires
        d0.flip_card is Some,
        di == (EntityData { dirty: x, ..d0 }),
        card_flipped(di, d, b, false),
    ensures
        card_flipped(d0, d, b, false),
{
}

proof fn lemma_rest_marked(d0: EntityData, d: EntityData, m1: bool, m2: bool, hit: bool)
    requires
        d == (EntityData { dirty: d0.dirty || m1, ..d0 }),
        m2 == (m1 || hit),
    ensures
        (if hit { EntityData { dirty: true, ..d } } else { d }) == (EntityData { dirty: d0.dirty || m2, ..d0 }),
{
}

#[verifier::spinoff_prover]
#[verifier::rlimit(50)]
proof fn lemma_flipped_card(
    e0: Seq<EntityData>,
    ei: Seq<EntityData>,
    em: Seq<EntityData>,
    ef: Seq<EntityData>,
    k: int,
    b: (int, int, int, int),
    c: FlipCard,
)
    requires
        0 <= k < e0.len(),
        flipped_upto(e0, ei, k, b),
        e0[k].flip_card == Some(c),
        em.len() == ei.len(),
        forall|j: int| 0 <= j < ei.len() && j != k ==> #[trigger] em[j] == ei[j],
        card_flipped(ei[k], em[k], b, false),
        (c.root.id < em.len() && em[c.root.id as int].generation == c.root.generation) ==> ef == em.update(
            c.root.id as int,
            EntityData { dirty: true, ..em[c.root.id as int] },
        ),
        !(c.root.id < em.len() && em[c.root.id as int].generation == c.root.generation) ==> ef == em,
    ensures
        flipped_upto(e0, ef, k + 1, b),
{
    let r = c.root.id as int;
    let live = c.root.id < em.len() && em[r].generation == c.root.generation;
    assert(ei[k] == (EntityData { dirty: e0[k].dirty || root_marked(e0, k, k), ..e0[k] }));
    lemma_card_from_marked(e0[k], ei[k], em[k], b, e0[k].dirty || root_marked(e0, k, k));
    assert forall|j: int| 0 <= j < e0.len() implies #[trigger] em[j].generation == e0[j].generation by {
        if j < k {
            assert(card_flipped(e0[j], ei[j], b, root_marked(e0, k, j)));
        } else if j > k {
            assert(ei[j] == (EntityData { dirty: e0[j].dirty || root_marked(e0, k, j), ..e0[j] }));
        }
    }
    assert forall|j: int| 0 <= j < e0.len() implies #[trigger] names_root(e0, k, j) == (live && j == r) by {}
    assert forall|j: int| 0 <= j < k + 1 implies card_flipped(#[trigger] e0[j], ef[j], b, root_marked(e0, k + 1, j)) by {
        lemma_root_marked_step(e0, k, j);
        if j < k {
            assert(card_flipped(e0[j], ei[j], b, root_marked(e0, k, j)));
            if live && j == r {
                lemma_card_redirty(e0[j], ei[j], b, root_marked(e0, k, j));
            }
        } else {
            lemma_card_mark_irrelevant(e0[k], em[k], b, false, root_marked(e0, k + 1, k));
            if live && j == r {
                lemma_card_redirty(e0[k], em[k], b, false);
                lemma_card_mark_irrelevant(e0[k], ef[k], b, true, root_marked(e0, k + 1, k));
            }
        }
    }
    assert forall|j: int|
        k + 1 <= j < e0.len() implies #[trigger] ef[j] == (EntityData {
        dirty: e0[j].dirty || root_marked(e0, k + 1, j),
        ..e0[j]
    }) by {
        lemma_root_marked_step(e0, k, j);
        assert(ei[j] == (EntityData { dirty: e0[j].dirty || root_marked(e0, k, j), ..e0[j] }));
        lemma_rest_marked(e0[j], ei[j], root_marked(e0, k, j), root_marked(e0, k + 1, j), live && j == r);
    }
}

/// Turns every card by one frame, places it in the view and redraws it
/// with its root.
pub fn flip_system(world: &mut World)
    ensures
        final(world).res == old(world).res,
        final(world).entities@.len() == old(world).entities@.len(),
        forall|i: int|
            0 <= i < old(world).entities@.len() ==> card_flipped(
                #[trigger] old(world).entities@[i],
                final(world).entities@[i],
                card_box(flip_view(old(world)).0, flip_view(old(world)).1),
                root_marked(old(world).entities@, old(world).entities@.len() as int, i),
            ),
{
    let (vw, vh): (i32, i32) = match root_viewport(world) {
        Some(r) => (r.w.to_int(), r.h.to_int()),
        None => (DEFAULT_VIEW_W as i32, DEFAULT_VIEW_H as i32),
    };
    let (card_left, card_top, card_w, card_h) = card_geometry(vw, vh);
    let ghost b = card_box(vw as int, vh as int);
    let ghost w0 = *world;
    let n = world.entities.len();
    let mut i: usize = 0;
    proof {
        assert forall|j: int| 0 <= j < n implies !root_marked(w0.entities@, 0, j) by {}
        assert(flipped_upto(w0.entities@, world.entities@, 0, b));
    }
    while i < n
        invariant
            i <= n,
            n == world.entities@.len(),
            n == w0.entities@.len(),
            world.res == w0.res,
            b == (card_left as int, card_top as int, card_w as int, card_h as int),
            flipped_upto(w0.entities@, world.entities@, i as int, b),
        decreases n - i,
    {
        let ghost wi = *world;
        if let Some(c) = world.entities[i].flip_card {
            proof {
                assert(wi.entities@[i as int] == (EntityData {
                    dirty: w0.entities@[i as int].dirty || root_marked(w0.entities@, i as int, i as int),
                    ..w0.entities@[i as int]
                }));
            }
            flip_one(world, i, c, card_left, card_top, card_w, card_h);
            let ghost wm = *world;
            world.set_dirty(c.root, true);
            proof {
                lemma_flipped_card(w0.entities@, wi.entities@, wm.entities@, world.entities@, i as int, b, c);
            }
        } else {
            proof {
                assert forall|j: int| 0 <= j < n implies root_marked(w0.entities@, i as int + 1, j) == root_marked(
                w0.entities@, i as int, j) by {
                    lemma_root_marked_step(w0.entities@, i as int, j);
                }
                assert(wi.entities@[i as int] == (EntityData {
                    dirty: w0.entities@[i as int].dirty || root_marked(w0.entities@, i as int, i as int),
                    ..w0.entities@[i as int]
                }));
            }
        }
        i += 1;
    }
}

/// Spec: the title's box: absolutely placed at (16, 12), as wide as its
/// parent and 26 pixels tall.
pub open spec fn title_style() -> Style {
    Style {
        layout: LayoutStyle {
            absolute: true,
            left: Dimension::Px(Fixed { raw: 4096i32 }),
            top: Dimension::Px(Fixed { raw: 3072i32 }),
            width: Dimension::Percent(Fixed { raw: 25600i32 }),
            height: Dimension::Px(Fixed { raw: 6656i32 }),
        },
    }
}

fn title_style_exec() -> (s: Style)
    ensures
        s == title_style(),
{
    Style {
        layout: LayoutStyle {
            absolute: true,
            left: Dimension::px(16),
            top: Dimension::px(12),
            width: Dimension::percent(100),
            height: Dimension::px(26),
        },
    }
}

/// Spec: the card the demo starts with: at the starting phase, one degree
/// per frame, blue in front and red behind, redrawn with `root`.
pub open spec fn initial_card(root: Entity) -> FlipCard {
    FlipCard {
        angle_deg: Fixed { raw: wrap32(PROJECTIVE_SPIN_PHASE_DEG * 256) },
        speed_deg: Fixed { raw: 256 },
        front_color: 0x58A6FF,
        back_color: 0xF85149,
        root,
    }
}

/// Spec: the demo as built under `parent` from `n` pre-existing entities:
/// a view (`n`) holding the title (`n + 1`) and the card (`n + 2`), an
/// absolutely placed box that the flip system sizes, carrying the flip
/// state and an identity transform, with its two labels (`n + 3`,
/// `n + 4`).
pub open spec fn flip_card_built(w: &World, w2: &World, parent: Entity) -> bool {
    let n = w.entities@.len() as int;
    &&& crate::gallery::parent_kept(w, w2, parent)
    &&& w2.res == w.res
    &&& w2.entities@.len() == n + 5
    &&& w2.data(parent).children@ == w.data(parent).children@.push(entity_at(n))
    &&& widget_node(w2.entities@[n], Some(parent), WidgetComponents::empty(), Some(Style::flow_spec()), None)
    &&& w2.entities@[n].children@ == seq![entity_at(n + 1), entity_at(n + 2)]
    &&& widget_node(
        w2.entities@[n + 1],
        Some(entity_at(n)),
        WidgetComponents { text: w2.entities@[n + 1].widgets.text, ..WidgetComponents::empty() },
        Some(title_style()),
        None,
    )
    &&& shows(w2.entities@[n + 1], "PROJECTIVE FLIP \u{b7} FRONT / BACK")
    &&& widget_node(
        EntityData { flip_card: None, transform3d: None, ..w2.entities@[n + 2] },
        Some(entity_at(n)),
        colored(0x58A6FF),
        Some(placed_spec(0, 0, 0, 0)),
        None,
    )
    &&& w2.entities@[n + 2].flip_card == Some(initial_card(parent))
    &&& w2.entities@[n + 2].transform3d matches Some(t) && t.steps@.len() == 0
    &&& w2.entities@[n + 2].children@ == seq![entity_at(n + 3), entity_at(n + 4)]
    &&& widget_node(
        w2.entities@[n + 3],
        Some(entity_at(n + 2)),
        WidgetComponents { text: w2.entities@[n + 3].widgets.text, ..WidgetComponents::empty() },
        Some(tall_spec(34)),
        None,
    )
    &&& shows(w2.entities@[n + 3], "MIRUI")
    &&& widget_node(
        w2.entities@[n + 4],
        Some(entity_at(n + 2)),
        WidgetComponents { text: w2.entities@[n + 4].widgets.text, ..WidgetComponents::empty() },
        Some(tall_spec(22)),
        None,
    )
    &&& shows(w2.entities@[n + 4], "2.5D CARD")
    &&& forall|i: int| 0 <= i < n && i != parent.id ==> #[trigger] w2.entities@[i] == w.entities@[i]
}

/// Builds the demo under `parent`, which the card redraws with.
pub fn build_widgets(world: &mut World, parent: Entity)
    requires
        old(world).has(parent),
        old(world).entities@.len() + 5 < u32::MAX,
    ensures
        flip_card_built(old(world), final(world), parent),
{
    let ghost w0 = *world;
    let view = add_node(world, parent, WidgetComponents::none(), Some(Style::flow()), None);
    let ghost w1 = *world;
    let title = add_text_node(world, view, WidgetComponents::none(), "PROJECTIVE FLIP \u{b7} FRONT / BACK", Some(title_style_exec()), None);
    let ghost w2 = *world;
    let card = add_node(world, view, colored_exec(0x58A6FF), Some(placed(0, 0, 0, 0)), None);
    let c = card.id as usize;
    world.entities[c].flip_card = Some(
        FlipCard {
            angle_deg: Fixed::from_int(PROJECTIVE_SPIN_PHASE_DEG),
            speed_deg: Fixed::one(),
            front_color: 0x58A6FF,
            back_color: 0xF85149,
            root: parent,
        },
    );
    world.entities[c].transform3d = Some(Transform3D::identity());
    let ghost w3 = *world;
    let big = add_text_node(world, card, WidgetComponents::none(), "MIRUI", Some(tall(34)), None);
    let ghost w4 = *world;
    let small = add_text_node(world, card, WidgetComponents::none(), "2.5D CARD", Some(tall(22)), None);
    proof {
        let n = w0.entities@.len() as int;
        assert(w4.entities@[n] == w3.entities@[n]);
        assert(world.entities@[n] == w4.entities@[n]);
        assert(world.entities@[n].children@ =~= seq![entity_at(n + 1), entity_at(n + 2)]);
        assert(w4.entities@[n + 1] == w3.entities@[n + 1]);
        assert(world.entities@[n + 1] == w4.entities@[n + 1]);
        assert(world.entities@[n + 2].children@ =~= seq![entity_at(n + 3), entity_at(n + 4)]);
        assert(world.entities@[n + 3] == w4.entities@[n + 3]);
        assert(world.data(parent) == w1.data(parent));
        assert forall|k: int| 0 <= k < n && k != parent.id implies #[trigger] world.entities@[k] == w0.entities@[k] by {
            assert(w1.entities@[k] == w0.entities@[k]);
            assert(w2.entities@[k] == w1.entities@[k]);
            assert(w3.entities@[k] == w2.entities@[k]);
            assert(w4.entities@[k] == w3.entities@[k]);
        }
    }
}

/// Builds the demo under `parent`; the flip system turns the card each
/// frame.
pub fn setup_app(app: &mut App, parent: Entity)
    requires
        old(app).world.has(parent),
        old(app).world.entities@.len() + 5 < u32::MAX,
    ensures
        flip_card_built(&old(app).world, &final(app).world, parent),
{
    build_widgets(&mut app.world, parent);
}

} // verus!
