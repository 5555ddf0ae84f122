//! "book flip": a page that swings open and shut about its spine.
use vstd::prelude::*;

use crate::components::WidgetComponents;
use crate::ecs::{entity_at, Entity, EntityData, World};
use crate::gallery::demos::PROJECTIVE_SPIN_PHASE_DEG;
use crate::gallery::{add_node, add_text_node, shows, text_node, tall, tall_spec, widget_node, App};
use crate::types::Dimension;
use crate::widget::{LayoutStyle, Style};
use crate::types::{div_trunc, mul_raw, wrap32, Fixed, Transform3D, TransformStep};

verus! {

/// A page swinging about its spine, in degrees and degrees per second.
#[derive(Clone, Copy, Debug, PartialEq, Eq, Structural)]
pub struct Page {
    pub angle_deg: Fixed,
    pub speed_deg_per_second: Fixed,
}

/// Spec: the frame length the page motion uses: the last frame's (16 ms
/// when none is known), at most 50 ms.
pub open spec fn page_frame_ms(delta: Option<u32>) -> u32 {
    let d = match delta {
        Some(d) => d,
        None => 16u32,
    };
    if d < 50 {
        d
    } else {
        50
    }
}

/// Spec: one step of a page over `dt` ms. The angle advances by
/// `speed * dt / 1000`; past 120 degrees it is reflected back from 120,
/// below 0 it is reflected back from 0, and either reflection reverses
/// the speed.
pub open spec fn page_step(p: Page, dt: u32) -> Page {
    let advance = mul_raw(p.speed_deg_per_second.raw, wrap32(div_trunc(dt as int * 256, 1000)));
    let a = wrap32(p.angle_deg.raw + advance);
    let back = Fixed { raw: wrap32(-p.speed_deg_per_second.raw) };
    if a > 120 * 256 {
        Page { angle_deg: Fixed { raw: wrap32(240 * 256 - a) }, speed_deg_per_second: back }
    } else if a < 0 {
        Page { angle_deg: Fixed { raw: wrap32(-a) }, speed_deg_per_second: back }
    } else {
        Page { angle_deg: Fixed { raw: a }, ..p }
    }
}

/// Spec: the page's transform at angle `a`: turned back by `a` about its
/// spine, seen from 500 pixels.
pub open spec fn page_transform_steps(a: Fixed) -> Seq<TransformStep> {
    seq![TransformStep::RotateYPerspective { angle_deg: Fixed { raw: wrap32(-a.raw) }, distance: Fixed { raw: 128000i32 } }]
}

/// Spec: `d2` is `d` after one frame of `dt` ms: a page has stepped, took
/// the transform of its new angle and is marked for redraw; anything else
/// is unchanged.
pub open spec fn page_moved(d: EntityData, d2: EntityData, dt: u32) -> bool {
    match d.page {
        Some(p) => {
            let q = page_step(p, dt);
            &&& d2 == (EntityData { page: Some(q), transform3d: d2.transform3d, dirty: true, ..d })
            &&& d2.transform3d matches Some(t) && t.steps@ == page_transform_steps(q.angle_deg)
        },
        None => d2 == d,
    }
}

/// Advances every page by one frame.
pub fn flip_system(world: &mut World)
    ensures
        final(world).res == old(world).res,
        final(world).entities@.len() == old(world).entities@.len(),
        forall|i: int|
            0 <= i < old(world).entities@.len() ==> page_moved(
                #[trigger] old(world).entities@[i],
                final(world).entities@[i],
                page_frame_ms(old(world).res.delta_time_ms),
            ),
{
    let known: u32 = match world.res.delta_time_ms {
        Some(d) => d,
        None => 16,
    };
    let dt: u32 = if known < 50 {
        known
    } else {
        50
    };
    let ghost w0 = *world;
    let n = world.entities.len();
    let mut i: usize = 0;
    while i < n
        invariant
            i <= n,
            n == world.entities@.len(),
            n == w0.entities@.len(),
            world.res == w0.res,
            dt == page_frame_ms(w0.res.delta_time_ms),
            forall|j: int| 0 <= j < i ==> page_moved(#[trigger] w0.entities@[j], world.entities@[j], dt),
            forall|j: int| i <= j < n ==> #[trigger] world.entities@[j] == w0.entities@[j],
        decreases n - i,
    {
        if let Some(p) = world.entities[i].page {
            let ratio = Fixed::from_ratio(dt as i32, 1000);
            let mut angle = p.angle_deg.add(p.speed_deg_per_second.mul(ratio));
            let mut speed = p.speed_deg_per_second;
            let limit = Fixed::from_int(120);
            if angle.raw > limit.raw {
                angle = limit.mul_int(2).sub(angle);
                speed = speed.neg();
            } else if angle.raw < 0 {
                angle = angle.neg();
                speed = speed.neg();
            }
            let ghost q = Page { angle_deg: angle, speed_deg_per_second: speed };
            assert(q == page_step(p, dt));
            world.entities[i].page = Some(Page { angle_deg: angle, speed_deg_per_second: speed });
            world.entities[i].transform3d = Some(
                Transform3D::rotate_y_perspective(Fixed::zero().sub(angle), Fixed::from_int(500)),
            );
            world.entities[i].dirty = true;
        }
        i += 1;
    }
}

/// Spec: a page's box: 34% of the spread's width and 78% of its height.
pub open spec fn page_box() -> Style {
    Style {
        layout: LayoutStyle {
            absolute: false,
            left: Dimension::Px(Fixed { raw: 0 }),
            top: Dimension::Px(Fixed { raw: 0 }),
            width: Dimension::Percent(Fixed { raw: 8704i32 }),
            height: Dimension::Percent(Fixed { raw: 19968i32 }),
        },
    }
}

fn page_box_exec() -> (s: Style)
    ensures
        s == page_box(),
{
    Style {
        layout: LayoutStyle {
            absolute: false,
            left: Dimension::px(0),
            top: Dimension::px(0),
            width: Dimension::percent(34),
            height: Dimension::percent(78),
        },
    }
}

/// Spec: the page the demo starts with: at the starting phase, swinging
/// at 30 degrees per second.
pub open spec fn initial_page() -> Page {
    Page {
        angle_deg: Fixed { raw: wrap32(PROJECTIVE_SPIN_PHASE_DEG * 256) },
        speed_deg_per_second: Fixed { raw: 7680i32 },
    }
}

/// Spec: the demo as built under `parent` from `n` pre-existing entities:
/// a column (`n`) with the title (`n + 1`) and the spread (`n + 2`); the
/// spread holds the still left page (`n + 3`, labels `n + 4` to `n + 6`)
/// and the live right page (`n + 7`, labels `n + 8` to `n + 10`), which
/// carries the page motion and an identity transform.
pub open spec fn book_flip_built(w: &World, w2: &World, parent: Entity) -> bool {
    let n = w.entities@.len() as int;
    let e = w2.entities@;
    &&& crate::gallery::parent_kept(w, w2, parent)
    &&& w2.res == w.res
    &&& e.len() == n + 11
    &&& w2.data(parent).children@ == w.data(parent).children@.push(entity_at(n))
    &&& widget_node(e[n], Some(parent), WidgetComponents::empty(), Some(Style::flow_spec()), None)
    &&& e[n].children@ == seq![entity_at(n + 1), entity_at(n + 2)]
    &&& text_node(e[n + 1], entity_at(n), "PROJECTIVE BOOK", tall_spec(28))
    &&& widget_node(e[n + 2], Some(entity_at(n)), WidgetComponents::empty(), Some(Style::flow_spec()), None)
    &&& e[n + 2].children@ == seq![entity_at(n + 3), entity_at(n + 7)]
    &&& widget_node(e[n + 3], Some(entity_at(n + 2)), WidgetComponents::empty(), Some(page_box()), None)
    &&& e[n + 3].children@ == seq![entity_at(n + 4), entity_at(n + 5), entity_at(n + 6)]
    &&& text_node(e[n + 4], entity_at(n + 3), "MIRUI", tall_spec(34))
    &&& text_node(e[n + 5], entity_at(n + 3), "retained geometry\nfixed-point motion", Style::flow_spec())
    &&& text_node(e[n + 6], entity_at(n + 3), "01", tall_spec(24))
    &&& widget_node(
        EntityData { page: None, transform3d: None, ..e[n + 7] },
        Some(entity_at(n + 2)),
        WidgetComponents::empty(),
        Some(page_box()),
        None,
    )
    &&& e[n + 7].page == Some(initial_page())
    &&& e[n + 7].transform3d matches Some(t) && t.steps@.len() == 0
    &&& e[n + 7].children@ == seq![entity_at(n + 8), entity_at(n + 9), entity_at(n + 10)]
    &&& text_node(e[n + 8], entity_at(n + 7), "LIVE PAGE", tall_spec(34))
    &&& text_node(e[n + 9], entity_at(n + 7), "one node\none transform", Style::flow_spec())
    &&& text_node(e[n + 10], entity_at(n + 7), "02", tall_spec(24))
    &&& forall|i: int| 0 <= i < n && i != parent.id ==> #[trigger] e[i] == w.entities@[i]
}

/// Builds the demo under `parent`.
#[verifier::rlimit(40)]
pub fn build_widgets(world: &mut World, parent: Entity)
    requires
        old(world).has(parent),
        old(world).entities@.len() + 11 < u32::MAX,
    ensures
        book_flip_built(old(world), final(world), parent),
{
    let ghost w0 = *world;
    let column = add_node(world, parent, WidgetComponents::none(), Some(Style::flow()), None);
    let ghost w1 = *world;
    let title = add_text_node(world, column, WidgetComponents::none(), "PROJECTIVE BOOK", Some(tall(28)), None);
    let ghost w2 = *world;
    let spread = add_node(world, column, WidgetComponents::none(), Some(Style::flow()), None);
    let ghost w3 = *world;
    let left_page = add_node(world, spread, WidgetComponents::none(), Some(page_box_exec()), None);
    let ghost w4 = *world;
    let left_title = add_text_node(world, left_page, WidgetComponents::none(), "MIRUI", Some(tall(34)), None);
    let ghost w5 = *world;
    let left_note = add_text_node(world, left_page, WidgetComponents::none(), "retained geometry\nfixed-point motion", Some(Style::flow()), None);
    let ghost w6 = *world;
    let left_folio = add_text_node(world, left_page, WidgetComponents::none(), "01", Some(tall(24)), None);
    let ghost w7 = *world;
    let right_page = add_node(world, spread, WidgetComponents::none(), Some(page_box_exec()), None);
    let ghost w8 = *world;
    let live = right_page.id as usize;
    world.entities[live].page = Some(
        Page { angle_deg: Fixed::from_int(PROJECTIVE_SPIN_PHASE_DEG), speed_deg_per_second: Fixed::from_int(30) },
    );
    world.entities[live].transform3d = Some(Transform3D::identity());
    let ghost w9 = *world;
    let right_title = add_text_node(world, right_page, WidgetComponents::none(), "LIVE PAGE", Some(tall(34)), None);
    let ghost w10 = *world;
    let right_note = add_text_node(world, right_page, WidgetComponents::none(), "one node\none transform", Some(Style::flow()), None);
    let ghost w11 = *world;
    let right_folio = add_text_node(world, right_page, WidgetComponents::none(), "02", Some(tall(24)), None);
    proof {
        let n = w0.entities@.len() as int;
        assert(w4.entities@[n + 0] == w3.entities@[n + 0]);
        assert(w5.entities@[n + 0] == w4.entities@[n + 0]);
        assert(w6.entities@[n + 0] == w5.entities@[n + 0]);
        assert(w7.entities@[n + 0] == w6.entities@[n + 0]);
        assert(w8.entities@[n + 0] == w7.entities@[n + 0]);
        assert(w9.entities@[n + 0] == w8.entities@[n + 0]);
        assert(w10.entities@[n + 0] == w9.entities@[n + 0]);
        assert(w11.entities@[n + 0] == w10.entities@[n + 0]);
        assert(world.entities@[n + 0] == w11.entities@[n + 0]);
        assert(w3.entities@[n + 1] == w2.entities@[n + 1]);
        assert(w4.entities@[n + 1] == w3.entities@[n + 1]);
        assert(w5.entities@[n + 1] == w4.entities@[n + 1]);
        assert(w6.entities@[n + 1] == w5.entities@[n + 1]);
        assert(w7.entities@[n + 1] == w6.entities@[n + 1]);
        assert(w8.entities@[n + 1] == w7.entities@[n + 1]);
        assert(w9.entities@[n + 1] == w8.entities@[n + 1]);
        assert(w10.entities@[n + 1] == w9.entities@[n + 1]);
        assert(w11.entities@[n + 1] == w10.entities@[n + 1]);
        assert(world.entities@[n + 1] == w11.entities@[n + 1]);
        assert(w9.entities@[n + 2] == w8.entities@[n + 2]);
        assert(w10.entities@[n + 2] == w9.entities@[n + 2]);
        assert(w11.entities@[n + 2] == w10.entities@[n + 2]);
        assert(world.entities@[n + 2] == w11.entities@[n + 2]);
        assert(w8.entities@[n + 3] == w7.entities@[n + 3]);
        assert(w9.entities@[n + 3] == w8.entities@[n + 3]);
        assert(w10.entities@[n + 3] == w9.entities@[n + 3]);
        assert(w11.entities@[n + 3] == w10.entities@[n + 3]);
        assert(world.entities@[n + 3] == w11.entities@[n + 3]);
        assert(w6.entities@[n + 4] == w5.entities@[n + 4]);
        assert(w7.entities@[n + 4] == w6.entities@[n + 4]);
        assert(w8.entities@[n + 4] == w7.entities@[n + 4]);
        assert(w9.entities@[n + 4] == w8.entities@[n + 4]);
        assert(w10.entities@[n + 4] == w9.entities@[n + 4]);
        assert(w11.entities@[n + 4] == w10.entities@[n + 4]);
        assert(world.entities@[n + 4] == w11.entities@[n + 4]);
        assert(w7.entities@[n + 5] == w6.entities@[n + 5]);
        assert(w8.entities@[n + 5] == w7.entities@[n + 5]);
        assert(w9.entities@[n + 5] == w8.entities@[n + 5]);
        assert(w10.entities@[n + 5] == w9.entities@[n + 5]);
        assert(w11.entities@[n + 5] == w10.entities@[n + 5]);
        assert(world.entities@[n + 5] == w11.entities@[n + 5]);
        assert(w8.entities@[n + 6] == w7.entities@[n + 6]);
        assert(w9.entities@[n + 6] == w8.entities@[n + 6]);
        assert(w10.entities@[n + 6] == w9.entities@[n + 6]);
        assert(w11.entities@[n + 6] == w10.entities@[n + 6]);
        assert(world.entities@[n + 6] == w11.entities@[n + 6]);
        assert(w11.entities@[n + 8] == w10.entities@[n + 8]);
        assert(world.entities@[n + 8] == w11.entities@[n + 8]);
        assert(world.entities@[n + 9] == w11.entities@[n + 9]);
        assert(w2.data(parent) == w1.data(parent));
        assert(w3.data(parent) == w2.data(parent));
        assert(w4.data(parent) == w3.data(parent));
        assert(w5.data(parent) == w4.data(parent));
        assert(w6.data(parent) == w5.data(parent));
        assert(w7.data(parent) == w6.data(parent));
        assert(w8.data(parent) == w7.data(parent));
        assert(w9.data(parent) == w8.data(parent));
        assert(w10.data(parent) == w9.data(parent));
        assert(w11.data(parent) == w10.data(parent));
        assert(world.data(parent) == w11.data(parent));
        assert(world.entities@[n].children@ =~= seq![entity_at(n + 1), entity_at(n + 2)]);
        assert(world.entities@[n + 2].children@ =~= seq![entity_at(n + 3), entity_at(n + 7)]);
        assert(world.entities@[n + 3].children@ =~= seq![entity_at(n + 4), entity_at(n + 5), entity_at(n + 6)]);
        assert(world.entities@[n + 7].children@ =~= seq![entity_at(n + 8), entity_at(n + 9), entity_at(n + 10)]);
        assert forall|k: int| 0 <= k < n && k != parent.id implies #[trigger] world.entities@[k] == w0.entities@[k] by {
            assert(w1.entities@[k] == w0.entities@[k]);
            assert(w2.entities@[k] == w1.entities@[k]);
            assert(w3.entities@[k] == w2.entities@[k]);
            assert(w4.entities@[k] == w3.entities@[k]);
            assert(w5.entities@[k] == w4.entities@[k]);
            assert(w6.entities@[k] == w5.entities@[k]);
            assert(w7.entities@[k] == w6.entities@[k]);
            assert(w8.entities@[k] == w7.entities@[k]);
            assert(w9.entities@[k] == w8.entities@[k]);
            assert(w10.entities@[k] == w9.entities@[k]);
            assert(w11.entities@[k] == w10.entities@[k]);
            assert(world.entities@[k] == w11.entities@[k]);
        }
    }
}

/// Builds the demo under `parent`; the flip system swings the page each
/// frame.
pub fn setup_app(app: &mut App, parent: Entity)
    requires
        old(app).world.has(parent),
        old(app).world.entities@.len() + 11 < u32::MAX,
    ensures
        book_flip_built(&old(app).world, &final(app).world, parent),
{
    build_widgets(&mut app.world, parent);
}

} // verus!
