//! "effect glass": a frosted glass panel sliding back and forth across
//! the view.
use vstd::prelude::*;

use crate::components::WidgetComponents;
use crate::ecs::{entity_at, Entity, EntityData, World};
use crate::gallery::{add_node, add_text_node, colored, colored_exec, placed, placed_spec, shows, widget_node, App};
use crate::types::{div_trunc, wrap32, Dimension, Fixed};
use crate::widget::{moved_entity, root_viewport, root_viewport_spec, LayoutStyle, Style};

verus! {

/// View size assumed before the root has been laid out.
pub const DEFAULT_VIEW_W: u16 = 128;

pub const DEFAULT_VIEW_H: u16 = 128;

/// Width of the glass panel, in pixels.
pub const GLASS_W: i32 = 60;

/// Gap kept between the panel and the view's edges, in pixels.
pub const GLASS_MARGIN: i32 = 8;

/// Time one sweep across the view takes.
pub const GLASS_PERIOD_MS: u16 = 3000;

/// Phase clock of a sliding glass panel: milliseconds into its
/// there-and-back cycle.
#[derive(Clone, Copy, Debug, PartialEq, Eq, Structural)]
pub struct GlassSlide {
    pub elapsed_ms: u32,
}

/// Spec: the frame length the slide uses: the last frame's, 16 ms when
/// none is known.
pub open spec fn glass_frame_ms(w: &World) -> u32 {
    match w.res.delta_time_ms {
        Some(d) => d,
        None => 16,
    }
}

/// Spec: the width the panel sweeps: the root's laid-out width in whole
/// pixels, or the default view before the first layout.
pub open spec fn glass_span(w: &World) -> int {
    match root_viewport_spec(w) {
        Some(r) => r.w.raw as int / 256,
        None => DEFAULT_VIEW_W as int,
    }
}

/// Spec: the right-most left edge of the panel in a view `span` wide,
/// never left of the margin.
pub open spec fn glass_max_x(span: int) -> int {
    let m = span - GLASS_W - GLASS_MARGIN;
    if m >= GLASS_MARGIN {
        m
    } else {
        GLASS_MARGIN as int
    }
}

/// Spec: the panel's left edge at `t` ms into the cycle: from the margin
/// to the right-most edge over the first period and back over the second.
pub open spec fn glass_x(span: int, t: int) -> int {
    let half = GLASS_PERIOD_MS as int;
    let tri = if t < half {
        t
    } else {
        2 * half - t
    };
    GLASS_MARGIN + div_trunc((glass_max_x(span) - GLASS_MARGIN) * tri, half)
}

/// Spec: `d2` is `d` after a frame of `dt` ms in a view `span` wide: a
/// sliding panel advances its clock round the cycle and moves to the
/// matching position, 50 pixels from the top; anything else is unchanged.
pub open spec fn glided(d: EntityData, d2: EntityData, dt: u32, span: int) -> bool {
    match d.glass_slide {
        Some(g) => {
            let t = (g.elapsed_ms + dt) % (2 * GLASS_PERIOD_MS as int);
            d2 == moved_entity(
                EntityData { glass_slide: Some(GlassSlide { elapsed_ms: t as u32 }), ..d },
                Fixed { raw: wrap32(glass_x(span, t) * 256) },
                Fixed { raw: 12800 },
            )
        },
        None => d2 == d,
    }
}

/// Slides every glass panel on by one frame.
pub fn glass_slide_system(world: &mut World)
    requires
        (glass_max_x(glass_span(old(world))) - GLASS_MARGIN) * GLASS_PERIOD_MS <= i32::MAX,
        forall|i: int|
            0 <= i < old(world).entities@.len() && (#[trigger] old(world).entities@[i]).glass_slide is Some ==> old(
                world,
            ).entities@[i].glass_slide.unwrap().elapsed_ms + glass_frame_ms(old(world)) <= u32::MAX,
    ensures
        final(world).res == old(world).res,
        final(world).entities@.len() == old(world).entities@.len(),
        forall|i: int|
            0 <= i < old(world).entities@.len() ==> glided(
                #[trigger] old(world).entities@[i],
                final(world).entities@[i],
                glass_frame_ms(old(world)),
                glass_span(old(world)),
            ),
{
    let dt: u32 = match world.res.delta_time_ms {
        Some(d) => d,
        None => 16,
    };
    let span_w: i32 = match root_viewport(world) {
        Some(r) => r.w.to_int(),
        None => DEFAULT_VIEW_W as i32,
    };
    let min_x = GLASS_MARGIN;
    let room = span_w - GLASS_W - GLASS_MARGIN;
    let max_x = if room >= min_x {
        room
    } else {
        min_x
    };
    let period = GLASS_PERIOD_MS as u32;
    let half = GLASS_PERIOD_MS as i32;
    let ghost w0 = *world;
    let n = world.entities.len();
    let mut i: usize = 0;
    while i < n
        invariant
            i <= n,
            n == world.entities@.len(),
            n == w0.entities@.len(),
            world.res == w0.res,
            dt == glass_frame_ms(&w0),
            span_w == glass_span(&w0),
            max_x == glass_max_x(span_w as int),
            min_x == GLASS_MARGIN,
            period == 3000,
            half == 3000,
            (max_x - min_x) * 3000 <= i32::MAX,
            0 <= max_x - min_x,
            forall|j: int|
                0 <= j < n && (#[trigger] w0.entities@[j]).glass_slide is Some ==> w0.entities@[j].glass_slide.unwrap().elapsed_ms
                    + dt <= u32::MAX,
            forall|j: int| 0 <= j < i ==> glided(#[trigger] w0.entities@[j], world.entities@[j], dt, span_w as int),
            forall|j: int| i <= j < n ==> #[trigger] world.entities@[j] == w0.entities@[j],
        decreases n - i,
    {
        if let Some(g) = world.entities[i].glass_slide {
            assert(w0.entities@[i as int].glass_slide is Some);
            let phase = (g.elapsed_ms + dt) % (period * 2);
            world.entities[i].glass_slide = Some(GlassSlide { elapsed_ms: phase });
            let t = phase as i32;
            let tri = if t < half {
                t
            } else {
                2 * half - t
            };
            proof {
                assert(0 <= (max_x - min_x) * tri <= (max_x - min_x) * 3000) by (nonlinear_arith)
                    requires
                        0 <= max_x - min_x,
                        0 <= tri <= 3000,
                ;
            }
            let x = min_x + ((max_x - min_x) * tri) / half;
            let left = Fixed::from_int(x);
            let top = Fixed::from_int(50);
            if let Some(st) = world.entities[i].style {
                world.entities[i].style = Some(
                    Style { layout: LayoutStyle { left: Dimension::Px(left), top: Dimension::Px(top), ..st.layout } },
                );
            }
            world.entities[i].dirty = true;
            proof {
                assert(x as int == glass_x(span_w as int, phase as int));
            }
        }
        i += 1;
    }
}

/// Spec: the colour of the backdrop tile in `row`, `col`: red, amber,
/// green and blue in turn along the diagonals.
pub open spec fn tile_color_spec(row: int, col: int) -> u32 {
    let k = (row + col) % 4;
    if k == 0 {
        0xDC3C3C
    } else if k == 1 {
        0xDCA028
    } else if k == 2 {
        0x3CC850
    } else {
        0x288CDC
    }
}

fn tile_color(row: i32, col: i32) -> (c: u32)
    requires
        0 <= row < 100,
        0 <= col < 100,
    ensures
        c == tile_color_spec(row as int, col as int),
{
    let k = (row + col) % 4;
    if k == 0 {
        0xDC3C3C
    } else if k == 1 {
        0xDCA028
    } else if k == 2 {
        0x3CC850
    } else {
        0x288CDC
    }
}

/// Spec: backdrop tile `k` (row-major, four to a row): a 32 px square of
/// the tile colour, placed at its grid position.
pub open spec fn backdrop_tile(d: EntityData, backdrop: Entity, k: int) -> bool {
    widget_node(
        d,
        Some(backdrop),
        colored(tile_color_spec(k / 4, k % 4)),
        Some(placed_spec(((k % 4) * 32) as i32, ((k / 4) * 32) as i32, 32, 32)),
        None,
    )
}

/// Spec: the demo as built under `parent` from `n` pre-existing entities:
/// a growing backdrop (entity `n`) of twelve coloured tiles in three rows
/// (`n + 1` to `n + 12`), then, directly under `parent`, the mirrored
/// bar (`n + 13`), the box that shows its reflection (`n + 14`), a line
/// of text (`n + 15`) and the sliding glass panel (`n + 16`).
pub open spec fn effect_glass_built(w: &World, w2: &World, parent: Entity) -> bool {
    let n = w.entities@.len() as int;
    &&& crate::gallery::parent_kept(w, w2, parent)
    &&& w2.res == w.res
    &&& w2.entities@.len() == n + 17
    &&& w2.data(parent).children@ == w.data(parent).children@ + seq![
        entity_at(n),
        entity_at(n + 13),
        entity_at(n + 14),
        entity_at(n + 15),
        entity_at(n + 16),
    ]
    &&& widget_node(w2.entities@[n], Some(parent), WidgetComponents::empty(), Some(Style::flow_spec()), None)
    &&& w2.entities@[n].children@ == Seq::new(12, |k: int| entity_at(n + 1 + k))
    &&& forall|k: int| 0 <= k < 12 ==> #[trigger] backdrop_tile(w2.entities@[n + 1 + k], entity_at(n), k)
    &&& widget_node(w2.entities@[n + 13], Some(parent), colored(0x50A0FF), Some(placed_spec(8, 8, 40, 14)), None)
    &&& widget_node(w2.entities@[n + 14], Some(parent), WidgetComponents::empty(), Some(placed_spec(8, 24, 40, 14)), None)
    &&& widget_node(
        w2.entities@[n + 15],
        Some(parent),
        WidgetComponents { text: w2.entities@[n + 15].widgets.text, ..WidgetComponents::empty() },
        Some(placed_spec(8, 58, 112, 14)),
        None,
    )
    &&& shows(w2.entities@[n + 15], "BlurMeBlurMe")
    &&& w2.entities@[n + 16] == (EntityData { glass_slide: Some(GlassSlide { elapsed_ms: 0 }), ..w2.entities@[n + 16] })
    &&& widget_node(
        EntityData { glass_slide: None, ..w2.entities@[n + 16] },
        Some(parent),
        colored(0xFFFFFF),
        Some(placed_spec(GLASS_MARGIN, 50, GLASS_W, 30)),
        None,
    )
    &&& forall|i: int| 0 <= i < n && i != parent.id ==> #[trigger] w2.entities@[i] == w.entities@[i]
}

pub fn build_widgets(world: &mut World, parent: Entity)
    requires
        old(world).has(parent),
        old(world).entities@.len() + 17 < u32::MAX,
    ensures
        effect_glass_built(old(world), final(world), parent),
{
    let ghost w0 = *world;
    let ghost n = w0.entities@.len() as int;
    let backdrop = add_node(world, parent, WidgetComponents::none(), Some(Style::flow()), None);
    let ghost w1 = *world;
    let mut k: i32 = 0;
    assert(world.entities@[n].children@ =~= Seq::new(0, |j: int| entity_at(n + 1 + j)));
    while k < 12
        invariant
            0 <= k <= 12,
            n == w0.entities@.len(),
            n + 17 < u32::MAX,
            backdrop == entity_at(n),
            0 <= parent.id < n,
            world.res == w0.res,
            world.entities@.len() == n + 1 + k,
            world.entities@[parent.id as int] == w1.entities@[parent.id as int],
            world.entities@[n] == (EntityData { children: world.entities@[n].children, ..w1.entities@[n] }),
            world.entities@[n].children@ == Seq::new(k as nat, |j: int| entity_at(n + 1 + j)),
            forall|j: int| 0 <= j < k ==> #[trigger] backdrop_tile(world.entities@[n + 1 + j], backdrop, j),
            forall|i: int| 0 <= i < n ==> #[trigger] world.entities@[i] == w1.entities@[i],
            world.entities@[n].generation == 0,
        decreases 12 - k,
    {
        let row = k / 4;
        let col = k % 4;
        let c = tile_color(row, col);
        let ghost wk = *world;
        let tile = add_node(world, backdrop, colored_exec(c), Some(placed(col * 32, row * 32, 32, 32)), None);
        proof {
            assert(world.entities@[n].children@ =~= Seq::new((k + 1) as nat, |j: int| entity_at(n + 1 + j)));
            assert forall|j: int| 0 <= j < k + 1 implies #[trigger] backdrop_tile(world.entities@[n + 1 + j], backdrop, j) by {
                if j < k {
                    assert(world.entities@[n + 1 + j] == wk.entities@[n + 1 + j]);
                }
            }
            assert forall|i: int| 0 <= i < n implies #[trigger] world.entities@[i] == w1.entities@[i] by {
                assert(world.entities@[i] == wk.entities@[i]);
            }
        }
        k = k + 1;
    }
    let ghost w2 = *world;
    let source = add_node(world, parent, colored_exec(0x50A0FF), Some(placed(8, 8, 40, 14)), None);
    let ghost w3 = *world;
    let mirror = add_node(world, parent, WidgetComponents::none(), Some(placed(8, 24, 40, 14)), None);
    let ghost w4 = *world;
    let label = add_text_node(world, parent, WidgetComponents::none(), "BlurMeBlurMe", Some(placed(8, 58, 112, 14)), None);
    let ghost w5 = *world;
    let glass = add_node(world, parent, colored_exec(0xFFFFFF), Some(placed(GLASS_MARGIN, 50, GLASS_W, 30)), None);
    let ghost w6 = *world;
    world.entities[glass.id as usize].glass_slide = Some(GlassSlide { elapsed_ms: 0 });
    proof {
        assert(world.data(parent).children@ =~= w0.data(parent).children@ + seq![
            entity_at(n),
            entity_at(n + 13),
            entity_at(n + 14),
            entity_at(n + 15),
            entity_at(n + 16),
        ]);
        assert(world.entities@[n] == w2.entities@[n]) by {
            assert(w3.entities@[n] == w2.entities@[n]);
            assert(w4.entities@[n] == w3.entities@[n]);
            assert(w5.entities@[n] == w4.entities@[n]);
            assert(w6.entities@[n] == w5.entities@[n]);
        }
        assert forall|k: int| 0 <= k < 12 implies #[trigger] backdrop_tile(world.entities@[n + 1 + k], entity_at(n), k) by {
            assert(w3.entities@[n + 1 + k] == w2.entities@[n + 1 + k]);
            assert(w4.entities@[n + 1 + k] == w3.entities@[n + 1 + k]);
            assert(w5.entities@[n + 1 + k] == w4.entities@[n + 1 + k]);
            assert(w6.entities@[n + 1 + k] == w5.entities@[n + 1 + k]);
            assert(world.entities@[n + 1 + k] == w6.entities@[n + 1 + k]);
        }
        assert(world.entities@[n + 13] == w3.entities@[n + 13]) by {
            assert(w4.entities@[n + 13] == w3.entities@[n + 13]);
            assert(w5.entities@[n + 13] == w4.entities@[n + 13]);
            assert(w6.entities@[n + 13] == w5.entities@[n + 13]);
        }
        assert(world.entities@[n + 14] == w4.entities@[n + 14]) by {
            assert(w5.entities@[n + 14] == w4.entities@[n + 14]);
            assert(w6.entities@[n + 14] == w5.entities@[n + 14]);
        }
        assert(world.entities@[n + 15] == w5.entities@[n + 15]) by {
            assert(w6.entities@[n + 15] == w5.entities@[n + 15]);
        }
        assert(EntityData { glass_slide: None, ..world.entities@[n + 16] } == w6.entities@[n + 16]);
        assert forall|i: int| 0 <= i < n && i != parent.id implies #[trigger] world.entities@[i] == w0.entities@[i] by {
            assert(w1.entities@[i] == w0.entities@[i]);
            assert(w2.entities@[i] == w1.entities@[i]);
            assert(w3.entities@[i] == w2.entities@[i]);
            assert(w4.entities@[i] == w3.entities@[i]);
            assert(w5.entities@[i] == w4.entities@[i]);
            assert(w6.entities@[i] == w5.entities@[i]);
        }
    }
}

pub fn setup_app(app: &mut App, parent: Entity)
    requires
        old(app).world.has(parent),
        old(app).world.entities@.len() + 17 < u32::MAX,
    ensures
        effect_glass_built(&old(app).world, &final(app).world, parent),
{
    build_widgets(&mut app.world, parent);
}

} // verus!
