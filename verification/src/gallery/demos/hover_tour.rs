//! "hover tour": three cards in a row that a simulated cursor sweeps
//! back and forth, so the hover overlays follow it.
use vstd::prelude::*;

use crate::anim::Ease;
use crate::components::WidgetComponents;
use crate::ecs::{entity_at, Entity, EntityData, Resources, World};
use crate::event::sim::{MoveAction, SimAction, SimTimeline};
use crate::gallery::{add_node, add_text_node, colored, colored_exec, shows, sized, sized_spec, tall, tall_spec, widget_node, App};
use crate::types::{DimPoint, Dimension, Fixed, Point};
use crate::widget::{LayoutStyle, Style};

verus! {

/// Spec: a 16 pixel wide gap between cards, as tall as the row.
pub open spec fn spacer_spec() -> Style {
    Style {
        layout: LayoutStyle {
            absolute: false,
            left: Dimension::Px(Fixed { raw: 0 }),
            top: Dimension::Px(Fixed { raw: 0 }),
            width: Dimension::Px(Fixed { raw: 4096i32 }),
            height: Dimension::Percent(Fixed { raw: 25600i32 }),
        },
    }
}

fn spacer_exec() -> (s: Style)
    ensures
        s == spacer_spec(),
{
    Style {
        layout: LayoutStyle {
            absolute: false,
            left: Dimension::px(0),
            top: Dimension::px(0),
            width: Dimension::px(16),
            height: Dimension::percent(100),
        },
    }
}

/// Spec: the parent after the demo dressed it: a styled parent becomes a
/// dark 720 x 360 surface; an unstyled one is left alone.
pub open spec fn dressed_parent(d: EntityData) -> EntityData {
    if d.style is Some {
        EntityData {
            style: Some(sized_spec(720, 360)),
            widgets: WidgetComponents { bg_color: Some(0x0D1117), ..d.widgets },
            ..d
        }
    } else {
        d
    }
}

/// Spec: `d` is a card under `row` with background `color` showing `text`.
pub open spec fn card_built(d: EntityData, row: Entity, color: u32, text: &str) -> bool {
    &&& widget_node(d, Some(row), WidgetComponents { text: d.widgets.text, ..colored(color) }, Some(Style::flow_spec()), None)
    &&& shows(d, text)
    &&& d.children@.len() == 0
}

/// Spec: the demo as built under `parent` from `n` pre-existing entities:
/// the parent dressed as the surface; a column (`n`) with the caption
/// (`n + 1`), a gap (`n + 2`) and the row (`n + 3`) of cards A, B and C
/// (`n + 4`, `n + 6`, `n + 8`) with gaps between them (`n + 5`, `n + 7`).
pub open spec fn hover_tour_built(w: &World, w2: &World, parent: Entity) -> bool {
    let n = w.entities@.len() as int;
    let e = w2.entities@;
    &&& w2.res == w.res
    &&& e.len() == n + 9
    &&& w2.data(parent) == (EntityData {
        children: w2.data(parent).children,
        ..dressed_parent(w.data(parent))
    })
    &&& w2.data(parent).children@ == w.data(parent).children@.push(entity_at(n))
    &&& widget_node(e[n], Some(parent), WidgetComponents::empty(), Some(Style::flow_spec()), None)
    &&& e[n].children@ == seq![entity_at(n + 1), entity_at(n + 2), entity_at(n + 3)]
    &&& widget_node(
        e[n + 1],
        Some(entity_at(n)),
        WidgetComponents { text: e[n + 1].widgets.text, ..WidgetComponents::empty() },
        Some(tall_spec(36)),
        None,
    )
    &&& shows(e[n + 1], "MoveTo demo: simulated cursor sweeps the row, hover overlays follow")
    &&& widget_node(e[n + 2], Some(entity_at(n)), WidgetComponents::empty(), Some(tall_spec(16)), None)
    &&& widget_node(e[n + 3], Some(entity_at(n)), WidgetComponents::empty(), Some(Style::flow_spec()), None)
    &&& e[n + 3].children@ == seq![
        entity_at(n + 4),
        entity_at(n + 5),
        entity_at(n + 6),
        entity_at(n + 7),
        entity_at(n + 8),
    ]
    &&& card_built(e[n + 4], entity_at(n + 3), 0x224A2C, "Card A")
    &&& widget_node(e[n + 5], Some(entity_at(n + 3)), WidgetComponents::empty(), Some(spacer_spec()), None)
    &&& card_built(e[n + 6], entity_at(n + 3), 0x522626, "Card B")
    &&& widget_node(e[n + 7], Some(entity_at(n + 3)), WidgetComponents::empty(), Some(spacer_spec()), None)
    &&& card_built(e[n + 8], entity_at(n + 3), 0x223856, "Card C")
    &&& forall|i: int| 0 <= i < n && i != parent.id ==> #[trigger] e[i] == w.entities@[i]
}

/// Dresses `parent` as the demo's surface and builds the cards under it.
#[verifier::rlimit(40)]
pub fn build_widgets(world: &mut World, parent: Entity)
    requires
        old(world).has(parent),
        old(world).entities@.len() + 9 < u32::MAX,
    ensures
        hover_tour_built(old(world), final(world), parent),
{
    let ghost w_in = *world;
    let p = parent.id as usize;
    if world.entities[p].style.is_some() {
        world.entities[p].style = Some(sized(720, 360));
        world.entities[p].widgets.bg_color = Some(0x0D1117);
    }
    let ghost w0 = *world;
    proof {
        assert(w0.entities@ =~= w_in.entities@.update(parent.id as int, dressed_parent(w_in.data(parent))));
    }
    let column = add_node(world, parent, WidgetComponents::none(), Some(Style::flow()), None);
    let ghost w1 = *world;
    let header = add_text_node(
        world,
        column,
        WidgetComponents::none(),
        "MoveTo demo: simulated cursor sweeps the row, hover overlays follow",
        Some(tall(36)),
        None,
    );
    let ghost w2 = *world;
    let gap = add_node(world, column, WidgetComponents::none(), Some(tall(16)), None);
    let ghost w3 = *world;
    let row = add_node(world, column, WidgetComponents::none(), Some(Style::flow()), None);
    let ghost w4 = *world;
    let card_a = add_text_node(world, row, colored_exec(0x224A2C), "Card A", Some(Style::flow()), None);
    let ghost w5 = *world;
    let spacer_ab = add_node(world, row, WidgetComponents::none(), Some(spacer_exec()), None);
    let ghost w6 = *world;
    let card_b = add_text_node(world, row, colored_exec(0x522626), "Card B", Some(Style::flow()), None);
    let ghost w7 = *world;
    let spacer_bc = add_node(world, row, WidgetComponents::none(), Some(spacer_exec()), None);
    let ghost w8 = *world;
    let card_c = add_text_node(world, row, colored_exec(0x223856), "Card C", Some(Style::flow()), None);
    proof {
        let n = w0.entities@.len() as int;
        assert(w5.entities@[n + 0] == w4.entities@[n + 0]);
        assert(w6.entities@[n + 0] == w5.entities@[n + 0]);
        assert(w7.entities@[n + 0] == w6.entities@[n + 0]);
        assert(w8.entities@[n + 0] == w7.entities@[n + 0]);
        assert(world.entities@[n + 0] == w8.entities@[n + 0]);
        assert(w3.entities@[n + 1] == w2.entities@[n + 1]);
        assert(w4.entities@[n + 1] == w3.entities@[n + 1]);
        assert(w5.entities@[n + 1] == w4.entities@[n + 1]);
        assert(w6.entities@[n + 1] == w5.entities@[n + 1]);
        assert(w7.entities@[n + 1] == w6.entities@[n + 1]);
        assert(w8.entities@[n + 1] == w7.entities@[n + 1]);
        assert(world.entities@[n + 1] == w8.entities@[n + 1]);
        assert(w4.entities@[n + 2] == w3.entities@[n + 2]);
        assert(w5.entities@[n + 2] == w4.entities@[n + 2]);
        assert(w6.entities@[n + 2] == w5.entities@[n + 2]);
        assert(w7.entities@[n + 2] == w6.entities@[n + 2]);
        assert(w8.entities@[n + 2] == w7.entities@[n + 2]);
        assert(world.entities@[n + 2] == w8.entities@[n + 2]);
        assert(w6.entities@[n + 4] == w5.entities@[n + 4]);
        assert(w7.entities@[n + 4] == w6.entities@[n + 4]);
        assert(w8.entities@[n + 4] == w7.entities@[n + 4]);
        assert(world.entities@[n + 4] == w8.entities@[n + 4]);
        assert(w7.entities@[n + 5] == w6.entities@[n + 5]);
        assert(w8.entities@[n + 5] == w7.entities@[n + 5]);
        assert(world.entities@[n + 5] == w8.entities@[n + 5]);
        assert(w8.entities@[n + 6] == w7.entities@[n + 6]);
        assert(world.entities@[n + 6] == w8.entities@[n + 6]);
        assert(world.entities@[n + 7] == w8.entities@[n + 7]);
        assert(w2.data(parent) == w1.data(parent));
        assert(w3.data(parent) == w2.data(parent));
        assert(w4.data(parent) == w3.data(parent));
        assert(w5.data(parent) == w4.data(parent));
        assert(w6.data(parent) == w5.data(parent));
        assert(w7.data(parent) == w6.data(parent));
        assert(w8.data(parent) == w7.data(parent));
        assert(world.data(parent) == w8.data(parent));
        assert(world.entities@[n].children@ =~= seq![entity_at(n + 1), entity_at(n + 2), entity_at(n + 3)]);
        assert(world.entities@[n + 3].children@ =~= seq![
            entity_at(n + 4),
            entity_at(n + 5),
            entity_at(n + 6),
            entity_at(n + 7),
            entity_at(n + 8),
        ]);
        assert forall|k: int| 0 <= k < n && k != parent.id implies #[trigger] world.entities@[k] == w_in.entities@[k] by {
            assert(w1.entities@[k] == w0.entities@[k]);
            assert(w2.entities@[k] == w1.entities@[k]);
            assert(w3.entities@[k] == w2.entities@[k]);
            assert(w4.entities@[k] == w3.entities@[k]);
            assert(w5.entities@[k] == w4.entities@[k]);
            assert(w6.entities@[k] == w5.entities@[k]);
            assert(w7.entities@[k] == w6.entities@[k]);
            assert(w8.entities@[k] == w7.entities@[k]);
            assert(world.entities@[k] == w8.entities@[k]);
        }
    }
}

/// Spec: the cursor's sweep: from (80, 200) to (640, 200) and back, each
/// way over 2.4 s with a cubic ease in and out, resting 0.4 s at each end.
pub open spec fn sweep_actions() -> Seq<SimAction> {
    let left = DimPoint { x: Dimension::Px(Fixed { raw: 20480i32 }), y: Dimension::Px(Fixed { raw: 51200i32 }) };
    let right = DimPoint { x: Dimension::Px(Fixed { raw: 163840i32 }), y: Dimension::Px(Fixed { raw: 51200i32 }) };
    seq![
        SimAction::MoveTo(MoveAction { from: left, to: right, duration_ms: 2400, ease: Ease::EaseInOutCubic, anchor: None }),
        SimAction::Wait(400),
        SimAction::MoveTo(MoveAction { from: right, to: left, duration_ms: 2400, ease: Ease::EaseInOutCubic, anchor: None }),
        SimAction::Wait(400),
    ]
}

/// Installs the looping cursor sweep and builds the demo under `parent`.
pub fn setup_app(app: &mut App, parent: Entity)
    requires
        old(app).world.has(parent),
        old(app).world.entities@.len() + 9 < u32::MAX,
    ensures
        final(app).world.res.sim_timeline matches Some(tl) && tl.looping && tl.total_ms == 5600 && tl.entries@.len() == 4
            && (forall|i: int| 0 <= i < 4 ==> (#[trigger] tl.entries@[i]).action == sweep_actions()[i]),
        hover_tour_built(
            &World {
                entities: old(app).world.entities,
                res: Resources { sim_timeline: final(app).world.res.sim_timeline, ..old(app).world.res },
            },
            &final(app).world,
            parent,
        ),
{
    let left = DimPoint::from_point(Point { x: Fixed::from_int(80), y: Fixed::from_int(200) });
    let right = DimPoint::from_point(Point { x: Fixed::from_int(640), y: Fixed::from_int(200) });
    let mut actions: Vec<SimAction> = Vec::new();
    actions.push(SimAction::move_to(left, right, 2400, Ease::EaseInOutCubic));
    actions.push(SimAction::wait(400));
    actions.push(SimAction::move_to(right, left, 2400, Ease::EaseInOutCubic));
    actions.push(SimAction::wait(400));
    proof {
        assert(actions@ =~= sweep_actions());
        reveal_with_fuel(crate::event::sim::durations_before, 5);
    }
    let timeline = SimTimeline::new(actions).looping(true);
    app.world.res.sim_timeline = Some(timeline);
    build_widgets(&mut app.world, parent);
}

} // verus!
