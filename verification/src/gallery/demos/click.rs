//! "click": a row of three cards; tapping a card flips it between its
//! own colour and the accent colour.
use vstd::prelude::*;

use crate::components::{BuiltinGesture, WidgetComponents};
use crate::ecs::{entity_at, Entity, World};
use crate::event::{GestureCallback, GestureHandler};
use crate::gallery::{add_node, others_kept, sized, sized_spec, widget_node, App};
use crate::widget::Style;

verus! {

/// A card that flips between a base and an accent colour (`0xRRGGBB`).
#[derive(Clone, Copy, Debug, PartialEq, Eq, Structural)]
pub struct Toggle {
    pub on: bool,
    pub base: u32,
    pub accent: u32,
}

/// Spec: the base colours of the three cards.
pub open spec fn card_color(k: int) -> u32 {
    if k == 0 {
        0x58A6FF
    } else if k == 1 {
        0x3FB950
    } else {
        0xF85149
    }
}

/// Spec: the accent colour every card flips to.
pub open spec fn accent() -> u32 {
    0xD2A8FF
}

/// Spec: the components of card `k` as built.
pub open spec fn card_components(k: int) -> WidgetComponents {
    WidgetComponents {
        toggle: Some(Toggle { on: false, base: card_color(k), accent: accent() }),
        bg_color: Some(card_color(k)),
        ..WidgetComponents::empty()
    }
}

/// Spec: the handler every card carries.
pub open spec fn card_handler() -> GestureHandler {
    GestureHandler { on_gesture: GestureCallback::Builtin(BuiltinGesture::DemoToggle) }
}

fn add_card(world: &mut World, row: Entity, color: u32) -> (e: Entity)
    requires
        old(world).has(row),
        old(world).entities@.len() < u32::MAX,
    ensures
        e == entity_at(old(world).entities@.len() as int),
        final(world).res == old(world).res,
        final(world).entities@.len() == old(world).entities@.len() + 1,
        final(world).has(row),
        widget_node(
            final(world).entities@[e.id as int],
            Some(row),
            WidgetComponents {
                toggle: Some(Toggle { on: false, base: color, accent: accent() }),
                bg_color: Some(color),
                ..WidgetComponents::empty()
            },
            Some(sized_spec(120, 80)),
            Some(card_handler()),
        ),
        final(world).data(row).children@ == old(world).data(row).children@.push(e),
        final(world).data(row) == (crate::ecs::EntityData { children: final(world).data(row).children, ..old(world).data(row) }),
        others_kept(old(world), final(world), old(world).entities@.len() as int, row),
{
    let wc = WidgetComponents {
        toggle: Some(Toggle { on: false, base: color, accent: 0xD2A8FF }),
        bg_color: Some(color),
        ..WidgetComponents::none()
    };
    add_node(
        world,
        row,
        wc,
        Some(sized(120, 80)),
        Some(GestureHandler { on_gesture: GestureCallback::Builtin(BuiltinGesture::DemoToggle) }),
    )
}

/// Builds the demo under `parent`: a row (the new last child of `parent`)
/// holding three toggle cards.
pub fn build_widgets(world: &mut World, parent: Entity)
    requires
        old(world).has(parent),
        old(world).entities@.len() + 4 < u32::MAX,
    ensures
        ({
            let n = old(world).entities@.len() as int;
            &&& final(world).res == old(world).res
            &&& final(world).entities@.len() == n + 4
            &&& crate::gallery::parent_kept(old(world), final(world), parent)
            &&& final(world).data(parent).children@ == old(world).data(parent).children@.push(entity_at(n))
            &&& widget_node(final(world).entities@[n], Some(parent), WidgetComponents::empty(), Some(Style::flow_spec()), None)
            &&& final(world).entities@[n].children@ == seq![entity_at(n + 1), entity_at(n + 2), entity_at(n + 3)]
            &&& forall|k: int|
                0 <= k < 3 ==> widget_node(
                    #[trigger] final(world).entities@[n + 1 + k],
                    Some(entity_at(n)),
                    card_components(k),
                    Some(sized_spec(120, 80)),
                    Some(card_handler()),
                )
            &&& forall|i: int| 0 <= i < n && i != parent.id ==> #[trigger] final(world).entities@[i] == old(world).entities@[i]
        }),
{
    let ghost w0 = *world;
    let row = add_node(world, parent, WidgetComponents::none(), Some(Style::flow()), None);
    let ghost w1 = *world;
    let c0 = add_card(world, row, 0x58A6FF);
    let ghost w2 = *world;
    let c1 = add_card(world, row, 0x3FB950);
    let ghost w3 = *world;
    let c2 = add_card(world, row, 0xF85149);
    proof {
        let n = w0.entities@.len() as int;
        assert(world.entities@[n].children@ =~= seq![entity_at(n + 1), entity_at(n + 2), entity_at(n + 3)]);
        assert(world.data(parent) == w1.data(parent));
        assert forall|k: int| 0 <= k < 3 implies widget_node(
            #[trigger] world.entities@[n + 1 + k],
            Some(entity_at(n)),
            card_components(k),
            Some(sized_spec(120, 80)),
            Some(card_handler()),
        ) by {
            if k == 0 {
                assert(world.entities@[n + 1] == w2.entities@[n + 1]);
            } else if k == 1 {
                assert(world.entities@[n + 2] == w3.entities@[n + 2]);
            }
        }
        assert forall|i: int| 0 <= i < n && i != parent.id implies #[trigger] world.entities@[i] == w0.entities@[i] by {
            assert(w1.entities@[i] == w0.entities@[i]);
            assert(w2.entities@[i] == w1.entities@[i]);
            assert(w3.entities@[i] == w2.entities@[i]);
        }
    }
}

/// Installs the demo in `app` under `parent`.
pub fn setup_app(app: &mut App, parent: Entity)
    requires
        old(app).world.has(parent),
        old(app).world.entities@.len() + 4 < u32::MAX,
    ensures
        final(app).world.res == old(app).world.res,
        final(app).world.entities@.len() == old(app).world.entities@.len() + 4,
        final(app).world.data(parent).children@ == old(app).world.data(parent).children@.push(
            entity_at(old(app).world.entities@.len() as int),
        ),
{
    build_widgets(&mut app.world, parent);
}

} // verus!
