//! "disabled": two cards that count taps into their text, and a button
//! that toggles `Disabled` on the right card.
use vstd::prelude::*;

use crate::components::{BuiltinGesture, WidgetComponents, TAG_TARGET_CARD};
use crate::ecs::{entity_at, Entity, World};
use crate::event::{GestureCallback, GestureHandler};
use crate::gallery::{
    add_node, add_text_node, colored, colored_exec, shows, tall, tall_spec, widget_node, widget_node_tagged, App,
};
use crate::widget::Style;

verus! {

/// Number of taps a card has counted.
#[derive(Clone, Copy, Debug, PartialEq, Eq, Structural)]
pub struct ClickCount(pub u32);

pub open spec fn counter_handler() -> GestureHandler {
    GestureHandler { on_gesture: GestureCallback::Builtin(BuiltinGesture::DemoClickCounter) }
}

pub open spec fn card_components(color: u32) -> WidgetComponents {
    WidgetComponents { click_count: Some(ClickCount(0)), ..colored(color) }
}

/// Spec: the demo as built under `parent` from `n` pre-existing entities:
/// a column (entity `n`, `parent`'s new last child) holding a row of two
/// counting cards (`n + 2`, and `n + 3`, tagged as the target card) and
/// the toggle button (`n + 4`).
pub open spec fn disabled_demo_built(w: &World, w2: &World, parent: Entity) -> bool {
    let n = w.entities@.len() as int;
    &&& crate::gallery::parent_kept(w, w2, parent)
    &&& w2.res == w.res
    &&& w2.entities@.len() == n + 5
    &&& w2.data(parent).children@ == w.data(parent).children@.push(entity_at(n))
    &&& widget_node(w2.entities@[n], Some(parent), WidgetComponents::empty(), Some(Style::flow_spec()), None)
    &&& w2.entities@[n].children@ == seq![entity_at(n + 1), entity_at(n + 4)]
    &&& widget_node(w2.entities@[n + 1], Some(entity_at(n)), WidgetComponents::empty(), Some(Style::flow_spec()), None)
    &&& w2.entities@[n + 1].children@ == seq![entity_at(n + 2), entity_at(n + 3)]
    &&& widget_node(
        w2.entities@[n + 2],
        Some(entity_at(n + 1)),
        WidgetComponents { text: w2.entities@[n + 2].widgets.text, ..card_components(0x3FB950) },
        Some(Style::flow_spec()),
        Some(counter_handler()),
    )
    &&& shows(w2.entities@[n + 2], "Tap me to bump count")
    &&& widget_node_tagged(
        w2.entities@[n + 3],
        Some(entity_at(n + 1)),
        WidgetComponents { text: w2.entities@[n + 3].widgets.text, ..card_components(0xF85149) },
        Some(Style::flow_spec()),
        Some(counter_handler()),
        seq![TAG_TARGET_CARD],
    )
    &&& shows(w2.entities@[n + 3], "Disabled target")
    &&& widget_node(
        w2.entities@[n + 4],
        Some(entity_at(n)),
        WidgetComponents { text: w2.entities@[n + 4].widgets.text, ..colored(0x58A6FF) },
        Some(tall_spec(40)),
        Some(GestureHandler { on_gesture: GestureCallback::Builtin(BuiltinGesture::DemoDisableToggle) }),
    )
    &&& shows(w2.entities@[n + 4], "Toggle Disabled on right card")
    &&& forall|i: int| 0 <= i < n && i != parent.id ==> #[trigger] w2.entities@[i] == w.entities@[i]
}

pub fn build_widgets(world: &mut World, parent: Entity)
    requires
        old(world).has(parent),
        old(world).entities@.len() + 5 < u32::MAX,
    ensures
        disabled_demo_built(old(world), final(world), parent),
{
    let ghost w0 = *world;
    let column = add_node(world, parent, WidgetComponents::none(), Some(Style::flow()), None);
    let ghost w1 = *world;
    let row = add_node(world, column, WidgetComponents::none(), Some(Style::flow()), None);
    let ghost w2 = *world;
    let left = add_text_node(
        world,
        row,
        WidgetComponents { click_count: Some(ClickCount(0)), ..colored_exec(0x3FB950) },
        "Tap me to bump count",
        Some(Style::flow()),
        Some(GestureHandler { on_gesture: GestureCallback::Builtin(BuiltinGesture::DemoClickCounter) }),
    );
    let ghost w3 = *world;
    let right = add_text_node(
        world,
        row,
        WidgetComponents { click_count: Some(ClickCount(0)), ..colored_exec(0xF85149) },
        "Disabled target",
        Some(Style::flow()),
        Some(GestureHandler { on_gesture: GestureCallback::Builtin(BuiltinGesture::DemoClickCounter) }),
    );
    let ghost w4 = *world;
    world.add_tag(right, TAG_TARGET_CARD);
    let ghost w5 = *world;
    let toggle = add_text_node(
        world,
        column,
        colored_exec(0x58A6FF),
        "Toggle Disabled on right card",
        Some(tall(40)),
        Some(GestureHandler { on_gesture: GestureCallback::Builtin(BuiltinGesture::DemoDisableToggle) }),
    );
    proof {
        let n = w0.entities@.len() as int;
        assert(world.entities@[n].children@ =~= seq![entity_at(n + 1), entity_at(n + 4)]);
        assert(world.entities@[n + 1].children@ =~= seq![entity_at(n + 2), entity_at(n + 3)]);
        assert(world.entities@[n + 1] == w4.entities@[n + 1]);
        assert(world.entities@[n + 2] == w3.entities@[n + 2]);
        assert(world.entities@[n + 3] == w5.entities@[n + 3]);
        assert(w5.entities@[n + 3].tags@ =~= seq![TAG_TARGET_CARD]);
        assert forall|i: int| 0 <= i < n && i != parent.id implies #[trigger] world.entities@[i] == w0.entities@[i] by {
            assert(w1.entities@[i] == w0.entities@[i]);
            assert(w2.entities@[i] == w1.entities@[i]);
            assert(w3.entities@[i] == w2.entities@[i]);
            assert(w4.entities@[i] == w3.entities@[i]);
            assert(w5.entities@[i] == w4.entities@[i]);
        }
    }
}

pub fn setup_app(app: &mut App, parent: Entity)
    requires
        old(app).world.has(parent),
        old(app).world.entities@.len() + 5 < u32::MAX,
    ensures
        disabled_demo_built(&old(app).world, &final(app).world, parent),
{
    build_widgets(&mut app.world, parent);
}

} // verus!
