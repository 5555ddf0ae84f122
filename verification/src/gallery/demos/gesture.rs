//! "gesture": a tap box that counts taps and cycles colours, a box that
//! follows drags and snaps home, and a box that turns red on long press.
use vstd::prelude::*;

use crate::components::{BuiltinGesture, WidgetComponents};
use crate::ecs::{entity_at, Entity, World};
use crate::event::{GestureCallback, GestureHandler};
use crate::gallery::{add_node, colored, colored_exec, placed, placed_spec, widget_node, App};
use crate::widget::Style;

verus! {

/// Number of taps the tap box has seen.
#[derive(Clone, Copy, Debug, PartialEq, Eq, Structural)]
pub struct TapCount(pub u32);

pub open spec fn handler_of(b: BuiltinGesture) -> GestureHandler {
    GestureHandler { on_gesture: GestureCallback::Builtin(b) }
}

/// Spec: the demo as built under `parent` from `n` pre-existing entities:
/// a root (entity `n`, `parent`'s new last child) holding the tap box,
/// the drag box and the long-press box (entities `n + 1` to `n + 3`).
pub open spec fn gesture_demo_built(w: &World, w2: &World, parent: Entity) -> bool {
    let n = w.entities@.len() as int;
    &&& crate::gallery::parent_kept(w, w2, parent)
    &&& w2.res == w.res
    &&& w2.entities@.len() == n + 4
    &&& w2.data(parent).children@ == w.data(parent).children@.push(entity_at(n))
    &&& widget_node(w2.entities@[n], Some(parent), WidgetComponents::empty(), Some(Style::flow_spec()), None)
    &&& w2.entities@[n].children@ == seq![entity_at(n + 1), entity_at(n + 2), entity_at(n + 3)]
    &&& widget_node(
        w2.entities@[n + 1],
        Some(entity_at(n)),
        WidgetComponents { tap_count: Some(TapCount(0)), ..colored(0x3FB950) },
        Some(placed_spec(20, 20, 60, 60)),
        Some(handler_of(BuiltinGesture::DemoTapCounter)),
    )
    &&& widget_node(
        w2.entities@[n + 2],
        Some(entity_at(n)),
        colored(0x58A6FF),
        Some(placed_spec(90, 90, 50, 50)),
        Some(handler_of(BuiltinGesture::DemoDragBox)),
    )
    &&& widget_node(
        w2.entities@[n + 3],
        Some(entity_at(n)),
        colored(0xD2A8FF),
        Some(placed_spec(200, 20, 80, 80)),
        Some(handler_of(BuiltinGesture::DemoLongPressBox)),
    )
    &&& forall|i: int| 0 <= i < n && i != parent.id ==> #[trigger] w2.entities@[i] == w.entities@[i]
}

pub fn build_widgets(world: &mut World, parent: Entity)
    requires
        old(world).has(parent),
        old(world).entities@.len() + 4 < u32::MAX,
    ensures
        gesture_demo_built(old(world), final(world), parent),
{
    let ghost w0 = *world;
    let root = add_node(world, parent, WidgetComponents::none(), Some(Style::flow()), None);
    let ghost w1 = *world;
    let tap_box = add_node(
        world,
        root,
        WidgetComponents { tap_count: Some(TapCount(0)), ..colored_exec(0x3FB950) },
        Some(placed(20, 20, 60, 60)),
        Some(GestureHandler { on_gesture: GestureCallback::Builtin(BuiltinGesture::DemoTapCounter) }),
    );
    let ghost w2 = *world;
    let drag_box = add_node(
        world,
        root,
        colored_exec(0x58A6FF),
        Some(placed(90, 90, 50, 50)),
        Some(GestureHandler { on_gesture: GestureCallback::Builtin(BuiltinGesture::DemoDragBox) }),
    );
    let ghost w3 = *world;
    let press_box = add_node(
        world,
        root,
        colored_exec(0xD2A8FF),
        Some(placed(200, 20, 80, 80)),
        Some(GestureHandler { on_gesture: GestureCallback::Builtin(BuiltinGesture::DemoLongPressBox) }),
    );
    proof {
        let n = w0.entities@.len() as int;
        assert(world.entities@[n].children@ =~= seq![entity_at(n + 1), entity_at(n + 2), entity_at(n + 3)]);
        assert(world.entities@[n + 1] == w2.entities@[n + 1]);
        assert(world.entities@[n + 2] == w3.entities@[n + 2]);
        assert forall|i: int| 0 <= i < n && i != parent.id implies #[trigger] world.entities@[i] == w0.entities@[i] by {
            assert(w1.entities@[i] == w0.entities@[i]);
            assert(w2.entities@[i] == w1.entities@[i]);
            assert(w3.entities@[i] == w2.entities@[i]);
        }
    }
}

pub fn setup_app(app: &mut App, parent: Entity)
    requires
        old(app).world.has(parent),
        old(app).world.entities@.len() + 4 < u32::MAX,
    ensures
        gesture_demo_built(&old(app).world, &final(app).world, parent),
{
    build_widgets(&mut app.world, parent);
}

} // verus!
