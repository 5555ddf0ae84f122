//! "app": a row of three coloured boxes, the middle one stretching.
use vstd::prelude::*;

use crate::components::WidgetComponents;
use crate::ecs::{entity_at, Entity, World};
use crate::gallery::{add_node, colored, colored_exec, sized, sized_spec, tall, tall_spec, widget_node, App};
use crate::widget::Style;

verus! {

/// Spec: the demo as built under `parent` from `n` pre-existing entities:
/// a row (entity `n`) of three boxes (`n + 1` to `n + 3`).
pub open spec fn app_demo_built(w: &World, w2: &World, parent: Entity) -> bool {
    let n = w.entities@.len() as int;
    &&& crate::gallery::parent_kept(w, w2, parent)
    &&& w2.res == w.res
    &&& w2.entities@.len() == n + 4
    &&& w2.data(parent).children@ == w.data(parent).children@.push(entity_at(n))
    &&& widget_node(w2.entities@[n], Some(parent), WidgetComponents::empty(), Some(Style::flow_spec()), None)
    &&& w2.entities@[n].children@ == seq![entity_at(n + 1), entity_at(n + 2), entity_at(n + 3)]
    &&& widget_node(w2.entities@[n + 1], Some(entity_at(n)), colored(0x58A6FF), Some(sized_spec(120, 80)), None)
    &&& widget_node(w2.entities@[n + 2], Some(entity_at(n)), colored(0x3FB950), Some(tall_spec(80)), None)
    &&& widget_node(w2.entities@[n + 3], Some(entity_at(n)), colored(0xF85149), Some(sized_spec(120, 80)), None)
    &&& forall|i: int| 0 <= i < n && i != parent.id ==> #[trigger] w2.entities@[i] == w.entities@[i]
}

pub fn build_widgets(world: &mut World, parent: Entity)
    requires
        old(world).has(parent),
        old(world).entities@.len() + 4 < u32::MAX,
    ensures
        app_demo_built(old(world), final(world), parent),
{
    let ghost w0 = *world;
    let row = add_node(world, parent, WidgetComponents::none(), Some(Style::flow()), None);
    let ghost w1 = *world;
    let a = add_node(world, row, colored_exec(0x58A6FF), Some(sized(120, 80)), None);
    let ghost w2 = *world;
    let b = add_node(world, row, colored_exec(0x3FB950), Some(tall(80)), None);
    let ghost w3 = *world;
    let c = add_node(world, row, colored_exec(0xF85149), Some(sized(120, 80)), None);
    proof {
        let n = w0.entities@.len() as int;
        assert(world.entities@[n].children@ =~= seq![entity_at(n + 1), entity_at(n + 2), entity_at(n + 3)]);
        assert(world.entities@[n + 1] == w2.entities@[n + 1]) by {
            assert(w3.entities@[n + 1] == w2.entities@[n + 1]);
        }
        assert(world.entities@[n + 2] == w3.entities@[n + 2]);
        assert forall|i: int| 0 <= i < n && i != parent.id implies #[trigger] world.entities@[i] == w0.entities@[i] by {
            assert(w1.entities@[i] == w0.entities@[i]);
            assert(w2.entities@[i] == w1.entities@[i]);
            assert(w3.entities@[i] == w2.entities@[i]);
        }
    }
}

pub fn setup_app(app: &mut App, parent: Entity)
    requires
        old(app).world.has(parent),
        old(app).world.entities@.len() + 4 < u32::MAX,
    ensures
        app_demo_built(&old(app).world, &final(app).world, parent),
{
    build_widgets(&mut app.world, parent);
}

} // verus!
