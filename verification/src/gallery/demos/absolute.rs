//! "absolute": a column with a header and a filler in the flow, and
//! boxes placed at absolute positions on top.
use vstd::prelude::*;

use crate::components::WidgetComponents;
use crate::ecs::{entity_at, Entity, World};
use crate::gallery::{
    add_node, add_text_node, colored, colored_exec, placed, placed_spec, shows, sized, sized_spec, tall,
    tall_spec, widget_node, App,
};
use crate::widget::Style;

verus! {

/// Spec: the demo as built under `parent` from `n` pre-existing entities:
/// a 480 x 320 column (entity `n`) holding the header (`n + 1`), a filler
/// (`n + 2`) and three absolutely placed boxes (`n + 3` to `n + 5`).
pub open spec fn absolute_built(w: &World, w2: &World, parent: Entity) -> bool {
    let n = w.entities@.len() as int;
    &&& crate::gallery::parent_kept(w, w2, parent)
    &&& w2.res == w.res
    &&& w2.entities@.len() == n + 6
    &&& w2.data(parent).children@ == w.data(parent).children@.push(entity_at(n))
    &&& widget_node(w2.entities@[n], Some(parent), colored(0x1E1E2E), Some(sized_spec(480, 320)), None)
    &&& w2.entities@[n].children@ == seq![
        entity_at(n + 1),
        entity_at(n + 2),
        entity_at(n + 3),
        entity_at(n + 4),
        entity_at(n + 5),
    ]
    &&& widget_node(
        w2.entities@[n + 1],
        Some(entity_at(n)),
        WidgetComponents { text: w2.entities@[n + 1].widgets.text, ..colored(0x58A6FF) },
        Some(tall_spec(40)),
        None,
    )
    &&& shows(w2.entities@[n + 1], "Absolute Position Demo")
    &&& widget_node(w2.entities@[n + 2], Some(entity_at(n)), colored(0x28283C), Some(Style::flow_spec()), None)
    &&& widget_node(w2.entities@[n + 3], Some(entity_at(n)), colored(0xF85149), Some(placed_spec(50, 80, 60, 60)), None)
    &&& widget_node(w2.entities@[n + 4], Some(entity_at(n)), colored(0x3FB950), Some(placed_spec(200, 120, 80, 40)), None)
    &&& widget_node(
        w2.entities@[n + 5],
        Some(entity_at(n)),
        WidgetComponents { text: w2.entities@[n + 5].widgets.text, ..colored(0xD2A8FF) },
        Some(placed_spec(100, 200, 120, 50)),
        None,
    )
    &&& shows(w2.entities@[n + 5], "floating")
    &&& forall|i: int| 0 <= i < n && i != parent.id ==> #[trigger] w2.entities@[i] == w.entities@[i]
}

pub fn build_widgets(world: &mut World, parent: Entity)
    requires
        old(world).has(parent),
        old(world).entities@.len() + 6 < u32::MAX,
    ensures
        absolute_built(old(world), final(world), parent),
{
    let ghost w0 = *world;
    let column = add_node(world, parent, colored_exec(0x1E1E2E), Some(sized(480, 320)), None);
    let ghost w1 = *world;
    let header = add_text_node(world, column, colored_exec(0x58A6FF), "Absolute Position Demo", Some(tall(40)), None);
    let ghost w2 = *world;
    let filler = add_node(world, column, colored_exec(0x28283C), Some(Style::flow()), None);
    let ghost w3 = *world;
    let red = add_node(world, column, colored_exec(0xF85149), Some(placed(50, 80, 60, 60)), None);
    let ghost w4 = *world;
    let green = add_node(world, column, colored_exec(0x3FB950), Some(placed(200, 120, 80, 40)), None);
    let ghost w5 = *world;
    let floating = add_text_node(world, column, colored_exec(0xD2A8FF), "floating", Some(placed(100, 200, 120, 50)), None);
    proof {
        let n = w0.entities@.len() as int;
        assert(world.entities@[n].children@ =~= seq![
            entity_at(n + 1),
            entity_at(n + 2),
            entity_at(n + 3),
            entity_at(n + 4),
            entity_at(n + 5),
        ]);
        assert(world.entities@[n + 1] == w2.entities@[n + 1]) by {
            assert(w3.entities@[n + 1] == w2.entities@[n + 1]);
            assert(w4.entities@[n + 1] == w3.entities@[n + 1]);
            assert(w5.entities@[n + 1] == w4.entities@[n + 1]);
        }
        assert(world.entities@[n + 2] == w3.entities@[n + 2]) by {
            assert(w4.entities@[n + 2] == w3.entities@[n + 2]);
            assert(w5.entities@[n + 2] == w4.entities@[n + 2]);
        }
        assert(world.entities@[n + 3] == w4.entities@[n + 3]) by {
            assert(w5.entities@[n + 3] == w4.entities@[n + 3]);
        }
        assert(world.entities@[n + 4] == w5.entities@[n + 4]);
        assert forall|i: int| 0 <= i < n && i != parent.id implies #[trigger] world.entities@[i] == w0.entities@[i] by {
            assert(w1.entities@[i] == w0.entities@[i]);
            assert(w2.entities@[i] == w1.entities@[i]);
            assert(w3.entities@[i] == w2.entities@[i]);
            assert(w4.entities@[i] == w3.entities@[i]);
            assert(w5.entities@[i] == w4.entities@[i]);
        }
    }
}

pub fn setup_app(app: &mut App, parent: Entity)
    requires
        old(app).world.has(parent),
        old(app).world.entities@.len() + 6 < u32::MAX,
    ensures
        absolute_built(&old(app).world, &final(app).world, parent),
{
    build_widgets(&mut app.world, parent);
}

} // verus!
