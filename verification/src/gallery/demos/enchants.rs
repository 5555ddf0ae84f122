//! "enchants": a column with a header and a 16 x 16 picture placed at an
//! absolute position over it.
use vstd::prelude::*;

use crate::components::WidgetComponents;
use crate::ecs::{entity_at, Entity, World};
use crate::gallery::{add_node, add_text_node, colored, colored_exec, placed, placed_spec, shows, tall, tall_spec, widget_node, App};
use crate::widget::Style;

verus! {

/// Spec: the demo as built under `parent` from `n` pre-existing entities:
/// a growing column (entity `n`) holding the header (`n + 1`) and the
/// picture's box at (200, 150) (`n + 2`).
pub open spec fn enchants_built(w: &World, w2: &World, parent: Entity) -> bool {
    let n = w.entities@.len() as int;
    &&& crate::gallery::parent_kept(w, w2, parent)
    &&& w2.res == w.res
    &&& w2.entities@.len() == n + 3
    &&& w2.data(parent).children@ == w.data(parent).children@.push(entity_at(n))
    &&& widget_node(w2.entities@[n], Some(parent), WidgetComponents::empty(), Some(Style::flow_spec()), None)
    &&& w2.entities@[n].children@ == seq![entity_at(n + 1), entity_at(n + 2)]
    &&& widget_node(
        w2.entities@[n + 1],
        Some(entity_at(n)),
        WidgetComponents { text: w2.entities@[n + 1].widgets.text, ..colored(0x58A6FF) },
        Some(tall_spec(40)),
        None,
    )
    &&& shows(w2.entities@[n + 1], "Enchants Demo")
    &&& widget_node(w2.entities@[n + 2], Some(entity_at(n)), WidgetComponents::empty(), Some(placed_spec(200, 150, 16, 16)), None)
    &&& forall|i: int| 0 <= i < n && i != parent.id ==> #[trigger] w2.entities@[i] == w.entities@[i]
}

pub fn build_widgets(world: &mut World, parent: Entity)
    requires
        old(world).has(parent),
        old(world).entities@.len() + 3 < u32::MAX,
    ensures
        enchants_built(old(world), final(world), parent),
{
    let ghost w0 = *world;
    let column = add_node(world, parent, WidgetComponents::none(), Some(Style::flow()), None);
    let ghost w1 = *world;
    let header = add_text_node(world, column, colored_exec(0x58A6FF), "Enchants Demo", Some(tall(40)), None);
    let ghost w2 = *world;
    let picture = add_node(world, column, WidgetComponents::none(), Some(placed(200, 150, 16, 16)), None);
    proof {
        let n = w0.entities@.len() as int;
        assert(world.entities@[n].children@ =~= seq![entity_at(n + 1), entity_at(n + 2)]);
        assert(world.entities@[n + 1] == w2.entities@[n + 1]);
        assert forall|i: int| 0 <= i < n && i != parent.id implies #[trigger] world.entities@[i] == w0.entities@[i] by {
            assert(w1.entities@[i] == w0.entities@[i]);
            assert(w2.entities@[i] == w1.entities@[i]);
        }
    }
}

pub fn setup_app(app: &mut App, parent: Entity)
    requires
        old(app).world.has(parent),
        old(app).world.entities@.len() + 3 < u32::MAX,
    ensures
        enchants_built(&old(app).world, &final(app).world, parent),
{
    build_widgets(&mut app.world, parent);
}

} // verus!
