//! "dsl": a header, a row of three labelled buttons and a footer, each
//! built by its own small function.
use vstd::prelude::*;

use crate::components::WidgetComponents;
use crate::ecs::{entity_at, Entity, World};
use crate::gallery::{add_node, add_text_node, colored, colored_exec, shows, tall, tall_spec, widget_node, App};
use crate::widget::Style;

verus! {

/// Spec: a text node under `parent` with background `color` and `style`.
pub open spec fn label(d: crate::ecs::EntityData, parent: Entity, color: u32, style: Style) -> bool {
    widget_node(d, Some(parent), WidgetComponents { text: d.widgets.text, ..colored(color) }, Some(style), None)
}

/// Spec: the demo as built under `parent` from `n` pre-existing entities:
/// the header (`n`), the row (`n + 1`, holding `n + 2` to `n + 4`) and the
/// footer (`n + 5`), all three new children of `parent`.
pub open spec fn dsl_built(w: &World, w2: &World, parent: Entity) -> bool {
    let n = w.entities@.len() as int;
    &&& crate::gallery::parent_kept(w, w2, parent)
    &&& w2.res == w.res
    &&& w2.entities@.len() == n + 6
    &&& w2.data(parent).children@ == w.data(parent).children@ + seq![entity_at(n), entity_at(n + 1), entity_at(n + 5)]
    &&& label(w2.entities@[n], parent, 0x58A6FF, tall_spec(40))
    &&& shows(w2.entities@[n], "Hello xrune!")
    &&& widget_node(w2.entities@[n + 1], Some(parent), WidgetComponents::empty(), Some(Style::flow_spec()), None)
    &&& w2.entities@[n + 1].children@ == seq![entity_at(n + 2), entity_at(n + 3), entity_at(n + 4)]
    &&& label(w2.entities@[n + 2], entity_at(n + 1), 0x3FB950, Style::flow_spec())
    &&& shows(w2.entities@[n + 2], "OK")
    &&& label(w2.entities@[n + 3], entity_at(n + 1), 0xF85149, Style::flow_spec())
    &&& shows(w2.entities@[n + 3], "Cancel")
    &&& label(w2.entities@[n + 4], entity_at(n + 1), 0xD2A8FF, Style::flow_spec())
    &&& shows(w2.entities@[n + 4], "Maybe")
    &&& label(w2.entities@[n + 5], parent, 0x323246, tall_spec(30))
    &&& shows(w2.entities@[n + 5], "Built with mirui + xrune")
    &&& forall|i: int| 0 <= i < n && i != parent.id ==> #[trigger] w2.entities@[i] == w.entities@[i]
}

pub fn build_widgets(world: &mut World, parent: Entity)
    requires
        old(world).has(parent),
        old(world).entities@.len() + 6 < u32::MAX,
    ensures
        dsl_built(old(world), final(world), parent),
{
    let ghost w0 = *world;
    let header = add_text_node(world, parent, colored_exec(0x58A6FF), "Hello xrune!", Some(tall(40)), None);
    let ghost w1 = *world;
    let row = add_node(world, parent, WidgetComponents::none(), Some(Style::flow()), None);
    let ghost w2 = *world;
    let ok = add_text_node(world, row, colored_exec(0x3FB950), "OK", Some(Style::flow()), None);
    let ghost w3 = *world;
    let cancel = add_text_node(world, row, colored_exec(0xF85149), "Cancel", Some(Style::flow()), None);
    let ghost w4 = *world;
    let maybe = add_text_node(world, row, colored_exec(0xD2A8FF), "Maybe", Some(Style::flow()), None);
    let ghost w5 = *world;
    let footer = add_text_node(world, parent, colored_exec(0x323246), "Built with mirui + xrune", Some(tall(30)), None);
    proof {
        let n = w0.entities@.len() as int;
        assert(world.data(parent).children@ =~= w0.data(parent).children@ + seq![
            entity_at(n),
            entity_at(n + 1),
            entity_at(n + 5),
        ]) by {
            assert(w3.entities@[parent.id as int] == w2.entities@[parent.id as int]);
            assert(w4.entities@[parent.id as int] == w3.entities@[parent.id as int]);
            assert(w5.entities@[parent.id as int] == w4.entities@[parent.id as int]);
        }
        assert(world.entities@[n] == w1.entities@[n]) by {
            assert(w2.entities@[n] == w1.entities@[n]);
            assert(w3.entities@[n] == w2.entities@[n]);
            assert(w4.entities@[n] == w3.entities@[n]);
            assert(w5.entities@[n] == w4.entities@[n]);
        }
        assert(world.entities@[n + 1] == w5.entities@[n + 1]);
        assert(world.entities@[n + 1].children@ =~= seq![entity_at(n + 2), entity_at(n + 3), entity_at(n + 4)]);
        assert(world.entities@[n + 2] == w3.entities@[n + 2]) by {
            assert(w4.entities@[n + 2] == w3.entities@[n + 2]);
            assert(w5.entities@[n + 2] == w4.entities@[n + 2]);
        }
        assert(world.entities@[n + 3] == w4.entities@[n + 3]) by {
            assert(w5.entities@[n + 3] == w4.entities@[n + 3]);
        }
        assert(world.entities@[n + 4] == w5.entities@[n + 4]);
        assert forall|i: int| 0 <= i < n && i != parent.id implies #[trigger] world.entities@[i] == w0.entities@[i] by {
            assert(w1.entities@[i] == w0.entities@[i]);
            assert(w2.entities@[i] == w1.entities@[i]);
            assert(w3.entities@[i] == w2.entities@[i]);
            assert(w4.entities@[i] == w3.entities@[i]);
            assert(w5.entities@[i] == w4.entities@[i]);
        }
    }
}

pub fn setup_app(app: &mut App, parent: Entity)
    requires
        old(app).world.has(parent),
        old(app).world.entities@.len() + 6 < u32::MAX,
    ensures
        dsl_built(&old(app).world, &final(app).world, parent),
{
    build_widgets(&mut app.world, parent);
}

} // verus!
