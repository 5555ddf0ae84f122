//! "hello": a header card and a body card stacked in a column, plus a
//! background widget attached beside it.
use vstd::prelude::*;

use crate::components::WidgetComponents;
use crate::ecs::{entity_at, Entity, World};
use crate::gallery::{add_node, add_text_node, colored, colored_exec, shows, tall, tall_spec, widget_node, App};
use crate::widget::Style;

verus! {

/// Spec: the demo as built under `parent` from `n` pre-existing entities:
/// a column (entity `n`) with the header card (`n + 1`, showing its title
/// in `n + 2`), a spacer (`n + 3`) and the body card (`n + 4`, text in
/// `n + 5`); then the background widget `n + 6`, also a child of `parent`.
pub open spec fn hello_built(w: &World, w2: &World, parent: Entity) -> bool {
    let n = w.entities@.len() as int;
    &&& crate::gallery::parent_kept(w, w2, parent)
    &&& w2.res == w.res
    &&& w2.entities@.len() == n + 7
    &&& w2.data(parent).children@ == w.data(parent).children@.push(entity_at(n)).push(entity_at(n + 6))
    &&& widget_node(w2.entities@[n], Some(parent), WidgetComponents::empty(), Some(Style::flow_spec()), None)
    &&& w2.entities@[n].children@ == seq![entity_at(n + 1), entity_at(n + 3), entity_at(n + 4)]
    &&& widget_node(w2.entities@[n + 1], Some(entity_at(n)), colored(0x263246), Some(Style::flow_spec()), None)
    &&& w2.entities@[n + 1].children@ == seq![entity_at(n + 2)]
    &&& widget_node(
        w2.entities@[n + 2],
        Some(entity_at(n + 1)),
        WidgetComponents { text: w2.entities@[n + 2].widgets.text, ..WidgetComponents::empty() },
        Some(Style::flow_spec()),
        None,
    )
    &&& shows(w2.entities@[n + 2], "mirui hello")
    &&& widget_node(w2.entities@[n + 3], Some(entity_at(n)), WidgetComponents::empty(), Some(tall_spec(16)), None)
    &&& widget_node(w2.entities@[n + 4], Some(entity_at(n)), colored(0x3C506E), Some(Style::flow_spec()), None)
    &&& w2.entities@[n + 4].children@ == seq![entity_at(n + 5)]
    &&& widget_node(
        w2.entities@[n + 5],
        Some(entity_at(n + 4)),
        WidgetComponents { text: w2.entities@[n + 5].widgets.text, ..WidgetComponents::empty() },
        Some(Style::flow_spec()),
        None,
    )
    &&& shows(w2.entities@[n + 5], "tap to interact")
    &&& widget_node(w2.entities@[n + 6], Some(parent), colored(0x14161E), Some(Style::flow_spec()), None)
    &&& w2.entities@[n + 6].children@.len() == 0
    &&& forall|i: int| 0 <= i < n && i != parent.id ==> #[trigger] w2.entities@[i] == w.entities@[i]
}

/// Builds the demo under `parent` and returns the background widget.
pub fn build_widgets(world: &mut World, parent: Entity) -> (root: Entity)
    requires
        old(world).has(parent),
        old(world).entities@.len() + 7 < u32::MAX,
    ensures
        root == entity_at(old(world).entities@.len() as int + 6),
        root != parent,
        hello_built(old(world), final(world), parent),
{
    let ghost w0 = *world;
    let column = add_node(world, parent, WidgetComponents::none(), Some(Style::flow()), None);
    let ghost w1 = *world;
    let header = add_node(world, column, colored_exec(0x263246), Some(Style::flow()), None);
    let ghost w2 = *world;
    let title = add_text_node(world, header, WidgetComponents::none(), "mirui hello", Some(Style::flow()), None);
    let ghost w3 = *world;
    let spacer = add_node(world, column, WidgetComponents::none(), Some(tall(16)), None);
    let ghost w4 = *world;
    let body = add_node(world, column, colored_exec(0x3C506E), Some(Style::flow()), None);
    let ghost w5 = *world;
    let hint = add_text_node(world, body, WidgetComponents::none(), "tap to interact", Some(Style::flow()), None);
    let ghost w6 = *world;
    let root = world.spawn();
    let i = root.id as usize;
    world.entities[i].widget = true;
    world.entities[i].widgets = colored_exec(0x14161E);
    world.entities[i].style = Some(Style::flow());
    world.entities[i].parent = Some(parent);
    let ghost w7 = *world;
    world.push_child(parent, root);
    proof {
        let n = w0.entities@.len() as int;
        assert(w3.entities@[n] == w2.entities@[n]);
        assert(w6.entities@[n] == w5.entities@[n]);
        assert(w7.entities@[n] == w6.entities@[n]);
        assert(world.entities@[n] == w7.entities@[n]);
        assert(w5.entities@[n].children@ =~= seq![entity_at(n + 1), entity_at(n + 3), entity_at(n + 4)]);
        assert(w4.entities@[n + 1] == w3.entities@[n + 1]);
        assert(w5.entities@[n + 1] == w4.entities@[n + 1]);
        assert(w6.entities@[n + 1] == w5.entities@[n + 1]);
        assert(w7.entities@[n + 1] == w6.entities@[n + 1]);
        assert(world.entities@[n + 1] == w7.entities@[n + 1]);
        assert(world.entities@[n].children@ =~= seq![entity_at(n + 1), entity_at(n + 3), entity_at(n + 4)]);
        assert(world.entities@[n + 1].children@ =~= seq![entity_at(n + 2)]);
        assert(world.entities@[n + 4].children@ =~= seq![entity_at(n + 5)]);
        assert(world.entities@[n] == w5.entities@[n]);
        assert(world.entities@[n + 1] == w3.entities@[n + 1]);
        assert(w4.entities@[n + 2] == w3.entities@[n + 2]);
        assert(w5.entities@[n + 2] == w4.entities@[n + 2]);
        assert(w6.entities@[n + 2] == w5.entities@[n + 2]);
        assert(w7.entities@[n + 2] == w6.entities@[n + 2]);
        assert(world.entities@[n + 2] == w3.entities@[n + 2]);
        assert(w5.entities@[n + 3] == w4.entities@[n + 3]);
        assert(w6.entities@[n + 3] == w5.entities@[n + 3]);
        assert(w7.entities@[n + 3] == w6.entities@[n + 3]);
        assert(world.entities@[n + 3] == w4.entities@[n + 3]);
        assert(world.entities@[n + 4] == w6.entities@[n + 4]);
        assert(world.entities@[n + 5] == w6.entities@[n + 5]);
        assert(world.entities@[n + 6] == w7.entities@[n + 6]);
        assert(w7.data(parent) == w6.data(parent));
        assert(w6.data(parent) == w1.data(parent));
        assert forall|i: int| 0 <= i < n && i != parent.id implies #[trigger] world.entities@[i] == w0.entities@[i] by {
            assert(w1.entities@[i] == w0.entities@[i]);
            assert(w2.entities@[i] == w1.entities@[i]);
            assert(w3.entities@[i] == w2.entities@[i]);
            assert(w4.entities@[i] == w3.entities@[i]);
            assert(w5.entities@[i] == w4.entities@[i]);
            assert(w6.entities@[i] == w5.entities@[i]);
            assert(w7.entities@[i] == w6.entities@[i]);
        }
    }
    root
}

/// Switches the input feedback overlays on and builds the demo.
pub fn setup_app(app: &mut App, parent: Entity) -> (root: Entity)
    requires
        old(app).world.has(parent),
        old(app).world.entities@.len() + 7 < u32::MAX,
    ensures
        root == entity_at(old(app).world.entities@.len() as int + 6),
        final(app).world.res.feedback matches Some(f) && f.cursor.enabled && f.rotary.enabled,
        final(app).world.entities@.len() == old(app).world.entities@.len() + 7,
{
    app.add_input_feedback();
    build_widgets(&mut app.world, parent)
}

} // verus!
