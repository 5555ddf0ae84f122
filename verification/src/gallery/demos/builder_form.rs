//! "builder form": a small settings form built widget by widget, without
//! the layout DSL.
use vstd::prelude::*;

use crate::components::{ProgressBar, Slider, Switch, WidgetComponents};
use crate::ecs::{entity_at, Entity, EntityData, World};
use crate::gallery::{add_node, add_text_node, shows, text_node, sized, sized_spec, tall, tall_spec, widget_node, App};
use crate::types::Fixed;
use crate::widget::Style;

verus! {

/// Spec: the form as built under `parent` from `n` pre-existing entities:
/// a column (`n`) holding the title (`n + 1`), the caption (`n + 2`), a
/// slider over 0..100 (`n + 3`), a row (`n + 4`) with a label (`n + 5`)
/// and a switch that starts off (`n + 6`), and a progress bar at 0.6
/// (`n + 7`).
pub open spec fn builder_form_built(w: &World, w2: &World, parent: Entity) -> bool {
    let n = w.entities@.len() as int;
    let e = w2.entities@;
    &&& crate::gallery::parent_kept(w, w2, parent)
    &&& w2.res == w.res
    &&& e.len() == n + 8
    &&& w2.data(parent).children@ == w.data(parent).children@.push(entity_at(n))
    &&& widget_node(e[n], Some(parent), WidgetComponents::empty(), Some(Style::flow_spec()), None)
    &&& e[n].children@ == seq![entity_at(n + 1), entity_at(n + 2), entity_at(n + 3), entity_at(n + 4), entity_at(n + 7)]
    &&& text_node(e[n + 1], entity_at(n), "BUILDER API", tall_spec(32))
    &&& text_node(e[n + 2], entity_at(n), "The same widget tree without ui!", tall_spec(26))
    &&& widget_node(
        e[n + 3],
        Some(entity_at(n)),
        WidgetComponents {
            slider: Some(Slider { min: Fixed { raw: 0 }, max: Fixed { raw: 25600 }, value: Fixed { raw: 0 } }),
            ..WidgetComponents::empty()
        },
        Some(tall_spec(28)),
        None,
    )
    &&& widget_node(e[n + 4], Some(entity_at(n)), WidgetComponents::empty(), Some(tall_spec(34)), None)
    &&& e[n + 4].children@ == seq![entity_at(n + 5), entity_at(n + 6)]
    &&& text_node(e[n + 5], entity_at(n + 4), "Notifications", Style::flow_spec())
    &&& widget_node(
        e[n + 6],
        Some(entity_at(n + 4)),
        WidgetComponents { switch: Some(Switch { on: false }), ..WidgetComponents::empty() },
        Some(sized_spec(56, 28)),
        None,
    )
    &&& widget_node(
        e[n + 7],
        Some(entity_at(n)),
        WidgetComponents { progress_bar: Some(ProgressBar { value: Fixed { raw: 153 } }), ..WidgetComponents::empty() },
        Some(tall_spec(14)),
        None,
    )
    &&& forall|i: int| 0 <= i < n && i != parent.id ==> #[trigger] e[i] == w.entities@[i]
}

/// Builds the form under `parent`.
#[verifier::rlimit(40)]
pub fn build_widgets(world: &mut World, parent: Entity)
    requires
        old(world).has(parent),
        old(world).entities@.len() + 8 < u32::MAX,
    ensures
        builder_form_built(old(world), final(world), parent),
{
    let ghost w0 = *world;
    let column = add_node(world, parent, WidgetComponents::none(), Some(Style::flow()), None);
    let ghost w1 = *world;
    let title = add_text_node(world, column, WidgetComponents::none(), "BUILDER API", Some(tall(32)), None);
    let ghost w2 = *world;
    let subtitle = add_text_node(
        world,
        column,
        WidgetComponents::none(),
        "The same widget tree without ui!",
        Some(tall(26)),
        None,
    );
    let ghost w3 = *world;
    let slider = add_node(
        world,
        column,
        WidgetComponents {
            slider: Some(Slider { min: Fixed::zero(), max: Fixed::from_int(100), value: Fixed::zero() }),
            ..WidgetComponents::none()
        },
        Some(tall(28)),
        None,
    );
    let ghost w4 = *world;
    let controls = add_node(world, column, WidgetComponents::none(), Some(tall(34)), None);
    let ghost w5 = *world;
    let label = add_text_node(world, controls, WidgetComponents::none(), "Notifications", Some(Style::flow()), None);
    let ghost w6 = *world;
    let switch = add_node(
        world,
        controls,
        WidgetComponents { switch: Some(Switch { on: false }), ..WidgetComponents::none() },
        Some(sized(56, 28)),
        None,
    );
    let ghost w7 = *world;
    let progress = add_node(
        world,
        column,
        WidgetComponents {
            progress_bar: Some(ProgressBar { value: Fixed::from_ratio(6, 10) }),
            ..WidgetComponents::none()
        },
        Some(tall(14)),
        None,
    );
    proof {
        let n = w0.entities@.len() as int;
        assert(w3.entities@[n + 1] == w2.entities@[n + 1]);
        assert(w4.entities@[n + 1] == w3.entities@[n + 1]);
        assert(w5.entities@[n + 1] == w4.entities@[n + 1]);
        assert(w6.entities@[n + 1] == w5.entities@[n + 1]);
        assert(w7.entities@[n + 1] == w6.entities@[n + 1]);
        assert(world.entities@[n + 1] == w7.entities@[n + 1]);
        assert(w4.entities@[n + 2] == w3.entities@[n + 2]);
        assert(w5.entities@[n + 2] == w4.entities@[n + 2]);
        assert(w6.entities@[n + 2] == w5.entities@[n + 2]);
        assert(w7.entities@[n + 2] == w6.entities@[n + 2]);
        assert(world.entities@[n + 2] == w7.entities@[n + 2]);
        assert(w5.entities@[n + 3] == w4.entities@[n + 3]);
        assert(w6.entities@[n + 3] == w5.entities@[n + 3]);
        assert(w7.entities@[n + 3] == w6.entities@[n + 3]);
        assert(world.entities@[n + 3] == w7.entities@[n + 3]);
        assert(world.entities@[n + 4] == w7.entities@[n + 4]);
        assert(w7.entities@[n + 5] == w6.entities@[n + 5]);
        assert(world.entities@[n + 5] == w7.entities@[n + 5]);
        assert(world.entities@[n + 6] == w7.entities@[n + 6]);
        assert(w2.data(parent) == w1.data(parent));
        assert(w3.data(parent) == w2.data(parent));
        assert(w4.data(parent) == w3.data(parent));
        assert(w5.data(parent) == w4.data(parent));
        assert(w6.data(parent) == w5.data(parent));
        assert(w7.data(parent) == w6.data(parent));
        assert(world.data(parent) == w7.data(parent));
        assert(world.entities@[n].children@ =~= seq![
            entity_at(n + 1),
            entity_at(n + 2),
            entity_at(n + 3),
            entity_at(n + 4),
            entity_at(n + 7),
        ]);
        assert(world.entities@[n + 4].children@ =~= seq![entity_at(n + 5), entity_at(n + 6)]);
        assert forall|k: int| 0 <= k < n && k != parent.id implies #[trigger] world.entities@[k] == w0.entities@[k] by {
            assert(w1.entities@[k] == w0.entities@[k]);
            assert(w2.entities@[k] == w1.entities@[k]);
            assert(w3.entities@[k] == w2.entities@[k]);
            assert(w4.entities@[k] == w3.entities@[k]);
            assert(w5.entities@[k] == w4.entities@[k]);
            assert(w6.entities@[k] == w5.entities@[k]);
            assert(w7.entities@[k] == w6.entities@[k]);
            assert(world.entities@[k] == w7.entities@[k]);
        }
    }
}

/// Builds the form under `parent`.
pub fn setup_app(app: &mut App, parent: Entity)
    requires
        old(app).world.has(parent),
        old(app).world.entities@.len() + 8 < u32::MAX,
    ensures
        builder_form_built(&old(app).world, &final(app).world, parent),
{
    build_widgets(&mut app.world, parent);
}

} // verus!
