//! "components": one of each built-in widget: buttons, progress bars and
//! checkboxes under a header.
use vstd::prelude::*;

use crate::components::{Button, Checkbox, ProgressBar, WidgetComponents};
use crate::ecs::{entity_at, Entity, EntityData, World};
use crate::gallery::{
    add_node, add_text_node, colored, colored_exec, shows, sized, sized_spec, tall, tall_spec, text_node, widget_node, App,
};
use crate::types::{div_trunc, wrap32, Fixed};
use crate::widget::Style;

verus! {

/// Spec: a button at rest.
pub open spec fn button_components() -> WidgetComponents {
    WidgetComponents { button: Some(Button { pressed: false }), ..WidgetComponents::empty() }
}

fn button_exec() -> (wc: WidgetComponents)
    ensures
        wc == button_components(),
{
    WidgetComponents { button: Some(Button { pressed: false }), ..WidgetComponents::none() }
}

/// Spec: a progress bar filled to `tenths` tenths.
pub open spec fn progress_components(tenths: i32) -> WidgetComponents {
    WidgetComponents {
        progress_bar: Some(ProgressBar { value: Fixed { raw: wrap32(div_trunc(tenths as int * 256, 10)) } }),
        ..WidgetComponents::empty()
    }
}

fn progress_exec(tenths: i32) -> (wc: WidgetComponents)
    ensures
        wc == progress_components(tenths),
{
    WidgetComponents { progress_bar: Some(ProgressBar { value: Fixed::from_ratio(tenths, 10) }), ..WidgetComponents::none() }
}

/// Spec: a checkbox, ticked or not.
pub open spec fn checkbox_components(checked: bool) -> WidgetComponents {
    WidgetComponents { checkbox: Some(Checkbox { checked }), ..WidgetComponents::empty() }
}

fn checkbox_exec(checked: bool) -> (wc: WidgetComponents)
    ensures
        wc == checkbox_components(checked),
{
    WidgetComponents { checkbox: Some(Checkbox { checked }), ..WidgetComponents::none() }
}

/// Spec: `d` is a button under `row` labelled `text`.
pub open spec fn button_built(d: EntityData, row: Entity, text: &str) -> bool {
    &&& widget_node(d, Some(row), WidgetComponents { text: d.widgets.text, ..button_components() }, Some(Style::flow_spec()), None)
    &&& shows(d, text)
    &&& d.children@.len() == 0
}

/// Spec: the demo as built under `parent` from `n` pre-existing entities:
/// a column (`n`) holding the header (`n + 1`: title `n + 2`, dot
/// `n + 3`), the OK / Cancel buttons (`n + 4`: `n + 5`, `n + 6`), three
/// progress bars at 0.7, 0.4 and 0.9 (`n + 7`: `n + 8` to `n + 10`),
/// three checkboxes, ticked, clear, ticked (`n + 11`: `n + 12` to
/// `n + 14`) and the footer (`n + 15`).
pub open spec fn components_built(w: &World, w2: &World, parent: Entity) -> bool {
    let n = w.entities@.len() as int;
    let e = w2.entities@;
    &&& crate::gallery::parent_kept(w, w2, parent)
    &&& w2.res == w.res
    &&& e.len() == n + 16
    &&& w2.data(parent).children@ == w.data(parent).children@.push(entity_at(n))
    &&& widget_node(e[n], Some(parent), WidgetComponents::empty(), Some(Style::flow_spec()), None)
    &&& e[n].children@ == seq![entity_at(n + 1), entity_at(n + 4), entity_at(n + 7), entity_at(n + 11), entity_at(n + 15)]
    &&& widget_node(e[n + 1], Some(entity_at(n)), colored(0x1E66F5), Some(tall_spec(40)), None)
    &&& e[n + 1].children@ == seq![entity_at(n + 2), entity_at(n + 3)]
    &&& text_node(e[n + 2], entity_at(n + 1), "mirui Components", Style::flow_spec())
    &&& widget_node(e[n + 3], Some(entity_at(n + 1)), colored(0xFFC832), Some(sized_spec(16, 16)), None)
    &&& widget_node(e[n + 4], Some(entity_at(n)), WidgetComponents::empty(), Some(tall_spec(36)), None)
    &&& e[n + 4].children@ == seq![entity_at(n + 5), entity_at(n + 6)]
    &&& button_built(e[n + 5], entity_at(n + 4), "OK")
    &&& button_built(e[n + 6], entity_at(n + 4), "Cancel")
    &&& widget_node(e[n + 7], Some(entity_at(n)), WidgetComponents::empty(), Some(tall_spec(50)), None)
    &&& e[n + 7].children@ == seq![entity_at(n + 8), entity_at(n + 9), entity_at(n + 10)]
    &&& widget_node(e[n + 8], Some(entity_at(n + 7)), progress_components(7), Some(tall_spec(12)), None)
    &&& widget_node(e[n + 9], Some(entity_at(n + 7)), progress_components(4), Some(tall_spec(12)), None)
    &&& widget_node(e[n + 10], Some(entity_at(n + 7)), progress_components(9), Some(tall_spec(12)), None)
    &&& widget_node(e[n + 11], Some(entity_at(n)), WidgetComponents::empty(), Some(tall_spec(30)), None)
    &&& e[n + 11].children@ == seq![entity_at(n + 12), entity_at(n + 13), entity_at(n + 14)]
    &&& widget_node(e[n + 12], Some(entity_at(n + 11)), checkbox_components(true), Some(sized_spec(24, 24)), None)
    &&& widget_node(e[n + 13], Some(entity_at(n + 11)), checkbox_components(false), Some(sized_spec(24, 24)), None)
    &&& widget_node(e[n + 14], Some(entity_at(n + 11)), checkbox_components(true), Some(sized_spec(24, 24)), None)
    &&& widget_node(
        e[n + 15],
        Some(entity_at(n)),
        WidgetComponents { text: e[n + 15].widgets.text, ..colored(0x282837) },
        Some(tall_spec(30)),
        None,
    )
    &&& shows(e[n + 15], "Button | ProgressBar | Checkbox | Image")
    &&& forall|i: int| 0 <= i < n && i != parent.id ==> #[trigger] e[i] == w.entities@[i]
}

/// Builds the demo under `parent`.
#[verifier::rlimit(60)]
pub fn build_widgets(world: &mut World, parent: Entity)
    requires
        old(world).has(parent),
        old(world).entities@.len() + 16 < u32::MAX,
    ensures
        components_built(old(world), final(world), parent),
{
    let ghost w0 = *world;
    let column = add_node(world, parent, WidgetComponents::none(), Some(Style::flow()), None);
    let ghost w1 = *world;
    let header = add_node(world, column, colored_exec(0x1E66F5), Some(tall(40)), None);
    let ghost w2 = *world;
    let brand = add_text_node(world, header, WidgetComponents::none(), "mirui Components", Some(Style::flow()), None);
    let ghost w3 = *world;
    let dot = add_node(world, header, colored_exec(0xFFC832), Some(sized(16, 16)), None);
    let ghost w4 = *world;
    let buttons = add_node(world, column, WidgetComponents::none(), Some(tall(36)), None);
    let ghost w5 = *world;
    let ok = add_text_node(world, buttons, button_exec(), "OK", Some(Style::flow()), None);
    let ghost w6 = *world;
    let cancel = add_text_node(world, buttons, button_exec(), "Cancel", Some(Style::flow()), None);
    let ghost w7 = *world;
    let bars = add_node(world, column, WidgetComponents::none(), Some(tall(50)), None);
    let ghost w8 = *world;
    let bar0 = add_node(world, bars, progress_exec(7), Some(tall(12)), None);
    let ghost w9 = *world;
    let bar1 = add_node(world, bars, progress_exec(4), Some(tall(12)), None);
    let ghost w10 = *world;
    let bar2 = add_node(world, bars, progress_exec(9), Some(tall(12)), None);
    let ghost w11 = *world;
    let boxes = add_node(world, column, WidgetComponents::none(), Some(tall(30)), None);
    let ghost w12 = *world;
    let box0 = add_node(world, boxes, checkbox_exec(true), Some(sized(24, 24)), None);
    let ghost w13 = *world;
    let box1 = add_node(world, boxes, checkbox_exec(false), Some(sized(24, 24)), None);
    let ghost w14 = *world;
    let box2 = add_node(world, boxes, checkbox_exec(true), Some(sized(24, 24)), None);
    let ghost w15 = *world;
    let footer = add_text_node(
        world,
        column,
        colored_exec(0x282837),
        "Button | ProgressBar | Checkbox | Image",
        Some(tall(30)),
        None,
    );
    proof {
        let n = w0.entities@.len() as int;
        assert(w5.entities@[n + 1] == w4.entities@[n + 1]);
        assert(w6.entities@[n + 1] == w5.entities@[n + 1]);
        assert(w7.entities@[n + 1] == w6.entities@[n + 1]);
        assert(w8.entities@[n + 1] == w7.entities@[n + 1]);
        assert(w9.entities@[n + 1] == w8.entities@[n + 1]);
        assert(w10.entities@[n + 1] == w9.entities@[n + 1]);
        assert(w11.entities@[n + 1] == w10.entities@[n + 1]);
        assert(w12.entities@[n + 1] == w11.entities@[n + 1]);
        assert(w13.entities@[n + 1] == w12.entities@[n + 1]);
        assert(w14.entities@[n + 1] == w13.entities@[n + 1]);
        assert(w15.entities@[n + 1] == w14.entities@[n + 1]);
        assert(world.entities@[n + 1] == w15.entities@[n + 1]);
        assert(w4.entities@[n + 2] == w3.entities@[n + 2]);
        assert(w5.entities@[n + 2] == w4.entities@[n + 2]);
        assert(w6.entities@[n + 2] == w5.entities@[n + 2]);
        assert(w7.entities@[n + 2] == w6.entities@[n + 2]);
        assert(w8.entities@[n + 2] == w7.entities@[n + 2]);
        assert(w9.entities@[n + 2] == w8.entities@[n + 2]);
        assert(w10.entities@[n + 2] == w9.entities@[n + 2]);
        assert(w11.entities@[n + 2] == w10.entities@[n + 2]);
        assert(w12.entities@[n + 2] == w11.entities@[n + 2]);
        assert(w13.entities@[n + 2] == w12.entities@[n + 2]);
        assert(w14.entities@[n + 2] == w13.entities@[n + 2]);
        assert(w15.entities@[n + 2] == w14.entities@[n + 2]);
        assert(world.entities@[n + 2] == w15.entities@[n + 2]);
        assert(w5.entities@[n + 3] == w4.entities@[n + 3]);
        assert(w6.entities@[n + 3] == w5.entities@[n + 3]);
        assert(w7.entities@[n + 3] == w6.entities@[n + 3]);
        assert(w8.entities@[n + 3] == w7.entities@[n + 3]);
        assert(w9.entities@[n + 3] == w8.entities@[n + 3]);
        assert(w10.entities@[n + 3] == w9.entities@[n + 3]);
        assert(w11.entities@[n + 3] == w10.entities@[n + 3]);
        assert(w12.entities@[n + 3] == w11.entities@[n + 3]);
        assert(w13.entities@[n + 3] == w12.entities@[n + 3]);
        assert(w14.entities@[n + 3] == w13.entities@[n + 3]);
        assert(w15.entities@[n + 3] == w14.entities@[n + 3]);
        assert(world.entities@[n + 3] == w15.entities@[n + 3]);
        assert(w8.entities@[n + 4] == w7.entities@[n + 4]);
        assert(w9.entities@[n + 4] == w8.entities@[n + 4]);
        assert(w10.entities@[n + 4] == w9.entities@[n + 4]);
        assert(w11.entities@[n + 4] == w10.entities@[n + 4]);
        assert(w12.entities@[n + 4] == w11.entities@[n + 4]);
        assert(w13.entities@[n + 4] == w12.entities@[n + 4]);
        assert(w14.entities@[n + 4] == w13.entities@[n + 4]);
        assert(w15.entities@[n + 4] == w14.entities@[n + 4]);
        assert(world.entities@[n + 4] == w15.entities@[n + 4]);
        assert(w7.entities@[n + 5] == w6.entities@[n + 5]);
        assert(w8.entities@[n + 5] == w7.entities@[n + 5]);
        assert(w9.entities@[n + 5] == w8.entities@[n + 5]);
        assert(w10.entities@[n + 5] == w9.entities@[n + 5]);
        assert(w11.entities@[n + 5] == w10.entities@[n + 5]);
        assert(w12.entities@[n + 5] == w11.entities@[n + 5]);
        assert(w13.entities@[n + 5] == w12.entities@[n + 5]);
        assert(w14.entities@[n + 5] == w13.entities@[n + 5]);
        assert(w15.entities@[n + 5] == w14.entities@[n + 5]);
        assert(world.entities@[n + 5] == w15.entities@[n + 5]);
        assert(w8.entities@[n + 6] == w7.entities@[n + 6]);
        assert(w9.entities@[n + 6] == w8.entities@[n + 6]);
        assert(w10.entities@[n + 6] == w9.entities@[n + 6]);
        assert(w11.entities@[n + 6] == w10.entities@[n + 6]);
        assert(w12.entities@[n + 6] == w11.entities@[n + 6]);
        assert(w13.entities@[n + 6] == w12.entities@[n + 6]);
        assert(w14.entities@[n + 6] == w13.entities@[n + 6]);
        assert(w15.entities@[n + 6] == w14.entities@[n + 6]);
        assert(world.entities@[n + 6] == w15.entities@[n + 6]);
        assert(w12.entities@[n + 7] == w11.entities@[n + 7]);
        assert(w13.entities@[n + 7] == w12.entities@[n + 7]);
        assert(w14.entities@[n + 7] == w13.entities@[n + 7]);
        assert(w15.entities@[n + 7] == w14.entities@[n + 7]);
        assert(world.entities@[n + 7] == w15.entities@[n + 7]);
        assert(w10.entities@[n + 8] == w9.entities@[n + 8]);
        assert(w11.entities@[n + 8] == w10.entities@[n + 8]);
        assert(w12.entities@[n + 8] == w11.entities@[n + 8]);
        assert(w13.entities@[n + 8] == w12.entities@[n + 8]);
        assert(w14.entities@[n + 8] == w13.entities@[n + 8]);
        assert(w15.entities@[n + 8] == w14.entities@[n + 8]);
        assert(world.entities@[n + 8] == w15.entities@[n + 8]);
        assert(w11.entities@[n + 9] == w10.entities@[n + 9]);
        assert(w12.entities@[n + 9] == w11.entities@[n + 9]);
        assert(w13.entities@[n + 9] == w12.entities@[n + 9]);
        assert(w14.entities@[n + 9] == w13.entities@[n + 9]);
        assert(w15.entities@[n + 9] == w14.entities@[n + 9]);
        assert(world.entities@[n + 9] == w15.entities@[n + 9]);
        assert(w12.entities@[n + 10] == w11.entities@[n + 10]);
        assert(w13.entities@[n + 10] == w12.entities@[n + 10]);
        assert(w14.entities@[n + 10] == w13.entities@[n + 10]);
        assert(w15.entities@[n + 10] == w14.entities@[n + 10]);
        assert(world.entities@[n + 10] == w15.entities@[n + 10]);
        assert(world.entities@[n + 11] == w15.entities@[n + 11]);
        assert(w14.entities@[n + 12] == w13.entities@[n + 12]);
        assert(w15.entities@[n + 12] == w14.entities@[n + 12]);
        assert(world.entities@[n + 12] == w15.entities@[n + 12]);
        assert(w15.entities@[n + 13] == w14.entities@[n + 13]);
        assert(world.entities@[n + 13] == w15.entities@[n + 13]);
        assert(world.entities@[n + 14] == w15.entities@[n + 14]);
        assert(w2.data(parent) == w1.data(parent));
        assert(w3.data(parent) == w2.data(parent));
        assert(w4.data(parent) == w3.data(parent));
        assert(w5.data(parent) == w4.data(parent));
        assert(w6.data(parent) == w5.data(parent));
        assert(w7.data(parent) == w6.data(parent));
        assert(w8.data(parent) == w7.data(parent));
        assert(w9.data(parent) == w8.data(parent));
        assert(w10.data(parent) == w9.data(parent));
        assert(w11.data(parent) == w10.data(parent));
        assert(w12.data(parent) == w11.data(parent));
        assert(w13.data(parent) == w12.data(parent));
        assert(w14.data(parent) == w13.data(parent));
        assert(w15.data(parent) == w14.data(parent));
        assert(world.data(parent) == w15.data(parent));
        assert(world.entities@[n].children@ =~= seq![
            entity_at(n + 1),
            entity_at(n + 4),
            entity_at(n + 7),
            entity_at(n + 11),
            entity_at(n + 15),
        ]);
        assert(world.entities@[n + 1].children@ =~= seq![entity_at(n + 2), entity_at(n + 3)]);
        assert(world.entities@[n + 4].children@ =~= seq![entity_at(n + 5), entity_at(n + 6)]);
        assert(world.entities@[n + 7].children@ =~= seq![entity_at(n + 8), entity_at(n + 9), entity_at(n + 10)]);
        assert(world.entities@[n + 11].children@ =~= seq![entity_at(n + 12), entity_at(n + 13), entity_at(n + 14)]);
        assert forall|k: int| 0 <= k < n && k != parent.id implies #[trigger] world.entities@[k] == w0.entities@[k] by {
            assert(w1.entities@[k] == w0.entities@[k]);
            assert(w2.entities@[k] == w1.entities@[k]);
            assert(w3.entities@[k] == w2.entities@[k]);
            assert(w4.entities@[k] == w3.entities@[k]);
            assert(w5.entities@[k] == w4.entities@[k]);
            assert(w6.entities@[k] == w5.entities@[k]);
            assert(w7.entities@[k] == w6.entities@[k]);
            assert(w8.entities@[k] == w7.entities@[k]);
            assert(w9.entities@[k] == w8.entities@[k]);
            assert(w10.entities@[k] == w9.entities@[k]);
            assert(w11.entities@[k] == w10.entities@[k]);
            assert(w12.entities@[k] == w11.entities@[k]);
            assert(w13.entities@[k] == w12.entities@[k]);
            assert(w14.entities@[k] == w13.entities@[k]);
            assert(w15.entities@[k] == w14.entities@[k]);
            assert(world.entities@[k] == w15.entities@[k]);
        }
    }
}

/// Builds the demo under `parent`.
pub fn setup_app(app: &mut App, parent: Entity)
    requires
        old(app).world.has(parent),
        old(app).world.entities@.len() + 16 < u32::MAX,
    ensures
        components_built(&old(app).world, &final(app).world, parent),
{
    build_widgets(&mut app.world, parent);
}

} // verus!
