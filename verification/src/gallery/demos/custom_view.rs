//! "custom view": three diamond tiles drawn by a view of their own;
//! tapping a tile gives it the next colour of the palette.
use vstd::prelude::*;

use crate::components::{BuiltinGesture, WidgetComponents, TAG_CUSTOM_VIEW_TILES};
use crate::ecs::{entity_at, Entity, EntityData, Resources, World};
use crate::event::{GestureCallback, GestureHandler};
use crate::gallery::{
    add_node, add_text_node, others_kept, registered_views, shows, sized, sized_spec, tall, tall_spec, widget_node,
    widget_node_tagged, App,
};
use crate::types::Fixed;
use crate::view::WidgetView;
use crate::widget::Style;

verus! {

/// A diamond outline: its colour (`0xRRGGBB`) and stroke width.
#[derive(Clone, Copy, Debug, PartialEq, Eq, Structural)]
pub struct Diamond {
    pub color: u32,
    pub line_width: Fixed,
}

impl Default for Diamond {
    /// A white outline one pixel wide.
    fn default() -> (d: Diamond)
        ensures
            d == (Diamond { color: 0xFFFFFF, line_width: Fixed { raw: 256 } }),
    {
        Diamond { color: 0xFFFFFF, line_width: Fixed::from_int(1) }
    }
}

/// The colours a tile cycles through.
pub const PALETTE: [u32; 3] = [0xF4A759, 0x8CD3FF, 0xBEF08C];

/// Spec: colour `k` of the palette.
pub open spec fn palette(k: int) -> u32 {
    if k == 0 {
        0xF4A759
    } else if k == 1 {
        0x8CD3FF
    } else {
        0xBEF08C
    }
}

/// Spec: the colour after `c`: the next palette entry after `c`'s
/// position, wrapping round; a colour off the palette counts as the first.
pub open spec fn palette_after(c: u32) -> u32 {
    if c == palette(1) {
        palette(2)
    } else if c == palette(2) {
        palette(0)
    } else {
        palette(1)
    }
}

/// The colour after `c` on the palette.
pub fn next_palette_color(c: u32) -> (r: u32)
    ensures
        r == palette_after(c),
{
    let palette_now = PALETTE;
    assert(palette_now@ =~= seq![palette(0), palette(1), palette(2)]);
    let mut i: usize = 0;
    while i < 3
        invariant_except_break
            i <= 3,
            forall|j: int| 0 <= j < i ==> palette(j) != c,
        invariant
            palette_now@ == seq![palette(0), palette(1), palette(2)],
        ensures
            (i < 3 && palette(i as int) == c) || (i == 3 && forall|j: int| 0 <= j < 3 ==> palette(j) != c),
        decreases 3 - i,
    {
        if palette_now[i] == c {
            break;
        }
        i += 1;
    }
    let found: usize = if i < 3 {
        i
    } else {
        0
    };
    palette_now[(found + 1) % 3]
}

/// The view that draws diamond tiles.
pub fn diamond_view() -> (v: WidgetView)
    ensures
        v.name == "Diamond",
        v.priority == 60,
        v.filter is None,
        v.internal is None,
        v.attach is None,
{
    WidgetView::new("Diamond", 60)
}

/// Spec: the tap handler every tile carries.
pub open spec fn tile_handler() -> GestureHandler {
    GestureHandler { on_gesture: GestureCallback::Builtin(BuiltinGesture::DemoDiamond) }
}

/// Spec: `d` is tile `k` under `row`: an 88 x 88 box holding a diamond in
/// palette colour `k`, stroked `k + 2` pixels wide, recoloured on tap.
pub open spec fn tile_built(d: EntityData, row: Entity, k: int) -> bool {
    &&& widget_node(
        d,
        Some(row),
        WidgetComponents {
            diamond: Some(Diamond { color: palette(k), line_width: Fixed { raw: ((k + 2) * 256) as i32 } }),
            ..WidgetComponents::empty()
        },
        Some(sized_spec(88, 88)),
        Some(tile_handler()),
    )
    &&& d.children@.len() == 0
}

fn add_tile(world: &mut World, row: Entity, k: usize)
    requires
        old(world).has(row),
        old(world).entities@.len() < u32::MAX,
        k < 3,
    ensures
        final(world).res == old(world).res,
        final(world).entities@.len() == old(world).entities@.len() + 1,
        final(world).has(row),
        tile_built(final(world).entities@[old(world).entities@.len() as int], row, k as int),
        final(world).data(row).children@ == old(world).data(row).children@.push(entity_at(old(world).entities@.len() as int)),
        final(world).data(row) == (EntityData { children: final(world).data(row).children, ..old(world).data(row) }),
        others_kept(old(world), final(world), old(world).entities@.len() as int, row),
{
    let palette_now = PALETTE;
    assert(palette_now@ =~= seq![palette(0), palette(1), palette(2)]);
    let wc = WidgetComponents {
        diamond: Some(Diamond { color: palette_now[k], line_width: Fixed::from_int(k as i32 + 2) }),
        ..WidgetComponents::none()
    };
    add_node(
        world,
        row,
        wc,
        Some(sized(88, 88)),
        Some(GestureHandler { on_gesture: GestureCallback::Builtin(BuiltinGesture::DemoDiamond) }),
    );
}

/// Spec: the demo as built under `parent` from `n` pre-existing entities:
/// a column (`n`) with the title (`n + 1`), the hint (`n + 2`) and the
/// tagged row of tiles (`n + 3`), which holds tiles 0 to 2 (`n + 4` to
/// `n + 6`).
pub open spec fn custom_view_built(w: &World, w2: &World, parent: Entity) -> bool {
    let n = w.entities@.len() as int;
    let e = w2.entities@;
    &&& crate::gallery::parent_kept(w, w2, parent)
    &&& w2.res == w.res
    &&& e.len() == n + 7
    &&& w2.data(parent).children@ == w.data(parent).children@.push(entity_at(n))
    &&& widget_node(e[n], Some(parent), WidgetComponents::empty(), Some(Style::flow_spec()), None)
    &&& e[n].children@ == seq![entity_at(n + 1), entity_at(n + 2), entity_at(n + 3)]
    &&& widget_node(
        e[n + 1],
        Some(entity_at(n)),
        WidgetComponents { text: e[n + 1].widgets.text, ..WidgetComponents::empty() },
        Some(tall_spec(28)),
        None,
    )
    &&& shows(e[n + 1], "CUSTOM VECTOR VIEW")
    &&& widget_node(
        e[n + 2],
        Some(entity_at(n)),
        WidgetComponents { text: e[n + 2].widgets.text, ..WidgetComponents::empty() },
        Some(tall_spec(18)),
        None,
    )
    &&& shows(e[n + 2], "STATIC PATH \u{b7} TAP ANY TILE TO RECOLOR")
    &&& widget_node_tagged(
        e[n + 3],
        Some(entity_at(n)),
        WidgetComponents::empty(),
        Some(tall_spec(120)),
        None,
        seq![TAG_CUSTOM_VIEW_TILES],
    )
    &&& e[n + 3].children@ == seq![entity_at(n + 4), entity_at(n + 5), entity_at(n + 6)]
    &&& tile_built(e[n + 4], entity_at(n + 3), 0)
    &&& tile_built(e[n + 5], entity_at(n + 3), 1)
    &&& tile_built(e[n + 6], entity_at(n + 3), 2)
    &&& forall|i: int| 0 <= i < n && i != parent.id ==> #[trigger] e[i] == w.entities@[i]
}

/// Builds the demo under `parent`.
#[verifier::rlimit(40)]
pub fn build_widgets(world: &mut World, parent: Entity)
    requires
        old(world).has(parent),
        old(world).entities@.len() + 7 < u32::MAX,
    ensures
        custom_view_built(old(world), final(world), parent),
{
    let ghost w0 = *world;
    let column = add_node(world, parent, WidgetComponents::none(), Some(Style::flow()), None);
    let ghost w1 = *world;
    let title = add_text_node(world, column, WidgetComponents::none(), "CUSTOM VECTOR VIEW", Some(tall(28)), None);
    let ghost w2 = *world;
    let subtitle = add_text_node(
        world,
        column,
        WidgetComponents::none(),
        "STATIC PATH \u{b7} TAP ANY TILE TO RECOLOR",
        Some(tall(18)),
        None,
    );
    let ghost w3 = *world;
    let tiles = add_node(world, column, WidgetComponents::none(), Some(tall(120)), None);
    let ghost w4 = *world;
    world.add_tag(tiles, TAG_CUSTOM_VIEW_TILES);
    let ghost w5 = *world;
    add_tile(world, tiles, 0);
    let ghost w6 = *world;
    add_tile(world, tiles, 1);
    let ghost w7 = *world;
    add_tile(world, tiles, 2);
    proof {
        let n = w0.entities@.len() as int;
        assert(w5.entities@[n + 0] == w4.entities@[n + 0]);
        assert(w6.entities@[n + 0] == w5.entities@[n + 0]);
        assert(w7.entities@[n + 0] == w6.entities@[n + 0]);
        assert(world.entities@[n + 0] == w7.entities@[n + 0]);
        assert(w3.entities@[n + 1] == w2.entities@[n + 1]);
        assert(w4.entities@[n + 1] == w3.entities@[n + 1]);
        assert(w5.entities@[n + 1] == w4.entities@[n + 1]);
        assert(w6.entities@[n + 1] == w5.entities@[n + 1]);
        assert(w7.entities@[n + 1] == w6.entities@[n + 1]);
        assert(world.entities@[n + 1] == w7.entities@[n + 1]);
        assert(w4.entities@[n + 2] == w3.entities@[n + 2]);
        assert(w5.entities@[n + 2] == w4.entities@[n + 2]);
        assert(w6.entities@[n + 2] == w5.entities@[n + 2]);
        assert(w7.entities@[n + 2] == w6.entities@[n + 2]);
        assert(world.entities@[n + 2] == w7.entities@[n + 2]);
        assert(w7.entities@[n + 4] == w6.entities@[n + 4]);
        assert(world.entities@[n + 4] == w7.entities@[n + 4]);
        assert(world.entities@[n + 5] == w7.entities@[n + 5]);
        assert(w2.data(parent) == w1.data(parent));
        assert(w3.data(parent) == w2.data(parent));
        assert(w4.data(parent) == w3.data(parent));
        assert(w5.data(parent) == w4.data(parent));
        assert(w6.data(parent) == w5.data(parent));
        assert(w7.data(parent) == w6.data(parent));
        assert(world.data(parent) == w7.data(parent));
        assert(world.entities@[n].children@ =~= seq![entity_at(n + 1), entity_at(n + 2), entity_at(n + 3)]);
        assert(world.entities@[n + 3].children@ =~= seq![entity_at(n + 4), entity_at(n + 5), entity_at(n + 6)]);
        assert forall|k: int| 0 <= k < n && k != parent.id implies #[trigger] world.entities@[k] == w0.entities@[k] by {
            assert(w1.entities@[k] == w0.entities@[k]);
            assert(w2.entities@[k] == w1.entities@[k]);
            assert(w3.entities@[k] == w2.entities@[k]);
            assert(w4.entities@[k] == w3.entities@[k]);
            assert(w5.entities@[k] == w4.entities@[k]);
            assert(w6.entities@[k] == w5.entities@[k]);
            assert(w7.entities@[k] == w6.entities@[k]);
            assert(world.entities@[k] == w7.entities@[k]);
        }
    }
}

/// Registers the diamond view and builds the demo under `parent`.
pub fn setup_app(app: &mut App, parent: Entity)
    requires
        old(app).world.has(parent),
        old(app).world.entities@.len() + 7 < u32::MAX,
    ensures
        final(app).world.res.views matches Some(r) && r.views@.drop_last() == registered_views(old(app).world.res.views)
            && r.views@.last().name == "Diamond" && r.views@.last().priority == 60,
        custom_view_built(
            &World { entities: old(app).world.entities, res: Resources { views: final(app).world.res.views, ..old(app).world.res } },
            &final(app).world,
            parent,
        ),
{
    app.with_widget(diamond_view());
    build_widgets(&mut app.world, parent);
}

} // verus!
