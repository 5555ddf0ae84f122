//! "cover flow": a horizontally scrolling carousel of cards that tilt
//! towards the viewer as they pass the centre.
use vstd::prelude::*;

use crate::components::WidgetComponents;
use crate::ecs::{entity_at, Entity, EntityData, Resources, World};
use crate::gallery::{add_node, colored, colored_exec, others_kept, placed, placed_spec, widget_node, App};
use crate::event::scroll::{ScrollAxis, ScrollConfig, ScrollOffset};
use crate::types::{abs_int, div_i32, div_raw, div_trunc, mul_raw, wrap32, Dimension, Fixed, Transform3D, TransformStep};
use crate::widget::{moved_style, root_viewport, root_viewport_spec, LayoutStyle, Style};

verus! {

/// View size assumed when the display does not report one.
pub const DEFAULT_VIEW_W: u16 = 640;

pub const DEFAULT_VIEW_H: u16 = 360;

/// Number of cards in the carousel.
pub const CARD_COUNT: i32 = 5;

/// Marks the carousel's scroll container.
#[derive(Clone, Copy, Debug, PartialEq, Eq, Structural)]
pub struct Carousel;

/// Marks a card of the carousel with its slot.
#[derive(Clone, Copy, Debug, PartialEq, Eq, Structural)]
pub struct CarouselCard {
    pub index: usize,
}

/// The carousel's geometry, in pixels, derived from the view size.
#[derive(Clone, Copy, Debug, PartialEq, Eq, Structural)]
pub struct CoverFlowBounds {
    pub view_w: i32,
    pub view_h: i32,
    pub card_w: i32,
    pub card_h: i32,
    pub card_gap: i32,
    pub perspective: i32,
}

/// Spec: the geometry for a `vw` x `vh` view: cards 7/32 of the width
/// wide and half the height tall, an eighth of the width apart, seen from
/// 25/64 of the width.
pub open spec fn bounds_for(vw: int, vh: int) -> CoverFlowBounds {
    CoverFlowBounds {
        view_w: vw as i32,
        view_h: vh as i32,
        card_w: div_trunc(vw * 7, 32) as i32,
        card_h: div_trunc(vh, 2) as i32,
        card_gap: div_trunc(vw, 8) as i32,
        perspective: div_trunc(vw * 25, 64) as i32,
    }
}

/// Spec: the width the carousel scrolls over: the view plus one slot per
/// card after the first.
pub open spec fn content_width_spec(b: CoverFlowBounds) -> int {
    b.view_w + (b.card_w + b.card_gap) * (CARD_COUNT - 1)
}

impl CoverFlowBounds {
    pub fn for_view(view_w: u16, view_h: u16) -> (b: CoverFlowBounds)
        ensures
            b == bounds_for(view_w as int, view_h as int),
    {
        CoverFlowBounds::for_px(view_w as i32, view_h as i32)
    }

    pub fn for_px(vw: i32, vh: i32) -> (b: CoverFlowBounds)
        requires
            i32::MIN <= vw * 25 <= i32::MAX,
        ensures
            b == bounds_for(vw as int, vh as int),
    {
        CoverFlowBounds {
            view_w: vw,
            view_h: vh,
            card_w: div_i32(vw * 7, 32),
            card_h: div_i32(vh, 2),
            card_gap: div_i32(vw, 8),
            perspective: div_i32(vw * 25, 64),
        }
    }

    pub fn content_width(&self) -> (r: i32)
        requires
            i32::MIN <= self.card_w + self.card_gap <= i32::MAX,
            i32::MIN <= (self.card_w + self.card_gap) * (CARD_COUNT - 1) <= i32::MAX,
            i32::MIN <= content_width_spec(*self) <= i32::MAX,
        ensures
            r == content_width_spec(*self),
    {
        self.view_w + (self.card_w + self.card_gap) * (CARD_COUNT - 1)
    }
}

/// Spec: the geometry the layout works with: from the root's laid-out
/// size, or, before the first layout, from the stored bounds' view size.
pub open spec fn layout_bounds(w: &World) -> Option<CoverFlowBounds> {
    match root_viewport_spec(w) {
        Some(r) => Some(bounds_for(r.w.raw as int / 256, r.h.raw as int / 256)),
        None => match w.res.cover_flow_bounds {
            Some(b) => Some(bounds_for(b.view_w as int, b.view_h as int)),
            None => None,
        },
    }
}

/// Spec: entity `c` is the first carousel.
pub open spec fn is_first_carousel(ents: Seq<EntityData>, c: int) -> bool {
    &&& 0 <= c < ents.len()
    &&& ents[c].carousel is Some
    &&& forall|j: int| 0 <= j < c ==> (#[trigger] ents[j]).carousel is None
}

pub open spec fn has_carousel(ents: Seq<EntityData>) -> bool {
    exists|j: int| 0 <= j < ents.len() && (#[trigger] ents[j]).carousel is Some
}

pub open spec fn has_card(ents: Seq<EntityData>) -> bool {
    exists|j: int| 0 <= j < ents.len() && (#[trigger] ents[j]).carousel_card is Some
}

/// Spec: the raw width of one card slot (card plus gap).
pub open spec fn slot_stride_raw(b: CoverFlowBounds) -> i32 {
    wrap32((b.card_w + b.card_gap) * 256)
}

/// Spec: the raw left edge of the card in slot `idx`: the view's centre
/// plus `idx` slots, less half a card.
pub open spec fn card_x_raw(b: CoverFlowBounds, idx: i32) -> i32 {
    let center = wrap32(div_trunc(b.view_w as int, 2) * 256);
    wrap32(wrap32(center + mul_raw(wrap32(idx * 256), slot_stride_raw(b))) - wrap32(div_trunc(b.card_w as int, 2) * 256))
}

/// Spec: the raw top edge of every card: vertically centred.
pub open spec fn card_top_raw(b: CoverFlowBounds) -> i32 {
    wrap32(div_trunc(b.view_h - b.card_h, 2) * 256)
}

/// Spec: the tilt of the card in slot `idx` when the carousel is scrolled
/// by `off`: with `r` its distance from the centre in slots, turned by
/// `-45 r` degrees about the vertical axis and by `20 |r| - 15` about the
/// horizontal one, both seen from the bounds' perspective distance.
pub open spec fn card_tilt_steps(b: CoverFlowBounds, idx: i32, off: Fixed) -> Seq<TransformStep> {
    let relative = wrap32(wrap32(idx * 256) - div_raw(off.raw, slot_stride_raw(b)));
    let distance = Fixed { raw: wrap32(b.perspective * 256) };
    seq![
        TransformStep::RotateYPerspective { angle_deg: Fixed { raw: wrap32(-mul_raw(relative, 11520i32)) }, distance },
        TransformStep::RotateXPerspective {
            angle_deg: Fixed { raw: wrap32(mul_raw(wrap32(abs_int(relative as int)), 5120i32) - 3840) },
            distance,
        },
    ]
}

/// Spec: the carousel sized to the view, its content as wide as the
/// carousel scrolls over.
pub open spec fn carousel_sized(d: EntityData, b: CoverFlowBounds) -> EntityData {
    EntityData {
        style: match d.style {
            Some(s) => Some(
                Style {
                    layout: LayoutStyle {
                        width: Dimension::Px(Fixed { raw: wrap32(b.view_w * 256) }),
                        height: Dimension::Px(Fixed { raw: wrap32(b.view_h * 256) }),
                        ..s.layout
                    },
                },
            ),
            None => None,
        },
        scroll_config: match d.scroll_config {
            Some(cfg) => Some(ScrollConfig { content_width: Fixed { raw: wrap32(content_width_spec(b) * 256) }, ..cfg }),
            None => None,
        },
        ..d
    }
}

/// Spec: `d2` is `d1` after the card pass with scroll offset `off`: a card
/// is moved to its slot, tilted and marked for redraw; anything else is
/// marked for redraw when `mark` says so.
pub open spec fn card_pass(d1: EntityData, d2: EntityData, b: CoverFlowBounds, off: Fixed, mark: bool) -> bool {
    match d1.carousel_card {
        Some(cc) => {
            &&& d2 == (EntityData {
                style: moved_style(d1.style, Fixed { raw: card_x_raw(b, cc.index as i32) }, Fixed { raw: card_top_raw(b) }),
                transform3d: d2.transform3d,
                dirty: true,
                ..d1
            })
            &&& d2.transform3d matches Some(t) && t.steps@ == card_tilt_steps(b, cc.index as i32, off)
        },
        None => d2 == (EntityData { dirty: d1.dirty || mark, ..d1 }),
    }
}

/// Spec: `d2` is `d` after a layout with bounds `b` and scroll offset
/// `off`: the carousel is sized to the view; then, when there are cards,
/// every card is placed and tilted and the carousel is marked for redraw.
pub open spec fn cover_laid_out(
    d: EntityData,
    d2: EntityData,
    is_carousel: bool,
    b: CoverFlowBounds,
    off: Fixed,
    any_cards: bool,
) -> bool {
    let d1 = if is_carousel {
        carousel_sized(d, b)
    } else {
        d
    };
    if any_cards {
        card_pass(d1, d2, b, off, is_carousel)
    } else {
        d2 == d1
    }
}

proof fn lemma_div_trunc_bound(a: int, b: int)
    requires
        b > 0,
    ensures
        b * abs_int(div_trunc(a, b)) <= abs_int(a),
        a >= 0 ==> div_trunc(a, b) >= 0,
        a <= 0 ==> div_trunc(a, b) <= 0,
{
    let m = abs_int(a);
    vstd::arithmetic::div_mod::lemma_fundamental_div_mod(m, b);
    vstd::arithmetic::div_mod::lemma_mod_pos_bound(m, b);
    vstd::arithmetic::div_mod::lemma_div_pos_is_pos(m, b);
}

/// The geometry derived from a view that fits keeps every sum the layout
/// forms within `i32`.
proof fn lemma_bounds_fit(vw: int, vh: int)
    requires
        i32::MIN <= vw * 25 <= i32::MAX,
        i32::MIN <= vh <= i32::MAX,
    ensures
        ({
            let b = bounds_for(vw, vh);
            &&& b.view_w == vw
            &&& b.view_h == vh
            &&& b.card_w == div_trunc(vw * 7, 32)
            &&& b.card_gap == div_trunc(vw, 8)
            &&& b.card_h == div_trunc(vh, 2)
            &&& i32::MIN <= b.card_w + b.card_gap <= i32::MAX
            &&& i32::MIN <= (b.card_w + b.card_gap) * (CARD_COUNT - 1) <= i32::MAX
            &&& i32::MIN <= content_width_spec(b) <= i32::MAX
            &&& i32::MIN <= b.view_h - b.card_h <= i32::MAX
        }),
{
    lemma_div_trunc_bound(vw * 7, 32);
    lemma_div_trunc_bound(vw, 8);
    lemma_div_trunc_bound(vw * 25, 64);
    lemma_div_trunc_bound(vh, 2);
}

/// The first carousel, if there is one.
fn first_carousel(world: &World) -> (r: Option<usize>)
    ensures
        match r {
            Some(c) => is_first_carousel(world.entities@, c as int),
            None => !has_carousel(world.entities@),
        },
{
    let n = world.entities.len();
    let mut c: usize = 0;
    while c < n
        invariant
            c <= n,
            n == world.entities@.len(),
            forall|j: int| 0 <= j < c ==> (#[trigger] world.entities@[j]).carousel is None,
        decreases n - c,
    {
        if world.entities[c].carousel.is_some() {
            return Some(c);
        }
        c += 1;
    }
    None
}

/// Whether any entity is a carousel card.
fn any_card(world: &World) -> (r: bool)
    ensures
        r == has_card(world.entities@),
{
    let n = world.entities.len();
    let mut k: usize = 0;
    while k < n
        invariant
            k <= n,
            n == world.entities@.len(),
            forall|j: int| 0 <= j < k ==> (#[trigger] world.entities@[j]).carousel_card is None,
        decreases n - k,
    {
        if world.entities[k].carousel_card.is_some() {
            assert(world.entities@[k as int].carousel_card is Some);
            return true;
        }
        k += 1;
    }
    false
}

/// Sizes carousel `c` to the view of `b`.
fn size_carousel(world: &mut World, c: usize, b: CoverFlowBounds)
    requires
        c < old(world).entities@.len(),
        i32::MIN <= b.card_w + b.card_gap <= i32::MAX,
        i32::MIN <= (b.card_w + b.card_gap) * (CARD_COUNT - 1) <= i32::MAX,
        i32::MIN <= content_width_spec(b) <= i32::MAX,
    ensures
        final(world).res == old(world).res,
        final(world).entities@ == old(world).entities@.update(c as int, carousel_sized(old(world).entities@[c as int], b)),
{
    let ghost w0 = *world;
    if let Some(st) = world.entities[c].style {
        world.entities[c].style = Some(
            Style {
                layout: LayoutStyle {
                    width: Dimension::Px(Fixed::from_int(b.view_w)),
                    height: Dimension::Px(Fixed::from_int(b.view_h)),
                    ..st.layout
                },
            },
        );
    }
    if let Some(cfg) = world.entities[c].scroll_config {
        world.entities[c].scroll_config = Some(ScrollConfig { content_width: Fixed::from_int(b.content_width()), ..cfg });
    }
    assert(world.entities@ =~= w0.entities@.update(c as int, carousel_sized(w0.entities@[c as int], b)));
}

/// Places card `i` (in slot `cc`), given the layout's derived values.
fn place_card(
    world: &mut World,
    i: usize,
    cc: CarouselCard,
    b: CoverFlowBounds,
    off: Fixed,
    center: Fixed,
    half_card: Fixed,
    top: Fixed,
    stride: Fixed,
    distance: Fixed,
)
    requires
        i < old(world).entities@.len(),
        old(world).entities@[i as int].carousel_card == Some(cc),
        center.raw == wrap32(div_trunc(b.view_w as int, 2) * 256),
        half_card.raw == wrap32(div_trunc(b.card_w as int, 2) * 256),
        top.raw == card_top_raw(b),
        stride.raw == slot_stride_raw(b),
        stride.raw != 0,
        distance.raw == wrap32(b.perspective * 256),
    ensures
        final(world).res == old(world).res,
        final(world).entities@.len() == old(world).entities@.len(),
        forall|j: int| 0 <= j < old(world).entities@.len() && j != i ==> #[trigger] final(world).entities@[j] == old(world).entities@[j],
        card_pass(old(world).entities@[i as int], final(world).entities@[i as int], b, off, false),
{
    let idx = Fixed::from_int(cc.index as i32);
    let tx = center.add(idx.mul(stride)).sub(half_card);
    assert(tx.raw == card_x_raw(b, cc.index as i32));
    if let Some(st) = world.entities[i].style {
        world.entities[i].style = Some(
            Style { layout: LayoutStyle { left: Dimension::Px(tx), top: Dimension::Px(top), ..st.layout } },
        );
    }
    let relative = idx.sub(off.div(stride));
    let tilt_y = Fixed::zero().sub(relative.mul(Fixed::from_int(45)));
    let tilt_x = relative.abs().mul(Fixed::from_int(20)).sub(Fixed::from_int(15));
    let t = Transform3D::rotate_y_perspective(tilt_y, distance).compose(Transform3D::rotate_x_perspective(tilt_x, distance));
    assert(t.steps@ =~= card_tilt_steps(b, cc.index as i32, off));
    world.entities[i].transform3d = Some(t);
    world.entities[i].dirty = true;
}

/// Lays the carousel out for the current view: sizes the first carousel
/// to the view and, when there are cards, moves each card to its slot and
/// tilts it by its distance from the centre at the carousel's scroll
/// offset.
pub fn layout_system(world: &mut World)
    requires
        root_viewport_spec(old(world)) is None ==> (old(world).res.cover_flow_bounds matches Some(rb) ==> i32::MIN
            <= rb.view_w * 25 <= i32::MAX),
        forall|c: int|
            is_first_carousel(old(world).entities@, c) && old(world).entities@[c].scroll_offset is Some && has_card(
                old(world).entities@,
            ) && layout_bounds(old(world)) is Some ==> slot_stride_raw(layout_bounds(old(world)).unwrap()) != 0,
    ensures
        final(world).res == old(world).res,
        (layout_bounds(old(world)) is None || !has_carousel(old(world).entities@)) ==> final(world).entities@
            == old(world).entities@,
        forall|c: int|
            is_first_carousel(old(world).entities@, c) && layout_bounds(old(world)) is Some ==> ({
                &&& old(world).entities@[c].scroll_offset is None ==> final(world).entities@ == old(world).entities@
                &&& old(world).entities@[c].scroll_offset matches Some(o) ==> {
                    &&& final(world).entities@.len() == old(world).entities@.len()
                    &&& forall|i: int|
                        0 <= i < old(world).entities@.len() ==> cover_laid_out(
                            #[trigger] old(world).entities@[i],
                            final(world).entities@[i],
                            i == c,
                            layout_bounds(old(world)).unwrap(),
                            o.x,
                            has_card(old(world).entities@),
                        )
                }
            }),
{
    let bounds = match root_viewport(world) {
        Some(rect) => {
            proof {
                lemma_bounds_fit(rect.w.raw as int / 256, rect.h.raw as int / 256);
            }
            CoverFlowBounds::for_px(rect.w.to_int(), rect.h.to_int())
        },
        None => match world.res.cover_flow_bounds {
            Some(b) => {
                proof {
                    lemma_bounds_fit(b.view_w as int, b.view_h as int);
                }
                CoverFlowBounds::for_px(b.view_w, b.view_h)
            },
            None => {
                return ;
            },
        },
    };
    let ghost w0 = *world;
    assert(layout_bounds(&w0) == Some(bounds));
    let c = match first_carousel(world) {
        Some(c) => c,
        None => {
            return ;
        },
    };
    let offset = match world.entities[c].scroll_offset {
        Some(s) => s.x,
        None => {
            return ;
        },
    };
    size_carousel(world, c, bounds);
    let ghost w1 = *world;
    if !any_card(world) {
        proof {
            assert(!has_card(w0.entities@)) by {
                if has_card(w0.entities@) {
                    let j = choose|j: int| 0 <= j < w0.entities@.len() && (#[trigger] w0.entities@[j]).carousel_card is Some;
                    assert(w1.entities@[j].carousel_card is Some);
                }
            }
        }
        return ;
    }
    proof {
        assert(has_card(w0.entities@)) by {
            let j = choose|j: int| 0 <= j < w1.entities@.len() && (#[trigger] w1.entities@[j]).carousel_card is Some;
            assert(w0.entities@[j].carousel_card is Some);
        }
    }
    let stride = Fixed::from_int(bounds.card_w + bounds.card_gap);
    let center = Fixed::from_int(div_i32(bounds.view_w, 2));
    let half_card = Fixed::from_int(div_i32(bounds.card_w, 2));
    let top = Fixed::from_int(div_i32(bounds.view_h - bounds.card_h, 2));
    let distance = Fixed::from_int(bounds.perspective);
    let n = world.entities.len();
    let mut i: usize = 0;
    while i < n
        invariant
            i <= n,
            n == world.entities@.len(),
            n == w1.entities@.len(),
            world.res == w1.res,
            stride.raw == slot_stride_raw(bounds),
            stride.raw != 0,
            center.raw == wrap32(div_trunc(bounds.view_w as int, 2) * 256),
            half_card.raw == wrap32(div_trunc(bounds.card_w as int, 2) * 256),
            top.raw == card_top_raw(bounds),
            distance.raw == wrap32(bounds.perspective * 256),
            forall|j: int| 0 <= j < i ==> card_pass(#[trigger] w1.entities@[j], world.entities@[j], bounds, offset, false),
            forall|j: int| i <= j < n ==> #[trigger] world.entities@[j] == w1.entities@[j],
        decreases n - i,
    {
        if let Some(cc) = world.entities[i].carousel_card {
            place_card(world, i, cc, bounds, offset, center, half_card, top, stride, distance);
        }
        i += 1;
    }
    let ghost w2 = *world;
    world.entities[c].dirty = true;
    proof {
        assert forall|i: int|
            0 <= i < w0.entities@.len() implies cover_laid_out(
            #[trigger] w0.entities@[i],
            world.entities@[i],
            i == c,
            bounds,
            offset,
            true,
        ) by {
            assert(card_pass(w1.entities@[i], w2.entities@[i], bounds, offset, false));
            if i == c as int {
                if w1.entities@[i].carousel_card is Some {
                    assert(world.entities@[i] == w2.entities@[i]);
                }
            }
        }
    }
}

/// Spec: the colour of the card in slot `k`.
pub open spec fn card_color(k: int) -> u32 {
    if k == 0 {
        0xFF6B6B
    } else if k == 1 {
        0xFFCE54
    } else if k == 2 {
        0x88D8B0
    } else if k == 3 {
        0x76D1F4
    } else {
        0xB294FF
    }
}

fn card_color_exec(k: usize) -> (c: u32)
    ensures
        c == card_color(k as int),
{
    if k == 0 {
        0xFF6B6B
    } else if k == 1 {
        0xFFCE54
    } else if k == 2 {
        0x88D8B0
    } else if k == 3 {
        0x76D1F4
    } else {
        0xB294FF
    }
}

/// Spec: where the carousel starts scrolled to: the content centred,
/// nudged right by a quarter card.
pub open spec fn initial_offset(b: CoverFlowBounds) -> int {
    div_trunc(content_width_spec(b) - b.view_w, 2) - div_trunc(b.card_w as int, 4)
}

/// Spec: `d` is the card in slot `k` of the carousel `entity_at(n)`, sized
/// `w` x `h` at the carousel's origin.
pub open spec fn card_built(d: EntityData, n: int, k: int, w: i32, h: i32) -> bool {
    &&& widget_node(
        EntityData { carousel_card: None, ..d },
        Some(entity_at(n)),
        colored(card_color(k)),
        Some(placed_spec(0, 0, w, h)),
        None,
    )
    &&& d.carousel_card == Some(CarouselCard { index: k as usize })
    &&& d.children@.len() == 0
}

/// Spec: the demo as built under `parent` from `n` pre-existing entities
/// for a `vw` x `vh` view: the bounds stored as a resource; the carousel
/// (entity `n`), a scroll container covering the view, scrolling
/// horizontally and elastically over the content width from the initial
/// offset; and its cards (`n + 1` to `n + 5`), one per slot.
pub open spec fn cover_flow_built(w: &World, w2: &World, parent: Entity, vw: u16, vh: u16) -> bool {
    let n = w.entities@.len() as int;
    let b = bounds_for(vw as int, vh as int);
    &&& crate::gallery::parent_kept(w, w2, parent)
    &&& w2.res == (Resources { cover_flow_bounds: Some(b), ..w.res })
    &&& w2.entities@.len() == n + 6
    &&& w2.data(parent).children@ == w.data(parent).children@.push(entity_at(n))
    &&& widget_node(
        EntityData { carousel: None, scroll_offset: None, scroll_config: None, ..w2.entities@[n] },
        Some(parent),
        WidgetComponents::empty(),
        Some(placed_spec(0, 0, vw as i32, vh as i32)),
        None,
    )
    &&& w2.entities@[n].carousel == Some(Carousel)
    &&& w2.entities@[n].scroll_offset == Some(
        ScrollOffset { x: Fixed { raw: wrap32(initial_offset(b) * 256) }, y: Fixed { raw: 0 } },
    )
    &&& w2.entities@[n].scroll_config == Some(
        ScrollConfig {
            direction: ScrollAxis::Horizontal,
            content_width: Fixed { raw: wrap32(content_width_spec(b) * 256) },
            content_height: Fixed { raw: 0 },
            elastic: true,
        },
    )
    &&& w2.entities@[n].children@ == Seq::new(5, |k: int| entity_at(n + 1 + k))
    &&& forall|k: int| 0 <= k < 5 ==> card_built(#[trigger] w2.entities@[n + 1 + k], n, k, b.card_w, b.card_h)
    &&& forall|i: int| 0 <= i < n && i != parent.id ==> #[trigger] w2.entities@[i] == w.entities@[i]
}

/// Builds the carousel for a `view_w` x `view_h` view under `parent` and
/// stores its bounds.
pub fn build_widgets(world: &mut World, parent: Entity, view_w: u16, view_h: u16)
    requires
        old(world).has(parent),
        old(world).entities@.len() + 6 < u32::MAX,
    ensures
        cover_flow_built(old(world), final(world), parent, view_w, view_h),
{
    let bounds = CoverFlowBounds::for_view(view_w, view_h);
    proof {
        lemma_bounds_fit(view_w as int, view_h as int);
        lemma_div_trunc_bound(bounds.card_w as int, 4);
    }
    let vw = bounds.view_w;
    let vh = bounds.view_h;
    let card_w = bounds.card_w;
    let card_h = bounds.card_h;
    let content_width = bounds.content_width();
    let initial = div_i32(content_width - vw, 2) - div_i32(card_w, 4);
    let ghost w0 = *world;
    let n = world.entities.len();
    world.res.cover_flow_bounds = Some(bounds);
    let carousel = add_node(world, parent, WidgetComponents::none(), Some(placed(0, 0, vw, vh)), None);
    let c = carousel.id as usize;
    world.entities[c].carousel = Some(Carousel);
    world.entities[c].scroll_offset = Some(ScrollOffset { x: Fixed::from_int(initial), y: Fixed::zero() });
    world.entities[c].scroll_config = Some(
        ScrollConfig {
            direction: ScrollAxis::Horizontal,
            content_width: Fixed::from_int(content_width),
            content_height: Fixed::zero(),
            elastic: true,
        },
    );
    let ghost w1 = *world;
    let mut k: usize = 0;
    while k < 5
        invariant
            k <= 5,
            n == w0.entities@.len(),
            n + 6 < u32::MAX,
            c == n,
            carousel == entity_at(n as int),
            world.entities@.len() == n + 1 + k,
            world.res == w1.res,
            world.has(carousel),
            world.entities@[n as int] == (EntityData { children: world.entities@[n as int].children, ..w1.entities@[n as int] }),
            world.entities@[n as int].children@ == Seq::new(k as nat, |j: int| entity_at(n + 1 + j)),
            forall|j: int| 0 <= j < k ==> card_built(#[trigger] world.entities@[n + 1 + j], n as int, j, card_w, card_h),
            forall|i: int| 0 <= i < n ==> #[trigger] world.entities@[i] == w1.entities@[i],
        decreases 5 - k,
    {
        let ghost wk = *world;
        let card = add_node(world, carousel, colored_exec(card_color_exec(k)), Some(placed(0, 0, card_w, card_h)), None);
        world.entities[card.id as usize].carousel_card = Some(CarouselCard { index: k });
        proof {
            assert(world.entities@[n as int].children@ =~= Seq::new((k + 1) as nat, |j: int| entity_at(n + 1 + j)));
            assert forall|j: int| 0 <= j < k + 1 implies card_built(#[trigger] world.entities@[n + 1 + j], n as int, j, card_w, card_h) by {
                if j < k {
                    assert(world.entities@[n + 1 + j] == wk.entities@[n + 1 + j]);
                }
            }
            assert forall|i: int| 0 <= i < n implies #[trigger] world.entities@[i] == w1.entities@[i] by {
                assert(world.entities@[i] == wk.entities@[i]);
            }
        }
        k += 1;
    }
    proof {
        assert(world.entities@[n as int].children@ =~= Seq::new(5, |j: int| entity_at(n + 1 + j)));
        assert forall|i: int| 0 <= i < n && i != parent.id implies #[trigger] world.entities@[i] == w0.entities@[i] by {
            assert(world.entities@[i] == w1.entities@[i]);
        }
        assert(world.entities@[parent.id as int] == w1.entities@[parent.id as int]);
    }
}

/// Spec: the view size the display reports, or the default view.
pub open spec fn display_view(w: &World) -> (u16, u16) {
    match w.res.display {
        Some(d) => (d.width, d.height),
        None => (DEFAULT_VIEW_W, DEFAULT_VIEW_H),
    }
}

/// Builds the carousel for the display's size under `parent`.
pub fn setup_app(app: &mut App, parent: Entity)
    requires
        old(app).world.has(parent),
        old(app).world.entities@.len() + 6 < u32::MAX,
    ensures
        cover_flow_built(&old(app).world, &final(app).world, parent, display_view(&old(app).world).0, display_view(&old(app).world).1),
{
    let (w, h) = match app.world.res.display {
        Some(d) => (d.width, d.height),
        None => (DEFAULT_VIEW_W, DEFAULT_VIEW_H),
    };
    build_widgets(&mut app.world, parent, w, h);
}

} // verus!
