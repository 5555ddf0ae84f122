//! Gallery demos: small widget trees that exercise the input pipeline,
//! the per-frame motion of the animated ones, and the headless
//! application that hosts them.
pub mod demos;
pub mod tree;

use vstd::prelude::*;
use vstd::string::StringSliceAdditionalSpecFns;

use crate::components::{with_default_widgets, WidgetComponents};
use crate::ecs::{entity_at, DisplayInfo, Entity, EntityData, Resources, World};
use crate::event::GestureHandler;
use crate::feedback::{CursorFeedback, InputFeedback, InputFeedbackInput, RotaryFeedback};
use crate::types::{wrap32, Dimension, Fixed};
use crate::view::{ViewRegistry, WidgetView};
use crate::widget::{LayoutStyle, Style};

verus! {

/// A headless application: the world the demos build into.
pub struct App {
    pub world: World,
}

impl App {
    /// An empty world on a `width` x `height` display.
    pub fn headless(width: u16, height: u16) -> (a: App)
        ensures
            a.world.entities@.len() == 0,
            a.world.res == (Resources { display: Some(DisplayInfo { width, height }), ..World::empty_resources() }),
    {
        let mut world = World::new();
        world.res.display = Some(DisplayInfo { width, height });
        App { world }
    }

    /// Registers the built-in widgets' views.
    pub fn with_default_widgets(&mut self)
        ensures
            final(self).world.entities@ == old(self).world.entities@,
            final(self).world.res == (Resources { views: final(self).world.res.views, ..old(self).world.res }),
            final(self).world.res.views matches Some(r) && r.views@.len() == 7,
    {
        with_default_widgets(&mut self.world);
    }

    /// Registers view `v` after the views already known.
    pub fn with_widget(&mut self, v: WidgetView)
        ensures
            final(self).world.entities@ == old(self).world.entities@,
            final(self).world.res == (Resources { views: final(self).world.res.views, ..old(self).world.res }),
            final(self).world.res.views matches Some(r) && r.views@ == registered_views(old(self).world.res.views).push(v),
    {
        let mut reg = match self.world.res.views.take() {
            Some(r) => r,
            None => ViewRegistry::new(),
        };
        reg.insert(v);
        self.world.res.views = Some(reg);
    }

    /// Switches the cursor and rotary feedback overlays on.
    pub fn add_input_feedback(&mut self)
        ensures
            final(self).world.entities@ == old(self).world.entities@,
            final(self).world.res == (Resources {
                feedback: Some(
                    InputFeedback {
                        cursor: CursorFeedback { enabled: true, ..CursorFeedback::initial() },
                        rotary: RotaryFeedback { enabled: true, ..RotaryFeedback::initial() },
                    },
                ),
                feedback_input: Some(InputFeedbackInput::initial()),
                ..old(self).world.res
            }),
    {
        self.world.res.feedback = Some(InputFeedback::enabled());
        self.world.res.feedback_input = Some(InputFeedbackInput::new());
    }
}

/// Spec: the views a registry holds; none when there is no registry.
pub open spec fn registered_views(r: Option<ViewRegistry>) -> Seq<WidgetView> {
    match r {
        Some(r) => r.views@,
        None => Seq::empty(),
    }
}

/// Spec: a box sized `w` x `h` pixels in the flow (not absolutely placed).
pub open spec fn sized_spec(w: i32, h: i32) -> Style {
    Style {
        layout: LayoutStyle {
            absolute: false,
            left: Dimension::Px(Fixed { raw: 0 }),
            top: Dimension::Px(Fixed { raw: 0 }),
            width: Dimension::Px(Fixed { raw: wrap32(w * 256) }),
            height: Dimension::Px(Fixed { raw: wrap32(h * 256) }),
        },
    }
}

pub fn sized(w: i32, h: i32) -> (s: Style)
    ensures
        s == sized_spec(w, h),
{
    Style {
        layout: LayoutStyle {
            absolute: false,
            left: Dimension::Px(Fixed::zero()),
            top: Dimension::Px(Fixed::zero()),
            width: Dimension::px(w),
            height: Dimension::px(h),
        },
    }
}

/// Spec: a box placed absolutely at `(x, y)`, sized `w` x `h` pixels.
pub open spec fn placed_spec(x: i32, y: i32, w: i32, h: i32) -> Style {
    Style {
        layout: LayoutStyle {
            absolute: true,
            left: Dimension::Px(Fixed { raw: wrap32(x * 256) }),
            top: Dimension::Px(Fixed { raw: wrap32(y * 256) }),
            width: Dimension::Px(Fixed { raw: wrap32(w * 256) }),
            height: Dimension::Px(Fixed { raw: wrap32(h * 256) }),
        },
    }
}

pub fn placed(x: i32, y: i32, w: i32, h: i32) -> (s: Style)
    ensures
        s == placed_spec(x, y, w, h),
{
    Style {
        layout: LayoutStyle {
            absolute: true,
            left: Dimension::px(x),
            top: Dimension::px(y),
            width: Dimension::px(w),
            height: Dimension::px(h),
        },
    }
}

/// Spec: a widget node as built: under `parent`, with the given widget
/// components, style and gesture handler, and nothing else set (its
/// children are left out: a builder adds them afterwards).
pub open spec fn widget_node(
    d: EntityData,
    parent: Option<Entity>,
    wc: WidgetComponents,
    style: Option<Style>,
    handler: Option<GestureHandler>,
) -> bool {
    widget_node_tagged(d, parent, wc, style, handler, Seq::empty())
}

/// Spec: [`widget_node`] carrying the marker tags `tags`.
pub open spec fn widget_node_tagged(
    d: EntityData,
    parent: Option<Entity>,
    wc: WidgetComponents,
    style: Option<Style>,
    handler: Option<GestureHandler>,
    tags: Seq<u32>,
) -> bool {
    &&& d.generation == 0
    &&& d.parent == parent
    &&& d.widget
    &&& !d.hidden
    &&& !d.ignore_hit_test
    &&& d.user_state is None
    &&& d.style == style
    &&& d.computed_rect is None
    &&& d.scroll_offset is None
    &&& d.scroll_config is None
    &&& !d.scroll_delta
    &&& !d.dirty
    &&& !d.focusable
    &&& d.key_handler is None
    &&& d.gesture_handler == handler
    &&& d.event_handler is None
    &&& !d.overlay_cursor
    &&& !d.overlay_rotary
    &&& d.tags@ =~= tags
    &&& d.widgets == wc
    &&& d.transform3d is None
    &&& d.page is None
    &&& d.flip_card is None
    &&& d.spinner is None
    &&& d.carousel is None
    &&& d.carousel_card is None
    &&& d.color_flash is None
    &&& d.glass_slide is None
    &&& d.butterfly is None
}

/// Spec: `parent` gained children and nothing else.
pub open spec fn parent_kept(w: &World, w2: &World, parent: Entity) -> bool {
    w2.data(parent) == (EntityData { children: w2.data(parent).children, ..w.data(parent) })
}

/// Spec: only `parent`'s child list changed among the first `n` entities.
pub open spec fn others_kept(w: &World, w2: &World, n: int, parent: Entity) -> bool {
    forall|i: int| 0 <= i < n && i != parent.id ==> #[trigger] w2.entities@[i] == w.entities@[i]
}

/// Adds a widget under `parent` with the given components, style and
/// gesture handler; it becomes `parent`'s last child.
pub fn add_node(
    world: &mut World,
    parent: Entity,
    wc: WidgetComponents,
    style: Option<Style>,
    handler: Option<GestureHandler>,
) -> (e: Entity)
    requires
        old(world).has(parent),
        old(world).entities@.len() < u32::MAX,
    ensures
        e == entity_at(old(world).entities@.len() as int),
        final(world).res == old(world).res,
        final(world).entities@.len() == old(world).entities@.len() + 1,
        final(world).has(e),
        final(world).has(parent),
        widget_node(final(world).entities@[e.id as int], Some(parent), wc, style, handler),
        final(world).entities@[e.id as int].children@.len() == 0,
        final(world).data(parent).children@ == old(world).data(parent).children@.push(e),
        final(world).data(parent) == (EntityData { children: final(world).data(parent).children, ..old(world).data(parent) }),
        others_kept(old(world), final(world), old(world).entities@.len() as int, parent),
{
    let e = world.spawn();
    let i = e.id as usize;
    world.entities[i].widget = true;
    world.entities[i].parent = Some(parent);
    world.entities[i].widgets = wc;
    world.entities[i].style = style;
    world.entities[i].gesture_handler = handler;
    world.push_child(parent, e);
    e
}

/// Spec: a node with just a background colour.
pub open spec fn colored(c: u32) -> WidgetComponents {
    WidgetComponents { bg_color: Some(c), ..WidgetComponents::empty() }
}

pub fn colored_exec(c: u32) -> (wc: WidgetComponents)
    ensures
        wc == colored(c),
{
    WidgetComponents { bg_color: Some(c), ..WidgetComponents::none() }
}


/// Spec: a box that fills its parent's width and is `h` pixels tall.
pub open spec fn tall_spec(h: i32) -> Style {
    Style {
        layout: LayoutStyle {
            absolute: false,
            left: Dimension::Px(Fixed { raw: 0 }),
            top: Dimension::Px(Fixed { raw: 0 }),
            width: Dimension::Percent(Fixed { raw: 25600 }),
            height: Dimension::Px(Fixed { raw: wrap32(h * 256) }),
        },
    }
}

pub fn tall(h: i32) -> (s: Style)
    ensures
        s == tall_spec(h),
{
    Style {
        layout: LayoutStyle {
            absolute: false,
            left: Dimension::Px(Fixed::zero()),
            top: Dimension::Px(Fixed::zero()),
            width: Dimension::percent(100),
            height: Dimension::px(h),
        },
    }
}

/// The UTF-8 bytes of `s`.
pub fn text_of(s: &str) -> (v: Vec<u8>)
    ensures
        v@ == s.spec_bytes(),
{
    vstd::slice::slice_to_vec(s.as_bytes())
}

/// Spec: `d` shows the text `s`.
pub open spec fn shows(d: EntityData, s: &str) -> bool {
    d.widgets.text matches Some(t) && t@ == s.spec_bytes()
}

/// Spec: `d` is a text node under `parent` showing `text` in box `style`.
pub open spec fn text_node(d: EntityData, parent: Entity, text: &str, style: Style) -> bool {
    &&& widget_node(d, Some(parent), WidgetComponents { text: d.widgets.text, ..WidgetComponents::empty() }, Some(style), None)
    &&& shows(d, text)
    &&& d.children@.len() == 0
}

/// Adds a widget showing `text` under `parent` (otherwise like [`add_node`]).
pub fn add_text_node(
    world: &mut World,
    parent: Entity,
    wc: WidgetComponents,
    text: &str,
    style: Option<Style>,
    handler: Option<GestureHandler>,
) -> (e: Entity)
    requires
        old(world).has(parent),
        old(world).entities@.len() < u32::MAX,
    ensures
        e == entity_at(old(world).entities@.len() as int),
        final(world).res == old(world).res,
        final(world).entities@.len() == old(world).entities@.len() + 1,
        final(world).has(e),
        final(world).has(parent),
        widget_node(
            final(world).entities@[e.id as int],
            Some(parent),
            WidgetComponents { text: final(world).entities@[e.id as int].widgets.text, ..wc },
            style,
            handler,
        ),
        shows(final(world).entities@[e.id as int], text),
        final(world).entities@[e.id as int].children@.len() == 0,
        final(world).data(parent).children@ == old(world).data(parent).children@.push(e),
        final(world).data(parent) == (EntityData { children: final(world).data(parent).children, ..old(world).data(parent) }),
        others_kept(old(world), final(world), old(world).entities@.len() as int, parent),
{
    let t = text_of(text);
    add_node(world, parent, WidgetComponents { text: Some(t), ..wc }, style, handler)
}

} // verus!
