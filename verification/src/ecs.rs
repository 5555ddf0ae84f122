//! The entity store: every entity's components and the world-wide
//! resources the input pipeline reads and writes.
use vstd::prelude::*;

use crate::event::focus::{FocusState, KeyHandler};
use crate::event::gesture::system::GestureSystem;
use crate::event::multi_tap::MultiTapTracker;
use crate::event::scroll::{ScrollConfig, ScrollDragState, ScrollOffset, ScrollSpring};
use crate::event::sim::{SimTimeline, SimulatedInput};
use crate::event::{EventHandler, GestureHandler, PointerCursor};
use crate::feedback::{InputFeedback, InputFeedbackInput};
use crate::types::Rect;
use crate::view::ViewRegistry;
use crate::widget::{Style, UserState};
use crate::components::{component_marker, has_component_marker, WidgetComponents};
use crate::gallery::demos::book_flip::Page;
use crate::gallery::demos::butterfly::Butterfly;
use crate::gallery::demos::effect_glass::GlassSlide;
use crate::gallery::demos::effect_panels::ColorFlash;
use crate::gallery::demos::cover_flow::{Carousel, CarouselCard, CoverFlowBounds};
use crate::gallery::demos::flip_card::FlipCard;
use crate::gallery::demos::image_flip::Spinner;
use crate::types::Transform3D;

verus! {

#[derive(Clone, Copy, Debug, PartialEq, Eq, Hash, Structural)]
pub struct Entity {
    pub id: u32,
    pub generation: u32,
}

/// Spec: the entity with index `id` and generation 0.
pub open spec fn entity_at(id: int) -> Entity {
    Entity { id: id as u32, generation: 0 }
}

/// Every component an entity may carry. `None` / `false` means absent.
pub struct EntityData {
    pub generation: u32,
    pub parent: Option<Entity>,
    pub children: Vec<Entity>,
    pub widget: bool,
    pub hidden: bool,
    pub ignore_hit_test: bool,
    pub user_state: Option<UserState>,
    pub style: Option<Style>,
    pub computed_rect: Option<Rect>,
    pub scroll_offset: Option<ScrollOffset>,
    pub scroll_config: Option<ScrollConfig>,
    /// A scroll delta is pending on this container this frame.
    pub scroll_delta: bool,
    pub dirty: bool,
    pub focusable: bool,
    pub key_handler: Option<KeyHandler>,
    pub gesture_handler: Option<GestureHandler>,
    pub event_handler: Option<EventHandler>,
    pub overlay_cursor: bool,
    pub overlay_rotary: bool,
    /// Marker components identified by number (e.g. the widget kind a
    /// view renders).
    pub tags: Vec<u32>,
    pub widgets: WidgetComponents,
    /// 3D transform applied when the widget is drawn.
    pub transform3d: Option<Transform3D>,
    pub page: Option<Page>,
    pub flip_card: Option<FlipCard>,
    pub spinner: Option<Spinner>,
    pub carousel: Option<Carousel>,
    pub carousel_card: Option<CarouselCard>,
    pub color_flash: Option<ColorFlash>,
    pub glass_slide: Option<GlassSlide>,
    pub butterfly: Option<Butterfly>,
}

impl EntityData {
    pub open spec fn is_blank(self) -> bool {
        &&& self.generation == 0
        &&& self.parent is None
        &&& self.children@.len() == 0
        &&& !self.widget
        &&& !self.hidden
        &&& !self.ignore_hit_test
        &&& self.user_state is None
        &&& self.style is None
        &&& self.computed_rect is None
        &&& self.scroll_offset is None
        &&& self.scroll_config is None
        &&& !self.scroll_delta
        &&& !self.dirty
        &&& !self.focusable
        &&& self.key_handler is None
        &&& self.gesture_handler is None
        &&& self.event_handler is None
        &&& !self.overlay_cursor
        &&& !self.overlay_rotary
        &&& self.tags@.len() == 0
        &&& self.widgets == WidgetComponents::empty()
        &&& self.transform3d is None
        &&& self.page is None
        &&& self.flip_card is None
        &&& self.spinner is None
        &&& self.carousel is None
        &&& self.carousel_card is None
        &&& self.color_flash is None
        &&& self.glass_slide is None
        &&& self.butterfly is None
    }

    pub fn new() -> (d: EntityData)
        ensures
            d.is_blank(),
    {
        EntityData {
            generation: 0,
            parent: None,
            children: Vec::new(),
            widget: false,
            hidden: false,
            ignore_hit_test: false,
            user_state: None,
            style: None,
            computed_rect: None,
            scroll_offset: None,
            scroll_config: None,
            scroll_delta: false,
            dirty: false,
            focusable: false,
            key_handler: None,
            gesture_handler: None,
            event_handler: None,
            overlay_cursor: false,
            overlay_rotary: false,
            tags: Vec::new(),
            widgets: WidgetComponents::none(),
            transform3d: None,
            page: None,
            flip_card: None,
            spinner: None,
            carousel: None,
            carousel_card: None,
            color_flash: None,
            glass_slide: None,
            butterfly: None,
        }
    }
}

/// Spec: the entity carries marker `tag`: as a plain tag, or through the
/// widget component the tag names.
pub open spec fn has_marker(d: EntityData, tag: u32) -> bool {
    d.tags@.contains(tag) || component_marker(d.widgets, tag)
}

/// Monotonic clock reading supplied by the platform, in nanoseconds.
#[derive(Clone, Copy, Debug, PartialEq, Eq, Structural)]
pub struct MonoClock {
    pub now_ns: u64,
}

/// Spec: a clock reading in whole milliseconds on the wrapping `u32` clock.
pub open spec fn clock_ms(ns: u64) -> u32 {
    (ns / 1_000_000) as u32
}

impl MonoClock {
    pub fn now_ms(&self) -> (r: u32)
        ensures
            r == clock_ms(self.now_ns),
    {
        (self.now_ns / 1_000_000) as u32
    }
}

/// Logical display size.
#[derive(Clone, Copy, Debug, PartialEq, Eq, Structural)]
pub struct DisplayInfo {
    pub width: u16,
    pub height: u16,
}

/// World-wide singletons.
pub struct Resources {
    pub pointer_cursor: Option<PointerCursor>,
    pub gesture: Option<GestureSystem>,
    pub scroll_drag: Option<ScrollDragState>,
    pub scroll_spring: Option<ScrollSpring>,
    pub focus: Option<FocusState>,
    pub multi_tap: Option<MultiTapTracker>,
    pub sim_input: Option<SimulatedInput>,
    pub sim_timeline: Option<SimTimeline>,
    /// Root the simulated-input systems hit-test against when none is set.
    pub sim_root: Option<Entity>,
    pub feedback: Option<InputFeedback>,
    pub feedback_input: Option<InputFeedbackInput>,
    /// Length of the last frame in milliseconds.
    pub delta_time_ms: Option<u32>,
    pub widget_root: Option<Entity>,
    pub display: Option<DisplayInfo>,
    /// Number of region shifts the renderer published last frame.
    pub last_dirty_shifts: Option<usize>,
    pub views: Option<ViewRegistry>,
    pub clock: Option<MonoClock>,
    pub cover_flow_bounds: Option<CoverFlowBounds>,
}

pub struct World {
    /// Entity `e` lives at index `e.id`.
    pub entities: Vec<EntityData>,
    pub res: Resources,
}

impl World {
    /// Spec: `e` names a live entity of this world.
    pub open spec fn has(&self, e: Entity) -> bool {
        e.id < self.entities@.len() && self.entities@[e.id as int].generation == e.generation
    }

    /// Spec: the components of `e` (meaningful when `has(e)`).
    pub open spec fn data(&self, e: Entity) -> EntityData {
        self.entities@[e.id as int]
    }

    /// Spec: `e`'s parent link, if `e` exists and has one.
    pub open spec fn parent_of(&self, e: Entity) -> Option<Entity> {
        if self.has(e) {
            self.data(e).parent
        } else {
            None
        }
    }

    /// Spec: `e`'s children, empty when `e` does not exist.
    pub open spec fn children_of(&self, e: Entity) -> Seq<Entity> {
        if self.has(e) {
            self.data(e).children@
        } else {
            Seq::empty()
        }
    }

    pub open spec fn user_state_of(&self, e: Entity) -> Option<UserState> {
        if self.has(e) {
            self.data(e).user_state
        } else {
            None
        }
    }

    pub open spec fn rect_of(&self, e: Entity) -> Option<Rect> {
        if self.has(e) {
            self.data(e).computed_rect
        } else {
            None
        }
    }

    /// Spec: `other` equals `self` except that entity `e` has data `d`.
    pub open spec fn entity_updated(&self, other: &World, e: Entity, d: EntityData) -> bool {
        &&& other.entities@ == self.entities@.update(e.id as int, d)
        &&& other.res == self.res
    }

    pub fn new() -> (w: World)
        ensures
            w.entities@.len() == 0,
            w.res == World::empty_resources(),
    {
        World { entities: Vec::new(), res: World::fresh_resources() }
    }

    pub open spec fn empty_resources() -> Resources {
        Resources {
            pointer_cursor: None,
            gesture: None,
            scroll_drag: None,
            scroll_spring: None,
            focus: None,
            multi_tap: None,
            sim_input: None,
            sim_timeline: None,
            sim_root: None,
            feedback: None,
            feedback_input: None,
            delta_time_ms: None,
            widget_root: None,
            display: None,
            last_dirty_shifts: None,
            views: None,
            clock: None,
            cover_flow_bounds: None,
        }
    }

    fn fresh_resources() -> (r: Resources)
        ensures
            r == World::empty_resources(),
    {
        Resources {
            pointer_cursor: None,
            gesture: None,
            scroll_drag: None,
            scroll_spring: None,
            focus: None,
            multi_tap: None,
            sim_input: None,
            sim_timeline: None,
            sim_root: None,
            feedback: None,
            feedback_input: None,
            delta_time_ms: None,
            widget_root: None,
            display: None,
            last_dirty_shifts: None,
            views: None,
            clock: None,
            cover_flow_bounds: None,
        }
    }

    /// Adds an entity with no components.
    pub fn spawn(&mut self) -> (e: Entity)
        requires
            old(self).entities@.len() < u32::MAX,
        ensures
            e == entity_at(old(self).entities@.len() as int),
            final(self).entities@.len() == old(self).entities@.len() + 1,
            final(self).entities@.take(old(self).entities@.len() as int) == old(self).entities@,
            final(self).data(e).is_blank(),
            final(self).has(e),
            final(self).res == old(self).res,
    {
        let id = self.entities.len() as u32;
        self.entities.push(EntityData::new());
        assert(final(self).entities@.take(old(self).entities@.len() as int) =~= old(self).entities@);
        Entity { id, generation: 0 }
    }

    /// Same as [`World::spawn`].
    pub fn spawn_empty(&mut self) -> (e: Entity)
        requires
            old(self).entities@.len() < u32::MAX,
        ensures
            e == entity_at(old(self).entities@.len() as int),
            final(self).entities@.len() == old(self).entities@.len() + 1,
            final(self).entities@.take(old(self).entities@.len() as int) == old(self).entities@,
            final(self).data(e).is_blank(),
            final(self).has(e),
            final(self).res == old(self).res,
    {
        self.spawn()
    }

    pub fn contains(&self, e: Entity) -> (r: bool)
        ensures
            r == self.has(e),
    {
        (e.id as usize) < self.entities.len() && self.entities[e.id as usize].generation
            == e.generation
    }

    pub fn get(&self, e: Entity) -> (r: Option<&EntityData>)
        ensures
            self.has(e) ==> r == Some(&self.data(e)),
            !self.has(e) ==> r is None,
    {
        if self.contains(e) {
            Some(&self.entities[e.id as usize])
        } else {
            None
        }
    }

    pub fn parent(&self, e: Entity) -> (r: Option<Entity>)
        ensures
            r == self.parent_of(e),
    {
        if self.contains(e) {
            self.entities[e.id as usize].parent
        } else {
            None
        }
    }

    pub fn user_state(&self, e: Entity) -> (r: Option<UserState>)
        ensures
            r == self.user_state_of(e),
    {
        if self.contains(e) {
            self.entities[e.id as usize].user_state
        } else {
            None
        }
    }

    pub fn computed_rect(&self, e: Entity) -> (r: Option<Rect>)
        ensures
            r == self.rect_of(e),
    {
        if self.contains(e) {
            self.entities[e.id as usize].computed_rect
        } else {
            None
        }
    }

    pub fn scroll_offset(&self, e: Entity) -> (r: Option<ScrollOffset>)
        ensures
            self.has(e) ==> r == self.data(e).scroll_offset,
            !self.has(e) ==> r is None,
    {
        if self.contains(e) {
            self.entities[e.id as usize].scroll_offset
        } else {
            None
        }
    }

    pub fn scroll_config(&self, e: Entity) -> (r: Option<ScrollConfig>)
        ensures
            self.has(e) ==> r == self.data(e).scroll_config,
            !self.has(e) ==> r is None,
    {
        if self.contains(e) {
            self.entities[e.id as usize].scroll_config
        } else {
            None
        }
    }

    pub fn is_focusable(&self, e: Entity) -> (r: bool)
        ensures
            r == (self.has(e) && self.data(e).focusable),
    {
        self.contains(e) && self.entities[e.id as usize].focusable
    }

    pub fn key_handler(&self, e: Entity) -> (r: Option<KeyHandler>)
        ensures
            self.has(e) ==> r == self.data(e).key_handler,
            !self.has(e) ==> r is None,
    {
        if self.contains(e) {
            self.entities[e.id as usize].key_handler
        } else {
            None
        }
    }

    pub fn gesture_handler(&self, e: Entity) -> (r: Option<GestureHandler>)
        ensures
            self.has(e) ==> r == self.data(e).gesture_handler,
            !self.has(e) ==> r is None,
    {
        if self.contains(e) {
            self.entities[e.id as usize].gesture_handler
        } else {
            None
        }
    }

    pub fn is_dirty(&self, e: Entity) -> (r: bool)
        ensures
            r == (self.has(e) && self.data(e).dirty),
    {
        self.contains(e) && self.entities[e.id as usize].dirty
    }

    pub fn has_tag(&self, e: Entity, tag: u32) -> (r: bool)
        ensures
            r == (self.has(e) && has_marker(self.data(e), tag)),
    {
        if !self.contains(e) {
            return false;
        }
        if has_component_marker(&self.entities[e.id as usize].widgets, tag) {
            return true;
        }
        let tags = &self.entities[e.id as usize].tags;
        let mut i: usize = 0;
        while i < tags.len()
            invariant
                i <= tags@.len(),
                tags@ == self.data(e).tags@,
                self.has(e),
                forall|j: int| 0 <= j < i ==> tags@[j] != tag,
            decreases tags@.len() - i,
        {
            if tags[i] == tag {
                assert(tags@[i as int] == tag);
                return true;
            }
            i = i + 1;
        }
        false
    }

    pub fn set_parent(&mut self, e: Entity, parent: Entity)
        ensures
            old(self).has(e) ==> old(self).entity_updated(
                final(self),
                e,
                EntityData { parent: Some(parent), ..old(self).data(e) },
            ),
            !old(self).has(e) ==> *final(self) == *old(self),
    {
        if self.contains(e) {
            self.entities[e.id as usize].parent = Some(parent);
        }
    }

    /// Appends `child` to `e`'s children.
    pub fn push_child(&mut self, e: Entity, child: Entity)
        ensures
            old(self).has(e) ==> {
                &&& final(self).entities@.len() == old(self).entities@.len()
                &&& final(self).res == old(self).res
                &&& final(self).data(e).children@ == old(self).data(e).children@.push(child)
                &&& final(self).data(e) == (EntityData { children: final(self).data(e).children, ..old(self).data(e) })
                &&& forall|i: int|
                    0 <= i < old(self).entities@.len() && i != e.id ==> final(self).entities@[i]
                        == old(self).entities@[i]
            },
            !old(self).has(e) ==> *final(self) == *old(self),
    {
        if self.contains(e) {
            self.entities[e.id as usize].children.push(child);
        }
    }

    /// Makes `child` the last child of `parent` (both links).
    pub fn attach(&mut self, parent: Entity, child: Entity)
        requires
            old(self).has(parent),
            old(self).has(child),
            parent != child,
        ensures
            final(self).entities@.len() == old(self).entities@.len(),
            final(self).res == old(self).res,
            final(self).has(parent) && final(self).has(child),
            final(self).data(child).parent == Some(parent),
            final(self).data(parent).children@ == old(self).data(parent).children@.push(child),
    {
        self.set_parent(child, parent);
        self.push_child(parent, child);
    }

    pub fn set_user_state(&mut self, e: Entity, s: Option<UserState>)
        ensures
            old(self).has(e) ==> old(self).entity_updated(
                final(self),
                e,
                EntityData { user_state: s, ..old(self).data(e) },
            ),
            !old(self).has(e) ==> *final(self) == *old(self),
    {
        if self.contains(e) {
            self.entities[e.id as usize].user_state = s;
        }
    }

    pub fn set_widget(&mut self, e: Entity, on: bool)
        ensures
            old(self).has(e) ==> old(self).entity_updated(
                final(self),
                e,
                EntityData { widget: on, ..old(self).data(e) },
            ),
            !old(self).has(e) ==> *final(self) == *old(self),
    {
        if self.contains(e) {
            self.entities[e.id as usize].widget = on;
        }
    }

    pub fn set_hidden(&mut self, e: Entity, on: bool)
        ensures
            old(self).has(e) ==> old(self).entity_updated(
                final(self),
                e,
                EntityData { hidden: on, ..old(self).data(e) },
            ),
            !old(self).has(e) ==> *final(self) == *old(self),
    {
        if self.contains(e) {
            self.entities[e.id as usize].hidden = on;
        }
    }

    pub fn set_ignore_hit_test(&mut self, e: Entity, on: bool)
        ensures
            old(self).has(e) ==> old(self).entity_updated(
                final(self),
                e,
                EntityData { ignore_hit_test: on, ..old(self).data(e) },
            ),
            !old(self).has(e) ==> *final(self) == *old(self),
    {
        if self.contains(e) {
            self.entities[e.id as usize].ignore_hit_test = on;
        }
    }

    pub fn set_style(&mut self, e: Entity, s: Option<Style>)
        ensures
            old(self).has(e) ==> old(self).entity_updated(
                final(self),
                e,
                EntityData { style: s, ..old(self).data(e) },
            ),
            !old(self).has(e) ==> *final(self) == *old(self),
    {
        if self.contains(e) {
            self.entities[e.id as usize].style = s;
        }
    }

    pub fn set_computed_rect(&mut self, e: Entity, r: Option<Rect>)
        ensures
            old(self).has(e) ==> old(self).entity_updated(
                final(self),
                e,
                EntityData { computed_rect: r, ..old(self).data(e) },
            ),
            !old(self).has(e) ==> *final(self) == *old(self),
    {
        if self.contains(e) {
            self.entities[e.id as usize].computed_rect = r;
        }
    }

    pub fn set_scroll_offset(&mut self, e: Entity, s: Option<ScrollOffset>)
        ensures
            old(self).has(e) ==> old(self).entity_updated(
                final(self),
                e,
                EntityData { scroll_offset: s, ..old(self).data(e) },
            ),
            !old(self).has(e) ==> *final(self) == *old(self),
    {
        if self.contains(e) {
            self.entities[e.id as usize].scroll_offset = s;
        }
    }

    pub fn set_scroll_config(&mut self, e: Entity, c: Option<ScrollConfig>)
        ensures
            old(self).has(e) ==> old(self).entity_updated(
                final(self),
                e,
                EntityData { scroll_config: c, ..old(self).data(e) },
            ),
            !old(self).has(e) ==> *final(self) == *old(self),
    {
        if self.contains(e) {
            self.entities[e.id as usize].scroll_config = c;
        }
    }

    pub fn set_scroll_delta(&mut self, e: Entity, on: bool)
        ensures
            old(self).has(e) ==> old(self).entity_updated(
                final(self),
                e,
                EntityData { scroll_delta: on, ..old(self).data(e) },
            ),
            !old(self).has(e) ==> *final(self) == *old(self),
    {
        if self.contains(e) {
            self.entities[e.id as usize].scroll_delta = on;
        }
    }

    pub fn set_dirty(&mut self, e: Entity, on: bool)
        ensures
            old(self).has(e) ==> old(self).entity_updated(
                final(self),
                e,
                EntityData { dirty: on, ..old(self).data(e) },
            ),
            !old(self).has(e) ==> *final(self) == *old(self),
    {
        if self.contains(e) {
            self.entities[e.id as usize].dirty = on;
        }
    }

    pub fn set_focusable(&mut self, e: Entity, on: bool)
        ensures
            old(self).has(e) ==> old(self).entity_updated(
                final(self),
                e,
                EntityData { focusable: on, ..old(self).data(e) },
            ),
            !old(self).has(e) ==> *final(self) == *old(self),
    {
        if self.contains(e) {
            self.entities[e.id as usize].focusable = on;
        }
    }

    pub fn set_key_handler(&mut self, e: Entity, h: Option<KeyHandler>)
        ensures
            old(self).has(e) ==> old(self).entity_updated(
                final(self),
                e,
                EntityData { key_handler: h, ..old(self).data(e) },
            ),
            !old(self).has(e) ==> *final(self) == *old(self),
    {
        if self.contains(e) {
            self.entities[e.id as usize].key_handler = h;
        }
    }

    pub fn set_gesture_handler(&mut self, e: Entity, h: Option<GestureHandler>)
        ensures
            old(self).has(e) ==> old(self).entity_updated(
                final(self),
                e,
                EntityData { gesture_handler: h, ..old(self).data(e) },
            ),
            !old(self).has(e) ==> *final(self) == *old(self),
    {
        if self.contains(e) {
            self.entities[e.id as usize].gesture_handler = h;
        }
    }

    pub fn set_event_handler(&mut self, e: Entity, h: Option<EventHandler>)
        ensures
            old(self).has(e) ==> old(self).entity_updated(
                final(self),
                e,
                EntityData { event_handler: h, ..old(self).data(e) },
            ),
            !old(self).has(e) ==> *final(self) == *old(self),
    {
        if self.contains(e) {
            self.entities[e.id as usize].event_handler = h;
        }
    }

    pub fn set_overlay_cursor(&mut self, e: Entity, on: bool)
        ensures
            old(self).has(e) ==> old(self).entity_updated(
                final(self),
                e,
                EntityData { overlay_cursor: on, ..old(self).data(e) },
            ),
            !old(self).has(e) ==> *final(self) == *old(self),
    {
        if self.contains(e) {
            self.entities[e.id as usize].overlay_cursor = on;
        }
    }

    pub fn set_overlay_rotary(&mut self, e: Entity, on: bool)
        ensures
            old(self).has(e) ==> old(self).entity_updated(
                final(self),
                e,
                EntityData { overlay_rotary: on, ..old(self).data(e) },
            ),
            !old(self).has(e) ==> *final(self) == *old(self),
    {
        if self.contains(e) {
            self.entities[e.id as usize].overlay_rotary = on;
        }
    }

    /// Adds the marker component `tag` to `e`.
    pub fn add_tag(&mut self, e: Entity, tag: u32)
        ensures
            old(self).has(e) ==> {
                &&& final(self).entities@.len() == old(self).entities@.len()
                &&& final(self).res == old(self).res
                &&& final(self).data(e).tags@ == old(self).data(e).tags@.push(tag)
                &&& final(self).data(e) == (EntityData { tags: final(self).data(e).tags, ..old(self).data(e) })
                &&& forall|i: int|
                    0 <= i < old(self).entities@.len() && i != e.id ==> final(self).entities@[i]
                        == old(self).entities@[i]
            },
            !old(self).has(e) ==> *final(self) == *old(self),
    {
        if self.contains(e) {
            self.entities[e.id as usize].tags.push(tag);
        }
    }
}

} // verus!
