//! The per-event side of the input pipeline and gesture dispatch.
pub mod dispatch;
pub mod focus;
pub mod gesture;
pub mod hit_test;
pub mod input;
pub mod multi_tap;
pub mod scroll;
pub mod sim;
pub mod widget_input;

use vstd::prelude::*;

use crate::components::{builtin_ok, run_builtin_gesture, BuiltinGesture};
use crate::ecs::{Entity, Resources, World};
use crate::view::WidgetView;
use crate::types::Fixed;
use crate::widget::UserState;

use focus::{key_dispatch, key_dispatch_ok, key_route};
use gesture::event::{gesture_target, GestureEvent};
use gesture::recognizer::GestureRecognizer;
use gesture::system::GestureSystem;
use hit_test::{hit_test, hit_test_spec};
use input::InputEvent;
use scroll::system::scroll_system_ok;
use scroll::{scroll_system, ScrollDragState};

verus! {

/// Last known pointer position and button state.
#[derive(Clone, Copy, Debug, PartialEq, Eq, Structural)]
pub struct PointerCursor {
    pub x: Fixed,
    pub y: Fixed,
    pub down: bool,
    /// Bumps on every PointerDown / PointerUp; PointerMove leaves it.
    pub event_seq: u32,
}

impl PointerCursor {
    pub open spec fn initial() -> PointerCursor {
        PointerCursor { x: Fixed { raw: 0 }, y: Fixed { raw: 0 }, down: false, event_seq: 0 }
    }

    pub fn new() -> (c: PointerCursor)
        ensures
            c == PointerCursor::initial(),
    {
        PointerCursor { x: Fixed::zero(), y: Fixed::zero(), down: false, event_seq: 0 }
    }
}

/// Spec: `s + 1` on the wrapping `u32` counter.
pub open spec fn seq_next(s: u32) -> u32 {
    if s == u32::MAX {
        0
    } else {
        (s + 1) as u32
    }
}

pub fn seq_bump(s: u32) -> (r: u32)
    ensures
        r == seq_next(s),
{
    if s == u32::MAX {
        0
    } else {
        s + 1
    }
}

/// Spec: the pointer cursor after a raw event.
pub open spec fn cursor_after(c: Option<PointerCursor>, event: InputEvent) -> Option<PointerCursor> {
    let cur = match c {
        Some(v) => v,
        None => PointerCursor::initial(),
    };
    match event {
        InputEvent::PointerDown { x, y, .. } => Some(
            PointerCursor { x, y, down: true, event_seq: seq_next(cur.event_seq) },
        ),
        InputEvent::PointerMove { x, y, .. } => Some(PointerCursor { x, y, ..cur }),
        InputEvent::PointerUp { x, y, .. } => Some(
            PointerCursor { x, y, down: false, event_seq: seq_next(cur.event_seq) },
        ),
        _ => c,
    }
}

/// Callbacks the application registers by number: gesture handlers,
/// key handlers and legacy widget-event handlers.
pub trait Callbacks: Sized {
    /// Spec: gesture callback `id` run for `entity` and `event` may leave
    /// the table as `after`, take the world from `w` to `w2` and answer
    /// `r` (whether it consumed the event). Each table says what its
    /// callbacks do.
    spec fn gesture_outcome(&self, id: u32, w: World, entity: Entity, event: GestureEvent, after: Self, w2: World, r: bool) -> bool;

    /// Spec: key callback `id` run for `entity` and `event` may leave the
    /// table as `after`, take the world from `w` to `w2` and answer `r`.
    spec fn key_outcome(&self, id: u32, w: World, entity: Entity, event: InputEvent, after: Self, w2: World, r: bool) -> bool;

    /// Spec: widget-event callback `id` run for `entity` and `event` may
    /// leave the table as `after`.
    spec fn widget_event_outcome(&self, id: u32, entity: Entity, event: WidgetEvent, after: Self) -> bool;

    fn gesture(&mut self, world: &mut World, id: u32, entity: Entity, event: &GestureEvent) -> (r: bool)
        ensures
            old(self).gesture_outcome(id, *old(world), entity, *event, *final(self), *final(world), r),
    ;

    fn key(&mut self, world: &mut World, id: u32, entity: Entity, event: &InputEvent) -> (r: bool)
        ensures
            old(self).key_outcome(id, *old(world), entity, *event, *final(self), *final(world), r),
    ;

    fn widget_event(&mut self, id: u32, entity: Entity, event: &WidgetEvent)
        ensures
            old(self).widget_event_outcome(id, entity, *event, *final(self)),
    ;
}

/// A callback table with no entries: every call declines.
pub struct NoCallbacks;

impl Callbacks for NoCallbacks {
    /// Every gesture callback declines and leaves the world alone.
    open spec fn gesture_outcome(&self, id: u32, w: World, entity: Entity, event: GestureEvent, after: Self, w2: World, r: bool) -> bool {
        !r && w2 == w
    }

    /// Every key callback declines and leaves the world alone.
    open spec fn key_outcome(&self, id: u32, w: World, entity: Entity, event: InputEvent, after: Self, w2: World, r: bool) -> bool {
        !r && w2 == w
    }

    open spec fn widget_event_outcome(&self, id: u32, entity: Entity, event: WidgetEvent, after: Self) -> bool {
        true
    }

    fn gesture(&mut self, world: &mut World, id: u32, entity: Entity, event: &GestureEvent) -> (r: bool) {
        false
    }

    fn key(&mut self, world: &mut World, id: u32, entity: Entity, event: &InputEvent) -> (r: bool) {
        false
    }

    fn widget_event(&mut self, id: u32, entity: Entity, event: &WidgetEvent) {
    }
}

/// Legacy per-widget event delivered by [`dispatch::dispatch`].
#[derive(Clone, Copy, Debug, PartialEq, Eq, Structural)]
pub enum WidgetEvent {
    TouchDown { x: Fixed, y: Fixed },
    Click { x: Fixed, y: Fixed },
}

/// Legacy handler component: a registered callback number.
#[derive(Clone, Copy, Debug, PartialEq, Eq, Structural)]
pub struct EventHandler {
    pub on_event: u32,
}

/// Spec: `entity` or one of its ancestors (within `fuel` parent steps)
/// carries `UserState::Disabled`.
pub open spec fn disabled_within(w: &World, entity: Entity, fuel: nat) -> bool
    decreases fuel,
{
    if fuel == 0 {
        false
    } else if w.user_state_of(entity) == Some(UserState::Disabled) {
        true
    } else {
        match w.parent_of(entity) {
            Some(p) => disabled_within(w, p, (fuel - 1) as nat),
            None => false,
        }
    }
}

/// Spec: the parent walk from `entity` reaches a disabled entity. The walk
/// is bounded by the number of entities plus one, which an acyclic
/// parent chain never exceeds.
pub open spec fn disabled_spec(w: &World, entity: Entity) -> bool {
    disabled_within(w, entity, (w.entities@.len() + 1) as nat)
}

/// `true` when `entity` or any ancestor is `UserState::Disabled`
/// (`Errored` does not count).
pub fn entity_or_ancestor_disabled(world: &World, entity: Entity) -> (r: bool)
    ensures
        r == disabled_spec(world, entity),
{
    let total: usize = world.entities.len();
    let mut fuel: u128 = total as u128 + 1;
    let mut cur = entity;
    while fuel > 0
        invariant
            disabled_spec(world, entity) == disabled_within(world, cur, fuel as nat),
        decreases fuel,
    {
        if let Some(UserState::Disabled) = world.user_state(cur) {
            return true;
        }
        match world.parent(cur) {
            Some(p) => {
                cur = p;
            },
            None => {
                return false;
            },
        }
        fuel = fuel - 1;
    }
    false
}

/// Gesture handler callback: an application callback number, or one of
/// the library's own handlers.
#[derive(Clone, Copy, Debug, PartialEq, Eq, Structural)]
pub enum GestureCallback {
    /// A plain function registered under this number.
    Fn(u32),
    /// A capturing closure registered under this number.
    Closure(u32),
    /// A handler of the library's own widgets and demos.
    Builtin(BuiltinGesture),
}

/// Spec: running gesture callback `cb` for `e` and `ev` may take the
/// table from `c` to `c2` and the world from `w` to `w2`, answering `r`:
/// a library handler as [`builtin_ok`] says (the table untouched), an
/// application callback as the table's [`Callbacks::gesture_outcome`]
/// says for its number.
pub open spec fn callback_outcome<C: Callbacks>(
    cb: GestureCallback,
    c: C,
    w: World,
    e: Entity,
    ev: GestureEvent,
    c2: C,
    w2: World,
    r: bool,
) -> bool {
    match cb {
        GestureCallback::Builtin(b) => builtin_ok(b, &w, &w2, e, ev, r) && c2 == c,
        GestureCallback::Fn(id) => c.gesture_outcome(id, w, e, ev, c2, w2, r),
        GestureCallback::Closure(id) => c.gesture_outcome(id, w, e, ev, c2, w2, r),
    }
}

/// Spec: looking up and running `e`'s gesture handler takes `(c, w)` to
/// `(c2, w2)` and answers `r`: `None`, with nothing changed, when `e` has
/// no handler; otherwise the handler's own answer.
pub open spec fn trigger_outcome<C: Callbacks>(
    c: C,
    w: World,
    e: Entity,
    ev: GestureEvent,
    c2: C,
    w2: World,
    r: Option<bool>,
) -> bool {
    if w.has(e) && w.data(e).gesture_handler is Some {
        r matches Some(b) && callback_outcome(w.data(e).gesture_handler.unwrap().on_gesture, c, w, e, ev, c2, w2, b)
    } else {
        r is None && c2 == c && w2 == w
    }
}

impl GestureCallback {
    /// Runs the callback; `true` consumes the event. A library handler
    /// behaves as [`builtin_ok`] says; an application callback is the
    /// application's.
    pub fn call<C: Callbacks>(
        &self,
        world: &mut World,
        callbacks: &mut C,
        entity: Entity,
        event: &GestureEvent,
    ) -> (r: bool)
        ensures
            callback_outcome(*self, *old(callbacks), *old(world), entity, *event, *final(callbacks), *final(world), r),
    {
        match self {
            GestureCallback::Fn(id) => callbacks.gesture(world, *id, entity, event),
            GestureCallback::Closure(id) => callbacks.gesture(world, *id, entity, event),
            GestureCallback::Builtin(b) => run_builtin_gesture(*b, world, entity, event),
        }
    }
}

/// Per-entity user gesture handler component.
#[derive(Clone, Copy, Debug, PartialEq, Eq, Structural)]
pub struct GestureHandler {
    pub on_gesture: GestureCallback,
}

impl GestureHandler {
    pub fn from_fn(f: u32) -> (h: GestureHandler)
        ensures
            h.on_gesture == GestureCallback::Fn(f),
    {
        GestureHandler { on_gesture: GestureCallback::Fn(f) }
    }

    /// Looks up `entity`'s gesture handler and runs it: `None` when the
    /// entity has none (the world is then untouched), otherwise whether
    /// the handler consumed the event.
    pub fn trigger<C: Callbacks>(
        world: &mut World,
        callbacks: &mut C,
        entity: Entity,
        event: &GestureEvent,
    ) -> (r: Option<bool>)
        ensures
            trigger_outcome(*old(callbacks), *old(world), entity, *event, *final(callbacks), *final(world), r),
    {
        let cb = match world.gesture_handler(entity) {
            Some(h) => h.on_gesture,
            None => {
                return None;
            },
        };
        Some(cb.call(world, callbacks, entity, event))
    }
}

/// Business-event callbacks registered by number, for events of type `E`.
pub trait BusinessCallbacks<E> {
    /// Spec: running callback `id` for `entity` and `event` may take the
    /// world from `w` to `w2` and answer `r` (whether the event was
    /// consumed). Each table says what its callbacks do.
    spec fn business_outcome(&self, id: u32, w: World, entity: Entity, event: E, w2: World, r: bool) -> bool;

    fn business(&mut self, world: &mut World, id: u32, entity: Entity, event: &E) -> (r: bool)
        ensures
            old(self).business_outcome(id, *old(world), entity, *event, *final(world), r),
    ;
}

impl<E> BusinessCallbacks<E> for NoCallbacks {
    /// No callback is registered: each declines and leaves the world alone.
    open spec fn business_outcome(&self, id: u32, w: World, entity: Entity, event: E, w2: World, r: bool) -> bool {
        !r && w2 == w
    }

    fn business(&mut self, world: &mut World, id: u32, entity: Entity, event: &E) -> (r: bool) {
        false
    }
}

/// Business-event callback, generic over the widget's event type.
pub enum BusinessCallback<E> {
    Fn(u32, core::marker::PhantomData<E>),
    Closure(u32, core::marker::PhantomData<E>),
}

impl<E> BusinessCallback<E> {
    pub open spec fn spec_id(&self) -> u32 {
        match self {
            BusinessCallback::Fn(id, _) => *id,
            BusinessCallback::Closure(id, _) => *id,
        }
    }

    /// Runs the callback registered under this callback's number and
    /// answers what it answers.
    pub fn call<C: BusinessCallbacks<E>>(
        &self,
        world: &mut World,
        callbacks: &mut C,
        entity: Entity,
        event: &E,
    ) -> (r: bool)
        ensures
            old(callbacks).business_outcome(self.spec_id(), *old(world), entity, *event, *final(world), r),
    {
        match self {
            BusinessCallback::Fn(id, _) => callbacks.business(world, *id, entity, event),
            BusinessCallback::Closure(id, _) => callbacks.business(world, *id, entity, event),
        }
    }

    /// A copy of the callback, so it can run while the world is borrowed.
    pub fn clone_out(&self) -> (r: BusinessCallback<E>)
        ensures
            r.spec_id() == self.spec_id(),
            (r is Fn) == (self is Fn),
    {
        match self {
            BusinessCallback::Fn(id, _) => BusinessCallback::Fn(*id, core::marker::PhantomData),
            BusinessCallback::Closure(id, _) => BusinessCallback::Closure(
                *id,
                core::marker::PhantomData,
            ),
        }
    }
}

/// Context handed to user event bodies.
pub struct HandlerCtx<E> {
    pub entity: Entity,
    pub event: E,
}

/// Spelled-out bubble control for event-body return values.
#[derive(Clone, Copy, Debug, PartialEq, Eq, Structural)]
pub enum BubbleControl {
    Prevent,
    Allow,
}

/// Bridges event-body return types into the "consumed" bit.
pub trait HandlerReturn {
    fn into_consumed(self) -> bool;
}

impl HandlerReturn for () {
    /// `()` consumes the event (stop propagation by default).
    fn into_consumed(self) -> (r: bool)
        ensures
            r,
    {
        true
    }
}

impl HandlerReturn for bool {
    fn into_consumed(self) -> (r: bool)
        ensures
            r == self,
    {
        self
    }
}

impl HandlerReturn for BubbleControl {
    fn into_consumed(self) -> (r: bool)
        ensures
            r == (self == BubbleControl::Prevent),
    {
        match self {
            BubbleControl::Prevent => true,
            BubbleControl::Allow => false,
        }
    }
}


// ─── Per-event pipeline ─────────────────────────────────────────────────

/// Spec: `w` with the pointer cursor advanced by `event`.
pub open spec fn with_cursor(w: &World, event: InputEvent) -> World {
    World { res: Resources { pointer_cursor: cursor_after(w.res.pointer_cursor, event), ..w.res }, ..*w }
}

/// Spec: the hit-test target of a press, `None` for other events.
pub open spec fn pointer_hit(w: &World, root: Entity, event: InputEvent) -> Option<Entity> {
    match event {
        InputEvent::PointerDown { x, y, .. } => hit_test_spec(w, root, x, y),
        _ => None,
    }
}

/// Spec: a press that lands in a disabled subtree is swallowed.
pub open spec fn lands_on_disabled(w: &World, root: Entity, event: InputEvent) -> bool {
    match pointer_hit(w, root, event) {
        Some(t) => disabled_spec(w, t),
        None => false,
    }
}

/// Spec: a scroll container owns the current drag.
pub open spec fn scroll_claims(w: &World) -> bool {
    w.res.scroll_drag matches Some(s) && s.active && s.resolved
}

/// Spec: `w2` is `w` after the gesture recogniser saw `event` (told
/// whether a scroll container owns the drag, and given the press target).
pub open spec fn recognized(w: &World, w2: &World, root: Entity, event: InputEvent, now_ms: u32) -> bool {
    &&& w2.entities@ == w.entities@
    &&& match w.res.gesture {
        Some(gs) => {
            let rec = GestureRecognizer { scroll_claimed: scroll_claims(w), ..gs.recognizer };
            let out = rec.update_spec(event, now_ms, pointer_hit(w, root, event));
            &&& w2.res == Resources { gesture: w2.res.gesture, ..w.res }
            &&& w2.res.gesture matches Some(g2) && g2.recognizer == out.0 && g2.events.buffer@
                == gs.events.buffer@ + out.1
        },
        None => w2.res == w.res,
    }
}

/// Spec: the whole per-event pipeline, taking the table from `c` to `c2`
/// and the world from `w` to `w_final`: the cursor moves, a press on a
/// disabled subtree stops there, otherwise the scroll system and then the
/// recogniser see the event, and key input then goes to the focused
/// entity's handler as [`key_dispatch_ok`] says.
pub open spec fn dispatch_input_ok<C: Callbacks>(
    c: C,
    w: &World,
    w_final: &World,
    root: Entity,
    event: InputEvent,
    now_ms: u32,
    c2: C,
) -> bool {
    let w1 = with_cursor(w, event);
    if lands_on_disabled(&w1, root, event) {
        *w_final == w1 && c2 == c
    } else {
        exists|w2: World, w3: World|
            #![trigger scroll_system_ok(&w1, &w2, root, event), recognized(&w2, &w3, root, event, now_ms)]
            scroll_system_ok(&w1, &w2, root, event) && recognized(&w2, &w3, root, event, now_ms)
                && key_dispatch_ok(c, w3, event, c2, *w_final)
    }
}

fn advance_cursor(world: &mut World, event: &InputEvent)
    ensures
        *final(world) == with_cursor(old(world), *event),
{
    let cur = match world.res.pointer_cursor {
        Some(c) => c,
        None => PointerCursor::new(),
    };
    match event {
        InputEvent::PointerDown { x, y, .. } => {
            world.res.pointer_cursor = Some(
                PointerCursor { x: *x, y: *y, down: true, event_seq: seq_bump(cur.event_seq) },
            );
        },
        InputEvent::PointerMove { x, y, .. } => {
            world.res.pointer_cursor = Some(PointerCursor { x: *x, y: *y, ..cur });
        },
        InputEvent::PointerUp { x, y, .. } => {
            world.res.pointer_cursor = Some(
                PointerCursor { x: *x, y: *y, down: false, event_seq: seq_bump(cur.event_seq) },
            );
        },
        _ => {},
    }
}

fn recognize(world: &mut World, root: Entity, event: &InputEvent, now_ms: u32, lw: u16, lh: u16)
    ensures
        recognized(old(world), final(world), root, *event, now_ms),
{
    let claimed = match world.res.scroll_drag {
        Some(s) => s.active && s.resolved,
        None => false,
    };
    let hit = match event {
        InputEvent::PointerDown { x, y, .. } => hit_test(world, root, *x, *y, lw, lh),
        _ => None,
    };
    match world.res.gesture.take() {
        Some(gs) => {
            let mut gs = gs;
            gs.recognizer.scroll_claimed = claimed;
            gs.recognizer.update(event, now_ms, hit, &mut gs.events);
            world.res.gesture = Some(gs);
        },
        None => {},
    }
}

/// The per-event side of the input pipeline, shared by real and simulated
/// input: cursor, disabled-subtree drop, scroll, gesture recogniser and
/// key dispatch. Recognised gestures stay buffered in the
/// [`GestureSystem`] for the caller to dispatch.
pub fn dispatch_input<C: Callbacks>(
    world: &mut World,
    callbacks: &mut C,
    root: Entity,
    event: &InputEvent,
    now_ms: u32,
    lw: u16,
    lh: u16,
)
    ensures
        dispatch_input_ok(*old(callbacks), old(world), final(world), root, *event, now_ms, *final(callbacks)),
{
    advance_cursor(world, event);
    let ghost w1 = *world;
    if let InputEvent::PointerDown { x, y, .. } = event {
        if let Some(target) = hit_test(world, root, *x, *y, lw, lh) {
            if entity_or_ancestor_disabled(world, target) {
                key_dispatch(world, callbacks, event);
                return ;
            }
        }
    }
    scroll_system(world, root, event, lw, lh);
    let ghost w2 = *world;
    recognize(world, root, event, now_ms, lw, lh);
    let ghost w3 = *world;
    key_dispatch(world, callbacks, event);
    proof {
        assert(scroll_system_ok(&w1, &w2, root, *event) && recognized(&w2, &w3, root, *event, now_ms));
    }
}

// ─── Gesture bubbling ───────────────────────────────────────────────────

/// Spec: the internal gesture handlers of the first `n` registered views
/// that apply to `e` (no filter, or `e` carries the filter tag), in order.
pub open spec fn internal_from(w: &World, e: Entity, views: Seq<WidgetView>, n: int) -> Seq<GestureCallback>
    decreases n,
{
    if n <= 0 {
        Seq::empty()
    } else {
        let prev = internal_from(w, e, views, n - 1);
        let v = views[n - 1];
        match v.internal {
            Some(f) => match v.filter {
                Some(tag) => if w.has(e) && crate::ecs::has_marker(w.data(e), tag) {
                    prev.push(f)
                } else {
                    prev
                },
                None => prev.push(f),
            },
            None => prev,
        }
    }
}

/// Spec: the internal gesture handlers that apply to `e`.
pub open spec fn internal_handlers_spec(w: &World, e: Entity) -> Seq<GestureCallback> {
    match w.res.views {
        Some(reg) => internal_from(w, e, reg.views@, reg.views@.len() as int),
        None => Seq::empty(),
    }
}

/// The internal gesture handlers registered views install for `entity`.
pub fn collect_internal_handlers(world: &World, entity: Entity) -> (out: Vec<GestureCallback>)
    ensures
        out@ == internal_handlers_spec(world, entity),
{
    let mut out: Vec<GestureCallback> = Vec::new();
    match &world.res.views {
        Some(reg) => {
            let mut i: usize = 0;
            while i < reg.views.len()
                invariant
                    i <= reg.views@.len(),
                    world.res.views == Some(*reg),
                    out@ == internal_from(world, entity, reg.views@, i as int),
                decreases reg.views@.len() - i,
            {
                let v = reg.views[i];
                match v.internal_gesture() {
                    Some(f) => match v.component_filter() {
                        Some(tag) => {
                            if world.has_tag(entity, tag) {
                                out.push(f);
                            }
                        },
                        None => {
                            out.push(f);
                        },
                    },
                    None => {},
                }
                i = i + 1;
            }
        },
        None => {},
    }
    out
}

/// Spec: some handler (internal or user) sits on the parent walk from
/// `e`, within `fuel` steps.
pub open spec fn handler_on_path(w: &World, e: Entity, fuel: nat) -> bool
    decreases fuel,
{
    if fuel == 0 {
        false
    } else if internal_handlers_spec(w, e).len() > 0 || (w.has(e) && w.data(e).gesture_handler is Some) {
        true
    } else {
        match w.parent_of(e) {
            Some(p) => handler_on_path(w, p, (fuel - 1) as nat),
            None => false,
        }
    }
}

proof fn lemma_internal_from_congruent(w: &World, w2: &World, e: Entity, views: Seq<WidgetView>, n: int)
    requires
        w.entities@ == w2.entities@,
    ensures
        internal_from(w, e, views, n) == internal_from(w2, e, views, n),
    decreases n,
{
    if n > 0 {
        lemma_internal_from_congruent(w, w2, e, views, n - 1);
    }
}

/// Only the entities and the view registry decide which handlers sit on
/// a parent walk.
pub proof fn lemma_handler_on_path_congruent(w: &World, w2: &World, e: Entity, fuel: nat)
    requires
        w.entities@ == w2.entities@,
        w.res.views == w2.res.views,
    ensures
        handler_on_path(w, e, fuel) == handler_on_path(w2, e, fuel),
    decreases fuel,
{
    match w.res.views {
        Some(reg) => lemma_internal_from_congruent(w, w2, e, reg.views@, reg.views@.len() as int),
        None => {},
    }
    if fuel > 0 {
        match w.parent_of(e) {
            Some(p) => lemma_handler_on_path_congruent(w, w2, p, (fuel - 1) as nat),
            None => {},
        }
    }
}

/// Spec: the resources after the multi-tap tracker observed `event`.
pub open spec fn observed_res(w: &World, event: GestureEvent, now_ms: u32) -> Resources {
    Resources { multi_tap: multi_tap::observe_spec(w.res.multi_tap, event, now_ms), ..w.res }
}

/// Spec: running the handlers `hs` in order for `e` and `ev` takes the
/// table from `c` to `c2` and the world from `w` to `w2`; `done` says
/// that one of them consumed the event, and the ones after it were then
/// skipped.
pub open spec fn handlers_run<C: Callbacks>(
    hs: Seq<GestureCallback>,
    c: C,
    w: World,
    e: Entity,
    ev: GestureEvent,
    c2: C,
    w2: World,
    done: bool,
) -> bool
    decreases hs.len(),
{
    if hs.len() == 0 {
        !done && c2 == c && w2 == w
    } else {
        exists|cm: C, wm: World, r: bool|
            #[trigger] callback_outcome(hs[0], c, w, e, ev, cm, wm, r) && if r {
                done && c2 == cm && w2 == wm
            } else {
                handlers_run(hs.drop_first(), cm, wm, e, ev, c2, w2, done)
            }
    }
}

/// Spec: the bubbling walk from `cur`, with `fuel` entities left to
/// visit, takes `(c, w)` to `(c2, w2)`. At each entity the internal
/// handlers of the registered views run in registry order, then the
/// entity's own handler; the walk stops at the first handler that
/// consumes the event, and otherwise moves on to the parent.
pub open spec fn walk_run<C: Callbacks>(c: C, w: World, cur: Entity, ev: GestureEvent, fuel: nat, c2: C, w2: World) -> bool
    decreases fuel,
{
    if fuel == 0 {
        c2 == c && w2 == w
    } else {
        exists|c1: C, w1: World, done: bool|
            #[trigger] handlers_run(internal_handlers_spec(&w, cur), c, w, cur, ev, c1, w1, done) && if done {
                c2 == c1 && w2 == w1
            } else {
                exists|cu: C, wu: World, r: Option<bool>|
                    #[trigger] trigger_outcome(c1, w1, cur, ev, cu, wu, r) && if r == Some(true) {
                        c2 == cu && w2 == wu
                    } else {
                        match wu.parent_of(cur) {
                            Some(p) => walk_run(cu, wu, p, ev, (fuel - 1) as nat, c2, w2),
                            None => c2 == cu && w2 == wu,
                        }
                    }
            }
    }
}

/// With no handler on the walk, the walk changes nothing.
pub proof fn lemma_quiet_walk<C: Callbacks>(c: C, w: World, cur: Entity, ev: GestureEvent, fuel: nat, c2: C, w2: World)
    requires
        !handler_on_path(&w, cur, fuel),
        walk_run(c, w, cur, ev, fuel, c2, w2),
    ensures
        c2 == c && w2 == w,
    decreases fuel,
{
    if fuel > 0 {
        let (c1, w1, done) = choose|c1: C, w1: World, done: bool|
            #[trigger] handlers_run(internal_handlers_spec(&w, cur), c, w, cur, ev, c1, w1, done) && if done {
                c2 == c1 && w2 == w1
            } else {
                exists|cu: C, wu: World, r: Option<bool>|
                    #[trigger] trigger_outcome(c1, w1, cur, ev, cu, wu, r) && if r == Some(true) {
                        c2 == cu && w2 == wu
                    } else {
                        match wu.parent_of(cur) {
                            Some(p) => walk_run(cu, wu, p, ev, (fuel - 1) as nat, c2, w2),
                            None => c2 == cu && w2 == wu,
                        }
                    }
            };
        assert(internal_handlers_spec(&w, cur).len() == 0);
        assert(c1 == c && w1 == w && !done);
        let (cu, wu, r) = choose|cu: C, wu: World, r: Option<bool>|
            #[trigger] trigger_outcome(c1, w1, cur, ev, cu, wu, r) && if r == Some(true) {
                c2 == cu && w2 == wu
            } else {
                match wu.parent_of(cur) {
                    Some(p) => walk_run(cu, wu, p, ev, (fuel - 1) as nat, c2, w2),
                    None => c2 == cu && w2 == wu,
                }
            };
        assert(cu == c && wu == w && r is None);
        match w.parent_of(cur) {
            Some(p) => lemma_quiet_walk(c, w, p, ev, (fuel - 1) as nat, c2, w2),
            None => {},
        }
    }
}

/// Runs `hs[k..]` in order for `cur`, stopping at the first that consumes
/// the event; answers whether one did.
fn run_handlers<C: Callbacks>(
    world: &mut World,
    callbacks: &mut C,
    hs: &Vec<GestureCallback>,
    k: usize,
    cur: Entity,
    event: &GestureEvent,
) -> (done: bool)
    requires
        k <= hs@.len(),
    ensures
        handlers_run(hs@.skip(k as int), *old(callbacks), *old(world), cur, *event, *final(callbacks), *final(world), done),
    decreases hs@.len() - k,
{
    if k == hs.len() {
        assert(hs@.skip(k as int) =~= Seq::<GestureCallback>::empty());
        return false;
    }
    let ghost c0 = *callbacks;
    let ghost w0 = *world;
    let r = hs[k].call(world, callbacks, cur, event);
    let ghost cm = *callbacks;
    let ghost wm = *world;
    assert(hs@.skip(k as int)[0] == hs@[k as int]);
    if r {
        assert(callback_outcome(hs@.skip(k as int)[0], c0, w0, cur, *event, cm, wm, r));
        return true;
    }
    let done = run_handlers(world, callbacks, hs, k + 1, cur, event);
    proof {
        assert(hs@.skip(k as int).drop_first() =~= hs@.skip(k + 1));
        assert(callback_outcome(hs@.skip(k as int)[0], c0, w0, cur, *event, cm, wm, r));
    }
    done
}

/// The bubbling walk from `cur` with `fuel` entities left to visit.
fn walk_from<C: Callbacks>(world: &mut World, callbacks: &mut C, cur: Entity, event: &GestureEvent, fuel: u128)
    ensures
        walk_run(*old(callbacks), *old(world), cur, *event, fuel as nat, *final(callbacks), *final(world)),
    decreases fuel,
{
    if fuel == 0 {
        return ;
    }
    let ghost c0 = *callbacks;
    let ghost w0 = *world;
    let internals = collect_internal_handlers(world, cur);
    assert(internals@.skip(0) =~= internals@);
    let done = run_handlers(world, callbacks, &internals, 0, cur, event);
    let ghost c1 = *callbacks;
    let ghost w1 = *world;
    if done {
        assert(handlers_run(internal_handlers_spec(&w0, cur), c0, w0, cur, *event, c1, w1, done));
        return ;
    }
    let r = GestureHandler::trigger(world, callbacks, cur, event);
    let ghost cu = *callbacks;
    let ghost wu = *world;
    assert(trigger_outcome(c1, w1, cur, *event, cu, wu, r));
    if r == Some(true) {
        assert(handlers_run(internal_handlers_spec(&w0, cur), c0, w0, cur, *event, c1, w1, done));
        return ;
    }
    match world.parent(cur) {
        Some(p) => {
            walk_from(world, callbacks, p, event, fuel - 1);
        },
        None => {},
    }
    assert(handlers_run(internal_handlers_spec(&w0, cur), c0, w0, cur, *event, c1, w1, done));
}

/// Spec: bubbling `ev` at time `now_ms` takes the table from `c` to `c2`
/// and the world from `w` to `w2`: the multi-tap tracker observes the
/// gesture first, then the walk from the gesture's target runs (at most
/// one more step than there are entities) as [`walk_run`] says.
pub open spec fn bubble_ok<C: Callbacks>(c: C, w: World, ev: GestureEvent, now_ms: u32, c2: C, w2: World) -> bool {
    exists|w1: World|
        w1.entities@ == w.entities@ && w1.res == observed_res(&w, ev, now_ms) && #[trigger] walk_run(
            c,
            w1,
            gesture_target(ev),
            ev,
            (w.entities@.len() + 1) as nat,
            c2,
            w2,
        )
}

/// Spec: bubbling the gestures `gs` one after another (at time 0) takes
/// `(c, w)` to `(c2, w2)`.
pub open spec fn bubbles_run<C: Callbacks>(c: C, w: World, gs: Seq<GestureEvent>, c2: C, w2: World) -> bool
    decreases gs.len(),
{
    if gs.len() == 0 {
        c2 == c && w2 == w
    } else {
        exists|cm: C, wm: World|
            bubbles_run(c, w, gs.drop_last(), cm, wm) && #[trigger] bubble_ok(cm, wm, gs.last(), 0, c2, w2)
    }
}

/// One more gesture bubbled extends a run of bubbled gestures.
pub proof fn lemma_bubbles_push<C: Callbacks>(
    c: C,
    w: World,
    gs: Seq<GestureEvent>,
    cm: C,
    wm: World,
    ev: GestureEvent,
    c2: C,
    w2: World,
)
    requires
        bubbles_run(c, w, gs, cm, wm),
        bubble_ok(cm, wm, ev, 0, c2, w2),
    ensures
        bubbles_run(c, w, gs.push(ev), c2, w2),
{
    assert(gs.push(ev).drop_last() =~= gs);
    assert(gs.push(ev).last() == ev);
}

/// Spec: sending the raw events `evs` one after another through the
/// input pipeline takes `(c, w)` to `(c2, w2)`.
pub open spec fn inputs_run<C: Callbacks>(
    c: C,
    w: World,
    root: Entity,
    evs: Seq<InputEvent>,
    now_ms: u32,
    c2: C,
    w2: World,
) -> bool
    decreases evs.len(),
{
    if evs.len() == 0 {
        c2 == c && w2 == w
    } else {
        exists|cm: C, wm: World|
            inputs_run(c, w, root, evs.drop_last(), now_ms, cm, wm) && #[trigger] dispatch_input_ok(
                cm,
                &wm,
                &w2,
                root,
                evs.last(),
                now_ms,
                c2,
            )
    }
}

/// One more raw event sent extends a run of sent events.
pub proof fn lemma_inputs_push<C: Callbacks>(
    c: C,
    w: World,
    root: Entity,
    evs: Seq<InputEvent>,
    now_ms: u32,
    cm: C,
    wm: World,
    ev: InputEvent,
    c2: C,
    w2: World,
)
    requires
        inputs_run(c, w, root, evs, now_ms, cm, wm),
        dispatch_input_ok(cm, &wm, &w2, root, ev, now_ms, c2),
    ensures
        inputs_run(c, w, root, evs.push(ev), now_ms, c2, w2),
{
    assert(evs.push(ev).drop_last() =~= evs);
    assert(evs.push(ev).last() == ev);
}

/// Walks from the gesture's target up the parent links (at most one
/// more step than there are entities), after the multi-tap tracker has
/// observed the gesture: at each entity the internal handlers of the
/// registered views run in registry order, then its own handler; the walk
/// stops at the first that consumes the event. With no handler on the
/// walk, only the multi-tap tracker changes.
pub fn bubble_dispatch<C: Callbacks>(world: &mut World, callbacks: &mut C, event: &GestureEvent)
    ensures
        bubble_ok(*old(callbacks), *old(world), *event, 0, *final(callbacks), *final(world)),
        !handler_on_path(old(world), gesture_target(*event), (old(world).entities@.len() + 1) as nat)
            ==> final(world).entities@ == old(world).entities@ && final(world).res == observed_res(
            old(world),
            *event,
            0,
        ),
{
    bubble_dispatch_at(world, callbacks, event, 0);
}

/// [`bubble_dispatch`] with the current time, for multi-tap counting.
pub fn bubble_dispatch_at<C: Callbacks>(world: &mut World, callbacks: &mut C, event: &GestureEvent, now_ms: u32)
    ensures
        bubble_ok(*old(callbacks), *old(world), *event, now_ms, *final(callbacks), *final(world)),
        !handler_on_path(old(world), gesture_target(*event), (old(world).entities@.len() + 1) as nat)
            ==> final(world).entities@ == old(world).entities@ && final(world).res == observed_res(
            old(world),
            *event,
            now_ms,
        ),
{
    multi_tap::observe_gesture(world, event, now_ms);
    let ghost w1 = *world;
    let ghost c1 = *callbacks;
    proof {
        lemma_handler_on_path_congruent(
            old(world),
            &w1,
            gesture_target(*event),
            (old(world).entities@.len() + 1) as nat,
        );
    }
    let fuel: u128 = world.entities.len() as u128 + 1;
    walk_from(world, callbacks, event.target(), event, fuel);
    proof {
        if !handler_on_path(old(world), gesture_target(*event), (old(world).entities@.len() + 1) as nat) {
            lemma_quiet_walk(c1, w1, gesture_target(*event), *event, fuel as nat, *callbacks, *world);
        }
    }
}

} // verus!
