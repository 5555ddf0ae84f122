use mirui::ecs::{Entity, World};
use mirui::event::gesture::GestureEvent;
use mirui::event::input::InputEvent;
use mirui::event::{
    bubble_dispatch_at, entity_or_ancestor_disabled, Callbacks, GestureCallback, GestureHandler, WidgetEvent,
};
use mirui::types::Fixed;
use mirui::view::{ViewRegistry, WidgetView};
use mirui::widget::UserState;

#[test]
fn ancestor_disabled_propagates() {
    let mut world = World::new();
    let parent = world.spawn_empty();
    let child = world.spawn_empty();
    world.set_parent(child, parent);
    world.set_user_state(parent, Some(UserState::Disabled));
    assert!(entity_or_ancestor_disabled(&world, child));
}

#[test]
fn entity_self_disabled() {
    let mut world = World::new();
    let e = world.spawn_empty();
    world.set_user_state(e, Some(UserState::Disabled));
    assert!(entity_or_ancestor_disabled(&world, e));
}

#[test]
fn unrelated_entity_not_disabled() {
    let mut world = World::new();
    let a = world.spawn_empty();
    let b = world.spawn_empty();
    world.set_user_state(a, Some(UserState::Disabled));
    assert!(!entity_or_ancestor_disabled(&world, b));
}

#[test]
fn errored_does_not_propagate_via_disabled_walk() {
    let mut world = World::new();
    let e = world.spawn_empty();
    world.set_user_state(e, Some(UserState::Errored));
    assert!(!entity_or_ancestor_disabled(&world, e));
}

/// Marker tag the test view filters on.
const CHANNEL_MARKER: u32 = 60;

const INTERNAL_CONSUME: u32 = 1;
const INTERNAL_PASSTHROUGH: u32 = 2;
const USER_HANDLER: u32 = 3;

/// Callback table that counts how often each channel fired.
struct Counter {
    internal_fires: u32,
    user_fires: u32,
}

impl Callbacks for Counter {
    fn gesture_outcome(&self, _id: u32, _w: World, _e: Entity, _ev: GestureEvent, _after: Self, _w2: World, _r: bool) -> bool {
        true
    }

    fn key_outcome(&self, _id: u32, _w: World, _e: Entity, _ev: InputEvent, _after: Self, _w2: World, _r: bool) -> bool {
        true
    }

    fn widget_event_outcome(&self, _id: u32, _e: Entity, _ev: WidgetEvent, _after: Self) -> bool {
        true
    }

    fn gesture(&mut self, _world: &mut World, id: u32, _entity: Entity, _event: &GestureEvent) -> bool {
        match id {
            INTERNAL_CONSUME => {
                self.internal_fires += 1;
                true
            }
            INTERNAL_PASSTHROUGH => {
                self.internal_fires += 1;
                false
            }
            USER_HANDLER => {
                self.user_fires += 1;
                true
            }
            _ => false,
        }
    }

    fn key(&mut self, _world: &mut World, _id: u32, _entity: Entity, _event: &InputEvent) -> bool {
        false
    }

    fn widget_event(&mut self, _id: u32, _entity: Entity, _event: &WidgetEvent) {}
}

fn registry_with(internal: u32) -> ViewRegistry {
    let mut reg = ViewRegistry::new();
    reg.insert(
        WidgetView::new("ChannelMarker", 60)
            .with_filter(CHANNEL_MARKER)
            .with_internal_gesture(GestureCallback::Fn(internal)),
    );
    reg
}

fn tap_event(target: Entity) -> GestureEvent {
    GestureEvent::Tap { x: Fixed::zero(), y: Fixed::zero(), target }
}

#[test]
fn user_only_runs_when_no_internal() {
    let mut c = Counter { internal_fires: 0, user_fires: 0 };
    let mut world = World::new();
    world.res.views = Some(ViewRegistry::new());
    let e = world.spawn_empty();
    world.set_gesture_handler(e, Some(GestureHandler::from_fn(USER_HANDLER)));
    bubble_dispatch_at(&mut world, &mut c, &tap_event(e), 0);
    assert_eq!(c.internal_fires, 0);
    assert_eq!(c.user_fires, 1);
}

#[test]
fn internal_only_runs_when_no_user() {
    let mut c = Counter { internal_fires: 0, user_fires: 0 };
    let mut world = World::new();
    world.res.views = Some(registry_with(INTERNAL_CONSUME));
    let e = world.spawn_empty();
    world.add_tag(e, CHANNEL_MARKER);
    bubble_dispatch_at(&mut world, &mut c, &tap_event(e), 0);
    assert_eq!(c.internal_fires, 1);
    assert_eq!(c.user_fires, 0);
}

#[test]
fn internal_consumes_blocks_user() {
    let mut c = Counter { internal_fires: 0, user_fires: 0 };
    let mut world = World::new();
    world.res.views = Some(registry_with(INTERNAL_CONSUME));
    let e = world.spawn_empty();
    world.add_tag(e, CHANNEL_MARKER);
    world.set_gesture_handler(e, Some(GestureHandler::from_fn(USER_HANDLER)));
    bubble_dispatch_at(&mut world, &mut c, &tap_event(e), 0);
    assert_eq!(c.internal_fires, 1);
    assert_eq!(c.user_fires, 0, "internal returned true, user must not fire");
}

#[test]
fn internal_passthrough_lets_user_run() {
    let mut c = Counter { internal_fires: 0, user_fires: 0 };
    let mut world = World::new();
    world.res.views = Some(registry_with(INTERNAL_PASSTHROUGH));
    let e = world.spawn_empty();
    world.add_tag(e, CHANNEL_MARKER);
    world.set_gesture_handler(e, Some(GestureHandler::from_fn(USER_HANDLER)));
    bubble_dispatch_at(&mut world, &mut c, &tap_event(e), 0);
    assert_eq!(c.internal_fires, 1);
    assert_eq!(c.user_fires, 1, "internal returned false, user must fire on the same entity");
}

#[test]
fn business_callback_without_table_entry_declines() {
    let mut world = mirui::ecs::World::new();
    let e = world.spawn();
    let cb: mirui::event::BusinessCallback<u8> = mirui::event::BusinessCallback::Fn(3, core::marker::PhantomData);
    assert!(!cb.call(&mut world, &mut mirui::event::NoCallbacks, e, &7u8));
    assert_eq!(world.entities.len(), 1);
}
