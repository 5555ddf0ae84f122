use mirui::ecs::{Entity, World};
use mirui::event::gesture::GestureEvent;
use mirui::event::multi_tap::{current_count, observe_gesture, MultiTapTracker};
use mirui::types::Fixed;

fn tap(entity: Entity) -> GestureEvent {
    GestureEvent::Tap { x: Fixed::zero(), y: Fixed::zero(), target: entity }
}

fn tracked_world() -> World {
    let mut world = World::new();
    world.res.multi_tap = Some(MultiTapTracker::new());
    world
}

#[test]
fn first_tap_records_count_one() {
    let mut world = tracked_world();
    let e = world.spawn();
    observe_gesture(&mut world, &tap(e), 100);
    assert_eq!(current_count(&world, e), 1);
}

#[test]
fn within_window_increments() {
    let mut world = tracked_world();
    let e = world.spawn();
    observe_gesture(&mut world, &tap(e), 100);
    observe_gesture(&mut world, &tap(e), 200);
    observe_gesture(&mut world, &tap(e), 350);
    assert_eq!(current_count(&world, e), 3);
}

#[test]
fn outside_window_resets() {
    let mut world = tracked_world();
    let e = world.spawn();
    observe_gesture(&mut world, &tap(e), 100);
    observe_gesture(&mut world, &tap(e), 500);
    assert_eq!(current_count(&world, e), 1);
}

#[test]
fn different_target_resets() {
    let mut world = tracked_world();
    let a = world.spawn();
    let b = world.spawn();
    observe_gesture(&mut world, &tap(a), 100);
    observe_gesture(&mut world, &tap(b), 200);
    assert_eq!(current_count(&world, a), 1);
    assert_eq!(current_count(&world, b), 1);
}

#[test]
fn current_count_unrelated_entity_defaults_one() {
    let mut world = tracked_world();
    let a = world.spawn();
    let b = world.spawn();
    observe_gesture(&mut world, &tap(a), 100);
    assert_eq!(current_count(&world, b), 1);
}

#[test]
fn current_count_missing_resource_returns_one() {
    let world = World::new();
    let e = Entity { id: 0, generation: 0 };
    assert_eq!(current_count(&world, e), 1);
}

#[test]
fn now_ms_zero_never_accumulates() {
    let mut world = tracked_world();
    let e = world.spawn();
    observe_gesture(&mut world, &tap(e), 0);
    observe_gesture(&mut world, &tap(e), 0);
    observe_gesture(&mut world, &tap(e), 0);
    assert_eq!(current_count(&world, e), 1);
}

#[test]
fn non_tap_event_ignored() {
    let mut world = tracked_world();
    let e = world.spawn();
    let drag = GestureEvent::DragStart { x: Fixed::zero(), y: Fixed::zero(), target: e };
    observe_gesture(&mut world, &drag, 100);
    assert!(world.res.multi_tap.unwrap().last.is_none());
}
