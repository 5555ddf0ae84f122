use mirui::ecs::{DisplayInfo, Entity, World};
use mirui::event::PointerCursor;
use mirui::feedback::cursor::cursor_feedback_system;
use mirui::feedback::rotary::{rotary_feedback_system, rotary_membrane_state, spawn_overlay_rotary, MagneticMembrane};
use mirui::feedback::{CursorFeedbackMode, InputFeedback, InputFeedbackInput, RotaryFeedback};
use mirui::gallery::App;
use mirui::types::{Fixed, Rect};
use mirui::widget::Style;

fn make_world() -> World {
    let mut app = App::headless(128, 128);
    app.with_default_widgets();
    app.world
}

/// A 128 x 128 root with a 64 x 64 child in its top-left corner, both
/// laid out by hand.
fn root_with_target(world: &mut World) -> Entity {
    world.res.display = Some(DisplayInfo { width: 128, height: 128 });
    world.res.feedback = Some(InputFeedback::enabled());
    let root = world.spawn_empty();
    world.set_widget(root, true);
    world.set_style(root, Some(Style::flow()));
    world.set_computed_rect(root, Some(Rect::new(0, 0, 128, 128)));
    let target = world.spawn_empty();
    world.set_widget(target, true);
    world.set_style(target, Some(Style::flow()));
    world.attach(root, target);
    world.set_computed_rect(target, Some(Rect::new(0, 0, 64, 64)));
    world.res.widget_root = Some(root);
    root
}

fn cursor_at(x: i32, y: i32, event_seq: u32) -> PointerCursor {
    PointerCursor { x: Fixed::from_int(x), y: Fixed::from_int(y), down: false, event_seq }
}

#[test]
fn cursor_system_lazy_spawns_overlay_on_first_pointer() {
    let mut world = make_world();
    root_with_target(&mut world);
    world.res.pointer_cursor = Some(cursor_at(10, 10, 1));
    assert!(world.res.feedback.unwrap().cursor.entity.is_none(), "no entity before pointer");
    cursor_feedback_system(&mut world);
    assert!(world.res.feedback.unwrap().cursor.entity.is_some(), "system should spawn overlay entity");
}

#[test]
fn cursor_system_marks_dirty_on_change() {
    let mut world = make_world();
    root_with_target(&mut world);
    world.res.pointer_cursor = Some(cursor_at(10, 10, 1));
    cursor_feedback_system(&mut world);
    let entity = world.res.feedback.unwrap().cursor.entity.expect("spawned");
    assert!(world.is_dirty(entity));

    world.set_dirty(entity, false);
    world.res.pointer_cursor = Some(cursor_at(20, 20, 2));
    cursor_feedback_system(&mut world);
    assert!(world.is_dirty(entity), "move should re-mark dirty");
}

#[test]
fn cursor_system_recomputes_when_layout_shifts_under_static_pointer() {
    let mut world = make_world();
    let root = root_with_target(&mut world);
    world.res.pointer_cursor = Some(cursor_at(40, 40, 1));
    let mut fb = world.res.feedback.unwrap();
    fb.cursor.mode = CursorFeedbackMode::MagneticRect;
    world.res.feedback = Some(fb);
    cursor_feedback_system(&mut world);
    let entity = world.res.feedback.unwrap().cursor.entity.expect("spawned");
    let cached_target = world.res.feedback.unwrap().cursor.current.target_rect;
    assert!(cached_target.is_some(), "magnetic rect should latch onto target");
    world.set_dirty(entity, false);

    // The target moves down under a static pointer, as a scroll shifting
    // the content would.
    let target = world.entities[root.id as usize].children[0];
    let prev_rect = world.computed_rect(target).unwrap();
    world.set_computed_rect(
        target,
        Some(Rect { y: Fixed::from_raw(prev_rect.y.raw + 20 * 256), ..prev_rect }),
    );
    // Last frame published a region shift.
    world.res.last_dirty_shifts = Some(1);
    cursor_feedback_system(&mut world);
    let new_target = world.res.feedback.unwrap().cursor.current.target_rect;
    assert_eq!(
        new_target.map(|r| r.y),
        Some(Fixed::from_raw(prev_rect.y.raw + 20 * 256)),
        "magnetic rect must follow shifted target, not stay on cached y",
    );
    assert!(world.is_dirty(entity), "overlay must be dirty so its position updates this frame");
}

#[test]
fn cursor_system_skips_when_visual_unchanged() {
    let mut world = make_world();
    root_with_target(&mut world);
    world.res.pointer_cursor = Some(cursor_at(10, 10, 1));
    cursor_feedback_system(&mut world);
    let entity = world.res.feedback.unwrap().cursor.entity.expect("spawned");
    world.set_dirty(entity, false);

    cursor_feedback_system(&mut world);
    assert!(!world.is_dirty(entity));
}

fn world_with_rotary_root() -> World {
    let mut app = App::headless(64, 64);
    app.with_default_widgets();
    let mut world = app.world;
    world.res.feedback = Some(InputFeedback::enabled());
    let root = world.spawn();
    world.set_widget(root, true);
    world.set_style(root, Some(Style::flow()));
    world.res.widget_root = Some(root);
    spawn_overlay_rotary(&mut world, root);
    world.res.delta_time_ms = Some(16);
    world
}

#[test]
fn consumes_rotary_and_wheel_impulses() {
    let mut world = world_with_rotary_root();
    world.res.feedback_input =
        Some(InputFeedbackInput { rotary_delta: 2, wheel_delta_y: Fixed::from_int(1), click_pulse: true, event_seq: 1 });

    rotary_feedback_system(&mut world);

    let feedback = world.res.feedback.unwrap();
    assert!(feedback.rotary.progress != Fixed::zero() || feedback.rotary.velocity != Fixed::zero());
    assert_eq!(feedback.rotary.direction, 1);
    assert!(feedback.rotary.opacity > Fixed::zero());
    assert!(feedback.rotary.pulse > Fixed::zero());
}

#[test]
fn consumes_each_input_batch_once() {
    let mut world = world_with_rotary_root();
    world.res.feedback_input =
        Some(InputFeedbackInput { rotary_delta: 1, wheel_delta_y: Fixed::zero(), click_pulse: false, event_seq: 1 });

    rotary_feedback_system(&mut world);
    let first_target = world.res.feedback.unwrap().rotary.target;
    rotary_feedback_system(&mut world);
    let second_target = world.res.feedback.unwrap().rotary.target;

    // The target decays by 7/8 per frame; consuming twice would add the impulse again.
    let upper = first_target.mul(Fixed::from_int(95)).div(Fixed::from_int(100));
    assert!(second_target < upper);
    let input = world.res.feedback_input.unwrap();
    assert_eq!(input.rotary_delta, 0);
    assert_eq!(input.wheel_delta_y, Fixed::zero());
    assert!(!input.click_pulse);
}

#[test]
fn bounded_stretch_under_fast_input() {
    let mut world = world_with_rotary_root();
    world.res.feedback_input = Some(InputFeedbackInput {
        rotary_delta: 0,
        wheel_delta_y: Fixed::from_int(100),
        click_pulse: false,
        event_seq: 1,
    });

    rotary_feedback_system(&mut world);
    let feedback = world.res.feedback.unwrap();
    let max = MagneticMembrane::new().max_pull();
    assert!(feedback.rotary.target.abs() <= max);
    assert!(feedback.rotary.progress.abs() <= max);
    assert!(feedback.rotary.progress < Fixed::zero());

    for _ in 0..19 {
        rotary_feedback_system(&mut world);
    }
    let feedback = world.res.feedback.unwrap();
    assert!(feedback.rotary.progress.abs() <= max);
}

#[test]
fn membrane_state_preserves_progress_sign() {
    let membrane = MagneticMembrane::new();
    let up = RotaryFeedback { progress: Fixed::from_int(12), direction: 1, ..RotaryFeedback::new() };
    let down = RotaryFeedback { progress: Fixed::from_int(-12), direction: -1, ..RotaryFeedback::new() };

    assert!(rotary_membrane_state(&up, &membrane).ball_offset > Fixed::zero());
    assert!(rotary_membrane_state(&down, &membrane).ball_offset < Fixed::zero());
}

#[test]
fn click_pulse_creates_membrane_amplitude() {
    let membrane = MagneticMembrane::new();
    let click = RotaryFeedback { pulse: Fixed::one(), ..RotaryFeedback::new() };
    assert!(rotary_membrane_state(&click, &membrane).amp > Fixed::zero());
}

#[test]
fn marks_overlay_dirty_when_state_changes() {
    let mut world = world_with_rotary_root();
    let entity = world.res.feedback.unwrap().rotary.entity.expect("spawned");
    world.res.feedback_input =
        Some(InputFeedbackInput { rotary_delta: 1, wheel_delta_y: Fixed::zero(), click_pulse: false, event_seq: 1 });

    rotary_feedback_system(&mut world);
    assert!(world.is_dirty(entity));
}

#[test]
fn cursor_overlay_entity_is_kept_across_frames() {
    let mut world = make_world();
    root_with_target(&mut world);
    world.res.pointer_cursor = Some(cursor_at(10, 10, 1));
    cursor_feedback_system(&mut world);
    let first = world.res.feedback.unwrap().cursor.entity.expect("spawned");
    let count = world.entities.len();
    for k in 2..6 {
        world.res.pointer_cursor = Some(cursor_at(10 + 5 * k, 10, k as u32));
        cursor_feedback_system(&mut world);
        assert_eq!(world.res.feedback.unwrap().cursor.entity, Some(first));
    }
    assert_eq!(world.entities.len(), count, "no second overlay is spawned");
}

#[test]
fn rotary_overlay_entity_is_kept_across_frames() {
    let mut world = make_world();
    let root = root_with_target(&mut world);
    let overlay = spawn_overlay_rotary(&mut world, root);
    let mut input = InputFeedbackInput::new();
    for k in 1..5u32 {
        input.event_seq = k;
        input.rotary_delta = 1;
        world.res.feedback_input = Some(input);
        world.res.delta_time_ms = Some(16);
        rotary_feedback_system(&mut world);
        assert_eq!(world.res.feedback.unwrap().rotary.entity, Some(overlay));
    }
}

#[test]
fn rotary_state_stays_within_membrane_bounds() {
    let mut world = world_with_rotary_root();
    let limit = Fixed::from_int(48);
    for seq in 1..40u32 {
        let delta: i16 = if seq % 3 == 0 { -20 } else { 30 };
        world.res.feedback_input = Some(InputFeedbackInput {
            rotary_delta: delta,
            wheel_delta_y: Fixed::from_int(7),
            click_pulse: seq % 2 == 0,
            event_seq: seq,
        });
        rotary_feedback_system(&mut world);
        let r = world.res.feedback.unwrap().rotary;
        assert!(r.target <= limit && r.target >= Fixed::zero().sub(limit));
        assert!(r.progress <= limit && r.progress >= Fixed::zero().sub(limit));
        assert!(r.opacity >= Fixed::zero() && r.opacity <= Fixed::one());
        assert!(r.pulse >= Fixed::zero() && r.pulse <= Fixed::one());
    }
}
