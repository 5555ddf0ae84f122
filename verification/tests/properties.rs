use mirui::anim::Ease;
use mirui::ecs::{Entity, World};
use mirui::event::gesture::recognizer::GestureState;
use mirui::event::gesture::{GestureEvent, GestureEvents, GestureRecognizer, GestureSystem};
use mirui::event::input::InputEvent;
use mirui::event::multi_tap::current_count;
use mirui::event::sim::{resolve_timings, sim_input_step, SimAction, SimCommand, SimTimeline, SimulatedInput};
use mirui::event::widget_input::attach_widget_input_handlers;
use mirui::event::{bubble_dispatch, dispatch_input, NoCallbacks};
use mirui::components::{text_input_view, TextInput};
use mirui::types::{Fixed, Rect};
use mirui::view::ViewRegistry;
use mirui::widget::{Style, UserState};

fn target(id: u32) -> Entity {
    Entity { id, generation: 0 }
}

fn at(x: i32, y: i32) -> (Fixed, Fixed) {
    (Fixed::from_int(x), Fixed::from_int(y))
}

#[test]
fn recognizer_is_idle_and_empty_after_a_tap() {
    let mut rec = GestureRecognizer::new();
    let mut out = GestureEvents::new();
    let (x, y) = at(10, 10);
    rec.update(&InputEvent::PointerDown { id: 0, x, y }, 0, Some(target(1)), &mut out);
    assert_eq!(rec.state, GestureState::Pending);
    assert!(rec.f0.active && !rec.f1.active);
    rec.update(&InputEvent::PointerUp { id: 0, x, y }, 40, None, &mut out);
    assert_eq!(rec.state, GestureState::Idle);
    assert!(!rec.f0.active && !rec.f1.active && !rec.f2.active && !rec.f3.active);
    assert_eq!(rec.target, None);
    assert_eq!(out.buffer, vec![GestureEvent::Tap { x, y, target: target(1) }]);
}

#[test]
fn every_gesture_goes_to_the_press_target() {
    let mut rec = GestureRecognizer::new();
    let mut out = GestureEvents::new();
    let t = target(7);
    let (x0, y0) = at(0, 0);
    rec.update(&InputEvent::PointerDown { id: 0, x: x0, y: y0 }, 0, Some(t), &mut out);
    for (i, px) in [20, 40, 60].iter().enumerate() {
        let (x, y) = at(*px, 0);
        rec.update(&InputEvent::PointerMove { id: 0, x, y }, 10 * (i as u32 + 1), Some(target(99)), &mut out);
    }
    let (x, y) = at(60, 0);
    rec.update(&InputEvent::PointerUp { id: 0, x, y }, 50, Some(target(99)), &mut out);
    assert_eq!(out.buffer.len(), 4);
    assert!(out.buffer.iter().all(|e| e.target() == t));
    assert!(matches!(out.buffer[0], GestureEvent::DragStart { .. }));
    assert!(matches!(out.buffer[3], GestureEvent::DragEnd { .. }));
}

#[test]
fn drag_move_reports_offset_from_press() {
    let mut rec = GestureRecognizer::new();
    let mut out = GestureEvents::new();
    let (x0, y0) = at(10, 10);
    rec.update(&InputEvent::PointerDown { id: 0, x: x0, y: y0 }, 0, Some(target(2)), &mut out);
    let (x1, y1) = at(30, 15);
    rec.update(&InputEvent::PointerMove { id: 0, x: x1, y: y1 }, 16, None, &mut out);
    let (x2, y2) = at(45, 25);
    rec.update(&InputEvent::PointerMove { id: 0, x: x2, y: y2 }, 32, None, &mut out);
    assert_eq!(
        out.buffer[1],
        GestureEvent::DragMove { x: x2, y: y2, dx: Fixed::from_int(35), dy: Fixed::from_int(15), target: target(2) }
    );
}

#[test]
fn long_press_fires_once_per_press() {
    let mut rec = GestureRecognizer::new();
    let mut out = GestureEvents::new();
    let (x, y) = at(50, 50);
    rec.update(&InputEvent::PointerDown { id: 0, x, y }, 100, Some(target(3)), &mut out);
    rec.check_long_press(599, &mut out);
    assert!(out.buffer.is_empty());
    rec.check_long_press(600, &mut out);
    assert_eq!(out.buffer, vec![GestureEvent::LongPress { x, y, target: target(3) }]);
    rec.check_long_press(900, &mut out);
    rec.update(&InputEvent::PointerMove { id: 0, x: Fixed::from_int(90), y }, 950, None, &mut out);
    rec.update(&InputEvent::PointerUp { id: 0, x, y }, 1000, None, &mut out);
    assert_eq!(out.buffer.len(), 1, "nothing after the long press: {:?}", out.buffer);
    assert_eq!(rec.state, GestureState::Idle);
}

fn input_world() -> (World, Entity) {
    let mut world = World::new();
    world.res.gesture = Some(GestureSystem::new());
    let root = world.spawn();
    world.set_widget(root, true);
    world.set_style(root, Some(Style::flow()));
    world.set_computed_rect(root, Some(Rect::new(0, 0, 100, 100)));
    (world, root)
}

#[test]
fn cursor_sequence_moves_on_press_and_release_only() {
    let (mut world, root) = input_world();
    let (x, y) = at(5, 5);
    dispatch_input(&mut world, &mut NoCallbacks, root, &InputEvent::PointerDown { id: 0, x, y }, 0, 100, 100);
    assert_eq!(world.res.pointer_cursor.unwrap().event_seq, 1);
    assert!(world.res.pointer_cursor.unwrap().down);
    let (mx, my) = at(9, 7);
    dispatch_input(&mut world, &mut NoCallbacks, root, &InputEvent::PointerMove { id: 0, x: mx, y: my }, 5, 100, 100);
    let c = world.res.pointer_cursor.unwrap();
    assert_eq!((c.x, c.y, c.event_seq, c.down), (mx, my, 1, true));
    dispatch_input(&mut world, &mut NoCallbacks, root, &InputEvent::PointerUp { id: 0, x: mx, y: my }, 9, 100, 100);
    let c = world.res.pointer_cursor.unwrap();
    assert_eq!((c.event_seq, c.down), (2, false));
}

#[test]
fn press_on_disabled_subtree_only_moves_cursor() {
    let (mut world, root) = input_world();
    let card = world.spawn();
    world.set_widget(card, true);
    world.set_computed_rect(card, Some(Rect::new(10, 10, 20, 20)));
    world.attach(root, card);
    world.set_user_state(root, Some(UserState::Disabled));
    let (x, y) = at(15, 15);
    dispatch_input(&mut world, &mut NoCallbacks, root, &InputEvent::PointerDown { id: 0, x, y }, 0, 100, 100);
    let gs = world.res.gesture.as_ref().unwrap();
    assert_eq!(gs.recognizer.state, GestureState::Idle);
    assert!(gs.events.buffer.is_empty());
    assert_eq!(world.res.pointer_cursor.unwrap().event_seq, 1);
}

#[test]
fn relative_script_times_add_up_and_never_go_back() {
    let (x, y) = at(1, 1);
    let down = InputEvent::PointerDown { id: 0, x, y };
    let up = InputEvent::PointerUp { id: 0, x, y };
    let cmds = vec![SimCommand::after(10, down), SimCommand::after(50, up), SimCommand::after(1000, down)];
    assert_eq!(resolve_timings(&cmds), vec![10, 60, 1060]);
    let absolute = vec![SimCommand::at(500, down), SimCommand::after(u32::MAX, up), SimCommand::at(20, down)];
    assert_eq!(resolve_timings(&absolute), vec![500, u32::MAX, 20]);
    assert_eq!(SimulatedInput::new(cmds).total_duration_ms(), 1060);
    assert_eq!(SimulatedInput::new(Vec::new()).total_duration_ms(), 0);
}

#[test]
fn simulated_input_fires_due_commands_into_recognizer() {
    let (mut world, root) = input_world();
    let (x, y) = at(20, 20);
    let script = vec![
        SimCommand::at(0, InputEvent::PointerDown { id: 0, x, y }),
        SimCommand::after(50, InputEvent::PointerUp { id: 0, x, y }),
        SimCommand::after(1000, InputEvent::PointerDown { id: 0, x, y }),
    ];
    world.res.sim_input = Some(SimulatedInput::new(script).with_root(root));
    world.res.clock = Some(mirui::ecs::MonoClock { now_ns: 0 });
    let first = sim_input_step(&mut world);
    assert!(first.is_empty());
    assert_eq!(world.res.sim_input.as_ref().unwrap().cursor, 1);
    world.res.clock = Some(mirui::ecs::MonoClock { now_ns: 60_000_000 });
    let second = sim_input_step(&mut world);
    assert_eq!(second, vec![GestureEvent::Tap { x, y, target: root }]);
    assert_eq!(world.res.sim_input.as_ref().unwrap().cursor, 2);
}

#[test]
fn timeline_lays_actions_back_to_back() {
    let tl = SimTimeline::new(vec![
        SimAction::tap(mirui::types::DimPoint::px(1, 1)),
        SimAction::wait(300),
        SimAction::rotate(-3, 20),
    ]);
    assert_eq!(tl.total_ms, 460);
    let starts: Vec<u32> = tl.entries.iter().map(|e| e.start_ms).collect();
    assert_eq!(starts, vec![0, 100, 400]);
    assert!(tl.is_running());
}

#[test]
fn rotate_smooth_step_rounds_up_and_anchoring_skips_coordinate_free_actions() {
    assert_eq!(
        SimAction::rotate_smooth(3, 100, Ease::Linear),
        SimAction::Rotate(mirui::event::sim::RotateAction { ticks: 3, step_ms: 34, ease_fn: Some(Ease::Linear) })
    );
    assert_eq!(
        SimAction::rotate_smooth(0, 50, Ease::Linear),
        SimAction::Rotate(mirui::event::sim::RotateAction { ticks: 0, step_ms: 50, ease_fn: Some(Ease::Linear) })
    );
    let e = target(4);
    assert_eq!(SimAction::wait(5).on(e), SimAction::wait(5));
    assert_eq!(SimAction::rotary_click().on(e), SimAction::rotary_click());
}

#[test]
fn fixed_point_math_exact_values() {
    assert_eq!(Fixed::from_int(4).sqrt(), Fixed::from_int(2));
    assert_eq!(Fixed::from_int(2).sqrt().raw(), 362);
    assert_eq!(Fixed::from_int(-9).sqrt(), Fixed::zero());
    assert_eq!(Fixed::atan2(Fixed::one(), Fixed::one()).raw(), 201);
    assert_eq!(Fixed::atan2(Fixed::zero(), Fixed::from_int(-1)).raw(), 804);
    assert_eq!(Fixed::atan2(Fixed::zero(), Fixed::zero()).raw(), 0);
    assert_eq!(Fixed::from_int(7).div(Fixed::from_int(2)).raw(), 896);
    assert_eq!(Fixed::from_raw(384).mul(Fixed::from_int(2)), Fixed::from_int(3));
    assert_eq!(Fixed::from_int(-7).to_int(), -7);
    assert_eq!(Fixed::from_raw(-1).to_int(), -1);
}

#[test]
fn bubbling_without_handlers_only_counts_the_tap() {
    let mut world = World::new();
    let parent = world.spawn();
    let child = world.spawn();
    world.attach(parent, child);
    let before = world.entities.len();
    let tap = GestureEvent::Tap { x: Fixed::zero(), y: Fixed::zero(), target: child };
    bubble_dispatch(&mut world, &mut NoCallbacks, &tap);
    assert_eq!(world.entities.len(), before);
    assert_eq!(current_count(&world, child), 1);
    assert!(world.res.multi_tap.unwrap().last.is_some());
}

#[test]
fn attach_reaches_nested_text_inputs() {
    let mut world = World::new();
    let mut reg = ViewRegistry::new();
    reg.insert(text_input_view());
    world.res.views = Some(reg);
    let root = world.spawn();
    let row = world.spawn();
    let input = world.spawn();
    let stray = world.spawn();
    world.attach(root, row);
    world.attach(row, input);
    for e in [input, stray] {
        world.entities[e.id as usize].widgets.text_input = Some(TextInput::new());
    }
    world.set_style(root, Some(Style::flow()));
    attach_widget_input_handlers(&mut world, root);
    assert!(world.is_focusable(input));
    assert!(world.key_handler(input).is_some());
    assert!(!world.is_focusable(stray), "outside the tree");
    assert!(!world.is_focusable(row), "not a text input");
}

#[test]
fn script_runs_fire_each_command_once_in_order() {
    let (mut world, root) = input_world();
    let (x, y) = at(20, 20);
    let script = vec![
        SimCommand::at(0, InputEvent::PointerDown { id: 0, x, y }),
        SimCommand::after(50, InputEvent::PointerUp { id: 0, x, y }),
        SimCommand::after(1000, InputEvent::PointerDown { id: 0, x, y }),
    ];
    world.res.sim_input = Some(SimulatedInput::new(script).with_root(root));
    world.res.clock = Some(mirui::ecs::MonoClock { now_ns: 0 });
    assert!(sim_input_step(&mut world).is_empty());
    assert_eq!(world.res.sim_input.as_ref().unwrap().cursor, 1);
    // A second run at the same time fires nothing again.
    assert!(sim_input_step(&mut world).is_empty());
    assert_eq!(world.res.sim_input.as_ref().unwrap().cursor, 1);
    // Later runs fire the rest, each once.
    world.res.clock = Some(mirui::ecs::MonoClock { now_ns: 2_000_000_000 });
    let out = sim_input_step(&mut world);
    assert_eq!(out, vec![GestureEvent::Tap { x, y, target: root }]);
    assert_eq!(world.res.sim_input.as_ref().unwrap().cursor, 3);
    assert!(sim_input_step(&mut world).is_empty());
    assert_eq!(world.res.sim_input.as_ref().unwrap().cursor, 3);
}
