use mirui::components::{
    button_view, checkbox_handler, checkbox_view, progress_bar_view, tabbar_handler, text_input_view, Button,
    Checkbox, TabBar, TextInput,
};
use mirui::ecs::World;
use mirui::event::gesture::GestureEvent;
use mirui::event::widget_input::attach_handlers_for;
use mirui::event::GestureHandler;
use mirui::types::{Fixed, Rect};
use mirui::view::ViewRegistry;

#[test]
fn tabbar_tap_picks_correct_tab() {
    let mut world = World::new();
    let e = world.spawn_empty();
    world.set_computed_rect(e, Some(Rect::new(0, 0, 300, 40)));
    world.entities[e.id as usize].widgets.tabbar = Some(TabBar::new(3));
    for (x, expected) in [(150, 1u8), (270, 2), (0, 0), (299, 2)] {
        tabbar_handler(&mut world, e, &GestureEvent::Tap { x: Fixed::from_int(x), y: Fixed::from_int(20), target: e });
        let tb = world.entities[e.id as usize].widgets.tabbar.unwrap();
        assert_eq!(tb.selected, expected, "x={x} -> expected {expected}");
    }
}

#[test]
fn registry_carries_button_internal_gesture() {
    let view = button_view();
    assert!(view.internal_gesture().is_some(), "Button view must expose an internal gesture handler");
}

#[test]
fn user_gesture_handler_coexists_with_button_internal() {
    let mut world = World::new();
    let mut reg = ViewRegistry::new();
    reg.insert(button_view());
    world.res.views = Some(reg);

    let e = world.spawn_empty();
    world.entities[e.id as usize].widgets.button = Some(Button::new());
    let user_handler = 7;
    world.set_gesture_handler(e, Some(GestureHandler::from_fn(user_handler)));

    attach_handlers_for(&mut world, e);

    let h = world.gesture_handler(e).expect("user handler stays");
    assert_eq!(
        h,
        GestureHandler::from_fn(user_handler),
        "user-supplied GestureHandler stays on the user channel; button internals run on the view channel"
    );
}

#[test]
fn text_input_attach_installs_focus_and_key_handler() {
    let mut world = World::new();
    let mut reg = ViewRegistry::new();
    reg.insert(text_input_view());
    world.res.views = Some(reg);

    let e = world.spawn_empty();
    world.entities[e.id as usize].widgets.text_input = Some(TextInput::new());

    attach_handlers_for(&mut world, e);

    assert!(world.is_focusable(e));
    assert!(world.key_handler(e).is_some());
    assert!(
        text_input_view().internal_gesture().is_some(),
        "TextInput view must expose internal gesture for focus + tap-to-focus"
    );
}

#[test]
fn registry_carries_progress_bar_internal_gesture() {
    let view = progress_bar_view();
    assert!(view.internal_gesture().is_some(), "ProgressBar view must expose an internal gesture handler");
}

#[test]
fn registry_carries_checkbox_internal_gesture() {
    let view = checkbox_view();
    assert!(view.internal_gesture().is_some(), "Checkbox view must expose an internal gesture handler");
}

#[test]
fn checkbox_tap_toggles_checked() {
    let mut world = World::new();
    let mut reg = ViewRegistry::new();
    reg.insert(checkbox_view());
    world.res.views = Some(reg);

    let e = world.spawn_empty();
    world.entities[e.id as usize].widgets.checkbox = Some(Checkbox::new());
    attach_handlers_for(&mut world, e);

    let consumed = checkbox_handler(&mut world, e, &GestureEvent::Tap { x: Fixed::zero(), y: Fixed::zero(), target: e });
    assert!(consumed);
    assert!(world.entities[e.id as usize].widgets.checkbox.unwrap().checked);
}

#[test]
fn tabbar_ignores_non_tap() {
    let mut world = World::new();
    let e = world.spawn_empty();
    world.set_computed_rect(e, Some(Rect::new(0, 0, 300, 40)));
    world.entities[e.id as usize].widgets.tabbar = Some(TabBar::new(3));
    let consumed = tabbar_handler(
        &mut world,
        e,
        &GestureEvent::DragMove {
            x: Fixed::from_int(50),
            y: Fixed::from_int(20),
            dx: Fixed::zero(),
            dy: Fixed::zero(),
            target: e,
        },
    );
    assert!(!consumed);
    assert_eq!(world.entities[e.id as usize].widgets.tabbar.unwrap().selected, 0);
}
