use mirui::ecs::World;
use mirui::event::focus::find_focusable;
use mirui::widget::UserState;

#[test]
fn focus_skips_disabled_subtree() {
    let mut world = World::new();
    let parent = world.spawn();
    let child = world.spawn();
    world.set_parent(child, parent);
    world.set_focusable(child, true);
    world.set_user_state(parent, Some(UserState::Disabled));
    assert_eq!(find_focusable(&world, child), None);
}

#[test]
fn focus_ignores_disabled_self() {
    let mut world = World::new();
    let e = world.spawn();
    world.set_focusable(e, true);
    world.set_user_state(e, Some(UserState::Disabled));
    assert_eq!(find_focusable(&world, e), None);
}

#[test]
fn focus_walks_through_non_disabled() {
    let mut world = World::new();
    let parent = world.spawn();
    let child = world.spawn();
    world.set_parent(child, parent);
    world.set_focusable(parent, true);
    assert_eq!(find_focusable(&world, child), Some(parent));
}
