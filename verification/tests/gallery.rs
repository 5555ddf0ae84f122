use mirui::components::{find_tagged, TAG_CUSTOM_VIEW_TILES, TAG_TARGET_CARD};
use mirui::ecs::{Entity, World};
use mirui::event::gesture::GestureEvent;
use mirui::event::{GestureHandler, NoCallbacks};
use mirui::gallery::demos::{absolute, app_demo, atlas_restoration, echo_walker, effect_glass, enchants, folding_ark, builder_form, click, components, custom_view, disabled, dsl, gesture, hello, hover_tour};
use mirui::gallery::demos::custom_view::{next_palette_color, Diamond, PALETTE};
use mirui::gallery::App;
use mirui::gallery::demos::disabled::ClickCount;
use mirui::gallery::demos::gesture::TapCount;
use mirui::types::{Dimension, Fixed};
use mirui::widget::UserState;

fn new_parent(world: &mut World) -> Entity {
    let parent = world.spawn();
    world.set_widget(parent, true);
    parent
}

fn children(world: &World, e: Entity) -> Vec<Entity> {
    world.entities[e.id as usize].children.clone()
}

fn tap_event(target: Entity) -> GestureEvent {
    GestureEvent::Tap { x: Fixed::zero(), y: Fixed::zero(), target }
}

fn fire(world: &mut World, entity: Entity, event: &GestureEvent) {
    GestureHandler::trigger(world, &mut NoCallbacks, entity, event);
}

// click

#[test]
fn click_build_widgets_smoke() {
    let mut world = World::new();
    let parent = new_parent(&mut world);
    click::build_widgets(&mut world, parent);
    assert!(!children(&world, parent).is_empty());
}

#[test]
fn tap_toggles_on_flag() {
    let mut world = World::new();
    let parent = new_parent(&mut world);
    click::build_widgets(&mut world, parent);
    let row = children(&world, parent)[0];
    let card = children(&world, row)[0];

    assert_eq!(world.entities[card.id as usize].widgets.toggle.map(|t| t.on), Some(false));
    fire(&mut world, card, &tap_event(card));
    assert_eq!(world.entities[card.id as usize].widgets.toggle.map(|t| t.on), Some(true));
}

// gesture

#[test]
fn gesture_build_widgets_smoke() {
    let mut world = World::new();
    let parent = new_parent(&mut world);
    gesture::build_widgets(&mut world, parent);
    assert!(!children(&world, parent).is_empty());
}

#[test]
fn tap_box_counts() {
    let mut world = World::new();
    let parent = new_parent(&mut world);
    gesture::build_widgets(&mut world, parent);
    let root = children(&world, parent)[0];
    let tap_box = children(&world, root)[0];

    assert_eq!(world.entities[tap_box.id as usize].widgets.tap_count.map(|c| c.0), Some(0));
    fire(&mut world, tap_box, &tap_event(tap_box));
    assert_eq!(world.entities[tap_box.id as usize].widgets.tap_count, Some(TapCount(1)));
}

#[test]
fn drag_box_moves_then_resets() {
    let mut world = World::new();
    let parent = new_parent(&mut world);
    gesture::build_widgets(&mut world, parent);
    let root = children(&world, parent)[0];
    let drag_box = children(&world, root)[1];

    fire(
        &mut world,
        drag_box,
        &GestureEvent::DragMove {
            x: Fixed::zero(),
            y: Fixed::zero(),
            dx: Fixed::from_int(30),
            dy: Fixed::from_int(40),
            target: drag_box,
        },
    );
    let style = world.entities[drag_box.id as usize].style.unwrap();
    assert_eq!(style.layout.left.resolve(Fixed::zero()), Fixed::from_int(120));
    assert_eq!(style.layout.top.resolve(Fixed::zero()), Fixed::from_int(130));
    assert_eq!(style.layout.left, Dimension::Px(Fixed::from_int(120)));
}

// disabled

#[test]
fn disabled_build_widgets_smoke() {
    let mut world = World::new();
    let parent = new_parent(&mut world);
    disabled::build_widgets(&mut world, parent);
    assert!(!children(&world, parent).is_empty());
}

#[test]
fn tap_card_bumps_count_and_text() {
    let mut world = World::new();
    let parent = new_parent(&mut world);
    disabled::build_widgets(&mut world, parent);

    let card = find_tagged(&world, TAG_TARGET_CARD).expect("target_card id");
    assert_eq!(world.entities[card.id as usize].widgets.click_count.map(|c| c.0), Some(0));
    fire(&mut world, card, &tap_event(card));
    assert_eq!(world.entities[card.id as usize].widgets.click_count, Some(ClickCount(1)));
    assert_eq!(world.entities[card.id as usize].widgets.text.clone(), Some(b"Clicked: 1".to_vec()));
}

#[test]
fn toggle_button_disables_target_card() {
    let mut world = World::new();
    let parent = new_parent(&mut world);
    disabled::build_widgets(&mut world, parent);

    let card = find_tagged(&world, TAG_TARGET_CARD).expect("target_card id");
    let column = children(&world, parent)[0];
    let toggle = children(&world, column)[1];

    assert!(world.user_state(card).is_none());
    fire(&mut world, toggle, &tap_event(toggle));
    assert!(matches!(world.user_state(card), Some(UserState::Disabled)));
    fire(&mut world, toggle, &tap_event(toggle));
    assert!(world.user_state(card).is_none());
}

// hello, absolute, app

#[test]
fn hello_build_widgets_smoke() {
    let mut world = World::new();
    let parent = new_parent(&mut world);
    let root = hello::build_widgets(&mut world, parent);
    assert_ne!(root, parent);
    assert!(children(&world, parent).contains(&root), "root must be added under parent");
}

#[test]
fn absolute_build_widgets_smoke() {
    let mut world = World::new();
    let parent = new_parent(&mut world);
    absolute::build_widgets(&mut world, parent);
    assert!(!children(&world, parent).is_empty());
}

#[test]
fn app_demo_build_widgets_smoke() {
    let mut world = World::new();
    let parent = new_parent(&mut world);
    app_demo::build_widgets(&mut world, parent);
    assert!(!children(&world, parent).is_empty());
}

#[test]
fn dsl_build_widgets_smoke() {
    let mut world = World::new();
    let parent = new_parent(&mut world);
    dsl::build_widgets(&mut world, parent);
    assert!(!children(&world, parent).is_empty());
}

// custom view

#[test]
fn custom_view_build_widgets_smoke() {
    let mut world = World::new();
    let parent = new_parent(&mut world);
    custom_view::build_widgets(&mut world, parent);
    assert!(!children(&world, parent).is_empty());
}

#[test]
fn tap_cycles_diamond_color() {
    let mut world = World::new();
    let parent = new_parent(&mut world);
    custom_view::build_widgets(&mut world, parent);
    let row = find_tagged(&world, TAG_CUSTOM_VIEW_TILES).unwrap();
    let d0 = children(&world, row)[0];

    assert_eq!(world.entities[d0.id as usize].widgets.diamond.map(|d| d.color), Some(PALETTE[0]));
    fire(&mut world, d0, &tap_event(d0));
    assert_eq!(world.entities[d0.id as usize].widgets.diamond.map(|d| d.color), Some(PALETTE[1]));
}

#[test]
fn diamond_palette_wraps_and_recovers() {
    assert_eq!(next_palette_color(PALETTE[0]), PALETTE[1]);
    assert_eq!(next_palette_color(PALETTE[1]), PALETTE[2]);
    assert_eq!(next_palette_color(PALETTE[2]), PALETTE[0]);
    // a colour off the palette counts as the first entry
    assert_eq!(next_palette_color(0x123456), PALETTE[1]);
    assert_eq!(Diamond::default(), Diamond { color: 0xFFFFFF, line_width: Fixed::from_int(1) });
}

#[test]
fn diamond_tiles_cycle_independently() {
    let mut world = World::new();
    let parent = new_parent(&mut world);
    custom_view::build_widgets(&mut world, parent);
    let row = find_tagged(&world, TAG_CUSTOM_VIEW_TILES).unwrap();
    let tiles = children(&world, row);
    assert_eq!(tiles.len(), 3);
    let d2 = tiles[2];
    fire(&mut world, d2, &tap_event(d2));
    assert_eq!(world.entities[d2.id as usize].widgets.diamond.map(|d| d.color), Some(PALETTE[0]));
    assert!(world.entities[d2.id as usize].dirty);
    assert_eq!(world.entities[tiles[0].id as usize].widgets.diamond.map(|d| d.color), Some(PALETTE[0]));
    assert_eq!(world.entities[tiles[1].id as usize].widgets.diamond.map(|d| d.line_width), Some(Fixed::from_int(3)));
}

#[test]
fn custom_view_setup_registers_the_diamond_view() {
    let mut app = App::headless(480, 320);
    let parent = new_parent(&mut app.world);
    custom_view::setup_app(&mut app, parent);
    let views = &app.world.res.views.as_ref().unwrap().views;
    assert_eq!(views.len(), 1);
    assert_eq!(views[0].name, "Diamond");
    assert_eq!(views[0].priority, 60);
}

// hover tour

#[test]
fn hover_tour_build_widgets_smoke() {
    let mut world = World::new();
    let parent = new_parent(&mut world);
    hover_tour::build_widgets(&mut world, parent);
    assert!(!children(&world, parent).is_empty());
}

#[test]
fn hover_tour_sweeps_the_cursor_forever() {
    let mut app = App::headless(720, 360);
    let parent = new_parent(&mut app.world);
    app.world.set_style(parent, Some(mirui::widget::Style::flow()));
    hover_tour::setup_app(&mut app, parent);
    let tl = app.world.res.sim_timeline.as_ref().unwrap();
    assert!(tl.looping);
    assert_eq!(tl.total_ms, 5600);
    assert_eq!(tl.entries.len(), 4);
    assert_eq!(tl.entries[2].start_ms, 2800);
    assert_eq!(app.world.entities[parent.id as usize].widgets.bg_color, Some(0x0D1117));
    let column = children(&app.world, parent)[0];
    let row = children(&app.world, column)[2];
    assert_eq!(children(&app.world, row).len(), 5);
}

// builder form

#[test]
fn builder_form_build_widgets_smoke() {
    let mut world = World::new();
    let parent = new_parent(&mut world);
    builder_form::build_widgets(&mut world, parent);
    let column = children(&world, parent).first().copied();
    let column = column.expect("column parented");
    let kids = children(&world, column);
    assert_eq!(kids.len(), 5);
    assert!(world.entities[kids[0].id as usize].widgets.text.is_some());
    assert!(world.entities[kids[2].id as usize].widgets.slider.is_some());
    let control_row = kids[3];
    assert!(world.entities[children(&world, control_row)[1].id as usize].widgets.switch.is_some());
    assert!(world.entities[kids[4].id as usize].widgets.progress_bar.is_some());
}

#[test]
fn builder_form_progress_starts_at_six_tenths() {
    let mut world = World::new();
    let parent = new_parent(&mut world);
    builder_form::build_widgets(&mut world, parent);
    let column = children(&world, parent)[0];
    let kids = children(&world, column);
    let bar = world.entities[kids[4].id as usize].widgets.progress_bar.unwrap();
    assert_eq!(bar.value, Fixed::from_raw(153));
    let slider = world.entities[kids[2].id as usize].widgets.slider.unwrap();
    assert_eq!((slider.min, slider.max), (Fixed::zero(), Fixed::from_int(100)));
}

// components

#[test]
fn components_build_widgets_smoke() {
    let mut world = World::new();
    let parent = new_parent(&mut world);
    components::build_widgets(&mut world, parent);
    assert!(!children(&world, parent).is_empty());
}

#[test]
fn components_demo_holds_one_of_each_widget() {
    let mut world = World::new();
    let parent = new_parent(&mut world);
    components::build_widgets(&mut world, parent);
    let column = children(&world, parent)[0];
    let sections = children(&world, column);
    assert_eq!(sections.len(), 5);
    let ok = children(&world, sections[1])[0];
    assert!(world.entities[ok.id as usize].widgets.button.is_some());
    let bars: Vec<i32> = children(&world, sections[2])
        .iter()
        .map(|b| world.entities[b.id as usize].widgets.progress_bar.unwrap().value.raw)
        .collect();
    assert_eq!(bars, vec![179, 102, 230]);
    let ticks: Vec<bool> = children(&world, sections[3])
        .iter()
        .map(|b| world.entities[b.id as usize].widgets.checkbox.unwrap().checked)
        .collect();
    assert_eq!(ticks, vec![true, false, true]);
}

#[test]
fn enchants_build_widgets_smoke() {
    let mut world = World::new();
    let parent = new_parent(&mut world);
    enchants::build_widgets(&mut world, parent);
    assert!(!children(&world, parent).is_empty());
}

#[test]
fn enchants_places_the_picture_over_the_column() {
    let mut world = World::new();
    let parent = new_parent(&mut world);
    enchants::build_widgets(&mut world, parent);
    let column = children(&world, parent)[0];
    let kids = children(&world, column);
    assert_eq!(kids.len(), 2);
    let picture = world.entities[kids[1].id as usize].style.unwrap().layout;
    assert!(picture.absolute);
    assert_eq!(picture.left, Dimension::px(200));
    assert_eq!(picture.top, Dimension::px(150));
    assert_eq!(picture.width, Dimension::px(16));
    assert_eq!(picture.height, Dimension::px(16));
}

#[test]
fn effect_glass_build_widgets_smoke() {
    let mut world = World::new();
    let parent = new_parent(&mut world);
    effect_glass::build_widgets(&mut world, parent);
    assert!(!children(&world, parent).is_empty());
}

#[test]
fn effect_glass_lays_a_tiled_backdrop_under_a_sliding_panel() {
    let mut world = World::new();
    let parent = new_parent(&mut world);
    effect_glass::build_widgets(&mut world, parent);
    let top = children(&world, parent);
    assert_eq!(top.len(), 5);
    let tiles = children(&world, top[0]);
    assert_eq!(tiles.len(), 12);
    // Row 1, column 2: the colour cycle is at (1 + 2) % 4 == 3 (blue).
    let tile = &world.entities[tiles[6].id as usize];
    assert_eq!(tile.widgets.bg_color, Some(0x288CDC));
    let layout = tile.style.unwrap().layout;
    assert_eq!(layout.left, Dimension::px(64));
    assert_eq!(layout.top, Dimension::px(32));
    let glass = &world.entities[top[4].id as usize];
    assert_eq!(glass.glass_slide, Some(effect_glass::GlassSlide { elapsed_ms: 0 }));
    assert_eq!(glass.style.unwrap().layout.left, Dimension::px(8));
}

#[test]
fn atlas_restoration_builds_the_whole_screen() {
    let mut world = World::new();
    let parent = new_parent(&mut world);
    atlas_restoration::build_widgets(&mut world, parent);
    // One surface under the parent, holding every other node.
    let top = children(&world, parent);
    assert_eq!(top.len(), 1);
    assert_eq!(world.entities.len(), 1 + atlas_restoration::ATLAS_NODES);
    let surface = &world.entities[top[0].id as usize];
    let layout = surface.style.unwrap().layout;
    assert_eq!(layout.width, Dimension::px(480));
    assert_eq!(layout.height, Dimension::px(320));
    // The title sits at (15, 7) and reads ATLAS RESTORATION.
    let title = &world.entities[surface.children[0].id as usize];
    assert_eq!(title.widgets.text.as_deref(), Some(&b"ATLAS RESTORATION"[..]));
    assert!(title.style.unwrap().layout.absolute);
    assert_eq!(title.style.unwrap().layout.left, Dimension::px(15));
    // The FILL tool is a button at (336, 86), 56 x 31.
    let fill = world
        .entities
        .iter()
        .find(|d| d.widgets.text.as_deref() == Some(&b"FILL"[..]))
        .unwrap();
    assert!(fill.widgets.button.is_some());
    assert_eq!(fill.style.unwrap().layout.top, Dimension::px(86));
    assert_eq!(fill.style.unwrap().layout.width, Dimension::px(56));
}

#[test]
fn folding_ark_builds_the_whole_screen() {
    let mut world = World::new();
    let parent = new_parent(&mut world);
    folding_ark::build_widgets(&mut world, parent);
    assert_eq!(world.entities.len(), 1 + folding_ark::FOLD_NODES);
    let top = children(&world, parent);
    assert_eq!(top.len(), 1);
    let surface = &world.entities[top[0].id as usize];
    let title = &world.entities[surface.children[0].id as usize];
    assert_eq!(title.widgets.text.as_deref(), Some(&b"FOLDING ARK"[..]));
    assert_eq!(title.style.unwrap().layout.left, Dimension::px(15));
    // The roll-up control is a 40 x 31 button at (367, 145).
    let up = &world.entities[top[0].id as usize + 6];
    assert!(up.widgets.button.is_some());
    assert_eq!(up.widgets.text.as_deref(), Some("\u{2191}".as_bytes()));
    assert_eq!(up.style.unwrap().layout.top, Dimension::px(145));
}

#[test]
fn echo_walker_builds_the_whole_screen() {
    let mut world = World::new();
    let parent = new_parent(&mut world);
    echo_walker::build_widgets(&mut world, parent);
    assert_eq!(world.entities.len(), 1 + echo_walker::ECHO_NODES);
    let top = children(&world, parent);
    let surface = &world.entities[top[0].id as usize];
    let title = &world.entities[surface.children[0].id as usize];
    assert_eq!(title.widgets.text.as_deref(), Some(&b"ECHO WALKER"[..]));
    let wait = &world.entities[top[0].id as usize + 12];
    assert!(wait.widgets.button.is_some());
    assert_eq!(wait.style.unwrap().layout.left, Dimension::px(354));
    assert_eq!(wait.style.unwrap().layout.top, Dimension::px(166));
}
