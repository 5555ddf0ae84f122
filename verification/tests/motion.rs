use mirui::ecs::{Entity, World};
use mirui::event::scroll::{ScrollAxis, ScrollOffset};
use mirui::gallery::demos::book_flip::{self, Page};
use mirui::gallery::demos::butterfly::{self, Butterfly};
use mirui::gallery::demos::effect_glass::{self, GlassSlide};
use mirui::gallery::demos::effect_panels::{self, ColorFlash};
use mirui::gallery::demos::cover_flow::{self, CarouselCard, CoverFlowBounds};
use mirui::gallery::demos::flip_card::{self, FlipCard};
use mirui::gallery::demos::image_flip::{self, Spinner};
use mirui::types::{Dimension, Fixed, Rect, TransformStep};
use mirui::widget::{LayoutStyle, Style};

fn new_parent(world: &mut World) -> Entity {
    let parent = world.spawn();
    world.set_widget(parent, true);
    parent
}

fn steps(world: &World, e: Entity) -> Vec<TransformStep> {
    world.entities[e.id as usize].transform3d.as_ref().expect("transform").steps.clone()
}

fn boxed_style() -> Style {
    Style {
        layout: LayoutStyle {
            absolute: true,
            left: Dimension::px(0),
            top: Dimension::px(0),
            width: Dimension::px(10),
            height: Dimension::px(10),
        },
    }
}

// book flip

#[test]
fn page_motion_uses_frame_delta_and_reflects_at_bounds() {
    let mut world = World::new();
    world.res.delta_time_ms = Some(20);
    let page = world.spawn_empty();
    world.entities[page.id as usize].page = Some(Page {
        angle_deg: Fixed::zero(),
        speed_deg_per_second: Fixed::from_int(30),
    });

    book_flip::flip_system(&mut world);
    assert_eq!(
        world.entities[page.id as usize].page.unwrap().angle_deg,
        Fixed::from_int(30).mul(Fixed::from_ratio(20, 1_000))
    );

    world.entities[page.id as usize].page.as_mut().unwrap().angle_deg = Fixed::from_int(120);
    book_flip::flip_system(&mut world);
    let state = world.entities[page.id as usize].page.unwrap();
    assert!(state.angle_deg.raw < Fixed::from_int(120).raw);
    assert!(state.speed_deg_per_second.raw < 0);
}

#[test]
fn page_frame_is_capped_at_fifty_ms_and_defaults_to_sixteen() {
    let mut world = World::new();
    let page = world.spawn_empty();
    world.entities[page.id as usize].page = Some(Page {
        angle_deg: Fixed::zero(),
        speed_deg_per_second: Fixed::from_int(100),
    });
    // no frame length known: 16 ms -> 100 * (4096 / 1000 raw) = 100 * 4 raw
    book_flip::flip_system(&mut world);
    assert_eq!(world.entities[page.id as usize].page.unwrap().angle_deg.raw, 400);
    assert!(world.entities[page.id as usize].dirty);
    assert_eq!(
        steps(&world, page),
        vec![TransformStep::RotateYPerspective { angle_deg: Fixed::from_raw(-400), distance: Fixed::from_int(500) }]
    );

    world.res.delta_time_ms = Some(200);
    book_flip::flip_system(&mut world);
    // capped at 50 ms -> 12 raw per degree-per-second -> 1200 more
    assert_eq!(world.entities[page.id as usize].page.unwrap().angle_deg.raw, 1600);
}

#[test]
fn page_reflects_off_zero() {
    let mut world = World::new();
    world.res.delta_time_ms = Some(50);
    let page = world.spawn_empty();
    world.entities[page.id as usize].page = Some(Page {
        angle_deg: Fixed::from_raw(100),
        speed_deg_per_second: Fixed::from_int(-20),
    });
    book_flip::flip_system(&mut world);
    let p = world.entities[page.id as usize].page.unwrap();
    // 100 - 20 * 12 = -140, reflected to 140 with the speed reversed
    assert_eq!(p.angle_deg.raw, 140);
    assert_eq!(p.speed_deg_per_second, Fixed::from_int(20));
}

// flip card

#[test]
fn flip_card_turns_wraps_and_shows_the_facing_side() {
    let mut world = World::new();
    let root = world.spawn_empty();
    let card = world.spawn_empty();
    world.entities[card.id as usize].style = Some(boxed_style());
    world.entities[card.id as usize].flip_card = Some(FlipCard {
        angle_deg: Fixed::from_int(89),
        speed_deg: Fixed::one(),
        front_color: 0x58A6FF,
        back_color: 0xF85149,
        root,
    });

    flip_card::flip_system(&mut world);
    let d = &world.entities[card.id as usize];
    assert_eq!(d.flip_card.unwrap().angle_deg, Fixed::from_int(90));
    assert_eq!(d.widgets.bg_color, Some(0xF85149));
    // default 480 x 320 view: 200 x 180 card centred at (140, 70)
    let layout = d.style.unwrap().layout;
    assert_eq!(layout.left, Dimension::px(140));
    assert_eq!(layout.top, Dimension::px(70));
    assert_eq!(layout.width, Dimension::px(200));
    assert_eq!(layout.height, Dimension::px(180));
    assert!(d.dirty);
    assert!(world.entities[root.id as usize].dirty);
    assert_eq!(
        steps(&world, card),
        vec![TransformStep::RotateYPerspective { angle_deg: Fixed::from_int(90), distance: Fixed::from_int(400) }]
    );

    world.entities[card.id as usize].flip_card.as_mut().unwrap().angle_deg = Fixed::from_int(359);
    flip_card::flip_system(&mut world);
    let d = &world.entities[card.id as usize];
    assert_eq!(d.flip_card.unwrap().angle_deg, Fixed::zero());
    assert_eq!(d.widgets.bg_color, Some(0x58A6FF));
}

#[test]
fn flip_card_follows_the_root_viewport() {
    let mut world = World::new();
    let root = world.spawn_empty();
    world.entities[root.id as usize].computed_rect = Some(Rect::new(0, 0, 240, 160));
    world.res.widget_root = Some(root);
    let card = world.spawn_empty();
    world.entities[card.id as usize].style = Some(boxed_style());
    world.entities[card.id as usize].flip_card = Some(FlipCard {
        angle_deg: Fixed::zero(),
        speed_deg: Fixed::one(),
        front_color: 1,
        back_color: 2,
        root,
    });
    flip_card::flip_system(&mut world);
    let layout = world.entities[card.id as usize].style.unwrap().layout;
    // 240 * 5 / 12 = 100 wide, 160 * 9 / 16 = 90 tall
    assert_eq!(layout.left, Dimension::px(70));
    assert_eq!(layout.top, Dimension::px(35));
    assert_eq!(layout.width, Dimension::px(100));
    assert_eq!(layout.height, Dimension::px(90));
}

#[test]
fn flip_card_without_style_keeps_its_colours() {
    let mut world = World::new();
    let root = world.spawn_empty();
    let card = world.spawn_empty();
    world.entities[card.id as usize].flip_card = Some(FlipCard {
        angle_deg: Fixed::from_int(180),
        speed_deg: Fixed::one(),
        front_color: 1,
        back_color: 2,
        root,
    });
    flip_card::flip_system(&mut world);
    let d = &world.entities[card.id as usize];
    assert_eq!(d.widgets.bg_color, None);
    assert!(d.style.is_none());
    assert_eq!(d.flip_card.unwrap().angle_deg, Fixed::from_int(181));
}

// image flip

#[test]
fn spinner_turns_and_bounces() {
    let mut world = World::new();
    let e = world.spawn_empty();
    world.entities[e.id as usize].spinner = Some(Spinner {
        angle: Fixed::from_int(358),
        speed: Fixed::from_int(3),
        bounce_phase: Fixed::from_int(87),
    });
    image_flip::spin_system(&mut world);
    let s = world.entities[e.id as usize].spinner.unwrap();
    assert_eq!(s.angle, Fixed::from_int(1));
    assert_eq!(s.bounce_phase, Fixed::from_int(90));
    // phase 90: t = 1/2, so the image is at the top of its bounce
    assert_eq!(
        steps(&world, e),
        vec![
            TransformStep::Translate { tx: Fixed::zero(), ty: Fixed::from_int(-100) },
            TransformStep::RotateYPerspective { angle_deg: Fixed::from_int(1), distance: Fixed::from_int(400) },
            TransformStep::Scale { sx: Fixed::one(), sy: Fixed::from_raw(288) },
        ]
    );
    assert!(world.entities[e.id as usize].dirty);
}

#[test]
fn spinner_lands_squashed() {
    let mut world = World::new();
    let e = world.spawn_empty();
    world.entities[e.id as usize].spinner = Some(Spinner {
        angle: Fixed::zero(),
        speed: Fixed::zero(),
        bounce_phase: Fixed::from_int(180),
    });
    image_flip::spin_system(&mut world);
    // phase 180 is a whole half turn: t = 0, height 0, squashed by a quarter
    assert_eq!(
        steps(&world, e),
        vec![
            TransformStep::Translate { tx: Fixed::zero(), ty: Fixed::zero() },
            TransformStep::RotateYPerspective { angle_deg: Fixed::zero(), distance: Fixed::from_int(400) },
            TransformStep::Scale { sx: Fixed::from_raw(192), sy: Fixed::one() },
        ]
    );
}

// cover flow

#[test]
fn cover_flow_build_widgets_smoke() {
    let mut world = World::new();
    let parent = new_parent(&mut world);
    cover_flow::build_widgets(&mut world, parent, 640, 360);
    assert!(!world.entities[parent.id as usize].children.is_empty());
}

#[test]
fn cover_flow_bounds_for_a_wide_view() {
    let b = CoverFlowBounds::for_view(640, 360);
    assert_eq!((b.card_w, b.card_h, b.card_gap, b.perspective), (140, 180, 80, 250));
    assert_eq!(b.content_width(), 1520);
}

#[test]
fn cover_flow_carousel_starts_near_the_middle() {
    let mut world = World::new();
    let parent = new_parent(&mut world);
    cover_flow::build_widgets(&mut world, parent, 640, 360);
    let carousel = world.entities[parent.id as usize].children[0];
    let d = &world.entities[carousel.id as usize];
    assert!(d.carousel.is_some());
    assert_eq!(d.scroll_offset, Some(ScrollOffset { x: Fixed::from_int(405), y: Fixed::zero() }));
    let cfg = d.scroll_config.unwrap();
    assert_eq!(cfg.direction, ScrollAxis::Horizontal);
    assert_eq!(cfg.content_width, Fixed::from_int(1520));
    assert!(cfg.elastic);
    assert_eq!(d.children.len(), 5);
    for (k, card) in d.children.iter().enumerate() {
        assert_eq!(world.entities[card.id as usize].carousel_card, Some(CarouselCard { index: k }));
    }
    assert_eq!(world.res.cover_flow_bounds, Some(CoverFlowBounds::for_view(640, 360)));
}

#[test]
fn cover_flow_layout_places_and_tilts_cards() {
    let mut world = World::new();
    let parent = new_parent(&mut world);
    cover_flow::build_widgets(&mut world, parent, 640, 360);
    let carousel = world.entities[parent.id as usize].children[0];
    // scrolled so that slot 2 sits at the centre
    world.entities[carousel.id as usize].scroll_offset = Some(ScrollOffset { x: Fixed::from_int(440), y: Fixed::zero() });
    cover_flow::layout_system(&mut world);

    let cards = world.entities[carousel.id as usize].children.clone();
    let card2 = &world.entities[cards[2].id as usize];
    let layout = card2.style.unwrap().layout;
    // centre 320 + 2 slots of 220 - half a card (70)
    assert_eq!(layout.left, Dimension::px(690));
    assert_eq!(layout.top, Dimension::px(90));
    assert_eq!(
        steps(&world, cards[2]),
        vec![
            TransformStep::RotateYPerspective { angle_deg: Fixed::zero(), distance: Fixed::from_int(250) },
            TransformStep::RotateXPerspective { angle_deg: Fixed::from_int(-15), distance: Fixed::from_int(250) },
        ]
    );
    assert_eq!(
        steps(&world, cards[0]),
        vec![
            TransformStep::RotateYPerspective { angle_deg: Fixed::from_int(90), distance: Fixed::from_int(250) },
            TransformStep::RotateXPerspective { angle_deg: Fixed::from_int(25), distance: Fixed::from_int(250) },
        ]
    );
    assert!(world.entities[carousel.id as usize].dirty);
    let size = world.entities[carousel.id as usize].style.unwrap().layout;
    assert_eq!(size.width, Dimension::px(640));
    assert_eq!(size.height, Dimension::px(360));
}

#[test]
fn cover_flow_layout_waits_for_bounds() {
    let mut world = World::new();
    let parent = new_parent(&mut world);
    cover_flow::build_widgets(&mut world, parent, 640, 360);
    world.res.cover_flow_bounds = None;
    let carousel = world.entities[parent.id as usize].children[0];
    cover_flow::layout_system(&mut world);
    assert!(!world.entities[carousel.id as usize].dirty);
    assert!(world.entities[carousel.id as usize].transform3d.is_none());
}

#[test]
fn book_flip_build_widgets_smoke() {
    let mut world = World::new();
    let parent = new_parent(&mut world);
    book_flip::build_widgets(&mut world, parent);
    assert!(!world.entities[parent.id as usize].children.is_empty());
}

#[test]
fn book_flip_live_page_swings() {
    let mut world = World::new();
    let parent = new_parent(&mut world);
    book_flip::build_widgets(&mut world, parent);
    let shell = world.entities[parent.id as usize].children[0];
    let spread = world.entities[shell.id as usize].children[1];
    let pages = world.entities[spread.id as usize].children.clone();
    assert!(world.entities[pages[0].id as usize].page.is_none());
    let live = pages[1];
    assert_eq!(world.entities[live.id as usize].page.unwrap().speed_deg_per_second, Fixed::from_int(30));
    assert!(steps(&world, live).is_empty());
    world.res.delta_time_ms = Some(20);
    book_flip::flip_system(&mut world);
    assert_eq!(world.entities[live.id as usize].page.unwrap().angle_deg.raw, 150);
}

#[test]
fn flip_card_build_widgets_smoke() {
    let mut world = World::new();
    let parent = new_parent(&mut world);
    flip_card::build_widgets(&mut world, parent);
    assert!(!world.entities[parent.id as usize].children.is_empty());
}

#[test]
fn flip_card_demo_card_redraws_with_the_parent() {
    let mut world = World::new();
    let parent = new_parent(&mut world);
    flip_card::build_widgets(&mut world, parent);
    let view = world.entities[parent.id as usize].children[0];
    let card = world.entities[view.id as usize].children[1];
    assert_eq!(world.entities[card.id as usize].flip_card.unwrap().root, parent);
    flip_card::flip_system(&mut world);
    assert!(world.entities[parent.id as usize].dirty);
    assert_eq!(world.entities[card.id as usize].flip_card.unwrap().angle_deg, Fixed::from_int(1));
    assert_eq!(world.entities[card.id as usize].widgets.bg_color, Some(0x58A6FF));
}

#[test]
fn image_flip_build_widgets_smoke() {
    let mut world = World::new();
    let parent = new_parent(&mut world);
    image_flip::build_widgets(&mut world, parent);
    assert!(!world.entities[parent.id as usize].children.is_empty());
}

#[test]
fn image_flip_image_carries_the_spinner() {
    let mut world = World::new();
    let parent = new_parent(&mut world);
    image_flip::build_widgets(&mut world, parent);
    let column = world.entities[parent.id as usize].children[0];
    let stage = world.entities[column.id as usize].children[1];
    let image = world.entities[stage.id as usize].children[0];
    let s = world.entities[image.id as usize].spinner.unwrap();
    assert_eq!(s.speed, Fixed::from_int(3));
    image_flip::spin_system(&mut world);
    assert_eq!(world.entities[image.id as usize].spinner.unwrap().angle, Fixed::from_int(3));
}

// effect panels

#[test]
fn color_flash_changes_colour_every_sixty_frames() {
    let mut world = World::new();
    let e = world.spawn_empty();
    world.entities[e.id as usize].style = Some(boxed_style());
    world.entities[e.id as usize].color_flash = Some(ColorFlash { frame: 58 });
    effect_panels::animate_color_flash(&mut world);
    assert_eq!(world.entities[e.id as usize].color_flash, Some(ColorFlash { frame: 59 }));
    assert_eq!(world.entities[e.id as usize].widgets.bg_color, Some(0xDC3C3C));
    effect_panels::animate_color_flash(&mut world);
    assert_eq!(world.entities[e.id as usize].widgets.bg_color, Some(0x3CC850));
    world.entities[e.id as usize].color_flash = Some(ColorFlash { frame: 119 });
    effect_panels::animate_color_flash(&mut world);
    assert_eq!(world.entities[e.id as usize].widgets.bg_color, Some(0x288CDC));
    assert!(world.entities[e.id as usize].dirty);
}

#[test]
fn color_flash_counter_wraps() {
    let mut world = World::new();
    let e = world.spawn_empty();
    world.entities[e.id as usize].color_flash = Some(ColorFlash { frame: u32::MAX });
    effect_panels::animate_color_flash(&mut world);
    assert_eq!(world.entities[e.id as usize].color_flash, Some(ColorFlash { frame: 0 }));
    // no style: the colour is not shown, but the widget is redrawn
    assert_eq!(world.entities[e.id as usize].widgets.bg_color, None);
    assert!(world.entities[e.id as usize].dirty);
}

// effect glass

#[test]
fn glass_panel_sweeps_there_and_back() {
    let mut world = World::new();
    world.res.delta_time_ms = Some(1500);
    let e = world.spawn_empty();
    world.entities[e.id as usize].style = Some(boxed_style());
    world.entities[e.id as usize].glass_slide = Some(GlassSlide { elapsed_ms: 0 });
    // default 128 pixel view: the panel's left edge runs from 8 to 60
    effect_glass::glass_slide_system(&mut world);
    let layout = world.entities[e.id as usize].style.unwrap().layout;
    assert_eq!((layout.left, layout.top), (Dimension::px(34), Dimension::px(50)));
    effect_glass::glass_slide_system(&mut world);
    assert_eq!(world.entities[e.id as usize].style.unwrap().layout.left, Dimension::px(60));
    effect_glass::glass_slide_system(&mut world);
    assert_eq!(world.entities[e.id as usize].style.unwrap().layout.left, Dimension::px(34));
    effect_glass::glass_slide_system(&mut world);
    assert_eq!(world.entities[e.id as usize].glass_slide, Some(GlassSlide { elapsed_ms: 0 }));
    assert_eq!(world.entities[e.id as usize].style.unwrap().layout.left, Dimension::px(8));
}

#[test]
fn glass_panel_follows_the_viewport_width() {
    let mut world = World::new();
    let root = world.spawn_empty();
    world.entities[root.id as usize].computed_rect = Some(Rect::new(0, 0, 368, 200));
    world.res.widget_root = Some(root);
    world.res.delta_time_ms = Some(3000);
    let e = world.spawn_empty();
    world.entities[e.id as usize].style = Some(boxed_style());
    world.entities[e.id as usize].glass_slide = Some(GlassSlide { elapsed_ms: 0 });
    effect_glass::glass_slide_system(&mut world);
    // 368 - 60 - 8 = 300 at the far end
    assert_eq!(world.entities[e.id as usize].style.unwrap().layout.left, Dimension::px(300));
}

// butterfly

#[test]
fn butterflies_are_redrawn_every_frame() {
    let mut world = World::new();
    let b = world.spawn_empty();
    let other = world.spawn_empty();
    world.entities[b.id as usize].butterfly = Some(Butterfly { start_ms: 5 });
    butterfly::butterfly_anim_system(&mut world);
    assert!(world.entities[b.id as usize].dirty);
    assert!(!world.entities[other.id as usize].dirty);
}
