use mirui::anim::Ease;
use mirui::components::{slider_handler, tab_pages_system, with_default_widgets, Slider, Switch, TabBar, TabContent};
use mirui::ecs::{DisplayInfo, Entity, MonoClock, World};
use mirui::event::focus::FocusState;
use mirui::event::gesture::{GestureEvent, GestureSystem};
use mirui::event::hit_test::hit_test;
use mirui::event::input::InputEvent;
use mirui::event::scroll::{scroll_inertia_system, ScrollDragState, ScrollOffset, ScrollSpring};
use mirui::event::sim::{set_sim_root, sim_timeline_system, SimAction, SimTimeline};
use mirui::event::widget_input::attach_widget_input_handlers;
use mirui::event::{
    bubble_dispatch, dispatch_input, Callbacks, GestureHandler, NoCallbacks, PointerCursor, WidgetEvent,
};
use mirui::gallery::App;
use mirui::types::{DimPoint, Dimension, Fixed, Fixed64, Point, Rect};
use mirui::widget::Style;

// ─── Clock ──────────────────────────────────────────────────────────────

fn set_ms(world: &mut World, ms: u64) {
    world.res.clock = Some(MonoClock { now_ns: ms * 1_000_000 });
}

fn advance_ms(world: &mut World, ms: u64) {
    let now = world.res.clock.map(|c| c.now_ns).unwrap_or(0);
    world.res.clock = Some(MonoClock { now_ns: now + ms * 1_000_000 });
}

fn now_ms(world: &World) -> u32 {
    world.res.clock.unwrap().now_ms()
}

fn setup_world() -> World {
    let mut world = World::new();
    world.res.scroll_drag = Some(ScrollDragState::new());
    world.res.scroll_spring = Some(ScrollSpring::new());
    world.res.gesture = Some(GestureSystem::new());
    world.res.focus = Some(FocusState::new());
    world.res.display = Some(DisplayInfo { width: 128, height: 128 });
    let root = world.spawn();
    set_sim_root(&mut world, root);
    set_ms(&mut world, 0);
    world
}

fn tick(world: &mut World) {
    sim_timeline_system(world, &mut NoCallbacks);
}

fn timeline(world: &World) -> &SimTimeline {
    world.res.sim_timeline.as_ref().unwrap()
}

fn cursor(world: &World) -> PointerCursor {
    world.res.pointer_cursor.expect("cursor seeded by sim")
}

fn px(x: i32, y: i32) -> DimPoint {
    DimPoint::px(x, y)
}

// ─── Timeline actions ───────────────────────────────────────────────────

#[test]
fn move_to_emits_pointer_move_without_pressing() {
    let mut world = setup_world();
    world.res.sim_timeline = Some(SimTimeline::new(vec![SimAction::move_to(px(10, 10), px(50, 10), 200, Ease::Linear)]));

    tick(&mut world);
    let c = cursor(&world);
    assert_eq!(c.x, Fixed::from_int(10));
    assert!(!c.down, "MoveTo must keep cursor.down false");

    for _ in 0..7 {
        advance_ms(&mut world, 16);
        tick(&mut world);
    }
    let mid = cursor(&world);
    assert!(
        mid.x > Fixed::from_int(10) && mid.x < Fixed::from_int(50),
        "cursor must interpolate between endpoints, got {:?}",
        mid.x,
    );
    assert!(!mid.down);

    for _ in 0..20 {
        advance_ms(&mut world, 16);
        tick(&mut world);
    }
    let end = cursor(&world);
    assert_eq!(end.x, Fixed::from_int(50));
    assert!(!end.down);
    assert_eq!(timeline(&world).cursor, 1, "MoveTo timeline cursor must advance past completion");
}

#[test]
fn rotate_advances_after_step_ms_per_tick() {
    let mut world = setup_world();
    // 5 detents, 20 ms each.
    world.res.sim_timeline = Some(SimTimeline::new(vec![SimAction::rotate(5, 20)]));

    tick(&mut world);
    assert_eq!(timeline(&world).cursor, 0);

    for _ in 0..3 {
        advance_ms(&mut world, 16);
        tick(&mut world);
    }
    assert_eq!(timeline(&world).rotate_emitted, 2, "rotate_emitted must equal elapsed_ms / step_ms");
    assert_eq!(timeline(&world).cursor, 0);

    for _ in 0..6 {
        advance_ms(&mut world, 16);
        tick(&mut world);
    }
    assert_eq!(timeline(&world).cursor, 1, "rotate failed to advance after total duration");
    assert_eq!(timeline(&world).rotate_emitted, 0);
}

#[test]
fn rotate_smooth_with_linear_ease_matches_rotate() {
    let mut world = setup_world();
    world.res.sim_timeline = Some(SimTimeline::new(vec![SimAction::rotate_smooth(4, 80, Ease::Linear)]));

    tick(&mut world);
    for _ in 0..2 {
        advance_ms(&mut world, 20);
        tick(&mut world);
    }
    assert_eq!(timeline(&world).rotate_emitted, 2, "linear ease at 50% time: 2 of 4 detents");
}

#[test]
fn rotate_smooth_back_loaded_curve_stalls_then_finishes() {
    let mut world = setup_world();
    world.res.sim_timeline = Some(SimTimeline::new(vec![SimAction::rotate_smooth(4, 100, Ease::EaseInOutCubic)]));

    tick(&mut world);
    // 25% of the time: the cubic curve is still near 0.
    for _ in 0..1 {
        advance_ms(&mut world, 25);
        tick(&mut world);
    }
    let mid_emitted = timeline(&world).rotate_emitted;
    assert!(mid_emitted < 2, "ease_in_out_cubic at 25% should not have emitted half the detents (got {mid_emitted})");

    for _ in 0..8 {
        advance_ms(&mut world, 20);
        tick(&mut world);
    }
    assert_eq!(timeline(&world).cursor, 1, "rotate_smooth must fully complete after total_ms");
}

#[test]
fn rotate_smooth_non_divisible_total_rounds_up_step_ms() {
    let mut world = setup_world();
    world.res.sim_timeline = Some(SimTimeline::new(vec![SimAction::rotate_smooth(3, 100, Ease::Linear)]));

    tick(&mut world);
    for _ in 0..9 {
        advance_ms(&mut world, 16);
        tick(&mut world);
    }
    assert_eq!(timeline(&world).cursor, 1, "rotate_smooth(3, 100) must retire after ~102 ms");
}

#[test]
fn rotary_click_emits_key_pair() {
    let mut world = setup_world();
    world.res.sim_timeline = Some(SimTimeline::new(vec![SimAction::rotary_click()]));

    tick(&mut world);
    assert_eq!(timeline(&world).cursor, 0, "RotaryClick must not advance on first frame (pressed phase)");

    for _ in 0..5 {
        advance_ms(&mut world, 16);
        tick(&mut world);
    }
    assert_eq!(timeline(&world).cursor, 1, "RotaryClick must advance after release fires");
}

#[test]
fn move_to_does_not_bump_event_seq() {
    let mut world = setup_world();
    world.res.sim_timeline = Some(SimTimeline::new(vec![SimAction::move_to(px(0, 0), px(40, 0), 100, Ease::Linear)]));

    tick(&mut world);
    let initial_seq = world.res.pointer_cursor.map(|c| c.event_seq).unwrap_or(0);

    for _ in 0..10 {
        advance_ms(&mut world, 16);
        tick(&mut world);
    }
    let final_seq = world.res.pointer_cursor.map(|c| c.event_seq).unwrap_or(0);
    assert_eq!(initial_seq, final_seq, "PointerMove must not bump event_seq; only Down/Up do");
}

#[test]
fn wait_holds_cursor_for_full_duration() {
    let mut world = setup_world();
    world.res.sim_timeline = Some(SimTimeline::new(vec![SimAction::Wait(800)]));

    tick(&mut world);
    assert_eq!(timeline(&world).cursor, 0);

    for _ in 0..25 {
        advance_ms(&mut world, 16);
        tick(&mut world);
    }
    assert_eq!(timeline(&world).cursor, 0, "cursor advanced during Wait: timeline drifted");

    for _ in 0..30 {
        advance_ms(&mut world, 16);
        tick(&mut world);
    }
    assert_eq!(timeline(&world).cursor, 1, "cursor failed to advance past Wait");
}

/// Runs the timeline `max_steps` frames of `step_ms`, recording each
/// cursor change with the time it happened at.
fn trace_cursors(world: &mut World, step_ms: u64, max_steps: u32) -> Vec<(usize, u64)> {
    let mut trace = Vec::new();
    let mut elapsed: u64 = 0;
    let mut last: usize = usize::MAX;
    for _ in 0..max_steps {
        tick(world);
        let cur = world.res.sim_timeline.as_ref().map(|t| t.cursor).unwrap_or(usize::MAX);
        if cur != last {
            trace.push((cur, elapsed));
            last = cur;
        }
        advance_ms(world, step_ms);
        elapsed += step_ms;
    }
    trace
}

#[test]
fn wait_survives_u32_ms_wrap() {
    let mut world = setup_world();
    // 200 ms before the u32 millisecond clock wraps.
    set_ms(&mut world, (u32::MAX as u64) - 200);
    world.res.sim_timeline = Some(SimTimeline::new(vec![SimAction::Wait(800)]));

    tick(&mut world);
    for _ in 0..25 {
        advance_ms(&mut world, 16);
        tick(&mut world);
    }
    assert_eq!(timeline(&world).cursor, 0, "Wait collapsed across u32 ms wrap");

    for _ in 0..30 {
        advance_ms(&mut world, 16);
        tick(&mut world);
    }
    assert_eq!(timeline(&world).cursor, 1, "Wait did not advance after full duration across wrap");
}

#[test]
fn cycle_stability_two_cycles_match() {
    let mut world = setup_world();
    world.res.sim_timeline = Some(
        SimTimeline::new(vec![
            SimAction::wait(100),
            SimAction::tap(px(10, 10)),
            SimAction::wait(800),
            SimAction::tap(px(20, 20)),
            SimAction::wait(100),
        ])
        .looping(true),
    );

    let step = 16u64;
    let trace = trace_cursors(&mut world, step, 250);

    let zero_resets: Vec<u64> = trace.iter().filter(|(c, _)| *c == 0).map(|(_, ms)| *ms).collect();
    assert!(
        zero_resets.len() >= 3,
        "expected at least 3 cursor=0 events (initial + 2 loop resets), trace={trace:?}",
    );

    let cycle1_len = zero_resets[1] - zero_resets[0];
    let cycle2_len = zero_resets[2] - zero_resets[1];
    let drift = cycle1_len.abs_diff(cycle2_len);
    assert!(
        drift <= step,
        "cycle drift {drift} ms > frame ({step} ms): cycle1={cycle1_len} ms, cycle2={cycle2_len} ms\ntrace={trace:?}",
    );
    assert!((1100..=1300).contains(&cycle1_len), "cycle1 length {cycle1_len} ms outside [1100, 1300]; trace={trace:?}");
}

// ─── Anchored actions ───────────────────────────────────────────────────

fn spawn_widget(world: &mut World, parent: Option<Entity>, rect: Rect) -> Entity {
    let e = world.spawn();
    world.set_widget(e, true);
    world.set_style(e, Some(Style::flow()));
    world.set_computed_rect(e, Some(rect));
    if let Some(p) = parent {
        world.attach(p, e);
    }
    e
}

/// A 128 x 128 root, laid out at the origin, that the timeline targets.
fn install_root(world: &mut World) -> Entity {
    let root = spawn_widget(world, None, Rect::new(0, 0, 128, 128));
    set_sim_root(world, root);
    root
}

#[test]
fn tap_on_resolves_to_entity_centre() {
    let mut world = setup_world();
    let root = install_root(&mut world);
    // Absolutely placed at (40, 20), 60 x 30.
    let target = spawn_widget(&mut world, Some(root), Rect::new(40, 20, 60, 30));

    world.res.sim_timeline = Some(SimTimeline::new(vec![SimAction::tap(DimPoint::center()).on(target)]));
    for _ in 0..10 {
        tick(&mut world);
        advance_ms(&mut world, 16);
    }
    assert!(timeline(&world).cursor >= 1, "TapOn never advanced cursor");
}

#[test]
fn tap_on_waits_indefinitely_for_computed_rect() {
    let mut world = setup_world();
    let target = world.spawn();

    world.res.sim_timeline = Some(SimTimeline::new(vec![SimAction::tap(DimPoint::center()).on(target)]));
    for _ in 0..50 {
        tick(&mut world);
        advance_ms(&mut world, 16);
    }
    assert_eq!(
        timeline(&world).cursor,
        0,
        "TapOn must wait indefinitely so a deferred-layout target still fires once visible",
    );
}

#[test]
fn drag_on_anchors_endpoints_to_entity() {
    let mut world = setup_world();
    let root = install_root(&mut world);
    let target = spawn_widget(&mut world, Some(root), Rect::new(10, 10, 20, 20));

    world.res.sim_timeline =
        Some(SimTimeline::new(vec![SimAction::drag(DimPoint::center(), px(60, 10), 100, Ease::Linear).on(target)]));

    for _ in 0..15 {
        tick(&mut world);
        advance_ms(&mut world, 16);
    }
    assert!(timeline(&world).cursor >= 1, "DragOn never completed");
}

// ─── Widget-level integration ───────────────────────────────────────────

/// A tab bar over three pages (slider on page 1, switch on page 2), laid
/// out on a 128 x 128 display: bar 128 x 14 at the top, pages 128 x 114
/// below it, each page's widget centred in it.
fn build_widget_world() -> (World, Entity, Entity, Entity) {
    let mut app = App::headless(128, 128);
    app.with_default_widgets();
    let mut world = app.world;
    world.res.gesture = Some(GestureSystem::new());
    world.res.scroll_drag = Some(ScrollDragState::new());
    world.res.scroll_spring = Some(ScrollSpring::new());
    world.res.focus = Some(FocusState::new());

    let root = spawn_widget(&mut world, None, Rect::new(0, 0, 128, 128));
    let tab_bar = spawn_widget(&mut world, Some(root), Rect::new(0, 0, 128, 14));
    world.entities[tab_bar.id as usize].widgets.tabbar = Some(TabBar::new(3));

    let make_page = |world: &mut World, idx: u8| -> Entity {
        let p = spawn_widget(world, Some(root), Rect::new(0, 14, 128, 114));
        world.entities[p.id as usize].widgets.tab_content = Some(TabContent { tab_bar, index: idx });
        p
    };

    let _list_page = make_page(&mut world, 0);

    let slide_page = make_page(&mut world, 1);
    let slider = spawn_widget(&mut world, Some(slide_page), Rect::new(10, 65, 108, 12));
    world.entities[slider.id as usize].widgets.slider = Some(Slider::new(Fixed::zero(), Fixed::from_int(100)));

    let switch_page = make_page(&mut world, 2);
    let switch = spawn_widget(&mut world, Some(switch_page), Rect::new(39, 58, 50, 26));
    world.entities[switch.id as usize].widgets.switch = Some(Switch::new());

    attach_widget_input_handlers(&mut world, root);
    set_sim_root(&mut world, root);
    set_ms(&mut world, 0);

    (world, root, slider, switch)
}

fn select_tab(world: &mut World, index: u8) {
    let bar = mirui::components::find_tagged(world, mirui::components::TAG_TABBAR).expect("TabBar entity");
    world.entities[bar.id as usize].widgets.tabbar.as_mut().unwrap().selected = index;
    tab_pages_system(world);
}

fn switch_on(world: &World, switch: Entity) -> bool {
    world.entities[switch.id as usize].widgets.switch.map(|s| s.on).unwrap_or(false)
}

#[test]
fn hit_test_finds_switch_when_sw_tab_visible() {
    let (mut world, root, _slider, switch) = build_widget_world();
    select_tab(&mut world, 2);

    let hit = hit_test(&world, root, Fixed::from_int(64), Fixed::from_int(71), 128, 128);
    assert_eq!(hit, Some(switch), "hit_test at Switch centre returned {:?}, expected Switch entity {:?}", hit, switch);
}

#[test]
fn hit_test_skips_hidden_subtree_scroll_offset() {
    let mut world = World::new();
    let root = spawn_widget(&mut world, None, Rect::new(0, 0, 60, 90));
    let hidden = spawn_widget(&mut world, Some(root), Rect::new(0, 0, 60, 30));
    let decoy = spawn_widget(&mut world, Some(hidden), Rect::new(0, 0, 60, 30));
    // The column lays out the visible children only.
    let _visible_a = spawn_widget(&mut world, Some(root), Rect::new(0, 0, 60, 30));
    let target = spawn_widget(&mut world, Some(root), Rect::new(0, 30, 60, 30));
    let _ = decoy;
    world.set_hidden(hidden, true);
    world.set_scroll_offset(hidden, Some(ScrollOffset { x: Fixed::zero(), y: Fixed::from_int(30) }));

    let hit = hit_test(&world, root, Fixed::from_int(30), Fixed::from_int(45), 60, 90);
    assert_eq!(hit, Some(target), "hit at target centre returned {hit:?}");
}

#[test]
fn hit_test_clips_scrolled_child_to_container_rect() {
    let mut world = World::new();
    let root = spawn_widget(&mut world, None, Rect::new(0, 0, 100, 100));
    let tab = spawn_widget(&mut world, Some(root), Rect::new(0, 0, 100, 20));
    let scroll = spawn_widget(&mut world, Some(root), Rect::new(0, 20, 100, 80));
    // Absolutely placed 80 px below the container's top.
    let _row = spawn_widget(&mut world, Some(scroll), Rect::new(0, 100, 100, 40));

    // Tab bar y=[0,20); the row sits at y=100, scrolled by 95 to y=5.
    world.set_scroll_offset(scroll, Some(ScrollOffset { x: Fixed::zero(), y: Fixed::from_int(95) }));

    let hit = hit_test(&world, root, Fixed::from_int(50), Fixed::from_int(10), 100, 100);
    assert_eq!(hit, Some(tab));
}

fn drain_and_bubble(world: &mut World) -> Vec<GestureEvent> {
    let pending = mirui::event::sim::drain_gestures(world);
    for g in &pending {
        bubble_dispatch(world, &mut NoCallbacks, g);
    }
    pending
}

#[test]
fn switch_tap_via_dispatch_input_toggles_on() {
    let (mut world, root, _slider, switch) = build_widget_world();
    select_tab(&mut world, 2);

    let cx = Fixed::from_int(64);
    let cy = Fixed::from_int(71);

    let t = now_ms(&world);
    dispatch_input(&mut world, &mut NoCallbacks, root, &InputEvent::PointerDown { id: 0, x: cx, y: cy }, t, 128, 128);
    advance_ms(&mut world, 50);
    let t = now_ms(&world);
    dispatch_input(&mut world, &mut NoCallbacks, root, &InputEvent::PointerUp { id: 0, x: cx, y: cy }, t, 128, 128);

    let pending = drain_and_bubble(&mut world);
    assert!(switch_on(&world, switch), "Switch.on should flip true after Tap at its centre. pending events: {pending:?}");
}

#[test]
fn switch_n_tap_toggles_n_times() {
    let (mut world, root, _slider, switch) = build_widget_world();
    select_tab(&mut world, 2);

    let cx = Fixed::from_int(64);
    let cy = Fixed::from_int(71);
    let mut flips = 0u32;
    let mut prev_on = switch_on(&world, switch);

    for _ in 0..100 {
        let t = now_ms(&world);
        dispatch_input(&mut world, &mut NoCallbacks, root, &InputEvent::PointerDown { id: 0, x: cx, y: cy }, t, 128, 128);
        advance_ms(&mut world, 50);
        let t = now_ms(&world);
        dispatch_input(&mut world, &mut NoCallbacks, root, &InputEvent::PointerUp { id: 0, x: cx, y: cy }, t, 128, 128);
        drain_and_bubble(&mut world);
        advance_ms(&mut world, 150);

        let on = switch_on(&world, switch);
        if on != prev_on {
            flips += 1;
        }
        prev_on = on;
    }

    assert_eq!(flips, 100, "100 Taps should produce 100 toggles, got {flips}");
}

#[test]
fn slider_handler_clamps_ratio_at_boundaries() {
    let mut world = World::new();
    let e = world.spawn();
    world.entities[e.id as usize].widgets.slider = Some(Slider::new(Fixed::zero(), Fixed::from_int(100)));
    world.set_computed_rect(
        e,
        Some(Rect { x: Fixed::from_int(20), y: Fixed::zero(), w: Fixed::from_int(100), h: Fixed::from_int(20) }),
    );

    let cases: &[(Fixed, i32)] = &[
        (Fixed::from_int(19), 0),
        (Fixed::from_int(20), 0),
        (Fixed::from_int(70), 500),
        (Fixed::from_int(120), 1000),
        (Fixed::from_int(121), 1000),
        (Fixed::from_int(-50), 0),
        (Fixed::from_int(10_000), 1000),
    ];
    for &(x, want_promille) in cases {
        let ev = GestureEvent::Tap { x, y: Fixed::from_int(10), target: e };
        assert!(slider_handler(&mut world, e, &ev), "handler accepts Tap");
        let r = world.entities[e.id as usize].widgets.slider.unwrap().ratio();
        assert!(r >= Fixed::zero() && r <= Fixed::one(), "ratio out of [0,1] at x={}: {:?}", x.to_int(), r);
        let got = (r * Fixed::from_int(1000)).to_int();
        assert!((got - want_promille).abs() <= 5, "x={}: got promille={}, want={}", x.to_int(), got, want_promille);
    }
}

#[test]
fn cycle_2_switch_toggle_still_works() {
    let (mut world, _root, _slider, switch) = build_widget_world();

    world.res.sim_timeline = Some(
        SimTimeline::new(vec![
            SimAction::wait(500),
            SimAction::tap(px(64, 7)),
            SimAction::wait(1500),
            SimAction::drag(px(14, 71), px(116, 71), 600, Ease::EaseInOutCubic),
            SimAction::wait(800),
            SimAction::tap(px(108, 7)),
            SimAction::wait(1200),
            SimAction::tap(px(64, 71)),
            SimAction::wait(800),
            SimAction::tap(px(64, 71)),
            SimAction::wait(800),
            SimAction::tap(px(20, 7)),
            SimAction::wait(800),
            SimAction::drag(px(64, 100), px(64, 30), 700, Ease::EaseInOutCubic),
            SimAction::wait(800),
            SimAction::drag(px(64, 30), px(64, 100), 700, Ease::EaseInOutCubic),
            SimAction::wait(800),
        ])
        .looping(true),
    );

    let cycle_ms: u64 = 9700;
    let step: u64 = 16;
    let total_frames: u64 = (cycle_ms * 25 / 10) / step;

    let mut cycle1_toggles = 0u32;
    let mut cycle2_toggles = 0u32;
    let mut last_on = false;

    for frame in 0..total_frames {
        tick(&mut world);
        scroll_inertia_system(&mut world);
        tab_pages_system(&mut world);

        let on = switch_on(&world, switch);
        if on != last_on {
            let elapsed = frame * step;
            if elapsed < cycle_ms {
                cycle1_toggles += 1;
            } else if elapsed < 2 * cycle_ms {
                cycle2_toggles += 1;
            }
            last_on = on;
        }
        advance_ms(&mut world, step);
    }

    assert!(cycle1_toggles >= 2, "cycle 1 expected >= 2 toggles, got {cycle1_toggles}");
    assert!(
        cycle2_toggles >= 2,
        "cycle 2 expected >= 2 toggles, got {cycle2_toggles} (cycle1 saw {cycle1_toggles})",
    );
}

// ─── Pinch and rotation probes ──────────────────────────────────────────

const PROBE: u32 = 1;

/// Records the pinch and rotation gestures its handler receives.
struct PinchProbe {
    accum_scale: Fixed,
    accum_scale64: Fixed64,
    per_frame: Vec<Fixed>,
    deltas: Vec<Fixed64>,
    rotate_deltas: Vec<Fixed>,
}

impl PinchProbe {
    fn new() -> PinchProbe {
        PinchProbe {
            accum_scale: Fixed::zero(),
            accum_scale64: Fixed64::from_raw(0),
            per_frame: Vec::new(),
            deltas: Vec::new(),
            rotate_deltas: Vec::new(),
        }
    }
}

impl Callbacks for PinchProbe {
    fn gesture_outcome(&self, _id: u32, _w: World, _e: Entity, _ev: GestureEvent, _after: Self, _w2: World, _r: bool) -> bool {
        true
    }

    fn key_outcome(&self, _id: u32, _w: World, _e: Entity, _ev: InputEvent, _after: Self, _w2: World, _r: bool) -> bool {
        true
    }

    fn widget_event_outcome(&self, _id: u32, _e: Entity, _ev: WidgetEvent, _after: Self) -> bool {
        true
    }

    fn gesture(&mut self, _world: &mut World, id: u32, _entity: Entity, event: &GestureEvent) -> bool {
        if id != PROBE {
            return false;
        }
        if let GestureEvent::Pinch { scale_delta, .. } = event {
            if self.accum_scale == Fixed::zero() {
                self.accum_scale = Fixed::one();
                self.accum_scale64 = Fixed64::one();
            }
            self.deltas.push(*scale_delta);
            self.accum_scale64 = self.accum_scale64.mul(*scale_delta);
            self.accum_scale = self.accum_scale64.to_fixed();
            self.per_frame.push(self.accum_scale);
            return true;
        }
        if let GestureEvent::Rotate { angle, .. } = event {
            self.rotate_deltas.push(*angle);
            return true;
        }
        false
    }

    fn key(&mut self, _world: &mut World, _id: u32, _entity: Entity, _event: &InputEvent) -> bool {
        false
    }

    fn widget_event(&mut self, _id: u32, _entity: Entity, _event: &WidgetEvent) {}
}

/// The standard probe scene: an 88 x 88 target at (20, 20) under the root.
fn probe_world() -> (World, Entity) {
    let mut world = setup_world();
    let root = install_root(&mut world);
    let target = spawn_widget(&mut world, Some(root), Rect::new(20, 20, 88, 88));
    world.set_gesture_handler(target, Some(GestureHandler::from_fn(PROBE)));
    (world, target)
}

fn run_probe(world: &mut World, probe: &mut PinchProbe, frames: u32) {
    for _ in 0..frames {
        sim_timeline_system(world, probe);
        advance_ms(world, 16);
    }
}

fn center64() -> DimPoint {
    DimPoint::from_point(Point { x: Fixed::from_int(64), y: Fixed::from_int(64) })
}

#[test]
fn pinch_two_rounds_handler_scale_is_continuous() {
    let (mut world, _target) = probe_world();
    let mut probe = PinchProbe::new();
    world.res.sim_timeline = Some(SimTimeline::new(vec![
        SimAction::pinch(center64(), Fixed::from_int(20), Fixed::from_int(70), 200, Ease::Linear),
        SimAction::wait(100),
        SimAction::pinch(center64(), Fixed::from_int(70), Fixed::from_int(20), 200, Ease::Linear),
    ]));

    run_probe(&mut world, &mut probe, 40);

    assert!(
        probe.per_frame.len() >= 5,
        "Pinch fired too few times ({}); expected at least 5 across two 200ms rounds",
        probe.per_frame.len(),
    );

    let mut max_jump = Fixed::zero();
    for w in probe.per_frame.windows(2) {
        let prev = w[0];
        let curr = w[1];
        let ratio = if prev > curr { prev / curr } else { curr / prev };
        let jump = ratio - Fixed::one();
        if jump > max_jump {
            max_jump = jump;
        }
    }
    assert!(
        max_jump < Fixed::one() / Fixed::from_int(2),
        "frame-to-frame scale jumped > 50%: max_jump = {:?}, frames = {:?}",
        max_jump,
        probe.per_frame,
    );

    let final_scale = *probe.per_frame.last().unwrap();
    let drift = if final_scale > Fixed::one() { final_scale - Fixed::one() } else { Fixed::one() - final_scale };
    assert!(drift < Fixed::one() / Fixed::from_int(4), "round-trip Pinch did not return to ~1.0x: final = {:?}", final_scale);
}

#[test]
fn pinch_demo_timeline_emits_expand_and_shrink_deltas() {
    let (mut world, _target) = probe_world();
    let mut probe = PinchProbe::new();
    let small = Fixed::from_int(40);
    let large = Fixed::from_int(80);
    world.res.sim_timeline = Some(SimTimeline::new(vec![
        SimAction::pinch(center64(), small, large, 1500, Ease::EaseInOutCubic),
        SimAction::wait(800),
        SimAction::pinch(center64(), large, small, 1500, Ease::EaseInOutCubic),
    ]));

    run_probe(&mut world, &mut probe, 260);

    let has_expand = probe.deltas.iter().any(|d| *d > Fixed64::one());
    let has_shrink = probe.deltas.iter().any(|d| *d < Fixed64::one());
    assert!(has_expand, "no expand deltas: {:?}", probe.deltas);
    assert!(has_shrink, "no shrink deltas: {:?}", probe.deltas);
    let final_scale = probe.accum_scale;
    let drift = if final_scale > Fixed::one() { final_scale - Fixed::one() } else { Fixed::one() - final_scale };
    assert!(
        drift <= Fixed::from_raw(8),
        "demo shrink/expand roundtrip should return near 1.0x, got {:?}, deltas={:?}",
        final_scale,
        probe.deltas,
    );
}

#[test]
fn anchored_pinch_clamps_span_to_target_rect() {
    let (mut world, target) = probe_world();
    let mut probe = PinchProbe::new();
    world.res.sim_timeline = Some(SimTimeline::new(vec![
        SimAction::pinch(DimPoint::center(), Fixed::from_int(40), Fixed::from_int(160), 400, Ease::Linear).on(target),
    ]));

    run_probe(&mut world, &mut probe, 40);

    assert!(
        probe.deltas.iter().any(|d| *d > Fixed64::one()),
        "wide anchored Pinch should still hit target after clamping, got {:?}",
        probe.deltas,
    );
}

#[test]
fn anchored_pinch_recenters_outside_local_center() {
    let (mut world, target) = probe_world();
    let mut probe = PinchProbe::new();
    world.res.sim_timeline = Some(SimTimeline::new(vec![SimAction::pinch(
        DimPoint::from_dims(Dimension::px(-100), Dimension::px(-100)),
        Fixed::from_int(40),
        Fixed::from_int(80),
        400,
        Ease::Linear,
    )
    .on(target)]));

    run_probe(&mut world, &mut probe, 40);

    assert!(
        probe.deltas.iter().any(|d| *d > Fixed64::one()),
        "anchored Pinch with outside local center should be recentered, got {:?}",
        probe.deltas,
    );
}

#[test]
fn anchored_rotate_gesture_clamps_radius_to_target_rect() {
    let (mut world, target) = probe_world();
    let mut probe = PinchProbe::new();
    world.res.sim_timeline = Some(SimTimeline::new(vec![SimAction::rotate_gesture(
        DimPoint::center(),
        Fixed::from_int(100),
        Fixed::zero(),
        Fixed::pi() / Fixed::from_int(2),
        400,
        Ease::Linear,
    )
    .on(target)]));

    run_probe(&mut world, &mut probe, 40);

    assert!(
        probe.rotate_deltas.iter().any(|d| *d != Fixed::zero()),
        "wide anchored RotateGesture should still hit target after clamping, got {:?}",
        probe.rotate_deltas,
    );
}

#[test]
fn pinch_rotate_demo_loop_expands_shrinks_and_rotates() {
    let (mut world, _target) = probe_world();
    let mut probe = PinchProbe::new();
    let small = Fixed::from_int(40);
    let large = Fixed::from_int(80);
    let radius = Fixed::from_int(30);
    let quarter = Fixed::pi() / Fixed::from_int(2);
    world.res.sim_timeline = Some(
        SimTimeline::new(vec![
            SimAction::pinch(center64(), small, large, 1500, Ease::EaseInOutCubic),
            SimAction::wait(800),
            SimAction::pinch(center64(), large, small, 1500, Ease::EaseInOutCubic),
            SimAction::wait(800),
            SimAction::rotate_gesture(center64(), radius, Fixed::zero(), quarter, 1500, Ease::EaseInOutCubic),
            SimAction::wait(800),
            SimAction::rotate_gesture(center64(), radius, quarter, Fixed::zero(), 1500, Ease::EaseInOutCubic),
            SimAction::wait(800),
        ])
        .looping(true),
    );

    run_probe(&mut world, &mut probe, 1100);

    let has_expand = probe.deltas.iter().any(|d| *d > Fixed64::one());
    let has_shrink = probe.deltas.iter().any(|d| *d < Fixed64::one());
    let has_rotate = probe.rotate_deltas.iter().any(|d| *d != Fixed::zero());
    assert!(has_expand, "loop has no expand deltas: {:?}", probe.deltas);
    assert!(has_shrink, "loop has no shrink deltas: {:?}", probe.deltas);
    assert!(has_rotate, "loop has no rotate deltas: {:?}", probe.rotate_deltas);
}
