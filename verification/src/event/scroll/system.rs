//! Scroll drag tracking (direction lock, target selection, elastic
//! overscroll) and post-release inertia.
use vstd::prelude::*;

use crate::anim::{bouncy, bouncy_spec, settled_spec, smooth, smooth_spec, tick_spec, Spring};
use crate::ecs::{Entity, Resources, World};
use crate::event::hit_test::{hit_test, hit_test_spec};
use crate::event::input::InputEvent;
use crate::types::{abs_int, div_trunc, mul_raw, wrap32, Fixed};

use super::{ScrollAxis, ScrollConfig, ScrollOffset};

verus! {

/// Scroll drag state resource.
#[derive(Clone, Copy, Debug, PartialEq, Eq, Structural)]
pub struct ScrollDragState {
    pub active: bool,
    /// The drag direction has been decided (and a target picked).
    pub resolved: bool,
    pub target: Entity,
    pub hit_entity: Entity,
    pub start_x: Fixed,
    pub start_y: Fixed,
    pub last_x: Fixed,
    pub last_y: Fixed,
    pub vel_x: Fixed,
    pub vel_y: Fixed,
    pub last_resolved_target: Option<Entity>,
}

/// Inertia springs of the container released last.
#[derive(Clone, Copy, Debug, PartialEq, Eq, Structural)]
pub struct ScrollSpring {
    pub x: Option<Spring>,
    pub y: Option<Spring>,
    pub target_entity: Option<Entity>,
}

impl ScrollSpring {
    pub fn new() -> (s: ScrollSpring)
        ensures
            s.x is None && s.y is None && s.target_entity is None,
    {
        ScrollSpring { x: None, y: None, target_entity: None }
    }
}

/// Spec: the placeholder entity id 0.
pub open spec fn null_entity() -> Entity {
    Entity { id: 0, generation: 0 }
}

impl ScrollDragState {
    pub open spec fn initial() -> ScrollDragState {
        ScrollDragState {
            active: false,
            resolved: false,
            target: null_entity(),
            hit_entity: null_entity(),
            start_x: Fixed { raw: 0 },
            start_y: Fixed { raw: 0 },
            last_x: Fixed { raw: 0 },
            last_y: Fixed { raw: 0 },
            vel_x: Fixed { raw: 0 },
            vel_y: Fixed { raw: 0 },
            last_resolved_target: None,
        }
    }

    pub fn new() -> (s: ScrollDragState)
        ensures
            s == ScrollDragState::initial(),
    {
        let null = Entity { id: 0, generation: 0 };
        ScrollDragState {
            active: false,
            resolved: false,
            target: null,
            hit_entity: null,
            start_x: Fixed::zero(),
            start_y: Fixed::zero(),
            last_x: Fixed::zero(),
            last_y: Fixed::zero(),
            vel_x: Fixed::zero(),
            vel_y: Fixed::zero(),
            last_resolved_target: None,
        }
    }
}

/// Movement (pixels, per axis) before a drag's direction is decided.
pub const DIRECTION_THRESHOLD_RAW: i32 = 5 * 256;

/// Resistance of elastic overscroll: `damping / (damping + overscroll)`.
pub const DAMPING: i32 = 200;

/// Spec: `max(a, 0)` on raws.
pub open spec fn nonneg(a: i32) -> i32 {
    if a >= 0 {
        a
    } else {
        0
    }
}

/// Spec: the container's scroll axis (vertical without a config).
pub open spec fn axis_of(w: &World, e: Entity) -> ScrollAxis {
    if w.has(e) {
        match w.data(e).scroll_config {
            Some(c) => c.direction,
            None => ScrollAxis::Vertical,
        }
    } else {
        ScrollAxis::Vertical
    }
}

/// Spec: `(max_x, max_y)`, how far the container can scroll: content size
/// minus container size, at least zero.
pub open spec fn scroll_bounds(w: &World, e: Entity) -> (i32, i32) {
    let rect = w.rect_of(e);
    let ch = match rect {
        Some(r) => r.h.raw,
        None => 0,
    };
    let cw = match rect {
        Some(r) => r.w.raw,
        None => 0,
    };
    let config = if w.has(e) {
        w.data(e).scroll_config
    } else {
        None
    };
    let content_h = match config {
        Some(c) => c.content_height.raw,
        None => ch,
    };
    let content_w = match config {
        Some(c) => c.content_width.raw,
        None => cw,
    };
    (nonneg(wrap32(content_w - cw)), nonneg(wrap32(content_h - ch)))
}

fn bounds_of(world: &World, e: Entity) -> (r: (Fixed, Fixed))
    ensures
        r.0.raw == scroll_bounds(world, e).0,
        r.1.raw == scroll_bounds(world, e).1,
{
    let rect = world.computed_rect(e);
    let ch = match rect {
        Some(r) => r.h,
        None => Fixed::zero(),
    };
    let cw = match rect {
        Some(r) => r.w,
        None => Fixed::zero(),
    };
    let config = world.scroll_config(e);
    let content_h = match config {
        Some(c) => c.content_height,
        None => ch,
    };
    let content_w = match config {
        Some(c) => c.content_width,
        None => cw,
    };
    (content_w.sub(cw).max(Fixed::zero()), content_h.sub(ch).max(Fixed::zero()))
}

fn axis(world: &World, e: Entity) -> (a: ScrollAxis)
    ensures
        a == axis_of(world, e),
{
    match world.scroll_config(e) {
        Some(c) => c.direction,
        None => ScrollAxis::Vertical,
    }
}

/// Spec: the part of `delta` that elastic resistance lets through when
/// `offset + delta` leaves `[0, max]`.
pub open spec fn elastic_resist_spec(offset: Fixed, delta: Fixed, max: Fixed) -> i32 {
    let new_offset = wrap32(offset.raw + delta.raw);
    if new_offset >= 0 && new_offset <= max.raw {
        delta.raw
    } else {
        let over = if new_offset < 0 {
            wrap32(-new_offset)
        } else {
            wrap32(new_offset - max.raw)
        };
        let denom = DAMPING + (over as int) / 256;
        if denom == 0 {
            0
        } else {
            wrap32(div_trunc(wrap32(delta.raw * DAMPING) as int, denom))
        }
    }
}

/// The part of `delta` that elastic resistance lets through: all of it
/// inside `[0, max]`, `delta * 200 / (200 + overscroll)` outside.
fn elastic_resist(offset: Fixed, delta: Fixed, max: Fixed) -> (r: Fixed)
    ensures
        r.raw == elastic_resist_spec(offset, delta, max),
{
    let new_offset = offset.add(delta);
    if new_offset.raw >= 0 && new_offset.raw <= max.raw {
        return delta;
    }
    let over = if new_offset.raw < 0 {
        new_offset.neg()
    } else {
        new_offset.sub(max)
    };
    let over_int = over.to_int();
    let denom: i32 = DAMPING + over_int;
    if denom == 0 {
        return Fixed::zero();
    }
    delta.mul_int(DAMPING).div_int(denom)
}

/// Spec: the container cannot scroll further in the drag's direction.
pub open spec fn at_boundary_spec(w: &World, e: Entity, delta_x: Fixed, delta_y: Fixed) -> bool {
    if !(w.has(e) && w.data(e).scroll_offset is Some) {
        false
    } else {
        let s = w.data(e).scroll_offset.unwrap();
        let (max_x, max_y) = scroll_bounds(w, e);
        let at_y = (s.y.raw <= 0 && delta_y.raw < 0) || (s.y.raw >= max_y && delta_y.raw > 0);
        let at_x = (s.x.raw <= 0 && delta_x.raw < 0) || (s.x.raw >= max_x && delta_x.raw > 0);
        match axis_of(w, e) {
            ScrollAxis::Vertical => at_y,
            ScrollAxis::Horizontal => at_x,
            ScrollAxis::Both => at_y || at_x,
        }
    }
}

fn is_at_boundary(world: &World, e: Entity, delta_x: Fixed, delta_y: Fixed) -> (r: bool)
    ensures
        r == at_boundary_spec(world, e, delta_x, delta_y),
{
    let s = match world.scroll_offset(e) {
        Some(s) => s,
        None => {
            return false;
        },
    };
    let (max_x, max_y) = bounds_of(world, e);
    let at_y = (s.y.raw <= 0 && delta_y.raw < 0) || (s.y.raw >= max_y.raw && delta_y.raw > 0);
    let at_x = (s.x.raw <= 0 && delta_x.raw < 0) || (s.x.raw >= max_x.raw && delta_x.raw > 0);
    match axis(world, e) {
        ScrollAxis::Vertical => at_y,
        ScrollAxis::Horizontal => at_x,
        ScrollAxis::Both => at_y || at_x,
    }
}

/// Spec: a container scrolling along `scroll_dir` serves a drag along
/// `gesture_dir`.
pub open spec fn dir_matches(scroll_dir: ScrollAxis, gesture_dir: ScrollAxis) -> bool {
    scroll_dir == ScrollAxis::Both || scroll_dir == gesture_dir
}

/// Spec: walking up from `e` (at most `fuel` steps), the first matching
/// scroll container that is not at its boundary, else the outermost
/// matching one (`last`, updated along the way).
pub open spec fn find_target_within(
    w: &World,
    e: Entity,
    gesture_dir: ScrollAxis,
    dx: Fixed,
    dy: Fixed,
    last: Option<Entity>,
    fuel: nat,
) -> Option<Entity>
    decreases fuel,
{
    if fuel == 0 {
        last
    } else {
        let is_match = w.has(e) && w.data(e).scroll_offset is Some && dir_matches(axis_of(w, e), gesture_dir);
        if is_match && !at_boundary_spec(w, e, dx, dy) {
            Some(e)
        } else {
            let last2 = if is_match {
                Some(e)
            } else {
                last
            };
            match w.parent_of(e) {
                Some(p) => find_target_within(w, p, gesture_dir, dx, dy, last2, (fuel - 1) as nat),
                None => last2,
            }
        }
    }
}

pub open spec fn find_target_spec(w: &World, start: Entity, gesture_dir: ScrollAxis, dx: Fixed, dy: Fixed) -> Option<Entity> {
    find_target_within(w, start, gesture_dir, dx, dy, None, (w.entities@.len() + 1) as nat)
}

/// The scroll container a drag from `start` goes to: the innermost one
/// along the drag's axis that can still move that way, else the outermost
/// one along that axis (for elastic overscroll).
fn find_scroll_target_for_direction(
    world: &World,
    start: Entity,
    gesture_dir: ScrollAxis,
    delta_x: Fixed,
    delta_y: Fixed,
) -> (r: Option<Entity>)
    ensures
        r == find_target_spec(world, start, gesture_dir, delta_x, delta_y),
{
    let mut fuel: u128 = world.entities.len() as u128 + 1;
    let mut current = start;
    let mut last_matching: Option<Entity> = None;
    while fuel > 0
        invariant
            find_target_spec(world, start, gesture_dir, delta_x, delta_y) == find_target_within(
                world,
                current,
                gesture_dir,
                delta_x,
                delta_y,
                last_matching,
                fuel as nat,
            ),
        decreases fuel,
    {
        if world.scroll_offset(current).is_some() {
            let d = axis(world, current);
            let matches = match d {
                ScrollAxis::Both => true,
                ScrollAxis::Vertical => gesture_dir == ScrollAxis::Vertical,
                ScrollAxis::Horizontal => gesture_dir == ScrollAxis::Horizontal,
            };
            if matches {
                last_matching = Some(current);
                if !is_at_boundary(world, current, delta_x, delta_y) {
                    return Some(current);
                }
            }
        }
        match world.parent(current) {
            Some(p) => {
                current = p;
            },
            None => {
                return last_matching;
            },
        }
        fuel = fuel - 1;
    }
    last_matching
}

/// Spec: a scroll offset after applying a drag step `(dx, dy)` (pointer
/// motion) along the container's axis with elastic resistance.
pub open spec fn dragged_offset(s: ScrollOffset, dir: ScrollAxis, dx: Fixed, dy: Fixed, max_x: i32, max_y: i32) -> ScrollOffset {
    let ndx = Fixed { raw: wrap32(-dx.raw) };
    let ndy = Fixed { raw: wrap32(-dy.raw) };
    let ey = elastic_resist_spec(s.y, ndy, Fixed { raw: max_y });
    let ex = elastic_resist_spec(s.x, ndx, Fixed { raw: max_x });
    match dir {
        ScrollAxis::Vertical => ScrollOffset { y: Fixed { raw: wrap32(s.y.raw + ey) }, ..s },
        ScrollAxis::Horizontal => ScrollOffset { x: Fixed { raw: wrap32(s.x.raw + ex) }, ..s },
        ScrollAxis::Both => ScrollOffset {
            x: Fixed { raw: wrap32(s.x.raw + ex) },
            y: Fixed { raw: wrap32(s.y.raw + ey) },
        },
    }
}

/// Spec: the drag velocity recorded for a step `(dx, dy)`: content moves
/// against the pointer, along the container's axis only.
pub open spec fn drag_velocity(dir: ScrollAxis, dx: Fixed, dy: Fixed) -> (i32, i32) {
    match dir {
        ScrollAxis::Vertical => (0, wrap32(-dy.raw)),
        ScrollAxis::Horizontal => (wrap32(-dx.raw), 0),
        ScrollAxis::Both => (wrap32(-dx.raw), wrap32(-dy.raw)),
    }
}

/// Spec: the inertia spring for one axis after release: from the current
/// offset towards where 20 frames of the release velocity would carry it.
pub open spec fn fling_spring(offset: Fixed, vel: Fixed) -> Spring {
    Spring {
        value: offset,
        target: Fixed { raw: wrap32(offset.raw + mul_raw(vel.raw, 5120i32)) },
        velocity: vel,
        preset: smooth_spec(),
    }
}

/// Spec: the drag direction that the total pointer motion `(tdx, tdy)`
/// (absolute values) reveals.
pub open spec fn gesture_axis(tdx: i32, tdy: i32) -> ScrollAxis {
    if tdy > tdx {
        ScrollAxis::Vertical
    } else {
        ScrollAxis::Horizontal
    }
}

/// Spec: the world after `scroll_system` handles a PointerDown at `(x, y)`.
pub open spec fn scroll_down_spec(w: &World, root: Entity, x: Fixed, y: Fixed) -> Resources {
    let hit = hit_test_spec(w, root, x, y);
    let drag = match w.res.scroll_drag {
        Some(s) => Some(
            ScrollDragState {
                active: true,
                resolved: false,
                hit_entity: match hit {
                    Some(h) => h,
                    None => null_entity(),
                },
                start_x: x,
                start_y: y,
                last_x: x,
                last_y: y,
                vel_x: Fixed { raw: 0 },
                vel_y: Fixed { raw: 0 },
                ..s
            },
        ),
        None => None,
    };
    let spring = match w.res.scroll_spring {
        Some(_) => Some(ScrollSpring { x: None, y: None, target_entity: None }),
        None => None,
    };
    Resources { scroll_drag: drag, scroll_spring: spring, ..w.res }
}

/// Spec: the drag state after `scroll_system` handles a PointerUp, and the
/// inertia springs it starts.
pub open spec fn scroll_up_spec(w: &World) -> Resources {
    match w.res.scroll_drag {
        None => w.res,
        Some(s) => if !s.resolved {
            Resources { scroll_drag: Some(ScrollDragState { active: false, ..s }), ..w.res }
        } else {
            let t = s.target;
            let dir = axis_of(w, t);
            let (ox, oy) = if w.has(t) && w.data(t).scroll_offset is Some {
                (w.data(t).scroll_offset.unwrap().x, w.data(t).scroll_offset.unwrap().y)
            } else {
                (Fixed { raw: 0 }, Fixed { raw: 0 })
            };
            let sx = match dir {
                ScrollAxis::Vertical => None,
                _ => Some(fling_spring(ox, s.vel_x)),
            };
            let sy = match dir {
                ScrollAxis::Horizontal => None,
                _ => Some(fling_spring(oy, s.vel_y)),
            };
            Resources {
                scroll_drag: Some(ScrollDragState { active: false, ..s }),
                scroll_spring: match w.res.scroll_spring {
                    Some(_) => Some(ScrollSpring { x: sx, y: sy, target_entity: Some(t) }),
                    None => None,
                },
                ..w.res
            }
        },
    }
}

/// Spec: the scroll offset a rotary step of `delta` detents leaves on a
/// container scrolling along `axis` (20 px per detent; content moves
/// against the rotation).
pub open spec fn rotary_offset(s: ScrollOffset, axis: ScrollAxis, delta: i16) -> ScrollOffset {
    let step = mul_raw(wrap32(delta as int * 256), 5120i32);
    match axis {
        ScrollAxis::Horizontal => ScrollOffset { x: Fixed { raw: wrap32(s.x.raw - step) }, ..s },
        _ => ScrollOffset { y: Fixed { raw: wrap32(s.y.raw - step) }, ..s },
    }
}

/// Spec: the effect of a pointer move on the scroll system (the world's
/// resources and, for the dragged container, its offset and dirty flag).
pub open spec fn scroll_move_ok(old_w: &World, new_w: &World, x: Fixed, y: Fixed) -> bool {
    match old_w.res.scroll_drag {
        None => *new_w == *old_w,
        Some(s) => if !s.active {
            *new_w == *old_w
        } else {
            let tdx = wrap32(abs_int(wrap32(x.raw - s.start_x.raw) as int));
            let tdy = wrap32(abs_int(wrap32(y.raw - s.start_y.raw) as int));
            if !s.resolved && tdx < DIRECTION_THRESHOLD_RAW && tdy < DIRECTION_THRESHOLD_RAW {
                &&& new_w.entities@ == old_w.entities@
                &&& new_w.res == (Resources {
                    scroll_drag: Some(ScrollDragState { last_x: x, last_y: y, ..s }),
                    ..old_w.res
                })
            } else {
                let found = if s.resolved {
                    Some(s.target)
                } else {
                    find_target_spec(
                        old_w,
                        s.hit_entity,
                        gesture_axis(tdx, tdy),
                        Fixed { raw: wrap32(-wrap32(x.raw - s.start_x.raw)) },
                        Fixed { raw: wrap32(-wrap32(y.raw - s.start_y.raw)) },
                    )
                };
                match found {
                    None => {
                        &&& new_w.entities@ == old_w.entities@
                        &&& new_w.res == (Resources {
                            scroll_drag: Some(ScrollDragState { resolved: true, active: false, ..s }),
                            ..old_w.res
                        })
                    },
                    Some(t) => {
                        let dx = Fixed { raw: wrap32(x.raw - s.last_x.raw) };
                        let dy = Fixed { raw: wrap32(y.raw - s.last_y.raw) };
                        let dir = axis_of(old_w, t);
                        let (vx, vy) = drag_velocity(dir, dx, dy);
                        let (max_x, max_y) = scroll_bounds(old_w, t);
                        &&& new_w.res == (Resources {
                            scroll_drag: Some(
                                ScrollDragState {
                                    resolved: true,
                                    target: t,
                                    last_resolved_target: if s.resolved {
                                        s.last_resolved_target
                                    } else {
                                        Some(t)
                                    },
                                    vel_x: Fixed { raw: vx },
                                    vel_y: Fixed { raw: vy },
                                    last_x: x,
                                    last_y: y,
                                    ..s
                                },
                            ),
                            ..old_w.res
                        })
                        &&& old_w.has(t) ==> new_w.entities@ == old_w.entities@.update(
                            t.id as int,
                            crate::ecs::EntityData {
                                dirty: true,
                                scroll_offset: match old_w.data(t).scroll_offset {
                                    Some(o) => Some(dragged_offset(o, dir, dx, dy, max_x, max_y)),
                                    None => None,
                                },
                                ..old_w.data(t)
                            },
                        )
                        &&& !old_w.has(t) ==> new_w.entities@ == old_w.entities@
                    },
                }
            }
        },
    }
}

/// Moves `target`'s scroll offset by one drag step along `dir` (with
/// rubber-banding past the bounds) and marks it dirty.
fn apply_drag(world: &mut World, target: Entity, dir: ScrollAxis, dx: Fixed, dy: Fixed, max_x: Fixed, max_y: Fixed)
    ensures
        final(world).res == old(world).res,
        old(world).has(target) ==> final(world).entities@ == old(world).entities@.update(
            target.id as int,
            crate::ecs::EntityData {
                dirty: true,
                scroll_offset: match old(world).data(target).scroll_offset {
                    Some(o) => Some(dragged_offset(o, dir, dx, dy, max_x.raw, max_y.raw)),
                    None => None,
                },
                ..old(world).data(target)
            },
        ),
        !old(world).has(target) ==> final(world).entities@ == old(world).entities@,
{
    if world.contains(target) {
        if let Some(o) = world.entities[target.id as usize].scroll_offset {
            let o2 = match dir {
                ScrollAxis::Vertical => {
                    let ey = elastic_resist(o.y, dy.neg(), max_y);
                    ScrollOffset { y: o.y.add(ey), ..o }
                },
                ScrollAxis::Horizontal => {
                    let ex = elastic_resist(o.x, dx.neg(), max_x);
                    ScrollOffset { x: o.x.add(ex), ..o }
                },
                ScrollAxis::Both => {
                    let ex = elastic_resist(o.x, dx.neg(), max_x);
                    let ey = elastic_resist(o.y, dy.neg(), max_y);
                    ScrollOffset { x: o.x.add(ex), y: o.y.add(ey) }
                },
            };
            world.entities[target.id as usize].scroll_offset = Some(o2);
        }
        world.entities[target.id as usize].dirty = true;
    }
    proof {
        if old(world).has(target) {
            assert(world.entities@ =~= old(world).entities@.update(
                target.id as int,
                crate::ecs::EntityData {
                    dirty: true,
                    scroll_offset: match old(world).data(target).scroll_offset {
                        Some(o) => Some(dragged_offset(o, dir, dx, dy, max_x.raw, max_y.raw)),
                        None => None,
                    },
                    ..old(world).data(target)
                },
            ));
        }
    }
}

fn scroll_move(world: &mut World, x: Fixed, y: Fixed)
    ensures
        scroll_move_ok(old(world), final(world), x, y),
{
    let s = match world.res.scroll_drag {
        Some(s) => s,
        None => {
            return ;
        },
    };
    if !s.active {
        return ;
    }
    let tdx = x.sub(s.start_x).abs();
    let tdy = y.sub(s.start_y).abs();
    let mut s2 = s;
    if !s.resolved {
        if tdx.raw < DIRECTION_THRESHOLD_RAW && tdy.raw < DIRECTION_THRESHOLD_RAW {
            s2.last_x = x;
            s2.last_y = y;
            world.res.scroll_drag = Some(s2);
            return ;
        }
        let gesture_dir = if tdy.raw > tdx.raw {
            ScrollAxis::Vertical
        } else {
            ScrollAxis::Horizontal
        };
        let scroll_dx = x.sub(s.start_x).neg();
        let scroll_dy = y.sub(s.start_y).neg();
        let found = find_scroll_target_for_direction(
            world,
            s.hit_entity,
            gesture_dir,
            scroll_dx,
            scroll_dy,
        );
        s2.resolved = true;
        match found {
            Some(t) => {
                s2.target = t;
                s2.last_resolved_target = Some(t);
            },
            None => {
                s2.active = false;
                world.res.scroll_drag = Some(s2);
                return ;
            },
        }
    }
    let target = s2.target;
    let dx = x.sub(s.last_x);
    let dy = y.sub(s.last_y);
    let dir = axis(world, target);
    let (max_x, max_y) = bounds_of(world, target);
    apply_drag(world, target, dir, dx, dy, max_x, max_y);
    match dir {
        ScrollAxis::Vertical => {
            s2.vel_x = Fixed::zero();
            s2.vel_y = dy.neg();
        },
        ScrollAxis::Horizontal => {
            s2.vel_x = dx.neg();
            s2.vel_y = Fixed::zero();
        },
        ScrollAxis::Both => {
            s2.vel_x = dx.neg();
            s2.vel_y = dy.neg();
        },
    }
    s2.last_x = x;
    s2.last_y = y;
    world.res.scroll_drag = Some(s2);
}

/// Spec: what `scroll_system` does for one raw event.
pub open spec fn scroll_system_ok(old_w: &World, new_w: &World, root: Entity, event: InputEvent) -> bool {
    match event {
        InputEvent::PointerDown { x, y, .. } => {
            &&& new_w.entities@ == old_w.entities@
            &&& new_w.res == scroll_down_spec(old_w, root, x, y)
        },
        InputEvent::PointerMove { x, y, .. } => scroll_move_ok(old_w, new_w, x, y),
        InputEvent::PointerUp { .. } => {
            &&& new_w.entities@ == old_w.entities@
            &&& new_w.res == scroll_up_spec(old_w)
        },
        InputEvent::Rotary { delta, .. } => {
            let target = match old_w.res.scroll_drag {
                Some(s) => s.last_resolved_target,
                None => None,
            };
            match target {
                Some(t) => {
                    &&& new_w.res == old_w.res
                    &&& old_w.has(t) ==> new_w.entities@ == old_w.entities@.update(
                        t.id as int,
                        crate::ecs::EntityData {
                            dirty: true,
                            scroll_offset: match old_w.data(t).scroll_offset {
                                Some(o) => Some(rotary_offset(o, axis_of(old_w, t), delta)),
                                None => None,
                            },
                            ..old_w.data(t)
                        },
                    )
                    &&& !old_w.has(t) ==> new_w.entities@ == old_w.entities@
                },
                None => *new_w == *old_w,
            }
        },
        _ => *new_w == *old_w,
    }
}

/// Scroll drag handling for one raw event: a press arms a drag, the first
/// moves past 5 px lock its direction and pick the container, later moves
/// scroll it (with elastic resistance past the ends), release starts
/// inertia, and rotary detents scroll the last dragged container.
pub fn scroll_system(world: &mut World, root: Entity, event: &InputEvent, screen_w: u16, screen_h: u16)
    ensures
        scroll_system_ok(old(world), final(world), root, *event),
{
    match event {
        InputEvent::PointerDown { x, y, .. } => {
            let hit = hit_test(world, root, *x, *y, screen_w, screen_h);
            if let Some(s) = world.res.scroll_drag {
                let null = Entity { id: 0, generation: 0 };
                world.res.scroll_drag = Some(
                    ScrollDragState {
                        active: true,
                        resolved: false,
                        hit_entity: match hit {
                            Some(h) => h,
                            None => null,
                        },
                        start_x: *x,
                        start_y: *y,
                        last_x: *x,
                        last_y: *y,
                        vel_x: Fixed::zero(),
                        vel_y: Fixed::zero(),
                        ..s
                    },
                );
            }
            if world.res.scroll_spring.is_some() {
                world.res.scroll_spring = Some(ScrollSpring { x: None, y: None, target_entity: None });
            }
        },
        InputEvent::PointerMove { x, y, .. } => {
            scroll_move(world, *x, *y);
        },
        InputEvent::PointerUp { .. } => {
            let s = match world.res.scroll_drag {
                Some(s) => s,
                None => {
                    return ;
                },
            };
            if !s.resolved {
                world.res.scroll_drag = Some(ScrollDragState { active: false, ..s });
                return ;
            }
            let t = s.target;
            let dir = axis(world, t);
            let (ox, oy) = match world.scroll_offset(t) {
                Some(o) => (o.x, o.y),
                None => (Fixed::zero(), Fixed::zero()),
            };
            let twenty = Fixed::from_int(20);
            let spring_x = match dir {
                ScrollAxis::Vertical => None,
                _ => Some(Spring::preset(ox, ox.add(s.vel_x.mul(twenty)), smooth()).with_velocity(s.vel_x)),
            };
            let spring_y = match dir {
                ScrollAxis::Horizontal => None,
                _ => Some(Spring::preset(oy, oy.add(s.vel_y.mul(twenty)), smooth()).with_velocity(s.vel_y)),
            };
            if world.res.scroll_spring.is_some() {
                world.res.scroll_spring = Some(ScrollSpring { x: spring_x, y: spring_y, target_entity: Some(t) });
            }
            world.res.scroll_drag = Some(ScrollDragState { active: false, ..s });
        },
        InputEvent::Rotary { delta, .. } => {
            let target = match world.res.scroll_drag {
                Some(s) => s.last_resolved_target,
                None => None,
            };
            if let Some(t) = target {
                let step = Fixed::from_int(*delta as i32).mul(Fixed::from_int(20));
                let a = axis(world, t);
                if world.contains(t) {
                    if let Some(o) = world.entities[t.id as usize].scroll_offset {
                        let o2 = match a {
                            ScrollAxis::Horizontal => ScrollOffset { x: o.x.sub(step), ..o },
                            _ => ScrollOffset { y: o.y.sub(step), ..o },
                        };
                        world.entities[t.id as usize].scroll_offset = Some(o2);
                    }
                    world.entities[t.id as usize].dirty = true;
                    proof {
                        assert(world.entities@ =~= old(world).entities@.update(
                            t.id as int,
                            crate::ecs::EntityData {
                                dirty: true,
                                scroll_offset: match old(world).data(t).scroll_offset {
                                    Some(o) => Some(rotary_offset(o, axis_of(old(world), t), *delta)),
                                    None => None,
                                },
                                ..old(world).data(t)
                            },
                        ));
                    }
                }
            }
        },
        _ => {},
    }
}

/// Spec: one inertia step of a spring within `[0, max]` (elastic springs
/// are retargeted at the nearest edge when they leave it).
pub open spec fn inertia_step(s: Spring, dt: u32, max: i32, elastic: bool) -> Spring {
    let t = tick_spec(s, dt);
    if elastic && t.value.raw < 0 {
        Spring { target: Fixed { raw: 0 }, preset: bouncy_spec(), ..t }
    } else if elastic && t.value.raw > max {
        Spring { target: Fixed { raw: max }, preset: bouncy_spec(), ..t }
    } else {
        t
    }
}

fn step_spring(s: &mut Spring, dt: u32, max: Fixed, elastic: bool)
    ensures
        *final(s) == inertia_step(*old(s), dt, max.raw, elastic),
{
    s.tick(dt);
    let pos = s.value();
    if elastic {
        if pos.raw < 0 {
            s.retarget(Fixed::zero(), Some(bouncy()));
        } else if pos.raw > max.raw {
            s.retarget(max, Some(bouncy()));
        }
    }
}

/// Spec: the elasticity setting of a container (on by default).
pub open spec fn elastic_of(w: &World, e: Entity) -> bool {
    if w.has(e) {
        match w.data(e).scroll_config {
            Some(c) => c.elastic,
            None => true,
        }
    } else {
        true
    }
}

/// Spec: the inertia system has work this frame: no drag in progress,
/// a spring running and a container to move.
pub open spec fn inertia_runs(w: &World) -> bool {
    &&& w.res.scroll_drag matches Some(d) && !d.active
    &&& w.res.scroll_spring matches Some(ss) && (ss.x is Some || ss.y is Some) && ss.target_entity is Some
}

/// Inertia: advances the release springs one frame, moves the container,
/// marks it dirty when it moved by a pixel or more, and drops the springs
/// once both are settled.
#[verifier::rlimit(80)]
pub fn scroll_inertia_system(world: &mut World)
    ensures
        !inertia_runs(old(world)) ==> *final(world) == *old(world),
        inertia_runs(old(world)) ==> {
            let ss = old(world).res.scroll_spring.unwrap();
            let t = ss.target_entity.unwrap();
            let dt = match old(world).res.delta_time_ms {
                Some(d) => d,
                None => 16,
            };
            let (max_x, max_y) = scroll_bounds(old(world), t);
            let el = elastic_of(old(world), t);
            let nx = match ss.x {
                Some(s) => Some(inertia_step(s, dt, max_x, el)),
                None => None,
            };
            let ny = match ss.y {
                Some(s) => Some(inertia_step(s, dt, max_y, el)),
                None => None,
            };
            let done = (nx matches Some(s) ==> settled_spec(s)) && (ny matches Some(s) ==> settled_spec(s));
            &&& final(world).entities@.len() == old(world).entities@.len()
            &&& final(world).res == (Resources {
                scroll_spring: Some(
                    if done {
                        ScrollSpring { x: None, y: None, target_entity: None }
                    } else {
                        ScrollSpring { x: nx, y: ny, target_entity: Some(t) }
                    },
                ),
                ..old(world).res
            })
            &&& forall|i: int|
                0 <= i < old(world).entities@.len() && i != t.id ==> final(world).entities@[i]
                    == old(world).entities@[i]
            &&& (old(world).has(t) && old(world).data(t).scroll_offset is Some) ==> {
                let o = old(world).data(t).scroll_offset.unwrap();
                let moved_x = match nx {
                    Some(s) => wrap32(abs_int(wrap32(s.value.raw - o.x.raw) as int)) >= 256,
                    None => false,
                };
                let moved_y = match ny {
                    Some(s) => wrap32(abs_int(wrap32(s.value.raw - o.y.raw) as int)) >= 256,
                    None => false,
                };
                final(world).entities@[t.id as int] == (crate::ecs::EntityData {
                    scroll_offset: Some(
                        ScrollOffset {
                            x: match nx {
                                Some(s) => s.value,
                                None => o.x,
                            },
                            y: match ny {
                                Some(s) => s.value,
                                None => o.y,
                            },
                        },
                    ),
                    dirty: old(world).data(t).dirty || moved_x || moved_y,
                    ..old(world).data(t)
                })
            }
            &&& !(old(world).has(t) && old(world).data(t).scroll_offset is Some) ==> final(world).entities@
                == old(world).entities@
        },
{
    let active = match world.res.scroll_drag {
        Some(s) => s.active,
        None => {
            return ;
        },
    };
    if active {
        return ;
    }
    let ss = match world.res.scroll_spring {
        Some(ss) => ss,
        None => {
            return ;
        },
    };
    if ss.x.is_none() && ss.y.is_none() {
        return ;
    }
    let target = match ss.target_entity {
        Some(t) => t,
        None => {
            return ;
        },
    };
    let dt: u32 = match world.res.delta_time_ms {
        Some(d) => d,
        None => 16,
    };
    let (max_x, max_y) = bounds_of(world, target);
    let elastic = match world.scroll_config(target) {
        Some(c) => c.elastic,
        None => true,
    };
    let mut sx = ss.x;
    let mut sy = ss.y;
    let mut done = true;
    if let Some(mut s) = sx {
        step_spring(&mut s, dt, max_x, elastic);
        if !s.is_settled() {
            done = false;
        }
        sx = Some(s);
    }
    if let Some(mut s) = sy {
        step_spring(&mut s, dt, max_y, elastic);
        if !s.is_settled() {
            done = false;
        }
        sy = Some(s);
    }
    if world.contains(target) {
        if let Some(o) = world.entities[target.id as usize].scroll_offset {
            let mut changed = false;
            let mut o2 = o;
            if let Some(s) = sx {
                if s.value.sub(o.x).abs().raw >= 256 {
                    changed = true;
                }
                o2.x = s.value;
            }
            if let Some(s) = sy {
                if s.value.sub(o.y).abs().raw >= 256 {
                    changed = true;
                }
                o2.y = s.value;
            }
            world.entities[target.id as usize].scroll_offset = Some(o2);
            if changed {
                world.entities[target.id as usize].dirty = true;
            }
        }
    }
    if done {
        world.res.scroll_spring = Some(ScrollSpring { x: None, y: None, target_entity: None });
    } else {
        world.res.scroll_spring = Some(ScrollSpring { x: sx, y: sy, target_entity: Some(target) });
    }
}

} // verus!
