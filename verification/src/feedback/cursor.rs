//! Cursor feedback overlay: a dot that follows the pointer, or a
//! rectangle that snaps around the widget under it.
use vstd::prelude::*;

use crate::ecs::{Entity, Resources, World};
use crate::event::hit_test::{hit_test, hit_test_spec};
use crate::event::PointerCursor;
use crate::types::{mul_raw, wrap32, Fixed, Rect};
use crate::view::WidgetView;
use crate::widget::Style;

use super::{with_layout, write_overlay_layout, CursorFeedbackMode, CursorVisual, InputFeedback};

verus! {

/// Spec: the dot around the pointer: radius 4 px, 5 px while pressed.
pub open spec fn dot_rect_spec(v: CursorVisual) -> Rect {
    let r = if v.down {
        1280i32
    } else {
        1024i32
    };
    Rect {
        x: Fixed { raw: wrap32(v.x.raw - r) },
        y: Fixed { raw: wrap32(v.y.raw - r) },
        w: Fixed { raw: mul_raw(r as i32, 512i32) },
        h: Fixed { raw: mul_raw(r as i32, 512i32) },
    }
}

fn cursor_dot_rect(visual: &CursorVisual) -> (r: Rect)
    ensures
        r == dot_rect_spec(*visual),
{
    let r = Fixed::from_int(if visual.down { 5 } else { 4 });
    let two = Fixed::from_int(2);
    Rect { x: visual.x.sub(r), y: visual.y.sub(r), w: r.mul(two), h: r.mul(two) }
}

/// Spec: what the overlay should show for pointer `c`: the pointer, the
/// widget under it (hit-tested from the widget root on the display) and
/// that widget's rectangle.
pub open spec fn visual_spec(w: &World, c: PointerCursor) -> CursorVisual {
    let target = match (w.res.widget_root, w.res.display) {
        (Some(root), Some(_)) => hit_test_spec(w, root, c.x, c.y),
        _ => None,
    };
    let target_rect = match target {
        Some(t) => w.rect_of(t),
        None => None,
    };
    CursorVisual { x: c.x, y: c.y, down: c.down, target, target_rect }
}

fn current_visual(world: &World, cursor: PointerCursor) -> (v: CursorVisual)
    ensures
        v == visual_spec(world, cursor),
{
    let target = match (world.res.widget_root, world.res.display) {
        (Some(root), Some(info)) => hit_test(world, root, cursor.x, cursor.y, info.width, info.height),
        _ => None,
    };
    let target_rect = match target {
        Some(t) => world.computed_rect(t),
        None => None,
    };
    CursorVisual { x: cursor.x, y: cursor.y, down: cursor.down, target, target_rect }
}

/// Spec: the overlay rectangle: the dot, or in magnetic mode the target's
/// rectangle padded by 3 px (the dot when there is no target).
pub open spec fn target_rect_spec(v: CursorVisual, mode: CursorFeedbackMode) -> Rect {
    match mode {
        CursorFeedbackMode::Dot => dot_rect_spec(v),
        CursorFeedbackMode::MagneticRect => match v.target_rect {
            Some(r) => {
                let pad = 768i32;
                Rect {
                    x: Fixed { raw: wrap32(r.x.raw - pad) },
                    y: Fixed { raw: wrap32(r.y.raw - pad) },
                    w: Fixed { raw: wrap32(r.w.raw + mul_raw(pad as i32, 512i32)) },
                    h: Fixed { raw: wrap32(r.h.raw + mul_raw(pad as i32, 512i32)) },
                }
            },
            None => dot_rect_spec(v),
        },
    }
}

fn entity_target_rect(visual: &CursorVisual, mode: CursorFeedbackMode) -> (r: Rect)
    ensures
        r == target_rect_spec(*visual, mode),
{
    match mode {
        CursorFeedbackMode::Dot => cursor_dot_rect(visual),
        CursorFeedbackMode::MagneticRect => match visual.target_rect {
            Some(r) => {
                let pad = Fixed::from_int(3);
                let two = Fixed::from_int(2);
                Rect { x: r.x.sub(pad), y: r.y.sub(pad), w: r.w.add(pad.mul(two)), h: r.h.add(pad.mul(two)) }
            },
            None => cursor_dot_rect(visual),
        },
    }
}

/// Spec: an overlay entity as spawned: a widget, flagged as the cursor
/// overlay, ignored by hit testing, absolutely placed at `rect`, child of
/// `root`.
pub open spec fn is_cursor_overlay(d: crate::ecs::EntityData, root: Entity, rect: Rect) -> bool {
    &&& d.widget
    &&& d.overlay_cursor
    &&& d.ignore_hit_test
    &&& d.style == Some(Style::absolute_spec(rect))
    &&& d.parent == Some(root)
}

/// Spawns the cursor overlay under `root`.
fn spawn_overlay_cursor(world: &mut World, root: Entity, initial_rect: Rect) -> (e: Entity)
    requires
        old(world).entities@.len() < u32::MAX,
    ensures
        e == crate::ecs::entity_at(old(world).entities@.len() as int),
        final(world).has(e),
        final(world).res == old(world).res,
        final(world).entities@.len() == old(world).entities@.len() + 1,
        is_cursor_overlay(final(world).data(e), root, initial_rect),
        forall|i: int|
            0 <= i < old(world).entities@.len() && !(old(world).has(root) && i == root.id)
                ==> #[trigger] final(world).entities@[i] == old(world).entities@[i],
        old(world).has(root) ==> final(world).data(root) == (crate::ecs::EntityData {
            children: final(world).data(root).children,
            ..old(world).data(root)
        }) && final(world).data(root).children@ == old(world).data(root).children@.push(e),
{
    let ghost w0 = *world;
    let e = world.spawn_empty();
    let i = e.id as usize;
    world.entities[i].widget = true;
    world.entities[i].overlay_cursor = true;
    world.entities[i].ignore_hit_test = true;
    world.entities[i].style = Some(Style::absolute_at(initial_rect));
    world.entities[i].parent = Some(root);
    let ghost w1 = *world;
    proof {
        assert forall|j: int| 0 <= j < w0.entities@.len() implies #[trigger] w1.entities@[j] == w0.entities@[j] by {
            assert(w1.entities@[j] == w1.entities@.take(w0.entities@.len() as int)[j]);
        }
        assert(w1.has(root) == w0.has(root) || root == e);
    }
    world.push_child(root, e);
    e
}

/// Spec: layout moved last frame (a published region shift) or a scroll
/// container has a pending scroll delta.
pub open spec fn layout_motion_spec(w: &World) -> bool {
    (w.res.last_dirty_shifts matches Some(n) && n > 0) || exists|i: int|
        0 <= i < w.entities@.len() && #[trigger] w.entities@[i].scroll_delta
}

fn world_has_layout_motion(world: &World) -> (r: bool)
    ensures
        r == layout_motion_spec(world),
{
    let shifted = match world.res.last_dirty_shifts {
        Some(n) => n > 0,
        None => false,
    };
    if shifted {
        return true;
    }
    let mut i: usize = 0;
    while i < world.entities.len()
        invariant
            i <= world.entities@.len(),
            forall|j: int| 0 <= j < i ==> !(#[trigger] world.entities@[j].scroll_delta),
        decreases world.entities@.len() - i,
    {
        if world.entities[i].scroll_delta {
            return true;
        }
        i = i + 1;
    }
    false
}

/// Spec: the cursor system has nothing to do this frame.
pub open spec fn cursor_idle(w: &World) -> bool {
    match (w.res.feedback, w.res.pointer_cursor) {
        (Some(fb), Some(c)) => {
            ||| !fb.cursor.enabled
            ||| (fb.cursor.entity is Some && fb.cursor.current.x == c.x && fb.cursor.current.y == c.y
                && fb.cursor.current.down == c.down && !layout_motion_spec(w))
            ||| (fb.cursor.last_event_seq == c.event_seq && fb.cursor.current == visual_spec(w, c))
        },
        _ => true,
    }
}

/// Spec: what `cursor_feedback_system` leaves. When idle, nothing
/// changes; otherwise the visual is recomputed for the pointer and stored
/// with its event number, and the overlay (spawned under the widget root
/// the first time, as the root's last child, with no other entity
/// touched) is moved to the visual's rectangle and marked dirty.
pub open spec fn cursor_system_ok(w: &World, w2: &World) -> bool {
    &&& cursor_idle(w) ==> *w2 == *w
    &&& !cursor_idle(w) ==> {
        let fb = w.res.feedback.unwrap();
        let c = w.res.pointer_cursor.unwrap();
        let v = visual_spec(w, c);
        let rect = target_rect_spec(v, fb.cursor.mode);
        let fb2 = InputFeedback {
            cursor: crate::feedback::CursorFeedback { current: v, last_event_seq: c.event_seq, ..fb.cursor },
            ..fb
        };
        match fb.cursor.entity {
            Some(e) => {
                &&& w2.res == (Resources { feedback: Some(fb2), ..w.res })
                &&& w.has(e) ==> w2.entities@ == w.entities@.update(
                    e.id as int,
                    crate::ecs::EntityData { dirty: true, ..with_layout(w.data(e), rect) },
                )
                &&& !w.has(e) ==> w2.entities@ == w.entities@
            },
            None => match w.res.widget_root {
                None => {
                    &&& w2.entities@ == w.entities@
                    &&& w2.res == (Resources { feedback: Some(fb2), ..w.res })
                },
                Some(root) => w.entities@.len() < u32::MAX ==> {
                    let e = crate::ecs::entity_at(w.entities@.len() as int);
                    &&& w2.has(e)
                    &&& is_cursor_overlay(w2.data(e), root, rect)
                    &&& w2.data(e).dirty
                    &&& w2.entities@.len() == w.entities@.len() + 1
                    &&& forall|i: int|
                        0 <= i < w.entities@.len() && !(w.has(root) && i == root.id)
                            ==> #[trigger] w2.entities@[i] == w.entities@[i]
                    &&& w.has(root) ==> w2.data(root) == (crate::ecs::EntityData {
                        children: w2.data(root).children,
                        ..w.data(root)
                    }) && w2.data(root).children@ == w.data(root).children@.push(e)
                    &&& w2.res == (Resources {
                        feedback: Some(
                            InputFeedback {
                                cursor: crate::feedback::CursorFeedback { entity: Some(e), ..fb2.cursor },
                                ..fb2
                            },
                        ),
                        ..w.res
                    })
                },
            },
        }
    }
}

/// Keeps the cursor overlay on the pointer: recomputes the visual when the
/// pointer changed (or layout moved under it), stores it, moves the
/// overlay (spawning it under the widget root the first time) and marks
/// it dirty.
pub fn cursor_feedback_system(world: &mut World)
    ensures
        cursor_system_ok(old(world), final(world)),
{
    let mut feedback = match world.res.feedback {
        Some(f) => f,
        None => {
            return ;
        },
    };
    if !feedback.cursor.enabled {
        return ;
    }
    let cursor = match world.res.pointer_cursor {
        Some(c) => c,
        None => {
            return ;
        },
    };
    if feedback.cursor.entity.is_some() && feedback.cursor.current.x == cursor.x
        && feedback.cursor.current.y == cursor.y && feedback.cursor.current.down == cursor.down
        && !world_has_layout_motion(world) {
        return ;
    }
    let visual = current_visual(world, cursor);
    if feedback.cursor.last_event_seq == cursor.event_seq && feedback.cursor.current == visual {
        return ;
    }
    feedback.cursor.current = visual;
    feedback.cursor.last_event_seq = cursor.event_seq;
    let rect = entity_target_rect(&visual, feedback.cursor.mode);
    match feedback.cursor.entity {
        Some(e) => {
            write_overlay_layout(world, e, rect);
            world.res.feedback = Some(feedback);
            if world.contains(e) {
                world.entities[e.id as usize].dirty = true;
                proof {
                    assert(world.entities@ =~= old(world).entities@.update(
                        e.id as int,
                        crate::ecs::EntityData { dirty: true, ..with_layout(old(world).data(e), rect) },
                    ));
                }
            }
        },
        None => {
            let root = match world.res.widget_root {
                Some(r) => r,
                None => {
                    world.res.feedback = Some(feedback);
                    return ;
                },
            };
            if world.entities.len() >= u32::MAX as usize {
                return ;
            }
            let e = spawn_overlay_cursor(world, root, rect);
            feedback.cursor.entity = Some(e);
            world.res.feedback = Some(feedback);
            world.entities[e.id as usize].dirty = true;
        },
    }
}

/// The cursor overlay's view (drawn above regular widgets).
pub fn view() -> (v: WidgetView)
    ensures
        v.priority == 90,
        v.filter is None && v.internal is None && v.attach is None,
{
    WidgetView::new("input_feedback_cursor", 90)
}

} // verus!
