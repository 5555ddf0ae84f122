//! Hit testing: which widget is under a point.
//!
//! The widget tree is walked in pre-order from the root, through
//! children that are widgets, not hidden and laid out (carry a
//! `ComputedRect`). Each visited widget's rectangle is shifted by the
//! scroll offsets of its ancestors and clipped to every enclosing scroll
//! container; the last (deepest, front-most) widget whose visible
//! rectangle holds the point wins.
use vstd::prelude::*;

use crate::ecs::{Entity, World};
use crate::types::{wrap32, Fixed, Rect};

verus! {

/// Visible window of an entity: `[x0, x1) x [y0, y1)` in raw units, or
/// unbounded.
#[derive(Clone, Copy, Debug, PartialEq, Eq, Structural)]
pub struct Clip {
    pub x0: i32,
    pub y0: i32,
    pub x1: i32,
    pub y1: i32,
}

/// One visited widget: its id, the scroll offset accumulated from its
/// ancestors, and the clip window of its enclosing scroll containers.
#[derive(Clone, Copy, Debug, PartialEq, Eq, Structural)]
pub struct Frame {
    pub entity: Entity,
    pub acc_x: Fixed,
    pub acc_y: Fixed,
    pub clip: Option<Clip>,
}

/// Spec: `r` shifted back by the scroll offset `(ax, ay)`.
pub open spec fn shifted(r: Rect, ax: Fixed, ay: Fixed) -> Rect {
    Rect { x: Fixed { raw: wrap32(r.x.raw - ax.raw) }, y: Fixed { raw: wrap32(r.y.raw - ay.raw) }, ..r }
}

pub open spec fn imax(a: i32, b: i32) -> i32 {
    if a >= b {
        a
    } else {
        b
    }
}

pub open spec fn imin(a: i32, b: i32) -> i32 {
    if a <= b {
        a
    } else {
        b
    }
}

/// Spec: the clip window `c` narrowed to rectangle `r`.
pub open spec fn clip_to(c: Option<Clip>, r: Rect) -> Option<Clip> {
    let x1 = wrap32(r.x.raw + r.w.raw);
    let y1 = wrap32(r.y.raw + r.h.raw);
    match c {
        None => Some(Clip { x0: r.x.raw, y0: r.y.raw, x1, y1 }),
        Some(k) => Some(
            Clip { x0: imax(k.x0, r.x.raw), y0: imax(k.y0, r.y.raw), x1: imin(k.x1, x1), y1: imin(k.y1, y1) },
        ),
    }
}

/// Spec: the clip window holds the point.
pub open spec fn clip_holds(c: Option<Clip>, x: Fixed, y: Fixed) -> bool {
    match c {
        None => true,
        Some(k) => k.x0 <= x.raw < k.x1 && k.y0 <= y.raw < k.y1,
    }
}

/// Spec: a child the walk descends into.
pub open spec fn walkable(w: &World, e: Entity) -> bool {
    w.has(e) && w.data(e).widget && !w.data(e).hidden && w.data(e).computed_rect is Some
}

/// Spec: the frame a child of `parent` (visited with frame `pf`) gets.
pub open spec fn child_frame(w: &World, pf: Frame, child: Entity) -> Frame {
    let d = w.data(pf.entity);
    match (d.scroll_offset, d.computed_rect) {
        (Some(s), Some(r)) => Frame {
            entity: child,
            acc_x: Fixed { raw: wrap32(pf.acc_x.raw + s.x.raw) },
            acc_y: Fixed { raw: wrap32(pf.acc_y.raw + s.y.raw) },
            clip: clip_to(pf.clip, shifted(r, pf.acc_x, pf.acc_y)),
        },
        (Some(s), None) => Frame {
            entity: child,
            acc_x: Fixed { raw: wrap32(pf.acc_x.raw + s.x.raw) },
            acc_y: Fixed { raw: wrap32(pf.acc_y.raw + s.y.raw) },
            clip: pf.clip,
        },
        _ => Frame { entity: child, ..pf },
    }
}

/// Spec: pre-order walk from the entity of frame `f`, descending at most
/// `fuel` levels.
pub open spec fn walk_node(w: &World, f: Frame, fuel: nat) -> Seq<Frame>
    decreases fuel, 0nat,
{
    if fuel == 0 {
        seq![f]
    } else {
        seq![f] + walk_kids(w, f, w.children_of(f.entity), w.children_of(f.entity).len(), (fuel - 1) as nat)
    }
}

/// Spec: the walks of the first `n` walkable children in `kids`.
pub open spec fn walk_kids(w: &World, pf: Frame, kids: Seq<Entity>, n: nat, fuel: nat) -> Seq<Frame>
    decreases fuel, n,
{
    if n == 0 || n > kids.len() {
        Seq::empty()
    } else {
        let before = walk_kids(w, pf, kids, (n - 1) as nat, fuel);
        let k = kids[n - 1];
        if walkable(w, k) {
            before + walk_node(w, child_frame(w, pf, k), fuel)
        } else {
            before
        }
    }
}

/// Spec: the frame of a visit holds the point.
pub open spec fn frame_hits(w: &World, f: Frame, x: Fixed, y: Fixed) -> bool {
    &&& w.has(f.entity)
    &&& !w.data(f.entity).ignore_hit_test
    &&& w.data(f.entity).computed_rect matches Some(r) && shifted(r, f.acc_x, f.acc_y).spec_contains(x, y)
    &&& clip_holds(f.clip, x, y)
}

/// Spec: the last of the first `n` frames that holds the point.
pub open spec fn last_hit(w: &World, fs: Seq<Frame>, n: int, x: Fixed, y: Fixed) -> Option<Entity>
    decreases n,
{
    if n <= 0 {
        None
    } else if frame_hits(w, fs[n - 1], x, y) {
        Some(fs[n - 1].entity)
    } else {
        last_hit(w, fs, n - 1, x, y)
    }
}

/// Spec: the pre-order visit sequence from `root`.
pub open spec fn walk_spec(w: &World, root: Entity) -> Seq<Frame> {
    walk_node(
        w,
        Frame { entity: root, acc_x: Fixed { raw: 0 }, acc_y: Fixed { raw: 0 }, clip: None },
        w.entities@.len() as nat,
    )
}

/// Spec: the deepest visible widget under `(x, y)`; `None` when the root
/// has no style or is not laid out.
pub open spec fn hit_test_spec(w: &World, root: Entity, x: Fixed, y: Fixed) -> Option<Entity> {
    if !(w.has(root) && w.data(root).style is Some && w.data(root).computed_rect is Some) {
        None
    } else {
        let fs = walk_spec(w, root);
        last_hit(w, fs, fs.len() as int, x, y)
    }
}

fn clip_narrow(c: Option<Clip>, r: Rect) -> (out: Option<Clip>)
    ensures
        out == clip_to(c, r),
{
    let x1 = r.x.add(r.w).raw;
    let y1 = r.y.add(r.h).raw;
    match c {
        None => Some(Clip { x0: r.x.raw, y0: r.y.raw, x1, y1 }),
        Some(k) => Some(
            Clip {
                x0: if k.x0 >= r.x.raw { k.x0 } else { r.x.raw },
                y0: if k.y0 >= r.y.raw { k.y0 } else { r.y.raw },
                x1: if k.x1 <= x1 { k.x1 } else { x1 },
                y1: if k.y1 <= y1 { k.y1 } else { y1 },
            },
        ),
    }
}

fn make_child_frame(world: &World, pf: Frame, child: Entity) -> (f: Frame)
    requires
        world.has(pf.entity),
    ensures
        f == child_frame(world, pf, child),
{
    let d = &world.entities[pf.entity.id as usize];
    match (d.scroll_offset, d.computed_rect) {
        (Some(s), Some(r)) => {
            let sr = Rect { x: r.x.sub(pf.acc_x), y: r.y.sub(pf.acc_y), ..r };
            Frame {
                entity: child,
                acc_x: pf.acc_x.add(s.x),
                acc_y: pf.acc_y.add(s.y),
                clip: clip_narrow(pf.clip, sr),
            }
        },
        (Some(s), None) => Frame {
            entity: child,
            acc_x: pf.acc_x.add(s.x),
            acc_y: pf.acc_y.add(s.y),
            clip: pf.clip,
        },
        _ => Frame { entity: child, ..pf },
    }
}

fn is_walkable(world: &World, e: Entity) -> (r: bool)
    ensures
        r == walkable(world, e),
{
    match world.get(e) {
        Some(d) => d.widget && !d.hidden && d.computed_rect.is_some(),
        None => false,
    }
}

/// Appends the pre-order walk from frame `f` to `out`.
fn build_rects(world: &World, f: Frame, fuel: u64, out: &mut Vec<Frame>)
    requires
        world.has(f.entity),
    ensures
        final(out)@ == old(out)@ + walk_node(world, f, fuel as nat),
    decreases fuel, 0nat,
{
    out.push(f);
    if fuel == 0 {
        return ;
    }
    let kids = &world.entities[f.entity.id as usize].children;
    let n = kids.len();
    let mut i: usize = 0;
    while i < n
        invariant
            n == kids@.len(),
            fuel > 0,
            kids@ == world.children_of(f.entity),
            world.has(f.entity),
            i <= n,
            out@ == old(out)@ + seq![f] + walk_kids(world, f, kids@, i as nat, (fuel - 1) as nat),
        decreases n - i,
    {
        let k = kids[i];
        if is_walkable(world, k) {
            let cf = make_child_frame(world, f, k);
            build_rects(world, cf, fuel - 1, out);
        }
        proof {
            assert(walk_kids(world, f, kids@, (i + 1) as nat, (fuel - 1) as nat) == if walkable(world, k) {
                walk_kids(world, f, kids@, i as nat, (fuel - 1) as nat) + walk_node(
                    world,
                    child_frame(world, f, k),
                    (fuel - 1) as nat,
                )
            } else {
                walk_kids(world, f, kids@, i as nat, (fuel - 1) as nat)
            });
        }
        i = i + 1;
    }
    assert(out@ =~= old(out)@ + walk_node(world, f, fuel as nat));
}

fn frame_hit(world: &World, f: &Frame, x: Fixed, y: Fixed) -> (r: bool)
    ensures
        r == frame_hits(world, *f, x, y),
{
    let d = match world.get(f.entity) {
        Some(d) => d,
        None => {
            return false;
        },
    };
    if d.ignore_hit_test {
        return false;
    }
    let r = match d.computed_rect {
        Some(r) => r,
        None => {
            return false;
        },
    };
    let s = Rect { x: r.x.sub(f.acc_x), y: r.y.sub(f.acc_y), ..r };
    if !s.contains(x, y) {
        return false;
    }
    match f.clip {
        None => true,
        Some(k) => k.x0 <= x.raw && x.raw < k.x1 && k.y0 <= y.raw && y.raw < k.y1,
    }
}

/// Deepest visible widget entity under `(x, y)`, accounting for scroll
/// offsets and scroll-container clipping; `None` when the root has no
/// style.
///
/// Layout is taken as already computed (each widget's `ComputedRect`);
/// `screen_w` and `screen_h` bound nothing beyond it.
pub fn hit_test(world: &World, root: Entity, x: Fixed, y: Fixed, screen_w: u16, screen_h: u16) -> (r:
    Option<Entity>)
    ensures
        r == hit_test_spec(world, root, x, y),
{
    match world.get(root) {
        Some(d) => {
            if d.style.is_none() || d.computed_rect.is_none() {
                return None;
            }
        },
        None => {
            return None;
        },
    }
    let mut frames: Vec<Frame> = Vec::new();
    let start = Frame { entity: root, acc_x: Fixed::zero(), acc_y: Fixed::zero(), clip: None };
    build_rects(world, start, world.entities.len() as u64, &mut frames);
    assert(frames@ =~= walk_spec(world, root));
    let mut hit: Option<Entity> = None;
    let mut i: usize = 0;
    while i < frames.len()
        invariant
            i <= frames@.len(),
            frames@ == walk_spec(world, root),
            hit == last_hit(world, frames@, i as int, x, y),
        decreases frames@.len() - i,
    {
        if frame_hit(world, &frames[i], x, y) {
            hit = Some(frames[i].entity);
        }
        i = i + 1;
    }
    hit
}


proof fn lemma_walk_entities(w: &World, w2: &World, f: Frame, fuel: nat)
    requires
        w.entities@ == w2.entities@,
    ensures
        walk_node(w, f, fuel) == walk_node(w2, f, fuel),
    decreases fuel, 0nat,
{
    if fuel > 0 {
        let kids = w.children_of(f.entity);
        lemma_walk_kids_entities(w, w2, f, kids, kids.len(), (fuel - 1) as nat);
    }
}

proof fn lemma_walk_kids_entities(w: &World, w2: &World, pf: Frame, kids: Seq<Entity>, n: nat, fuel: nat)
    requires
        w.entities@ == w2.entities@,
    ensures
        walk_kids(w, pf, kids, n, fuel) == walk_kids(w2, pf, kids, n, fuel),
    decreases fuel, n + 1,
{
    if n > 0 && n <= kids.len() {
        lemma_walk_kids_entities(w, w2, pf, kids, (n - 1) as nat, fuel);
        let k = kids[n - 1];
        if walkable(w, k) {
            lemma_walk_entities(w, w2, child_frame(w, pf, k), fuel);
        }
    }
}

proof fn lemma_last_hit_entities(w: &World, w2: &World, fs: Seq<Frame>, n: int, x: Fixed, y: Fixed)
    requires
        w.entities@ == w2.entities@,
    ensures
        last_hit(w, fs, n, x, y) == last_hit(w2, fs, n, x, y),
    decreases n,
{
    if n > 0 {
        lemma_last_hit_entities(w, w2, fs, n - 1, x, y);
    }
}

/// Hit testing reads the entities only, never the resources.
pub proof fn lemma_hit_test_entities(w: &World, w2: &World, root: Entity, e: crate::event::input::InputEvent)
    requires
        w.entities@ == w2.entities@,
    ensures
        forall|x: Fixed, y: Fixed| #[trigger] hit_test_spec(w, root, x, y) == hit_test_spec(w2, root, x, y),
{
    assert forall|x: Fixed, y: Fixed| #[trigger] hit_test_spec(w, root, x, y) == hit_test_spec(w2, root, x, y) by {
        let f = Frame { entity: root, acc_x: Fixed { raw: 0 }, acc_y: Fixed { raw: 0 }, clip: None };
        lemma_walk_entities(w, w2, f, w.entities@.len() as nat);
        let fs = walk_spec(w, root);
        lemma_last_hit_entities(w, w2, fs, fs.len() as int, x, y);
    }
}

} // verus!
