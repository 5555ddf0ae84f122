//! "butterfly": a butterfly whose wings beat with the clock; it is drawn
//! afresh every frame.
use vstd::prelude::*;

use crate::ecs::{EntityData, World};

verus! {

/// A butterfly, beating its wings since `start_ms` on the clock.
#[derive(Clone, Copy, Debug, PartialEq, Eq, Structural)]
pub struct Butterfly {
    pub start_ms: u32,
}

/// Spec: `d2` is `d` after a frame: a butterfly is marked for redraw;
/// anything else is unchanged.
pub open spec fn butterfly_redrawn(d: EntityData, d2: EntityData) -> bool {
    if d.butterfly is Some {
        d2 == (EntityData { dirty: true, ..d })
    } else {
        d2 == d
    }
}

/// Marks every butterfly for redraw, so its wings move on.
pub fn butterfly_anim_system(world: &mut World)
    ensures
        final(world).res == old(world).res,
        final(world).entities@.len() == old(world).entities@.len(),
        forall|i: int|
            0 <= i < old(world).entities@.len() ==> butterfly_redrawn(#[trigger] old(world).entities@[i], final(world).entities@[i]),
{
    let ghost w0 = *world;
    let n = world.entities.len();
    let mut i: usize = 0;
    while i < n
        invariant
            i <= n,
            n == world.entities@.len(),
            n == w0.entities@.len(),
            world.res == w0.res,
            forall|j: int| 0 <= j < i ==> butterfly_redrawn(#[trigger] w0.entities@[j], world.entities@[j]),
            forall|j: int| i <= j < n ==> #[trigger] world.entities@[j] == w0.entities@[j],
        decreases n - i,
    {
        if world.entities[i].butterfly.is_some() {
            world.entities[i].dirty = true;
        }
        i += 1;
    }
}

} // verus!
