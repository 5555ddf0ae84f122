//! "image flip": an image spinning about its vertical axis while it
//! bounces, squashing as it lands and stretching as it rises.
use vstd::prelude::*;

use crate::components::WidgetComponents;
use crate::ecs::{entity_at, Entity, EntityData, World};
use crate::gallery::demos::PROJECTIVE_SPIN_PHASE_DEG;
use crate::gallery::{add_node, add_text_node, shows, sized, sized_spec, tall, tall_spec, widget_node, App};
use crate::widget::Style;
use crate::types::{div_i32, div_raw, div_trunc, mul_raw, wrap32, Fixed, Transform3D, TransformStep};

verus! {

/// A spinning, bouncing image: its angle, per-frame speed and bounce
/// phase, in degrees.
#[derive(Clone, Copy, Debug, PartialEq, Eq, Structural)]
pub struct Spinner {
    pub angle: Fixed,
    pub speed: Fixed,
    pub bounce_phase: Fixed,
}

/// Spec: a raw angle brought back below a full turn once.
pub open spec fn once_around(a: i32) -> i32 {
    if a >= 360 * 256 {
        wrap32(a - 360 * 256)
    } else {
        a
    }
}

/// Spec: a spinner after one frame: angle and bounce phase both advance
/// by the speed, each wrapped once below a full turn.
pub open spec fn spin_step(s: Spinner) -> Spinner {
    Spinner {
        angle: Fixed { raw: once_around(wrap32(s.angle.raw + s.speed.raw)) },
        speed: s.speed,
        bounce_phase: Fixed { raw: once_around(wrap32(s.bounce_phase.raw + s.speed.raw)) },
    }
}

/// Spec: the bounce height (raw Q24.8, 256 at the top) at phase `p`: with
/// `t` the whole degrees of `p` modulo 180 as a fraction of 180, the
/// parabola `1 - (2t - 1)^2`.
pub open spec fn bounce_height(p: Fixed) -> i32 {
    let deg = p.raw as int / 256;
    let t_num = deg - 180 * div_trunc(deg, 180);
    let t = div_raw(wrap32(t_num * 256), 46080i32);
    let x = wrap32(mul_raw(t, 512i32) - 256);
    wrap32(256 - mul_raw(x, x))
}

/// Spec: the transform of a spinner in state `s`: lifted by 100 pixels
/// times the bounce height, turned by its angle as seen from 400 pixels,
/// and squashed by a quarter of what the height lacks of 1 while
/// stretched by an eighth of the height.
pub open spec fn spin_transform_steps(s: Spinner) -> Seq<TransformStep> {
    let h = bounce_height(s.bounce_phase);
    seq![
        TransformStep::Translate { tx: Fixed { raw: 0 }, ty: Fixed { raw: wrap32(-mul_raw(h, 25600i32)) } },
        TransformStep::RotateYPerspective { angle_deg: s.angle, distance: Fixed { raw: 102400i32 } },
        TransformStep::Scale {
            sx: Fixed { raw: wrap32(256 - div_raw(wrap32(256 - h), 1024i32)) },
            sy: Fixed { raw: wrap32(256 + div_raw(h, 2048i32)) },
        },
    ]
}

/// Spec: `d2` is `d` after one frame: a spinner has stepped, took the
/// transform of its new state and is marked for redraw; anything else is
/// unchanged.
pub open spec fn spun(d: EntityData, d2: EntityData) -> bool {
    match d.spinner {
        Some(s) => {
            let q = spin_step(s);
            &&& d2 == (EntityData { spinner: Some(q), transform3d: d2.transform3d, dirty: true, ..d })
            &&& d2.transform3d matches Some(t) && t.steps@ == spin_transform_steps(q)
        },
        None => d2 == d,
    }
}

/// `a` advanced by `step`, wrapped once below a full turn.
fn turn(a: Fixed, step: Fixed) -> (r: Fixed)
    ensures
        r.raw == once_around(wrap32(a.raw + step.raw)),
{
    let mut r = a.add(step);
    let full = Fixed::from_int(360);
    if r.raw >= full.raw {
        r = r.sub(full);
    }
    r
}

/// The transform of a spinner in state `s`.
fn spin_transform(s: Spinner) -> (t: Transform3D)
    ensures
        t.steps@ == spin_transform_steps(s),
{
    let deg = s.bounce_phase.to_int();
    let t_num = deg - div_i32(deg, 180) * 180;
    let one = Fixed::one();
    let t = Fixed::from_int(t_num).div(Fixed::from_int(180));
    let two_t_minus_1 = t.mul(Fixed::from_int(2)).sub(one);
    let h = one.sub(two_t_minus_1.mul(two_t_minus_1));
    assert(h.raw == bounce_height(s.bounce_phase));
    let bounce_y = Fixed::zero().sub(h.mul(Fixed::from_int(100)));
    let squash = one.sub(one.sub(h).div(Fixed::from_int(4)));
    let stretch = one.add(h.div(Fixed::from_int(8)));
    let rot = Transform3D::rotate_y_perspective(s.angle, Fixed::from_int(400));
    let scale = Transform3D::scale(squash, stretch);
    let translate = Transform3D::translate(Fixed::zero(), bounce_y);
    let t = translate.compose(rot).compose(scale);
    assert(t.steps@ =~= spin_transform_steps(s));
    t
}

/// Advances every spinner by one frame.
pub fn spin_system(world: &mut World)
    ensures
        final(world).res == old(world).res,
        final(world).entities@.len() == old(world).entities@.len(),
        forall|i: int|
            0 <= i < old(world).entities@.len() ==> spun(#[trigger] old(world).entities@[i], final(world).entities@[i]),
{
    let ghost w0 = *world;
    let n = world.entities.len();
    let mut i: usize = 0;
    while i < n
        invariant
            i <= n,
            n == world.entities@.len(),
            n == w0.entities@.len(),
            world.res == w0.res,
            forall|j: int| 0 <= j < i ==> spun(#[trigger] w0.entities@[j], world.entities@[j]),
            forall|j: int| i <= j < n ==> #[trigger] world.entities@[j] == w0.entities@[j],
        decreases n - i,
    {
        if let Some(s) = world.entities[i].spinner {
            let q = Spinner { angle: turn(s.angle, s.speed), speed: s.speed, bounce_phase: turn(s.bounce_phase, s.speed) };
            assert(q == spin_step(s));
            world.entities[i].spinner = Some(q);
            world.entities[i].transform3d = Some(spin_transform(q));
            world.entities[i].dirty = true;
        }
        i += 1;
    }
}

/// Spec: the spinner the demo's image starts with: at the starting
/// phase, 3 degrees per frame, at the bottom of its bounce.
pub open spec fn initial_spinner() -> Spinner {
    Spinner {
        angle: Fixed { raw: wrap32(PROJECTIVE_SPIN_PHASE_DEG * 256) },
        speed: Fixed { raw: 768i32 },
        bounce_phase: Fixed { raw: 0 },
    }
}

/// Spec: the demo as built under `parent` from `n` pre-existing entities:
/// a column (`n`) with the title (`n + 1`) and the stage (`n + 2`), which
/// holds the 120 x 120 image box (`n + 3`) carrying the spinner and an
/// identity transform.
pub open spec fn image_flip_built(w: &World, w2: &World, parent: Entity) -> bool {
    let n = w.entities@.len() as int;
    &&& crate::gallery::parent_kept(w, w2, parent)
    &&& w2.res == w.res
    &&& w2.entities@.len() == n + 4
    &&& w2.data(parent).children@ == w.data(parent).children@.push(entity_at(n))
    &&& widget_node(w2.entities@[n], Some(parent), WidgetComponents::empty(), Some(Style::flow_spec()), None)
    &&& w2.entities@[n].children@ == seq![entity_at(n + 1), entity_at(n + 2)]
    &&& widget_node(
        w2.entities@[n + 1],
        Some(entity_at(n)),
        WidgetComponents { text: w2.entities@[n + 1].widgets.text, ..WidgetComponents::empty() },
        Some(tall_spec(28)),
        None,
    )
    &&& shows(w2.entities@[n + 1], "PROJECTIVE IMAGE")
    &&& widget_node(w2.entities@[n + 2], Some(entity_at(n)), WidgetComponents::empty(), Some(Style::flow_spec()), None)
    &&& w2.entities@[n + 2].children@ == seq![entity_at(n + 3)]
    &&& widget_node(
        EntityData { spinner: None, transform3d: None, ..w2.entities@[n + 3] },
        Some(entity_at(n + 2)),
        WidgetComponents::empty(),
        Some(sized_spec(120, 120)),
        None,
    )
    &&& w2.entities@[n + 3].spinner == Some(initial_spinner())
    &&& w2.entities@[n + 3].transform3d matches Some(t) && t.steps@.len() == 0
    &&& w2.entities@[n + 3].children@.len() == 0
    &&& forall|i: int| 0 <= i < n && i != parent.id ==> #[trigger] w2.entities@[i] == w.entities@[i]
}

/// Builds the demo under `parent`.
pub fn build_widgets(world: &mut World, parent: Entity)
    requires
        old(world).has(parent),
        old(world).entities@.len() + 4 < u32::MAX,
    ensures
        image_flip_built(old(world), final(world), parent),
{
    let ghost w0 = *world;
    let column = add_node(world, parent, WidgetComponents::none(), Some(Style::flow()), None);
    let ghost w1 = *world;
    let title = add_text_node(world, column, WidgetComponents::none(), "PROJECTIVE IMAGE", Some(tall(28)), None);
    let ghost w2 = *world;
    let stage = add_node(world, column, WidgetComponents::none(), Some(Style::flow()), None);
    let ghost w3 = *world;
    let image = add_node(world, stage, WidgetComponents::none(), Some(sized(120, 120)), None);
    let i = image.id as usize;
    world.entities[i].spinner = Some(
        Spinner { angle: Fixed::from_int(PROJECTIVE_SPIN_PHASE_DEG), speed: Fixed::from_int(3), bounce_phase: Fixed::zero() },
    );
    world.entities[i].transform3d = Some(Transform3D::identity());
    proof {
        let n = w0.entities@.len() as int;
        assert(world.entities@[n] == w3.entities@[n]);
        assert(world.entities@[n].children@ =~= seq![entity_at(n + 1), entity_at(n + 2)]);
        assert(w3.entities@[n + 1] == w2.entities@[n + 1]);
        assert(world.entities@[n + 1] == w3.entities@[n + 1]);
        assert(world.entities@[n + 2].children@ =~= seq![entity_at(n + 3)]);
        assert(world.data(parent) == w1.data(parent));
        assert forall|k: int| 0 <= k < n && k != parent.id implies #[trigger] world.entities@[k] == w0.entities@[k] by {
            assert(w1.entities@[k] == w0.entities@[k]);
            assert(w2.entities@[k] == w1.entities@[k]);
            assert(w3.entities@[k] == w2.entities@[k]);
        }
    }
}

/// Builds the demo under `parent`; the spin system advances it each frame.
pub fn setup_app(app: &mut App, parent: Entity)
    requires
        old(app).world.has(parent),
        old(app).world.entities@.len() + 4 < u32::MAX,
    ensures
        image_flip_built(&old(app).world, &final(app).world, parent),
{
    build_widgets(&mut app.world, parent);
}

} // verus!
