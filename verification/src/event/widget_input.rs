//! Installs the input behaviour that registered views attach to their
//! widgets (focus and key handling for text inputs).
use vstd::prelude::*;

use crate::components::BuiltinKey;
use crate::ecs::{Entity, EntityData, World};
use crate::view::{ViewAttach, ViewRegistry};

use super::focus::{KeyCallback, KeyHandler};

verus! {

/// Spec: some registered view attaches `a`.
pub open spec fn registry_attaches(reg: Option<ViewRegistry>, a: ViewAttach) -> bool {
    match reg {
        Some(r) => exists|i: int| 0 <= i < r.views@.len() && r.views@[i].attach == Some(a),
        None => false,
    }
}

/// Spec: `e`'s components after the text-input attach step: a text input
/// becomes focusable and gets the text key handler; any other entity is
/// left alone.
pub open spec fn text_input_attached(d: EntityData) -> EntityData {
    if d.widgets.text_input is Some {
        EntityData {
            focusable: true,
            key_handler: Some(KeyHandler { on_key: KeyCallback::Builtin(BuiltinKey::TextInput) }),
            ..d
        }
    } else {
        d
    }
}

/// Spec: the world after running every attach step the registry lists on `e`.
pub open spec fn attached_spec(w: &World, e: Entity) -> Seq<EntityData> {
    if w.has(e) && registry_attaches(w.res.views, ViewAttach::TextInput) {
        w.entities@.update(e.id as int, text_input_attached(w.data(e)))
    } else {
        w.entities@
    }
}

fn run_attach(world: &mut World, entity: Entity, a: ViewAttach)
    ensures
        final(world).res == old(world).res,
        final(world).entities@ == if old(world).has(entity) {
            old(world).entities@.update(entity.id as int, text_input_attached(old(world).data(entity)))
        } else {
            old(world).entities@
        },
{
    match a {
        ViewAttach::TextInput => {
            if world.contains(entity) && world.entities[entity.id as usize].widgets.text_input.is_some() {
                world.set_focusable(entity, true);
                world.set_key_handler(
                    entity,
                    Some(KeyHandler { on_key: KeyCallback::Builtin(BuiltinKey::TextInput) }),
                );
                assert(world.entities@ =~= old(world).entities@.update(
                    entity.id as int,
                    text_input_attached(old(world).data(entity)),
                ));
            } else {
                assert(old(world).has(entity) ==> old(world).entities@.update(
                    entity.id as int,
                    text_input_attached(old(world).data(entity)),
                ) =~= old(world).entities@);
            }
        },
    }
}

/// Runs every registered view's attach step on `entity`.
pub fn attach_handlers_for(world: &mut World, entity: Entity)
    ensures
        final(world).res == old(world).res,
        final(world).entities@ == attached_spec(old(world), entity),
{
    let mut pending: Vec<ViewAttach> = Vec::new();
    match &world.res.views {
        Some(reg) => {
            let mut i: usize = 0;
            while i < reg.views.len()
                invariant
                    i <= reg.views@.len(),
                    forall|k: int| 0 <= k < pending@.len() ==> pending@[k] == ViewAttach::TextInput,
                    (pending@.len() > 0) <==> (exists|j: int|
                        0 <= j < i && reg.views@[j].attach == Some(ViewAttach::TextInput)),
                decreases reg.views@.len() - i,
            {
                match reg.views[i].auto_attach() {
                    Some(a) => {
                        pending.push(a);
                    },
                    None => {},
                }
                i = i + 1;
            }
        },
        None => {},
    }
    let ghost w0 = *old(world);
    let mut k: usize = 0;
    while k < pending.len()
        invariant
            k <= pending@.len(),
            forall|j: int| 0 <= j < pending@.len() ==> pending@[j] == ViewAttach::TextInput,
            world.res == w0.res,
            k == 0 ==> world.entities@ == w0.entities@,
            k > 0 ==> world.entities@ == attached_spec(&w0, entity),
            registry_attaches(w0.res.views, ViewAttach::TextInput) <==> pending@.len() > 0,
        decreases pending@.len() - k,
    {
        run_attach(world, entity, pending[k]);
        proof {
            if w0.has(entity) {
                let d1 = text_input_attached(w0.data(entity));
                assert(text_input_attached(d1) == d1);
            }
            assert(world.entities@ =~= attached_spec(&w0, entity));
        }
        k = k + 1;
    }
}


/// Spec: the child links of every entity (with its generation).
pub open spec fn graph_of(es: Seq<EntityData>) -> Seq<(u32, Seq<Entity>)> {
    es.map_values(|d: EntityData| (d.generation, d.children@))
}

/// Spec: entity index `target` lies in the subtree under `e`, at most
/// `fuel` levels down.
pub open spec fn in_subtree(g: Seq<(u32, Seq<Entity>)>, e: Entity, target: int, fuel: nat) -> bool
    decreases fuel, 0nat,
{
    if fuel == 0 || e.id >= g.len() || g[e.id as int].0 != e.generation {
        false
    } else {
        e.id == target || in_kids(g, g[e.id as int].1, g[e.id as int].1.len(), target, (fuel - 1) as nat)
    }
}

/// Spec: `target` lies in the subtree of one of the first `n` of `kids`.
pub open spec fn in_kids(g: Seq<(u32, Seq<Entity>)>, kids: Seq<Entity>, n: nat, target: int, fuel: nat) -> bool
    decreases fuel, n + 1,
{
    if n == 0 || n > kids.len() {
        false
    } else {
        in_kids(g, kids, (n - 1) as nat, target, fuel) || in_subtree(g, kids[n - 1], target, fuel)
    }
}

/// Spec: the entities after the attach steps ran on every entity of the
/// subtree under `root` (within `fuel` levels).
pub open spec fn subtree_attached(w: &World, root: Entity, fuel: nat) -> Seq<EntityData> {
    if registry_attaches(w.res.views, ViewAttach::TextInput) {
        Seq::new(
            w.entities@.len(),
            |i: int|
                if in_subtree(graph_of(w.entities@), root, i, fuel) {
                    text_input_attached(w.entities@[i])
                } else {
                    w.entities@[i]
                },
        )
    } else {
        w.entities@
    }
}

proof fn lemma_attach_keeps_graph(es: Seq<EntityData>, i: int)
    requires
        0 <= i < es.len(),
    ensures
        graph_of(es.update(i, text_input_attached(es[i]))) == graph_of(es),
{
    assert(graph_of(es.update(i, text_input_attached(es[i]))) =~= graph_of(es));
}

fn attach_subtree(world: &mut World, e: Entity, fuel: u128)
    ensures
        final(world).res == old(world).res,
        final(world).entities@.len() == old(world).entities@.len(),
        graph_of(final(world).entities@) == graph_of(old(world).entities@),
        forall|i: int|
            0 <= i < old(world).entities@.len() ==> #[trigger] final(world).entities@[i] == if registry_attaches(
                old(world).res.views,
                ViewAttach::TextInput,
            ) && in_subtree(graph_of(old(world).entities@), e, i, fuel as nat) {
                text_input_attached(old(world).entities@[i])
            } else {
                old(world).entities@[i]
            },
    decreases fuel,
{
    let ghost w0 = *old(world);
    let ghost g = graph_of(w0.entities@);
    let ghost on = registry_attaches(w0.res.views, ViewAttach::TextInput);
    if fuel == 0 || !world.contains(e) {
        return ;
    }
    attach_handlers_for(world, e);
    proof {
        if on {
            lemma_attach_keeps_graph(w0.entities@, e.id as int);
        }
        assert(graph_of(world.entities@) == g);
    }
    let n = world.entities[e.id as usize].children.len();
    let mut j: usize = 0;
    while j < n
        invariant
            world.res == w0.res,
            world.entities@.len() == w0.entities@.len(),
            graph_of(world.entities@) == g,
            g == graph_of(w0.entities@),
            on == registry_attaches(w0.res.views, ViewAttach::TextInput),
            e.id < w0.entities@.len(),
            w0.entities@[e.id as int].generation == e.generation,
            n == g[e.id as int].1.len(),
            j <= n,
            fuel > 0,
            forall|i: int|
                0 <= i < w0.entities@.len() ==> #[trigger] world.entities@[i] == if on && (i == e.id
                    || in_kids(g, g[e.id as int].1, j as nat, i, (fuel - 1) as nat)) {
                    text_input_attached(w0.entities@[i])
                } else {
                    w0.entities@[i]
                },
        decreases n - j,
    {
        let c = world.entities[e.id as usize].children[j];
        proof {
            assert(g[e.id as int].1 == world.entities@[e.id as int].children@) by {
                assert(graph_of(world.entities@)[e.id as int] == g[e.id as int]);
            }
            assert(c == g[e.id as int].1[j as int]);
        }
        let ghost before = world.entities@;
        attach_subtree(world, c, fuel - 1);
        proof {
            assert forall|i: int| 0 <= i < w0.entities@.len() implies #[trigger] world.entities@[i] == if on && (i == e.id
                || in_kids(g, g[e.id as int].1, (j + 1) as nat, i, (fuel - 1) as nat)) {
                text_input_attached(w0.entities@[i])
            } else {
                w0.entities@[i]
            } by {
                let d = w0.entities@[i];
                assert(text_input_attached(text_input_attached(d)) == text_input_attached(d));
            }
        }
        j = j + 1;
    }
    proof {
        assert(g.len() == w0.entities@.len());
        assert(g[e.id as int].0 == e.generation);
    }
}

/// Runs the registered views' attach steps on every widget of the tree
/// under `root` (installing focus and key handling on text inputs). Call
/// once after building the tree.
pub fn attach_widget_input_handlers(world: &mut World, root: Entity)
    ensures
        final(world).res == old(world).res,
        final(world).entities@ == subtree_attached(old(world), root, (old(world).entities@.len() + 1) as nat),
{
    let fuel: u128 = world.entities.len() as u128 + 1;
    attach_subtree(world, root, fuel);
    assert(final(world).entities@ =~= subtree_attached(old(world), root, (old(world).entities@.len() + 1) as nat));
}

} // verus!
