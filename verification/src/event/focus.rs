//! Keyboard focus: tap-to-focus and routing of key input to the
//! focused entity.
use vstd::prelude::*;

use crate::components::{run_builtin_key, text_key_ok, BuiltinKey};
use crate::ecs::{Entity, World};

use super::gesture::event::GestureEvent;
use super::input::InputEvent;
use super::{disabled_spec, entity_or_ancestor_disabled, Callbacks};

verus! {

/// Marker: this entity can receive keyboard/char input.
pub struct Focusable;

/// Which entity currently has keyboard focus.
#[derive(Clone, Copy, Debug, PartialEq, Eq, Structural)]
pub struct FocusState {
    pub focused: Option<Entity>,
}

impl FocusState {
    pub fn new() -> (s: FocusState)
        ensures
            s.focused is None,
    {
        FocusState { focused: None }
    }
}

/// Key handler callback: an application callback number or a library one.
#[derive(Clone, Copy, Debug, PartialEq, Eq, Structural)]
pub enum KeyCallback {
    Fn(u32),
    Builtin(BuiltinKey),
}

/// Handler component receiving Key / CharInput events while focused.
#[derive(Clone, Copy, Debug, PartialEq, Eq, Structural)]
pub struct KeyHandler {
    pub on_key: KeyCallback,
}

/// Spec: the first focusable entity on the parent walk from `entity`,
/// within `fuel` steps.
pub open spec fn focusable_within(w: &World, entity: Entity, fuel: nat) -> Option<Entity>
    decreases fuel,
{
    if fuel == 0 {
        None
    } else if w.has(entity) && w.data(entity).focusable {
        Some(entity)
    } else {
        match w.parent_of(entity) {
            Some(p) => focusable_within(w, p, (fuel - 1) as nat),
            None => None,
        }
    }
}

/// Spec: the entity a tap on `entity` focuses: none inside a disabled
/// subtree, otherwise the nearest focusable entity at or above it.
pub open spec fn find_focusable_spec(w: &World, entity: Entity) -> Option<Entity> {
    if disabled_spec(w, entity) {
        None
    } else {
        focusable_within(w, entity, (w.entities@.len() + 1) as nat)
    }
}

/// Nearest focusable entity at or above `entity`, unless it sits in a
/// disabled subtree.
pub fn find_focusable(world: &World, entity: Entity) -> (r: Option<Entity>)
    ensures
        r == find_focusable_spec(world, entity),
{
    if entity_or_ancestor_disabled(world, entity) {
        return None;
    }
    let mut fuel: u128 = world.entities.len() as u128 + 1;
    let mut cur = entity;
    while fuel > 0
        invariant
            !disabled_spec(world, entity),
            focusable_within(world, entity, (world.entities@.len() + 1) as nat) == focusable_within(
                world,
                cur,
                fuel as nat,
            ),
        decreases fuel,
    {
        if world.is_focusable(cur) {
            return Some(cur);
        }
        match world.parent(cur) {
            Some(p) => {
                cur = p;
            },
            None => {
                return None;
            },
        }
        fuel = fuel - 1;
    }
    None
}

/// On a Tap, focuses the nearest focusable entity at or above the target
/// (or clears focus when there is none). Only acts when the world has a
/// [`FocusState`].
pub fn focus_on_tap(world: &mut World, event: &GestureEvent)
    ensures
        final(world).entities@ == old(world).entities@,
        match *event {
            GestureEvent::Tap { target, .. } => match old(world).res.focus {
                Some(fs) => final(world).res == (crate::ecs::Resources {
                    focus: Some(FocusState { focused: find_focusable_spec(old(world), target) }),
                    ..old(world).res
                }),
                None => final(world).res == old(world).res,
            },
            _ => final(world).res == old(world).res,
        },
{
    let target = match event {
        GestureEvent::Tap { target, .. } => *target,
        _ => {
            return ;
        },
    };
    let focused = find_focusable(world, target);
    if world.res.focus.is_some() {
        world.res.focus = Some(FocusState { focused });
    }
}

/// Spec: the entity a key event is routed to, if any: the focused entity,
/// for Key / CharInput events, unless it is in a disabled subtree and
/// provided it has a key handler.
pub open spec fn key_route(w: &World, event: InputEvent) -> Option<Entity> {
    match w.res.focus {
        Some(fs) => match fs.focused {
            Some(t) => if (event is Key || event is CharInput) && !disabled_spec(w, t) && w.has(t)
                && w.data(t).key_handler is Some {
                Some(t)
            } else {
                None
            },
            None => None,
        },
        None => None,
    }
}

/// Spec: what routing `event` to the focused entity's key handler does,
/// taking the table from `c` to `c2` and the world from `w` to `w2`:
/// when no handler is routed to, nothing changes; otherwise the handler
/// runs once, an application handler as the table's
/// [`Callbacks::key_outcome`] says for its number, the text input's as
/// [`text_key_ok`] says (with the table untouched).
pub open spec fn key_dispatch_ok<C: Callbacks>(c: C, w: World, event: InputEvent, c2: C, w2: World) -> bool {
    match key_route(&w, event) {
        None => w2 == w && c2 == c,
        Some(t) => match w.data(t).key_handler {
            Some(h) => match h.on_key {
                KeyCallback::Fn(id) => exists|r: bool| #[trigger] c.key_outcome(id, w, t, event, c2, w2, r),
                KeyCallback::Builtin(BuiltinKey::TextInput) => c2 == c && exists|r: bool|
                    text_key_ok(&w, &w2, t, event, r),
            },
            None => true,
        },
    }
}

/// Routes Key / CharInput events to the focused entity's key handler,
/// which runs once, as [`key_dispatch_ok`] says.
pub fn key_dispatch<C: Callbacks>(world: &mut World, callbacks: &mut C, event: &InputEvent)
    ensures
        key_dispatch_ok(*old(callbacks), *old(world), *event, *final(callbacks), *final(world)),
{
    let target = match world.res.focus {
        Some(fs) => match fs.focused {
            Some(e) => e,
            None => {
                return ;
            },
        },
        None => {
            return ;
        },
    };
    match event {
        InputEvent::Key { .. } | InputEvent::CharInput { .. } => {},
        _ => {
            return ;
        },
    }
    if entity_or_ancestor_disabled(world, target) {
        return ;
    }
    if let Some(h) = world.key_handler(target) {
        match h.on_key {
            KeyCallback::Fn(id) => {
                callbacks.key(world, id, target, event);
            },
            KeyCallback::Builtin(b) => {
                run_builtin_key(b, world, target, event);
            },
        }
    }
}

} // verus!
