# mirui — verified input pipeline

The input side of a small embedded UI toolkit, written in Verus: every
function in `src/` carries a contract and is proved against it.

- `types`, `widget`, `ecs`, `view`, `components`, `anim`: Q24.8
  fixed-point numbers, geometry, the entity store, the widget view
  registry and the built-in widgets' tap handlers.
- `event`: raw input events, the multi-touch gesture recogniser, hit
  testing, bubbling dispatch, focus and key routing, scroll containers
  (drag, inertia, elastic edges), multi-tap tracking and the simulated
  input scripts and timelines.
- `feedback`: the cursor and rotary-encoder feedback overlays.
- `gallery`: demo widget trees built on the pipeline, and the per-frame
  motion of the animated demos.
- `laws`: properties that span several calls or states, stated as proof
  functions.

The tests under `tests/` run the library on concrete scenes.
