//! "echo walker": the echo-path puzzle's screen: the header, the board
//! surface, the beat controls and status lines, and the modal panel laid
//! over them.
//!
//! The tree is built as a table, row by row. Its nodes carry their
//! boxes, background colours, texts and button components; the game
//! state they display is filled in by the game.
use vstd::prelude::*;

use crate::ecs::{Entity, World};
use crate::gallery::tree::{build_tree, flow_box, flow_box_spec, rows_ordered, tree_built, TreeRow};
use crate::gallery::{placed, placed_spec, App};

verus! {

/// Number of nodes on the screen.
pub const ECHO_NODES: usize = 32;

/// Spec: node `k` of the screen (nodes come parents first).
pub open spec fn echo_walker_row(k: u8) -> TreeRow {
    match k {
        0 => TreeRow { parent: None, labelled: false, button: false, bg: None, style: flow_box_spec(480i32, 320i32) },
        1 => TreeRow { parent: Some(0u16), labelled: true, button: false, bg: None, style: placed_spec(14i32, 7i32, 120i32, 22i32) },
        2 => TreeRow { parent: Some(0u16), labelled: true, button: false, bg: None, style: placed_spec(123i32, 10i32, 190i32, 16i32) },
        3 => TreeRow { parent: Some(0u16), labelled: true, button: false, bg: None, style: placed_spec(14i32, 39i32, 110i32, 16i32) },
        4 => TreeRow { parent: Some(0u16), labelled: true, button: false, bg: None, style: placed_spec(146i32, 39i32, 90i32, 16i32) },
        5 => TreeRow { parent: Some(0u16), labelled: true, button: false, bg: None, style: placed_spec(220i32, 39i32, 70i32, 16i32) },
        6 => TreeRow { parent: Some(0u16), labelled: true, button: false, bg: None, style: placed_spec(305i32, 66i32, 150i32, 12i32) },
        7 => TreeRow { parent: Some(0u16), labelled: true, button: false, bg: None, style: placed_spec(305i32, 82i32, 48i32, 38i32) },
        8 => TreeRow { parent: Some(0u16), labelled: true, button: false, bg: None, style: placed_spec(351i32, 99i32, 90i32, 14i32) },
        9 => TreeRow { parent: Some(0u16), labelled: true, button: false, bg: None, style: placed_spec(305i32, 119i32, 161i32, 14i32) },
        10 => TreeRow { parent: Some(0u16), labelled: true, button: true, bg: Some(0x272F46u32), style: placed_spec(354i32, 133i32, 29i32, 29i32) },
        11 => TreeRow { parent: Some(0u16), labelled: true, button: true, bg: Some(0x272F46u32), style: placed_spec(321i32, 166i32, 29i32, 29i32) },
        12 => TreeRow { parent: Some(0u16), labelled: true, button: true, bg: Some(0x272F46u32), style: placed_spec(354i32, 166i32, 29i32, 29i32) },
        13 => TreeRow { parent: Some(0u16), labelled: true, button: true, bg: Some(0x272F46u32), style: placed_spec(387i32, 166i32, 29i32, 29i32) },
        14 => TreeRow { parent: Some(0u16), labelled: true, button: true, bg: Some(0x272F46u32), style: placed_spec(354i32, 199i32, 29i32, 29i32) },
        15 => TreeRow { parent: Some(0u16), labelled: true, button: true, bg: Some(0xDCBE84u32), style: placed_spec(305i32, 236i32, 161i32, 27i32) },
        16 => TreeRow { parent: Some(0u16), labelled: true, button: true, bg: Some(0x272F46u32), style: placed_spec(305i32, 270i32, 48i32, 23i32) },
        17 => TreeRow { parent: Some(0u16), labelled: true, button: true, bg: Some(0x272F46u32), style: placed_spec(360i32, 270i32, 49i32, 23i32) },
        18 => TreeRow { parent: Some(0u16), labelled: true, button: true, bg: Some(0x272F46u32), style: placed_spec(416i32, 270i32, 50i32, 23i32) },
        19 => TreeRow { parent: Some(0u16), labelled: true, button: false, bg: None, style: placed_spec(14i32, 281i32, 90i32, 12i32) },
        20 => TreeRow { parent: Some(0u16), labelled: true, button: false, bg: None, style: placed_spec(165i32, 281i32, 123i32, 12i32) },
        21 => TreeRow { parent: Some(0u16), labelled: true, button: false, bg: None, style: placed_spec(14i32, 301i32, 452i32, 14i32) },
        22 => TreeRow { parent: Some(0u16), labelled: false, button: false, bg: None, style: placed_spec(0i32, 0i32, 480i32, 320i32) },
        23 => TreeRow { parent: Some(22u16), labelled: true, button: false, bg: None, style: placed_spec(35i32, 54i32, 310i32, 22i32) },
        24 => TreeRow { parent: Some(22u16), labelled: true, button: false, bg: None, style: placed_spec(35i32, 78i32, 390i32, 14i32) },
        25 => TreeRow { parent: Some(22u16), labelled: true, button: true, bg: Some(0x232842u32), style: placed_spec(421i32, 50i32, 26i32, 24i32) },
        26 => TreeRow { parent: Some(22u16), labelled: true, button: true, bg: Some(0x232842u32), style: placed_spec(35i32, 111i32, 412i32, 32i32) },
        27 => TreeRow { parent: Some(22u16), labelled: true, button: true, bg: Some(0x232842u32), style: placed_spec(35i32, 150i32, 412i32, 32i32) },
        28 => TreeRow { parent: Some(22u16), labelled: true, button: true, bg: Some(0x232842u32), style: placed_spec(35i32, 189i32, 412i32, 32i32) },
        29 => TreeRow { parent: Some(22u16), labelled: true, button: false, bg: None, style: placed_spec(35i32, 126i32, 380i32, 30i32) },
        30 => TreeRow { parent: Some(22u16), labelled: true, button: true, bg: Some(0xDCBE84u32), style: placed_spec(35i32, 236i32, 255i32, 36i32) },
        _ => TreeRow { parent: Some(22u16), labelled: true, button: true, bg: Some(0x232842u32), style: placed_spec(303i32, 236i32, 144i32, 36i32) },
    }
}

/// Spec: the text node `k` shows (`""` for the nodes that show none).
pub open spec fn echo_walker_text(k: u8) -> &'static str {
    match k {
        0 => "",
        1 => "ECHO WALKER",
        2 => "ECHO WALKER / 002718",
        3 => "ARCHIVE 01 / 12",
        4 => "MEMORY 0/2",
        5 => "ECHOES 0/3",
        6 => "THE PRESENT",
        7 => "00",
        8 => "/ 48 BEATS",
        9 => "PAST MOVES ON EVERY BEAT",
        10 => "↑",
        11 => "←",
        12 => "·",
        13 => "→",
        14 => "↓",
        15 => "RECORD ECHO",
        16 => "UNDO",
        17 => "RETRY",
        18 => "TAPES",
        19 => "CURRENT ROUTE",
        20 => "0 STEPS / 0 ECHOES",
        21 => "Reach a plate, rewind, and let the past replay the route.",
        22 => "",
        23 => "ECHO TAPES",
        24 => "Inspect each fixed route.",
        25 => "×",
        26 => "ECHO 1",
        27 => "ECHO 2",
        28 => "ECHO 3",
        29 => "ROOM 0 STEPS · 0 REWINDS",
        30 => "NEXT ROOM",
        _ => "CLEAR ROOM",
    }
}

/// Spec: the screen's nodes, parents first.
pub open spec fn echo_walker_rows() -> Seq<TreeRow> {
    Seq::new(ECHO_NODES as nat, |k: int| echo_walker_row(k as u8))
}

/// Spec: the texts the nodes show.
pub open spec fn echo_walker_texts() -> Seq<&'static str> {
    Seq::new(ECHO_NODES as nat, |k: int| echo_walker_text(k as u8))
}

#[verifier::rlimit(100)]
fn echo_walker_row_exec(k: u8) -> (r: TreeRow)
    ensures
        r == echo_walker_row(k),
{
    match k {
        0 => TreeRow { parent: None, labelled: false, button: false, bg: None, style: flow_box(480, 320) },
        1 => TreeRow { parent: Some(0u16), labelled: true, button: false, bg: None, style: placed(14, 7, 120, 22) },
        2 => TreeRow { parent: Some(0u16), labelled: true, button: false, bg: None, style: placed(123, 10, 190, 16) },
        3 => TreeRow { parent: Some(0u16), labelled: true, button: false, bg: None, style: placed(14, 39, 110, 16) },
        4 => TreeRow { parent: Some(0u16), labelled: true, button: false, bg: None, style: placed(146, 39, 90, 16) },
        5 => TreeRow { parent: Some(0u16), labelled: true, button: false, bg: None, style: placed(220, 39, 70, 16) },
        6 => TreeRow { parent: Some(0u16), labelled: true, button: false, bg: None, style: placed(305, 66, 150, 12) },
        7 => TreeRow { parent: Some(0u16), labelled: true, button: false, bg: None, style: placed(305, 82, 48, 38) },
        8 => TreeRow { parent: Some(0u16), labelled: true, button: false, bg: None, style: placed(351, 99, 90, 14) },
        9 => TreeRow { parent: Some(0u16), labelled: true, button: false, bg: None, style: placed(305, 119, 161, 14) },
        10 => TreeRow { parent: Some(0u16), labelled: true, button: true, bg: Some(0x272F46u32), style: placed(354, 133, 29, 29) },
        11 => TreeRow { parent: Some(0u16), labelled: true, button: true, bg: Some(0x272F46u32), style: placed(321, 166, 29, 29) },
        12 => TreeRow { parent: Some(0u16), labelled: true, button: true, bg: Some(0x272F46u32), style: placed(354, 166, 29, 29) },
        13 => TreeRow { parent: Some(0u16), labelled: true, button: true, bg: Some(0x272F46u32), style: placed(387, 166, 29, 29) },
        14 => TreeRow { parent: Some(0u16), labelled: true, button: true, bg: Some(0x272F46u32), style: placed(354, 199, 29, 29) },
        15 => TreeRow { parent: Some(0u16), labelled: true, button: true, bg: Some(0xDCBE84u32), style: placed(305, 236, 161, 27) },
        16 => TreeRow { parent: Some(0u16), labelled: true, button: true, bg: Some(0x272F46u32), style: placed(305, 270, 48, 23) },
        17 => TreeRow { parent: Some(0u16), labelled: true, button: true, bg: Some(0x272F46u32), style: placed(360, 270, 49, 23) },
        18 => TreeRow { parent: Some(0u16), labelled: true, button: true, bg: Some(0x272F46u32), style: placed(416, 270, 50, 23) },
        19 => TreeRow { parent: Some(0u16), labelled: true, button: false, bg: None, style: placed(14, 281, 90, 12) },
        20 => TreeRow { parent: Some(0u16), labelled: true, button: false, bg: None, style: placed(165, 281, 123, 12) },
        21 => TreeRow { parent: Some(0u16), labelled: true, button: false, bg: None, style: placed(14, 301, 452, 14) },
        22 => TreeRow { parent: Some(0u16), labelled: false, button: false, bg: None, style: placed(0, 0, 480, 320) },
        23 => TreeRow { parent: Some(22u16), labelled: true, button: false, bg: None, style: placed(35, 54, 310, 22) },
        24 => TreeRow { parent: Some(22u16), labelled: true, button: false, bg: None, style: placed(35, 78, 390, 14) },
        25 => TreeRow { parent: Some(22u16), labelled: true, button: true, bg: Some(0x232842u32), style: placed(421, 50, 26, 24) },
        26 => TreeRow { parent: Some(22u16), labelled: true, button: true, bg: Some(0x232842u32), style: placed(35, 111, 412, 32) },
        27 => TreeRow { parent: Some(22u16), labelled: true, button: true, bg: Some(0x232842u32), style: placed(35, 150, 412, 32) },
        28 => TreeRow { parent: Some(22u16), labelled: true, button: true, bg: Some(0x232842u32), style: placed(35, 189, 412, 32) },
        29 => TreeRow { parent: Some(22u16), labelled: true, button: false, bg: None, style: placed(35, 126, 380, 30) },
        30 => TreeRow { parent: Some(22u16), labelled: true, button: true, bg: Some(0xDCBE84u32), style: placed(35, 236, 255, 36) },
        _ => TreeRow { parent: Some(22u16), labelled: true, button: true, bg: Some(0x232842u32), style: placed(303, 236, 144, 36) },
    }
}

#[verifier::rlimit(100)]
fn echo_walker_text_exec(k: u8) -> (t: &'static str)
    ensures
        t == echo_walker_text(k),
{
    match k {
        0 => "",
        1 => "ECHO WALKER",
        2 => "ECHO WALKER / 002718",
        3 => "ARCHIVE 01 / 12",
        4 => "MEMORY 0/2",
        5 => "ECHOES 0/3",
        6 => "THE PRESENT",
        7 => "00",
        8 => "/ 48 BEATS",
        9 => "PAST MOVES ON EVERY BEAT",
        10 => "↑",
        11 => "←",
        12 => "·",
        13 => "→",
        14 => "↓",
        15 => "RECORD ECHO",
        16 => "UNDO",
        17 => "RETRY",
        18 => "TAPES",
        19 => "CURRENT ROUTE",
        20 => "0 STEPS / 0 ECHOES",
        21 => "Reach a plate, rewind, and let the past replay the route.",
        22 => "",
        23 => "ECHO TAPES",
        24 => "Inspect each fixed route.",
        25 => "×",
        26 => "ECHO 1",
        27 => "ECHO 2",
        28 => "ECHO 3",
        29 => "ROOM 0 STEPS · 0 REWINDS",
        30 => "NEXT ROOM",
        _ => "CLEAR ROOM",
    }
}

/// Every node's parent comes before it.
#[verifier::rlimit(100)]
proof fn lemma_echo_walker_ordered()
    ensures
        rows_ordered(echo_walker_rows()),
{
    assert forall|k: int| 0 <= k < echo_walker_rows().len() implies (#[trigger] echo_walker_rows()[k]).parent matches Some(p) ==> (p
        < k) by {
        assert(echo_walker_rows()[k] == echo_walker_row(k as u8));
    }
}

/// The screen's nodes, parents first.
pub fn echo_walker_rows_exec() -> (v: Vec<TreeRow>)
    ensures
        v@ == echo_walker_rows(),
{
    let mut v: Vec<TreeRow> = Vec::new();
    let mut k: usize = 0;
    while k < ECHO_NODES
        invariant
            k <= ECHO_NODES,
            v@ == Seq::new(k as nat, |j: int| echo_walker_row(j as u8)),
        decreases ECHO_NODES - k,
    {
        v.push(echo_walker_row_exec(k as u8));
        k = k + 1;
        assert(v@ =~= Seq::new(k as nat, |j: int| echo_walker_row(j as u8)));
    }
    v
}

/// The texts the nodes show.
pub fn echo_walker_texts_exec() -> (v: Vec<&'static str>)
    ensures
        v@ == echo_walker_texts(),
{
    let mut v: Vec<&'static str> = Vec::new();
    let mut k: usize = 0;
    while k < ECHO_NODES
        invariant
            k <= ECHO_NODES,
            v@ == Seq::new(k as nat, |j: int| echo_walker_text(j as u8)),
        decreases ECHO_NODES - k,
    {
        v.push(echo_walker_text_exec(k as u8));
        k = k + 1;
        assert(v@ =~= Seq::new(k as nat, |j: int| echo_walker_text(j as u8)));
    }
    v
}

/// Spec: the screen as built under `parent`.
pub open spec fn echo_walker_built(w: &World, w2: &World, parent: Entity) -> bool {
    tree_built(w, w2, parent, echo_walker_rows(), echo_walker_texts())
}

pub fn build_widgets(world: &mut World, parent: Entity)
    requires
        old(world).has(parent),
        old(world).entities@.len() + 32 < u32::MAX,
    ensures
        echo_walker_built(old(world), final(world), parent),
{
    let rows = echo_walker_rows_exec();
    let texts = echo_walker_texts_exec();
    proof {
        lemma_echo_walker_ordered();
    }
    build_tree(world, parent, &rows, &texts);
}

pub fn setup_app(app: &mut App, parent: Entity)
    requires
        old(app).world.has(parent),
        old(app).world.entities@.len() + 32 < u32::MAX,
    ensures
        echo_walker_built(&old(app).world, &final(app).world, parent),
{
    build_widgets(&mut app.world, parent);
}

} // verus!
