//! "folding ark": the hull-rolling puzzle's screen: a 480 x 320 surface
//! with the title bar, the board, the move controls and status lines, and
//! the result, map, rules, briefing and summary panels laid over it.
//!
//! The tree is built as a table, row by row. Its nodes carry their
//! boxes, background colours, texts and button components; the game
//! state they display is filled in by the game.
use vstd::prelude::*;

use crate::ecs::{Entity, World};
use crate::gallery::tree::{build_tree, flow_box, flow_box_spec, rows_ordered, tree_built, TreeRow};
use crate::gallery::{placed, placed_spec, App};

verus! {

/// Number of nodes on the screen.
pub const FOLD_NODES: usize = 85;

/// Spec: node `k` of the screen (nodes come parents first).
pub open spec fn folding_ark_row(k: u8) -> TreeRow {
    match k {
        0 => TreeRow { parent: None, labelled: false, button: false, bg: None, style: flow_box_spec(480i32, 320i32) },
        1 => TreeRow { parent: Some(0u16), labelled: true, button: false, bg: None, style: placed_spec(15i32, 7i32, 210i32, 22i32) },
        2 => TreeRow { parent: Some(0u16), labelled: true, button: false, bg: None, style: placed_spec(228i32, 10i32, 146i32, 16i32) },
        3 => TreeRow { parent: Some(0u16), labelled: true, button: false, bg: None, style: placed_spec(383i32, 9i32, 81i32, 17i32) },
        4 => TreeRow { parent: Some(0u16), labelled: true, button: false, bg: None, style: placed_spec(369i32, 61i32, 84i32, 16i32) },
        5 => TreeRow { parent: Some(0u16), labelled: true, button: false, bg: None, style: placed_spec(330i32, 98i32, 122i32, 50i32) },
        6 => TreeRow { parent: Some(0u16), labelled: true, button: true, bg: Some(0x1F3542u32), style: placed_spec(367i32, 145i32, 40i32, 31i32) },
        7 => TreeRow { parent: Some(0u16), labelled: true, button: true, bg: Some(0x1F3542u32), style: placed_spec(325i32, 180i32, 40i32, 31i32) },
        8 => TreeRow { parent: Some(0u16), labelled: true, button: true, bg: Some(0x1F3542u32), style: placed_spec(367i32, 180i32, 40i32, 31i32) },
        9 => TreeRow { parent: Some(0u16), labelled: true, button: true, bg: Some(0x1F3542u32), style: placed_spec(409i32, 180i32, 40i32, 31i32) },
        10 => TreeRow { parent: Some(0u16), labelled: true, button: true, bg: Some(0x1F3542u32), style: placed_spec(328i32, 217i32, 58i32, 26i32) },
        11 => TreeRow { parent: Some(0u16), labelled: true, button: true, bg: Some(0x1F3542u32), style: placed_spec(392i32, 217i32, 61i32, 26i32) },
        12 => TreeRow { parent: Some(0u16), labelled: true, button: false, bg: None, style: placed_spec(16i32, 260i32, 231i32, 18i32) },
        13 => TreeRow { parent: Some(0u16), labelled: true, button: false, bg: None, style: placed_spec(16i32, 280i32, 231i32, 14i32) },
        14 => TreeRow { parent: Some(0u16), labelled: true, button: true, bg: Some(0x1F3542u32), style: placed_spec(252i32, 270i32, 56i32, 34i32) },
        15 => TreeRow { parent: Some(0u16), labelled: true, button: true, bg: Some(0x1F3542u32), style: placed_spec(314i32, 270i32, 45i32, 34i32) },
        16 => TreeRow { parent: Some(0u16), labelled: true, button: true, bg: Some(0x1F3542u32), style: placed_spec(365i32, 270i32, 45i32, 34i32) },
        17 => TreeRow { parent: Some(0u16), labelled: true, button: true, bg: Some(0x63E7C7u32), style: placed_spec(416i32, 270i32, 50i32, 34i32) },
        18 => TreeRow { parent: Some(0u16), labelled: false, button: false, bg: Some(0x060C15u32), style: placed_spec(0i32, 0i32, 480i32, 320i32) },
        19 => TreeRow { parent: Some(18u16), labelled: false, button: false, bg: Some(0x0F1D2Bu32), style: placed_spec(48i32, 66i32, 384i32, 188i32) },
        20 => TreeRow { parent: Some(19u16), labelled: true, button: false, bg: None, style: flow_box_spec(-1i32, 28i32) },
        21 => TreeRow { parent: Some(19u16), labelled: true, button: false, bg: None, style: flow_box_spec(-1i32, 22i32) },
        22 => TreeRow { parent: Some(19u16), labelled: true, button: false, bg: None, style: flow_box_spec(-1i32, 18i32) },
        23 => TreeRow { parent: Some(19u16), labelled: false, button: false, bg: None, style: flow_box_spec(-1i32, 34i32) },
        24 => TreeRow { parent: Some(23u16), labelled: true, button: true, bg: Some(0x1F3542u32), style: flow_box_spec(-1i32, 33i32) },
        25 => TreeRow { parent: Some(23u16), labelled: true, button: true, bg: Some(0x1F3542u32), style: flow_box_spec(-1i32, 33i32) },
        26 => TreeRow { parent: Some(23u16), labelled: true, button: true, bg: Some(0xBEA9F2u32), style: flow_box_spec(-1i32, 33i32) },
        27 => TreeRow { parent: Some(0u16), labelled: false, button: false, bg: Some(0x060C15u32), style: placed_spec(0i32, 0i32, 480i32, 320i32) },
        28 => TreeRow { parent: Some(27u16), labelled: false, button: false, bg: Some(0x0F1D2Bu32), style: placed_spec(5i32, 36i32, 470i32, 239i32) },
        29 => TreeRow { parent: Some(28u16), labelled: false, button: false, bg: None, style: flow_box_spec(-1i32, 26i32) },
        30 => TreeRow { parent: Some(29u16), labelled: true, button: false, bg: None, style: flow_box_spec(-1i32, 22i32) },
        31 => TreeRow { parent: Some(29u16), labelled: true, button: true, bg: Some(0x1F3542u32), style: flow_box_spec(28i32, 25i32) },
        32 => TreeRow { parent: Some(28u16), labelled: true, button: false, bg: None, style: flow_box_spec(-1i32, 14i32) },
        33 => TreeRow { parent: Some(28u16), labelled: false, button: false, bg: None, style: flow_box_spec(-1i32, 26i32) },
        34 => TreeRow { parent: Some(33u16), labelled: true, button: true, bg: Some(0x1F3542u32), style: flow_box_spec(-1i32, 25i32) },
        35 => TreeRow { parent: Some(33u16), labelled: true, button: true, bg: Some(0x1F3542u32), style: flow_box_spec(-1i32, 25i32) },
        36 => TreeRow { parent: Some(33u16), labelled: true, button: true, bg: Some(0x1F3542u32), style: flow_box_spec(-1i32, 25i32) },
        37 => TreeRow { parent: Some(33u16), labelled: true, button: true, bg: Some(0x1F3542u32), style: flow_box_spec(-1i32, 25i32) },
        38 => TreeRow { parent: Some(33u16), labelled: true, button: true, bg: Some(0x1F3542u32), style: flow_box_spec(-1i32, 25i32) },
        39 => TreeRow { parent: Some(33u16), labelled: true, button: true, bg: Some(0x1F3542u32), style: flow_box_spec(-1i32, 25i32) },
        40 => TreeRow { parent: Some(28u16), labelled: true, button: false, bg: None, style: flow_box_spec(-1i32, 16i32) },
        41 => TreeRow { parent: Some(28u16), labelled: true, button: false, bg: None, style: flow_box_spec(-1i32, 14i32) },
        42 => TreeRow { parent: Some(28u16), labelled: false, button: false, bg: None, style: flow_box_spec(-1i32, 58i32) },
        43 => TreeRow { parent: Some(42u16), labelled: true, button: true, bg: Some(0x1F3542u32), style: flow_box_spec(-1i32, 57i32) },
        44 => TreeRow { parent: Some(42u16), labelled: true, button: true, bg: Some(0x1F3542u32), style: flow_box_spec(-1i32, 57i32) },
        45 => TreeRow { parent: Some(42u16), labelled: true, button: true, bg: Some(0x1F3542u32), style: flow_box_spec(-1i32, 57i32) },
        46 => TreeRow { parent: Some(42u16), labelled: true, button: true, bg: Some(0x1F3542u32), style: flow_box_spec(-1i32, 57i32) },
        47 => TreeRow { parent: Some(42u16), labelled: true, button: true, bg: Some(0x1F3542u32), style: flow_box_spec(-1i32, 57i32) },
        48 => TreeRow { parent: Some(42u16), labelled: true, button: true, bg: Some(0x1F3542u32), style: flow_box_spec(-1i32, 57i32) },
        49 => TreeRow { parent: Some(28u16), labelled: true, button: false, bg: None, style: flow_box_spec(-1i32, 16i32) },
        50 => TreeRow { parent: Some(0u16), labelled: false, button: false, bg: Some(0x060C15u32), style: placed_spec(0i32, 0i32, 480i32, 320i32) },
        51 => TreeRow { parent: Some(50u16), labelled: false, button: false, bg: Some(0x0F1D2Bu32), style: placed_spec(30i32, 54i32, 420i32, 212i32) },
        52 => TreeRow { parent: Some(51u16), labelled: false, button: false, bg: None, style: flow_box_spec(-1i32, 26i32) },
        53 => TreeRow { parent: Some(52u16), labelled: true, button: false, bg: None, style: flow_box_spec(-1i32, 22i32) },
        54 => TreeRow { parent: Some(52u16), labelled: true, button: true, bg: Some(0x1F3542u32), style: flow_box_spec(28i32, 25i32) },
        55 => TreeRow { parent: Some(51u16), labelled: true, button: false, bg: None, style: flow_box_spec(-1i32, 20i32) },
        56 => TreeRow { parent: Some(51u16), labelled: true, button: false, bg: None, style: flow_box_spec(-1i32, 20i32) },
        57 => TreeRow { parent: Some(51u16), labelled: true, button: false, bg: None, style: flow_box_spec(-1i32, 20i32) },
        58 => TreeRow { parent: Some(51u16), labelled: true, button: false, bg: None, style: flow_box_spec(-1i32, 20i32) },
        59 => TreeRow { parent: Some(51u16), labelled: true, button: false, bg: None, style: flow_box_spec(-1i32, 20i32) },
        60 => TreeRow { parent: Some(0u16), labelled: false, button: false, bg: Some(0x060C15u32), style: placed_spec(0i32, 0i32, 480i32, 320i32) },
        61 => TreeRow { parent: Some(60u16), labelled: false, button: false, bg: Some(0x0F1D2Bu32), style: placed_spec(42i32, 58i32, 396i32, 204i32) },
        62 => TreeRow { parent: Some(61u16), labelled: true, button: false, bg: None, style: flow_box_spec(-1i32, 24i32) },
        63 => TreeRow { parent: Some(61u16), labelled: true, button: false, bg: None, style: flow_box_spec(-1i32, 17i32) },
        64 => TreeRow { parent: Some(61u16), labelled: true, button: false, bg: None, style: flow_box_spec(-1i32, 20i32) },
        65 => TreeRow { parent: Some(61u16), labelled: true, button: false, bg: None, style: flow_box_spec(-1i32, 17i32) },
        66 => TreeRow { parent: Some(61u16), labelled: true, button: false, bg: None, style: flow_box_spec(-1i32, 17i32) },
        67 => TreeRow { parent: Some(61u16), labelled: true, button: true, bg: Some(0xBEA9F2u32), style: flow_box_spec(190i32, 31i32) },
        68 => TreeRow { parent: Some(0u16), labelled: false, button: false, bg: Some(0x060C15u32), style: placed_spec(0i32, 0i32, 480i32, 320i32) },
        69 => TreeRow { parent: Some(68u16), labelled: false, button: false, bg: Some(0x0F1D2Bu32), style: placed_spec(36i32, 38i32, 408i32, 244i32) },
        70 => TreeRow { parent: Some(69u16), labelled: true, button: false, bg: None, style: flow_box_spec(-1i32, 25i32) },
        71 => TreeRow { parent: Some(69u16), labelled: true, button: false, bg: None, style: flow_box_spec(-1i32, 16i32) },
        72 => TreeRow { parent: Some(69u16), labelled: true, button: false, bg: None, style: flow_box_spec(-1i32, 17i32) },
        73 => TreeRow { parent: Some(69u16), labelled: true, button: false, bg: None, style: flow_box_spec(-1i32, 17i32) },
        74 => TreeRow { parent: Some(69u16), labelled: true, button: false, bg: None, style: flow_box_spec(-1i32, 17i32) },
        75 => TreeRow { parent: Some(69u16), labelled: true, button: false, bg: None, style: flow_box_spec(-1i32, 17i32) },
        76 => TreeRow { parent: Some(69u16), labelled: true, button: false, bg: None, style: flow_box_spec(-1i32, 17i32) },
        77 => TreeRow { parent: Some(69u16), labelled: true, button: false, bg: None, style: flow_box_spec(-1i32, 17i32) },
        78 => TreeRow { parent: Some(69u16), labelled: false, button: false, bg: None, style: flow_box_spec(-1i32, 27i32) },
        79 => TreeRow { parent: Some(78u16), labelled: true, button: true, bg: Some(0x1F3542u32), style: flow_box_spec(-1i32, 26i32) },
        80 => TreeRow { parent: Some(78u16), labelled: true, button: true, bg: Some(0x1F3542u32), style: flow_box_spec(-1i32, 26i32) },
        81 => TreeRow { parent: Some(78u16), labelled: true, button: true, bg: Some(0x1F3542u32), style: flow_box_spec(-1i32, 26i32) },
        82 => TreeRow { parent: Some(78u16), labelled: true, button: true, bg: Some(0x1F3542u32), style: flow_box_spec(-1i32, 26i32) },
        83 => TreeRow { parent: Some(78u16), labelled: true, button: true, bg: Some(0x1F3542u32), style: flow_box_spec(-1i32, 26i32) },
        _ => TreeRow { parent: Some(78u16), labelled: true, button: true, bg: Some(0x1F3542u32), style: flow_box_spec(-1i32, 26i32) },
    }
}

/// Spec: the text node `k` shows (`""` for the nodes that show none).
pub open spec fn folding_ark_text(k: u8) -> &'static str {
    match k {
        0 => "",
        1 => "FOLDING ARK",
        2 => "",
        3 => "",
        4 => "BRIDGE / SEALS",
        5 => "Roll across the chart.\nFragile tiles reject\nan upright hull.",
        6 => "↑",
        7 => "←",
        8 => "↓",
        9 => "→",
        10 => "UNDO",
        11 => "HINT",
        12 => "",
        13 => "",
        14 => "CHAPTERS",
        15 => "RULES",
        16 => "RESET",
        17 => "",
        18 => "",
        19 => "",
        20 => "",
        21 => "",
        22 => "下一片海域已经开放；当前最优记录会保留。",
        23 => "",
        24 => "重新挑战",
        25 => "查看航图",
        26 => "继续远征 →",
        27 => "",
        28 => "",
        29 => "",
        30 => "EXPEDITION MAP",
        31 => "×",
        32 => "",
        33 => "",
        34 => "01",
        35 => "02",
        36 => "03",
        37 => "04",
        38 => "05",
        39 => "06",
        40 => "",
        41 => "",
        42 => "",
        43 => "01",
        44 => "02",
        45 => "03",
        46 => "04",
        47 => "05",
        48 => "06",
        49 => "6 CHAPTERS × 6 LEVELS · COMPLETE TO UNLOCK",
        50 => "",
        51 => "",
        52 => "",
        53 => "FOLDING ARK · RULES",
        54 => "×",
        55 => "01  用方向键翻滚：直立占一格，横卧或纵卧占两格。",
        56 => "02  所有占用格都要有支撑；裂纹板不能承受直立船体。",
        57 => "03  经过金色徽记即可收集，收齐后才能直立归港。",
        58 => "04  直立压 P 会切换桥梁；平躺经过不会触发。",
        59 => "05  危险移动会被拦住，不计步数，可以直接改走其他方向。",
        60 => "",
        61 => "",
        62 => "",
        63 => "新机制解锁 · 先理解规则，再启程",
        64 => "",
        65 => "薄冰可以躺着经过，但不能直立；开关只响应直立船体。",
        66 => "收齐全部金色徽记，再直立到达菱形归港点。",
        67 => "开始这一章 →",
        68 => "",
        69 => "",
        70 => "远征档案 · 折叠方舟",
        71 => "36 关全部完成；每章记录保留，可随时重访。",
        72 => "",
        73 => "",
        74 => "",
        75 => "",
        76 => "",
        77 => "",
        78 => "",
        79 => "01",
        80 => "02",
        81 => "03",
        82 => "04",
        83 => "05",
        _ => "06",
    }
}

/// Spec: the screen's nodes, parents first.
pub open spec fn folding_ark_rows() -> Seq<TreeRow> {
    Seq::new(FOLD_NODES as nat, |k: int| folding_ark_row(k as u8))
}

/// Spec: the texts the nodes show.
pub open spec fn folding_ark_texts() -> Seq<&'static str> {
    Seq::new(FOLD_NODES as nat, |k: int| folding_ark_text(k as u8))
}

#[verifier::rlimit(100)]
fn folding_ark_row_exec(k: u8) -> (r: TreeRow)
    ensures
        r == folding_ark_row(k),
{
    match k {
        0 => TreeRow { parent: None, labelled: false, button: false, bg: None, style: flow_box(480, 320) },
        1 => TreeRow { parent: Some(0u16), labelled: true, button: false, bg: None, style: placed(15, 7, 210, 22) },
        2 => TreeRow { parent: Some(0u16), labelled: true, button: false, bg: None, style: placed(228, 10, 146, 16) },
        3 => TreeRow { parent: Some(0u16), labelled: true, button: false, bg: None, style: placed(383, 9, 81, 17) },
        4 => TreeRow { parent: Some(0u16), labelled: true, button: false, bg: None, style: placed(369, 61, 84, 16) },
        5 => TreeRow { parent: Some(0u16), labelled: true, button: false, bg: None, style: placed(330, 98, 122, 50) },
        6 => TreeRow { parent: Some(0u16), labelled: true, button: true, bg: Some(0x1F3542u32), style: placed(367, 145, 40, 31) },
        7 => TreeRow { parent: Some(0u16), labelled: true, button: true, bg: Some(0x1F3542u32), style: placed(325, 180, 40, 31) },
        8 => TreeRow { parent: Some(0u16), labelled: true, button: true, bg: Some(0x1F3542u32), style: placed(367, 180, 40, 31) },
        9 => TreeRow { parent: Some(0u16), labelled: true, button: true, bg: Some(0x1F3542u32), style: placed(409, 180, 40, 31) },
        10 => TreeRow { parent: Some(0u16), labelled: true, button: true, bg: Some(0x1F3542u32), style: placed(328, 217, 58, 26) },
        11 => TreeRow { parent: Some(0u16), labelled: true, button: true, bg: Some(0x1F3542u32), style: placed(392, 217, 61, 26) },
        12 => TreeRow { parent: Some(0u16), labelled: true, button: false, bg: None, style: placed(16, 260, 231, 18) },
        13 => TreeRow { parent: Some(0u16), labelled: true, button: false, bg: None, style: placed(16, 280, 231, 14) },
        14 => TreeRow { parent: Some(0u16), labelled: true, button: true, bg: Some(0x1F3542u32), style: placed(252, 270, 56, 34) },
        15 => TreeRow { parent: Some(0u16), labelled: true, button: true, bg: Some(0x1F3542u32), style: placed(314, 270, 45, 34) },
        16 => TreeRow { parent: Some(0u16), labelled: true, button: true, bg: Some(0x1F3542u32), style: placed(365, 270, 45, 34) },
        17 => TreeRow { parent: Some(0u16), labelled: true, button: true, bg: Some(0x63E7C7u32), style: placed(416, 270, 50, 34) },
        18 => TreeRow { parent: Some(0u16), labelled: false, button: false, bg: Some(0x060C15u32), style: placed(0, 0, 480, 320) },
        19 => TreeRow { parent: Some(18u16), labelled: false, button: false, bg: Some(0x0F1D2Bu32), style: placed(48, 66, 384, 188) },
        20 => TreeRow { parent: Some(19u16), labelled: true, button: false, bg: None, style: flow_box(-1, 28) },
        21 => TreeRow { parent: Some(19u16), labelled: true, button: false, bg: None, style: flow_box(-1, 22) },
        22 => TreeRow { parent: Some(19u16), labelled: true, button: false, bg: None, style: flow_box(-1, 18) },
        23 => TreeRow { parent: Some(19u16), labelled: false, button: false, bg: None, style: flow_box(-1, 34) },
        24 => TreeRow { parent: Some(23u16), labelled: true, button: true, bg: Some(0x1F3542u32), style: flow_box(-1, 33) },
        25 => TreeRow { parent: Some(23u16), labelled: true, button: true, bg: Some(0x1F3542u32), style: flow_box(-1, 33) },
        26 => TreeRow { parent: Some(23u16), labelled: true, button: true, bg: Some(0xBEA9F2u32), style: flow_box(-1, 33) },
        27 => TreeRow { parent: Some(0u16), labelled: false, button: false, bg: Some(0x060C15u32), style: placed(0, 0, 480, 320) },
        28 => TreeRow { parent: Some(27u16), labelled: false, button: false, bg: Some(0x0F1D2Bu32), style: placed(5, 36, 470, 239) },
        29 => TreeRow { parent: Some(28u16), labelled: false, button: false, bg: None, style: flow_box(-1, 26) },
        30 => TreeRow { parent: Some(29u16), labelled: true, button: false, bg: None, style: flow_box(-1, 22) },
        31 => TreeRow { parent: Some(29u16), labelled: true, button: true, bg: Some(0x1F3542u32), style: flow_box(28, 25) },
        32 => TreeRow { parent: Some(28u16), labelled: true, button: false, bg: None, style: flow_box(-1, 14) },
        33 => TreeRow { parent: Some(28u16), labelled: false, button: false, bg: None, style: flow_box(-1, 26) },
        34 => TreeRow { parent: Some(33u16), labelled: true, button: true, bg: Some(0x1F3542u32), style: flow_box(-1, 25) },
        35 => TreeRow { parent: Some(33u16), labelled: true, button: true, bg: Some(0x1F3542u32), style: flow_box(-1, 25) },
        36 => TreeRow { parent: Some(33u16), labelled: true, button: true, bg: Some(0x1F3542u32), style: flow_box(-1, 25) },
        37 => TreeRow { parent: Some(33u16), labelled: true, button: true, bg: Some(0x1F3542u32), style: flow_box(-1, 25) },
        38 => TreeRow { parent: Some(33u16), labelled: true, button: true, bg: Some(0x1F3542u32), style: flow_box(-1, 25) },
        39 => TreeRow { parent: Some(33u16), labelled: true, button: true, bg: Some(0x1F3542u32), style: flow_box(-1, 25) },
        40 => TreeRow { parent: Some(28u16), labelled: true, button: false, bg: None, style: flow_box(-1, 16) },
        41 => TreeRow { parent: Some(28u16), labelled: true, button: false, bg: None, style: flow_box(-1, 14) },
        42 => TreeRow { parent: Some(28u16), labelled: false, button: false, bg: None, style: flow_box(-1, 58) },
        43 => TreeRow { parent: Some(42u16), labelled: true, button: true, bg: Some(0x1F3542u32), style: flow_box(-1, 57) },
        44 => TreeRow { parent: Some(42u16), labelled: true, button: true, bg: Some(0x1F3542u32), style: flow_box(-1, 57) },
        45 => TreeRow { parent: Some(42u16), labelled: true, button: true, bg: Some(0x1F3542u32), style: flow_box(-1, 57) },
        46 => TreeRow { parent: Some(42u16), labelled: true, button: true, bg: Some(0x1F3542u32), style: flow_box(-1, 57) },
        47 => TreeRow { parent: Some(42u16), labelled: true, button: true, bg: Some(0x1F3542u32), style: flow_box(-1, 57) },
        48 => TreeRow { parent: Some(42u16), labelled: true, button: true, bg: Some(0x1F3542u32), style: flow_box(-1, 57) },
        49 => TreeRow { parent: Some(28u16), labelled: true, button: false, bg: None, style: flow_box(-1, 16) },
        50 => TreeRow { parent: Some(0u16), labelled: false, button: false, bg: Some(0x060C15u32), style: placed(0, 0, 480, 320) },
        51 => TreeRow { parent: Some(50u16), labelled: false, button: false, bg: Some(0x0F1D2Bu32), style: placed(30, 54, 420, 212) },
        52 => TreeRow { parent: Some(51u16), labelled: false, button: false, bg: None, style: flow_box(-1, 26) },
        53 => TreeRow { parent: Some(52u16), labelled: true, button: false, bg: None, style: flow_box(-1, 22) },
        54 => TreeRow { parent: Some(52u16), labelled: true, button: true, bg: Some(0x1F3542u32), style: flow_box(28, 25) },
        55 => TreeRow { parent: Some(51u16), labelled: true, button: false, bg: None, style: flow_box(-1, 20) },
        56 => TreeRow { parent: Some(51u16), labelled: true, button: false, bg: None, style: flow_box(-1, 20) },
        57 => TreeRow { parent: Some(51u16), labelled: true, button: false, bg: None, style: flow_box(-1, 20) },
        58 => TreeRow { parent: Some(51u16), labelled: true, button: false, bg: None, style: flow_box(-1, 20) },
        59 => TreeRow { parent: Some(51u16), labelled: true, button: false, bg: None, style: flow_box(-1, 20) },
        60 => TreeRow { parent: Some(0u16), labelled: false, button: false, bg: Some(0x060C15u32), style: placed(0, 0, 480, 320) },
        61 => TreeRow { parent: Some(60u16), labelled: false, button: false, bg: Some(0x0F1D2Bu32), style: placed(42, 58, 396, 204) },
        62 => TreeRow { parent: Some(61u16), labelled: true, button: false, bg: None, style: flow_box(-1, 24) },
        63 => TreeRow { parent: Some(61u16), labelled: true, button: false, bg: None, style: flow_box(-1, 17) },
        64 => TreeRow { parent: Some(61u16), labelled: true, button: false, bg: None, style: flow_box(-1, 20) },
        65 => TreeRow { parent: Some(61u16), labelled: true, button: false, bg: None, style: flow_box(-1, 17) },
        66 => TreeRow { parent: Some(61u16), labelled: true, button: false, bg: None, style: flow_box(-1, 17) },
        67 => TreeRow { parent: Some(61u16), labelled: true, button: true, bg: Some(0xBEA9F2u32), style: flow_box(190, 31) },
        68 => TreeRow { parent: Some(0u16), labelled: false, button: false, bg: Some(0x060C15u32), style: placed(0, 0, 480, 320) },
        69 => TreeRow { parent: Some(68u16), labelled: false, button: false, bg: Some(0x0F1D2Bu32), style: placed(36, 38, 408, 244) },
        70 => TreeRow { parent: Some(69u16), labelled: true, button: false, bg: None, style: flow_box(-1, 25) },
        71 => TreeRow { parent: Some(69u16), labelled: true, button: false, bg: None, style: flow_box(-1, 16) },
        72 => TreeRow { parent: Some(69u16), labelled: true, button: false, bg: None, style: flow_box(-1, 17) },
        73 => TreeRow { parent: Some(69u16), labelled: true, button: false, bg: None, style: flow_box(-1, 17) },
        74 => TreeRow { parent: Some(69u16), labelled: true, button: false, bg: None, style: flow_box(-1, 17) },
        75 => TreeRow { parent: Some(69u16), labelled: true, button: false, bg: None, style: flow_box(-1, 17) },
        76 => TreeRow { parent: Some(69u16), labelled: true, button: false, bg: None, style: flow_box(-1, 17) },
        77 => TreeRow { parent: Some(69u16), labelled: true, button: false, bg: None, style: flow_box(-1, 17) },
        78 => TreeRow { parent: Some(69u16), labelled: false, button: false, bg: None, style: flow_box(-1, 27) },
        79 => TreeRow { parent: Some(78u16), labelled: true, button: true, bg: Some(0x1F3542u32), style: flow_box(-1, 26) },
        80 => TreeRow { parent: Some(78u16), labelled: true, button: true, bg: Some(0x1F3542u32), style: flow_box(-1, 26) },
        81 => TreeRow { parent: Some(78u16), labelled: true, button: true, bg: Some(0x1F3542u32), style: flow_box(-1, 26) },
        82 => TreeRow { parent: Some(78u16), labelled: true, button: true, bg: Some(0x1F3542u32), style: flow_box(-1, 26) },
        83 => TreeRow { parent: Some(78u16), labelled: true, button: true, bg: Some(0x1F3542u32), style: flow_box(-1, 26) },
        _ => TreeRow { parent: Some(78u16), labelled: true, button: true, bg: Some(0x1F3542u32), style: flow_box(-1, 26) },
    }
}

#[verifier::rlimit(100)]
fn folding_ark_text_exec(k: u8) -> (t: &'static str)
    ensures
        t == folding_ark_text(k),
{
    match k {
        0 => "",
        1 => "FOLDING ARK",
        2 => "",
        3 => "",
        4 => "BRIDGE / SEALS",
        5 => "Roll across the chart.\nFragile tiles reject\nan upright hull.",
        6 => "↑",
        7 => "←",
        8 => "↓",
        9 => "→",
        10 => "UNDO",
        11 => "HINT",
        12 => "",
        13 => "",
        14 => "CHAPTERS",
        15 => "RULES",
        16 => "RESET",
        17 => "",
        18 => "",
        19 => "",
        20 => "",
        21 => "",
        22 => "下一片海域已经开放；当前最优记录会保留。",
        23 => "",
        24 => "重新挑战",
        25 => "查看航图",
        26 => "继续远征 →",
        27 => "",
        28 => "",
        29 => "",
        30 => "EXPEDITION MAP",
        31 => "×",
        32 => "",
        33 => "",
        34 => "01",
        35 => "02",
        36 => "03",
        37 => "04",
        38 => "05",
        39 => "06",
        40 => "",
        41 => "",
        42 => "",
        43 => "01",
        44 => "02",
        45 => "03",
        46 => "04",
        47 => "05",
        48 => "06",
        49 => "6 CHAPTERS × 6 LEVELS · COMPLETE TO UNLOCK",
        50 => "",
        51 => "",
        52 => "",
        53 => "FOLDING ARK · RULES",
        54 => "×",
        55 => "01  用方向键翻滚：直立占一格，横卧或纵卧占两格。",
        56 => "02  所有占用格都要有支撑；裂纹板不能承受直立船体。",
        57 => "03  经过金色徽记即可收集，收齐后才能直立归港。",
        58 => "04  直立压 P 会切换桥梁；平躺经过不会触发。",
        59 => "05  危险移动会被拦住，不计步数，可以直接改走其他方向。",
        60 => "",
        61 => "",
        62 => "",
        63 => "新机制解锁 · 先理解规则，再启程",
        64 => "",
        65 => "薄冰可以躺着经过，但不能直立；开关只响应直立船体。",
        66 => "收齐全部金色徽记，再直立到达菱形归港点。",
        67 => "开始这一章 →",
        68 => "",
        69 => "",
        70 => "远征档案 · 折叠方舟",
        71 => "36 关全部完成；每章记录保留，可随时重访。",
        72 => "",
        73 => "",
        74 => "",
        75 => "",
        76 => "",
        77 => "",
        78 => "",
        79 => "01",
        80 => "02",
        81 => "03",
        82 => "04",
        83 => "05",
        _ => "06",
    }
}

/// Every node's parent comes before it.
#[verifier::rlimit(100)]
proof fn lemma_folding_ark_ordered()
    ensures
        rows_ordered(folding_ark_rows()),
{
    assert forall|k: int| 0 <= k < folding_ark_rows().len() implies (#[trigger] folding_ark_rows()[k]).parent matches Some(p) ==> (p
        < k) by {
        assert(folding_ark_rows()[k] == folding_ark_row(k as u8));
    }
}

/// The screen's nodes, parents first.
pub fn folding_ark_rows_exec() -> (v: Vec<TreeRow>)
    ensures
        v@ == folding_ark_rows(),
{
    let mut v: Vec<TreeRow> = Vec::new();
    let mut k: usize = 0;
    while k < FOLD_NODES
        invariant
            k <= FOLD_NODES,
            v@ == Seq::new(k as nat, |j: int| folding_ark_row(j as u8)),
        decreases FOLD_NODES - k,
    {
        v.push(folding_ark_row_exec(k as u8));
        k = k + 1;
        assert(v@ =~= Seq::new(k as nat, |j: int| folding_ark_row(j as u8)));
    }
    v
}

/// The texts the nodes show.
pub fn folding_ark_texts_exec() -> (v: Vec<&'static str>)
    ensures
        v@ == folding_ark_texts(),
{
    let mut v: Vec<&'static str> = Vec::new();
    let mut k: usize = 0;
    while k < FOLD_NODES
        invariant
            k <= FOLD_NODES,
            v@ == Seq::new(k as nat, |j: int| folding_ark_text(j as u8)),
        decreases FOLD_NODES - k,
    {
        v.push(folding_ark_text_exec(k as u8));
        k = k + 1;
        assert(v@ =~= Seq::new(k as nat, |j: int| folding_ark_text(j as u8)));
    }
    v
}

/// Spec: the screen as built under `parent`.
pub open spec fn folding_ark_built(w: &World, w2: &World, parent: Entity) -> bool {
    tree_built(w, w2, parent, folding_ark_rows(), folding_ark_texts())
}

pub fn build_widgets(world: &mut World, parent: Entity)
    requires
        old(world).has(parent),
        old(world).entities@.len() + 85 < u32::MAX,
    ensures
        folding_ark_built(old(world), final(world), parent),
{
    let rows = folding_ark_rows_exec();
    let texts = folding_ark_texts_exec();
    proof {
        lemma_folding_ark_ordered();
    }
    build_tree(world, parent, &rows, &texts);
}

pub fn setup_app(app: &mut App, parent: Entity)
    requires
        old(app).world.has(parent),
        old(app).world.entities@.len() + 85 < u32::MAX,
    ensures
        folding_ark_built(&old(app).world, &final(app).world, parent),
{
    build_widgets(&mut app.world, parent);
}

} // verus!
