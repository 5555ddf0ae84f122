//! "atlas restoration": the picture-logic puzzle's screen: a 480 x 320
//! surface with the title bar, the board's row and column clue strips,
//! the tool panel and status lines, and the result, map, rules, briefing
//! and summary panels laid over it.
//!
//! The tree is built as a table ([`atlas_rows`]), row by row. Its nodes
//! carry their boxes, background colours, texts and button components;
//! the puzzle state they display is filled in by the game.
use vstd::prelude::*;

use crate::ecs::{Entity, World};
use crate::gallery::tree::{build_tree, flow_box, flow_box_spec, tree_built, TreeRow};
use crate::gallery::{placed, placed_spec, App};

verus! {

/// Number of nodes on the screen.
pub const ATLAS_NODES: usize = 103;

/// Spec: node `k` of the screen (nodes come parents first).
pub open spec fn atlas_row(k: u8) -> TreeRow {
    match k {
        0 => TreeRow { parent: None, labelled: false, button: false, bg: None, style: flow_box_spec(480i32, 320i32) },
        1 => TreeRow { parent: Some(0u16), labelled: true, button: false, bg: None, style: placed_spec(15i32, 7i32, 230i32, 22i32) },
        2 => TreeRow { parent: Some(0u16), labelled: true, button: false, bg: None, style: placed_spec(247i32, 10i32, 127i32, 16i32) },
        3 => TreeRow { parent: Some(0u16), labelled: true, button: false, bg: None, style: placed_spec(383i32, 9i32, 81i32, 17i32) },
        4 => TreeRow { parent: Some(0u16), labelled: true, button: false, bg: None, style: placed_spec(25i32, 82i32, 91i32, 18i32) },
        5 => TreeRow { parent: Some(0u16), labelled: true, button: false, bg: None, style: placed_spec(25i32, 100i32, 91i32, 18i32) },
        6 => TreeRow { parent: Some(0u16), labelled: true, button: false, bg: None, style: placed_spec(25i32, 118i32, 91i32, 18i32) },
        7 => TreeRow { parent: Some(0u16), labelled: true, button: false, bg: None, style: placed_spec(25i32, 136i32, 91i32, 18i32) },
        8 => TreeRow { parent: Some(0u16), labelled: true, button: false, bg: None, style: placed_spec(25i32, 154i32, 91i32, 18i32) },
        9 => TreeRow { parent: Some(0u16), labelled: true, button: false, bg: None, style: placed_spec(25i32, 172i32, 91i32, 18i32) },
        10 => TreeRow { parent: Some(0u16), labelled: true, button: false, bg: None, style: placed_spec(25i32, 190i32, 91i32, 18i32) },
        11 => TreeRow { parent: Some(0u16), labelled: true, button: false, bg: None, style: placed_spec(25i32, 208i32, 91i32, 18i32) },
        12 => TreeRow { parent: Some(0u16), labelled: true, button: false, bg: None, style: placed_spec(25i32, 226i32, 91i32, 18i32) },
        13 => TreeRow { parent: Some(0u16), labelled: true, button: false, bg: None, style: placed_spec(25i32, 244i32, 91i32, 18i32) },
        14 => TreeRow { parent: Some(0u16), labelled: true, button: false, bg: None, style: placed_spec(125i32, 42i32, 18i32, 38i32) },
        15 => TreeRow { parent: Some(0u16), labelled: true, button: false, bg: None, style: placed_spec(143i32, 42i32, 18i32, 38i32) },
        16 => TreeRow { parent: Some(0u16), labelled: true, button: false, bg: None, style: placed_spec(161i32, 42i32, 18i32, 38i32) },
        17 => TreeRow { parent: Some(0u16), labelled: true, button: false, bg: None, style: placed_spec(179i32, 42i32, 18i32, 38i32) },
        18 => TreeRow { parent: Some(0u16), labelled: true, button: false, bg: None, style: placed_spec(197i32, 42i32, 18i32, 38i32) },
        19 => TreeRow { parent: Some(0u16), labelled: true, button: false, bg: None, style: placed_spec(215i32, 42i32, 18i32, 38i32) },
        20 => TreeRow { parent: Some(0u16), labelled: true, button: false, bg: None, style: placed_spec(233i32, 42i32, 18i32, 38i32) },
        21 => TreeRow { parent: Some(0u16), labelled: true, button: false, bg: None, style: placed_spec(251i32, 42i32, 18i32, 38i32) },
        22 => TreeRow { parent: Some(0u16), labelled: true, button: false, bg: None, style: placed_spec(269i32, 42i32, 18i32, 38i32) },
        23 => TreeRow { parent: Some(0u16), labelled: true, button: false, bg: None, style: placed_spec(287i32, 42i32, 18i32, 38i32) },
        24 => TreeRow { parent: Some(0u16), labelled: true, button: false, bg: None, style: placed_spec(335i32, 63i32, 119i32, 15i32) },
        25 => TreeRow { parent: Some(0u16), labelled: true, button: true, bg: Some(0x63E7C6u32), style: placed_spec(336i32, 86i32, 56i32, 31i32) },
        26 => TreeRow { parent: Some(0u16), labelled: true, button: true, bg: Some(0x233644u32), style: placed_spec(398i32, 86i32, 56i32, 31i32) },
        27 => TreeRow { parent: Some(0u16), labelled: true, button: true, bg: Some(0x233644u32), style: placed_spec(336i32, 126i32, 118i32, 28i32) },
        28 => TreeRow { parent: Some(0u16), labelled: true, button: true, bg: Some(0x233644u32), style: placed_spec(336i32, 161i32, 118i32, 28i32) },
        29 => TreeRow { parent: Some(0u16), labelled: true, button: true, bg: Some(0x233644u32), style: placed_spec(336i32, 196i32, 118i32, 28i32) },
        30 => TreeRow { parent: Some(0u16), labelled: true, button: false, bg: None, style: placed_spec(334i32, 232i32, 121i32, 14i32) },
        31 => TreeRow { parent: Some(0u16), labelled: true, button: false, bg: None, style: placed_spec(18i32, 274i32, 126i32, 18i32) },
        32 => TreeRow { parent: Some(0u16), labelled: true, button: true, bg: Some(0x233644u32), style: placed_spec(150i32, 269i32, 79i32, 35i32) },
        33 => TreeRow { parent: Some(0u16), labelled: true, button: true, bg: Some(0x233644u32), style: placed_spec(235i32, 269i32, 82i32, 35i32) },
        34 => TreeRow { parent: Some(0u16), labelled: true, button: true, bg: Some(0x233644u32), style: placed_spec(324i32, 269i32, 61i32, 35i32) },
        35 => TreeRow { parent: Some(0u16), labelled: true, button: true, bg: Some(0x63E7C6u32), style: placed_spec(391i32, 269i32, 75i32, 35i32) },
        36 => TreeRow { parent: Some(0u16), labelled: false, button: false, bg: Some(0x070D16u32), style: placed_spec(0i32, 0i32, 480i32, 320i32) },
        37 => TreeRow { parent: Some(36u16), labelled: false, button: false, bg: Some(0x121F2Du32), style: placed_spec(48i32, 66i32, 384i32, 188i32) },
        38 => TreeRow { parent: Some(37u16), labelled: true, button: false, bg: None, style: flow_box_spec(-1i32, 28i32) },
        39 => TreeRow { parent: Some(37u16), labelled: true, button: false, bg: None, style: flow_box_spec(-1i32, 22i32) },
        40 => TreeRow { parent: Some(37u16), labelled: true, button: false, bg: None, style: flow_box_spec(-1i32, 18i32) },
        41 => TreeRow { parent: Some(37u16), labelled: false, button: false, bg: None, style: flow_box_spec(-1i32, 34i32) },
        42 => TreeRow { parent: Some(41u16), labelled: true, button: true, bg: Some(0x233644u32), style: flow_box_spec(-1i32, 33i32) },
        43 => TreeRow { parent: Some(41u16), labelled: true, button: true, bg: Some(0x233644u32), style: flow_box_spec(-1i32, 33i32) },
        44 => TreeRow { parent: Some(41u16), labelled: true, button: true, bg: Some(0xF4B969u32), style: flow_box_spec(-1i32, 33i32) },
        45 => TreeRow { parent: Some(0u16), labelled: false, button: false, bg: Some(0x070D16u32), style: placed_spec(0i32, 0i32, 480i32, 320i32) },
        46 => TreeRow { parent: Some(45u16), labelled: false, button: false, bg: Some(0x121F2Du32), style: placed_spec(5i32, 36i32, 470i32, 239i32) },
        47 => TreeRow { parent: Some(46u16), labelled: false, button: false, bg: None, style: flow_box_spec(-1i32, 26i32) },
        48 => TreeRow { parent: Some(47u16), labelled: true, button: false, bg: None, style: flow_box_spec(-1i32, 22i32) },
        49 => TreeRow { parent: Some(47u16), labelled: true, button: true, bg: Some(0x233644u32), style: flow_box_spec(28i32, 25i32) },
        50 => TreeRow { parent: Some(46u16), labelled: true, button: false, bg: None, style: flow_box_spec(-1i32, 14i32) },
        51 => TreeRow { parent: Some(46u16), labelled: false, button: false, bg: None, style: flow_box_spec(-1i32, 26i32) },
        52 => TreeRow { parent: Some(51u16), labelled: true, button: true, bg: Some(0x233644u32), style: flow_box_spec(-1i32, 25i32) },
        53 => TreeRow { parent: Some(51u16), labelled: true, button: true, bg: Some(0x233644u32), style: flow_box_spec(-1i32, 25i32) },
        54 => TreeRow { parent: Some(51u16), labelled: true, button: true, bg: Some(0x233644u32), style: flow_box_spec(-1i32, 25i32) },
        55 => TreeRow { parent: Some(51u16), labelled: true, button: true, bg: Some(0x233644u32), style: flow_box_spec(-1i32, 25i32) },
        56 => TreeRow { parent: Some(51u16), labelled: true, button: true, bg: Some(0x233644u32), style: flow_box_spec(-1i32, 25i32) },
        57 => TreeRow { parent: Some(51u16), labelled: true, button: true, bg: Some(0x233644u32), style: flow_box_spec(-1i32, 25i32) },
        58 => TreeRow { parent: Some(46u16), labelled: true, button: false, bg: None, style: flow_box_spec(-1i32, 16i32) },
        59 => TreeRow { parent: Some(46u16), labelled: true, button: false, bg: None, style: flow_box_spec(-1i32, 14i32) },
        60 => TreeRow { parent: Some(46u16), labelled: false, button: false, bg: None, style: flow_box_spec(-1i32, 58i32) },
        61 => TreeRow { parent: Some(60u16), labelled: true, button: true, bg: Some(0x233644u32), style: flow_box_spec(-1i32, 57i32) },
        62 => TreeRow { parent: Some(60u16), labelled: true, button: true, bg: Some(0x233644u32), style: flow_box_spec(-1i32, 57i32) },
        63 => TreeRow { parent: Some(60u16), labelled: true, button: true, bg: Some(0x233644u32), style: flow_box_spec(-1i32, 57i32) },
        64 => TreeRow { parent: Some(60u16), labelled: true, button: true, bg: Some(0x233644u32), style: flow_box_spec(-1i32, 57i32) },
        65 => TreeRow { parent: Some(60u16), labelled: true, button: true, bg: Some(0x233644u32), style: flow_box_spec(-1i32, 57i32) },
        66 => TreeRow { parent: Some(60u16), labelled: true, button: true, bg: Some(0x233644u32), style: flow_box_spec(-1i32, 57i32) },
        67 => TreeRow { parent: Some(46u16), labelled: true, button: false, bg: None, style: flow_box_spec(-1i32, 16i32) },
        68 => TreeRow { parent: Some(0u16), labelled: false, button: false, bg: Some(0x070D16u32), style: placed_spec(0i32, 0i32, 480i32, 320i32) },
        69 => TreeRow { parent: Some(68u16), labelled: false, button: false, bg: Some(0x121F2Du32), style: placed_spec(30i32, 54i32, 420i32, 212i32) },
        70 => TreeRow { parent: Some(69u16), labelled: false, button: false, bg: None, style: flow_box_spec(-1i32, 26i32) },
        71 => TreeRow { parent: Some(70u16), labelled: true, button: false, bg: None, style: flow_box_spec(-1i32, 22i32) },
        72 => TreeRow { parent: Some(70u16), labelled: true, button: true, bg: Some(0x233644u32), style: flow_box_spec(28i32, 25i32) },
        73 => TreeRow { parent: Some(69u16), labelled: true, button: false, bg: None, style: flow_box_spec(-1i32, 20i32) },
        74 => TreeRow { parent: Some(69u16), labelled: true, button: false, bg: None, style: flow_box_spec(-1i32, 20i32) },
        75 => TreeRow { parent: Some(69u16), labelled: true, button: false, bg: None, style: flow_box_spec(-1i32, 20i32) },
        76 => TreeRow { parent: Some(69u16), labelled: true, button: false, bg: None, style: flow_box_spec(-1i32, 20i32) },
        77 => TreeRow { parent: Some(69u16), labelled: true, button: false, bg: None, style: flow_box_spec(-1i32, 20i32) },
        78 => TreeRow { parent: Some(0u16), labelled: false, button: false, bg: Some(0x070D16u32), style: placed_spec(0i32, 0i32, 480i32, 320i32) },
        79 => TreeRow { parent: Some(78u16), labelled: false, button: false, bg: Some(0x121F2Du32), style: placed_spec(42i32, 58i32, 396i32, 204i32) },
        80 => TreeRow { parent: Some(79u16), labelled: true, button: false, bg: None, style: flow_box_spec(-1i32, 24i32) },
        81 => TreeRow { parent: Some(79u16), labelled: true, button: false, bg: None, style: flow_box_spec(-1i32, 17i32) },
        82 => TreeRow { parent: Some(79u16), labelled: true, button: false, bg: None, style: flow_box_spec(-1i32, 20i32) },
        83 => TreeRow { parent: Some(79u16), labelled: true, button: false, bg: None, style: flow_box_spec(-1i32, 17i32) },
        84 => TreeRow { parent: Some(79u16), labelled: true, button: false, bg: None, style: flow_box_spec(-1i32, 17i32) },
        85 => TreeRow { parent: Some(79u16), labelled: true, button: true, bg: Some(0xF4B969u32), style: flow_box_spec(190i32, 31i32) },
        86 => TreeRow { parent: Some(0u16), labelled: false, button: false, bg: Some(0x070D16u32), style: placed_spec(0i32, 0i32, 480i32, 320i32) },
        87 => TreeRow { parent: Some(86u16), labelled: false, button: false, bg: Some(0x121F2Du32), style: placed_spec(36i32, 38i32, 408i32, 244i32) },
        88 => TreeRow { parent: Some(87u16), labelled: true, button: false, bg: None, style: flow_box_spec(-1i32, 25i32) },
        89 => TreeRow { parent: Some(87u16), labelled: true, button: false, bg: None, style: flow_box_spec(-1i32, 16i32) },
        90 => TreeRow { parent: Some(87u16), labelled: true, button: false, bg: None, style: flow_box_spec(-1i32, 17i32) },
        91 => TreeRow { parent: Some(87u16), labelled: true, button: false, bg: None, style: flow_box_spec(-1i32, 17i32) },
        92 => TreeRow { parent: Some(87u16), labelled: true, button: false, bg: None, style: flow_box_spec(-1i32, 17i32) },
        93 => TreeRow { parent: Some(87u16), labelled: true, button: false, bg: None, style: flow_box_spec(-1i32, 17i32) },
        94 => TreeRow { parent: Some(87u16), labelled: true, button: false, bg: None, style: flow_box_spec(-1i32, 17i32) },
        95 => TreeRow { parent: Some(87u16), labelled: true, button: false, bg: None, style: flow_box_spec(-1i32, 17i32) },
        96 => TreeRow { parent: Some(87u16), labelled: false, button: false, bg: None, style: flow_box_spec(-1i32, 27i32) },
        97 => TreeRow { parent: Some(96u16), labelled: true, button: true, bg: Some(0x233644u32), style: flow_box_spec(-1i32, 26i32) },
        98 => TreeRow { parent: Some(96u16), labelled: true, button: true, bg: Some(0x233644u32), style: flow_box_spec(-1i32, 26i32) },
        99 => TreeRow { parent: Some(96u16), labelled: true, button: true, bg: Some(0x233644u32), style: flow_box_spec(-1i32, 26i32) },
        100 => TreeRow { parent: Some(96u16), labelled: true, button: true, bg: Some(0x233644u32), style: flow_box_spec(-1i32, 26i32) },
        101 => TreeRow { parent: Some(96u16), labelled: true, button: true, bg: Some(0x233644u32), style: flow_box_spec(-1i32, 26i32) },
        _ => TreeRow { parent: Some(96u16), labelled: true, button: true, bg: Some(0x233644u32), style: flow_box_spec(-1i32, 26i32) },
    }
}

/// Spec: the text node `k` shows (`""` for the nodes that show none).
pub open spec fn atlas_text(k: u8) -> &'static str {
    match k {
        0 => "",
        1 => "ATLAS RESTORATION",
        2 => "",
        3 => "",
        4 => "",
        5 => "",
        6 => "",
        7 => "",
        8 => "",
        9 => "",
        10 => "",
        11 => "",
        12 => "",
        13 => "",
        14 => "",
        15 => "",
        16 => "",
        17 => "",
        18 => "",
        19 => "",
        20 => "",
        21 => "",
        22 => "",
        23 => "",
        24 => "OBSERVATION TOOLS",
        25 => "FILL",
        26 => "MARK",
        27 => "UNDO",
        28 => "REVEAL ONE",
        29 => "CHECK",
        30 => "",
        31 => "",
        32 => "CHAPTERS",
        33 => "RULES",
        34 => "RESET",
        35 => "",
        36 => "",
        37 => "",
        38 => "",
        39 => "",
        40 => "下一幅图已经开放；提示不会影响关卡解锁。",
        41 => "",
        42 => "重新挑战",
        43 => "查看航图",
        44 => "继续远征 →",
        45 => "",
        46 => "",
        47 => "",
        48 => "EXPEDITION MAP",
        49 => "×",
        50 => "",
        51 => "",
        52 => "01",
        53 => "02",
        54 => "03",
        55 => "04",
        56 => "05",
        57 => "06",
        58 => "",
        59 => "",
        60 => "",
        61 => "01",
        62 => "02",
        63 => "03",
        64 => "04",
        65 => "05",
        66 => "06",
        67 => "6 CHAPTERS × 6 LEVELS · COMPLETE TO UNLOCK",
        68 => "",
        69 => "",
        70 => "",
        71 => "ATLAS RESTORATION · RULES",
        72 => "×",
        73 => "01  边缘数字表示这一行或列中连续填色段的长度。",
        74 => "02  例如 2 1：填两格，至少空一格，再填一格。",
        75 => "03  选择填色或标空，按住拖动；同一笔画可一次撤销。",
        76 => "04  青点是固定观测点，不可修改；空格不必全部标叉。",
        77 => "05  方向键选格，空格使用当前工具，X 键标空。",
        78 => "",
        79 => "",
        80 => "",
        81 => "新机制解锁 · 先理解规则，再启程",
        82 => "",
        83 => "尺寸增加时优先处理大数字与完整行。",
        84 => "段与段之间至少隔一个空格；青点观测不可修改。",
        85 => "开始这一章 →",
        86 => "",
        87 => "",
        88 => "远征档案 · 星图修复局",
        89 => "36 关全部完成；每章记录保留，可随时重访。",
        90 => "",
        91 => "",
        92 => "",
        93 => "",
        94 => "",
        95 => "",
        96 => "",
        97 => "01",
        98 => "02",
        99 => "03",
        100 => "04",
        101 => "05",
        _ => "06",
    }
}

/// Spec: the screen's nodes, parents first.
pub open spec fn atlas_rows() -> Seq<TreeRow> {
    Seq::new(ATLAS_NODES as nat, |k: int| atlas_row(k as u8))
}

/// Spec: the texts the nodes show.
pub open spec fn atlas_texts() -> Seq<&'static str> {
    Seq::new(ATLAS_NODES as nat, |k: int| atlas_text(k as u8))
}

#[verifier::rlimit(100)]
fn atlas_row_exec(k: u8) -> (r: TreeRow)
    ensures
        r == atlas_row(k),
{
    match k {
        0 => TreeRow { parent: None, labelled: false, button: false, bg: None, style: flow_box(480, 320) },
        1 => TreeRow { parent: Some(0u16), labelled: true, button: false, bg: None, style: placed(15, 7, 230, 22) },
        2 => TreeRow { parent: Some(0u16), labelled: true, button: false, bg: None, style: placed(247, 10, 127, 16) },
        3 => TreeRow { parent: Some(0u16), labelled: true, button: false, bg: None, style: placed(383, 9, 81, 17) },
        4 => TreeRow { parent: Some(0u16), labelled: true, button: false, bg: None, style: placed(25, 82, 91, 18) },
        5 => TreeRow { parent: Some(0u16), labelled: true, button: false, bg: None, style: placed(25, 100, 91, 18) },
        6 => TreeRow { parent: Some(0u16), labelled: true, button: false, bg: None, style: placed(25, 118, 91, 18) },
        7 => TreeRow { parent: Some(0u16), labelled: true, button: false, bg: None, style: placed(25, 136, 91, 18) },
        8 => TreeRow { parent: Some(0u16), labelled: true, button: false, bg: None, style: placed(25, 154, 91, 18) },
        9 => TreeRow { parent: Some(0u16), labelled: true, button: false, bg: None, style: placed(25, 172, 91, 18) },
        10 => TreeRow { parent: Some(0u16), labelled: true, button: false, bg: None, style: placed(25, 190, 91, 18) },
        11 => TreeRow { parent: Some(0u16), labelled: true, button: false, bg: None, style: placed(25, 208, 91, 18) },
        12 => TreeRow { parent: Some(0u16), labelled: true, button: false, bg: None, style: placed(25, 226, 91, 18) },
        13 => TreeRow { parent: Some(0u16), labelled: true, button: false, bg: None, style: placed(25, 244, 91, 18) },
        14 => TreeRow { parent: Some(0u16), labelled: true, button: false, bg: None, style: placed(125, 42, 18, 38) },
        15 => TreeRow { parent: Some(0u16), labelled: true, button: false, bg: None, style: placed(143, 42, 18, 38) },
        16 => TreeRow { parent: Some(0u16), labelled: true, button: false, bg: None, style: placed(161, 42, 18, 38) },
        17 => TreeRow { parent: Some(0u16), labelled: true, button: false, bg: None, style: placed(179, 42, 18, 38) },
        18 => TreeRow { parent: Some(0u16), labelled: true, button: false, bg: None, style: placed(197, 42, 18, 38) },
        19 => TreeRow { parent: Some(0u16), labelled: true, button: false, bg: None, style: placed(215, 42, 18, 38) },
        20 => TreeRow { parent: Some(0u16), labelled: true, button: false, bg: None, style: placed(233, 42, 18, 38) },
        21 => TreeRow { parent: Some(0u16), labelled: true, button: false, bg: None, style: placed(251, 42, 18, 38) },
        22 => TreeRow { parent: Some(0u16), labelled: true, button: false, bg: None, style: placed(269, 42, 18, 38) },
        23 => TreeRow { parent: Some(0u16), labelled: true, button: false, bg: None, style: placed(287, 42, 18, 38) },
        24 => TreeRow { parent: Some(0u16), labelled: true, button: false, bg: None, style: placed(335, 63, 119, 15) },
        25 => TreeRow { parent: Some(0u16), labelled: true, button: true, bg: Some(0x63E7C6u32), style: placed(336, 86, 56, 31) },
        26 => TreeRow { parent: Some(0u16), labelled: true, button: true, bg: Some(0x233644u32), style: placed(398, 86, 56, 31) },
        27 => TreeRow { parent: Some(0u16), labelled: true, button: true, bg: Some(0x233644u32), style: placed(336, 126, 118, 28) },
        28 => TreeRow { parent: Some(0u16), labelled: true, button: true, bg: Some(0x233644u32), style: placed(336, 161, 118, 28) },
        29 => TreeRow { parent: Some(0u16), labelled: true, button: true, bg: Some(0x233644u32), style: placed(336, 196, 118, 28) },
        30 => TreeRow { parent: Some(0u16), labelled: true, button: false, bg: None, style: placed(334, 232, 121, 14) },
        31 => TreeRow { parent: Some(0u16), labelled: true, button: false, bg: None, style: placed(18, 274, 126, 18) },
        32 => TreeRow { parent: Some(0u16), labelled: true, button: true, bg: Some(0x233644u32), style: placed(150, 269, 79, 35) },
        33 => TreeRow { parent: Some(0u16), labelled: true, button: true, bg: Some(0x233644u32), style: placed(235, 269, 82, 35) },
        34 => TreeRow { parent: Some(0u16), labelled: true, button: true, bg: Some(0x233644u32), style: placed(324, 269, 61, 35) },
        35 => TreeRow { parent: Some(0u16), labelled: true, button: true, bg: Some(0x63E7C6u32), style: placed(391, 269, 75, 35) },
        36 => TreeRow { parent: Some(0u16), labelled: false, button: false, bg: Some(0x070D16u32), style: placed(0, 0, 480, 320) },
        37 => TreeRow { parent: Some(36u16), labelled: false, button: false, bg: Some(0x121F2Du32), style: placed(48, 66, 384, 188) },
        38 => TreeRow { parent: Some(37u16), labelled: true, button: false, bg: None, style: flow_box(-1, 28) },
        39 => TreeRow { parent: Some(37u16), labelled: true, button: false, bg: None, style: flow_box(-1, 22) },
        40 => TreeRow { parent: Some(37u16), labelled: true, button: false, bg: None, style: flow_box(-1, 18) },
        41 => TreeRow { parent: Some(37u16), labelled: false, button: false, bg: None, style: flow_box(-1, 34) },
        42 => TreeRow { parent: Some(41u16), labelled: true, button: true, bg: Some(0x233644u32), style: flow_box(-1, 33) },
        43 => TreeRow { parent: Some(41u16), labelled: true, button: true, bg: Some(0x233644u32), style: flow_box(-1, 33) },
        44 => TreeRow { parent: Some(41u16), labelled: true, button: true, bg: Some(0xF4B969u32), style: flow_box(-1, 33) },
        45 => TreeRow { parent: Some(0u16), labelled: false, button: false, bg: Some(0x070D16u32), style: placed(0, 0, 480, 320) },
        46 => TreeRow { parent: Some(45u16), labelled: false, button: false, bg: Some(0x121F2Du32), style: placed(5, 36, 470, 239) },
        47 => TreeRow { parent: Some(46u16), labelled: false, button: false, bg: None, style: flow_box(-1, 26) },
        48 => TreeRow { parent: Some(47u16), labelled: true, button: false, bg: None, style: flow_box(-1, 22) },
        49 => TreeRow { parent: Some(47u16), labelled: true, button: true, bg: Some(0x233644u32), style: flow_box(28, 25) },
        50 => TreeRow { parent: Some(46u16), labelled: true, button: false, bg: None, style: flow_box(-1, 14) },
        51 => TreeRow { parent: Some(46u16), labelled: false, button: false, bg: None, style: flow_box(-1, 26) },
        52 => TreeRow { parent: Some(51u16), labelled: true, button: true, bg: Some(0x233644u32), style: flow_box(-1, 25) },
        53 => TreeRow { parent: Some(51u16), labelled: true, button: true, bg: Some(0x233644u32), style: flow_box(-1, 25) },
        54 => TreeRow { parent: Some(51u16), labelled: true, button: true, bg: Some(0x233644u32), style: flow_box(-1, 25) },
        55 => TreeRow { parent: Some(51u16), labelled: true, button: true, bg: Some(0x233644u32), style: flow_box(-1, 25) },
        56 => TreeRow { parent: Some(51u16), labelled: true, button: true, bg: Some(0x233644u32), style: flow_box(-1, 25) },
        57 => TreeRow { parent: Some(51u16), labelled: true, button: true, bg: Some(0x233644u32), style: flow_box(-1, 25) },
        58 => TreeRow { parent: Some(46u16), labelled: true, button: false, bg: None, style: flow_box(-1, 16) },
        59 => TreeRow { parent: Some(46u16), labelled: true, button: false, bg: None, style: flow_box(-1, 14) },
        60 => TreeRow { parent: Some(46u16), labelled: false, button: false, bg: None, style: flow_box(-1, 58) },
        61 => TreeRow { parent: Some(60u16), labelled: true, button: true, bg: Some(0x233644u32), style: flow_box(-1, 57) },
        62 => TreeRow { parent: Some(60u16), labelled: true, button: true, bg: Some(0x233644u32), style: flow_box(-1, 57) },
        63 => TreeRow { parent: Some(60u16), labelled: true, button: true, bg: Some(0x233644u32), style: flow_box(-1, 57) },
        64 => TreeRow { parent: Some(60u16), labelled: true, button: true, bg: Some(0x233644u32), style: flow_box(-1, 57) },
        65 => TreeRow { parent: Some(60u16), labelled: true, button: true, bg: Some(0x233644u32), style: flow_box(-1, 57) },
        66 => TreeRow { parent: Some(60u16), labelled: true, button: true, bg: Some(0x233644u32), style: flow_box(-1, 57) },
        67 => TreeRow { parent: Some(46u16), labelled: true, button: false, bg: None, style: flow_box(-1, 16) },
        68 => TreeRow { parent: Some(0u16), labelled: false, button: false, bg: Some(0x070D16u32), style: placed(0, 0, 480, 320) },
        69 => TreeRow { parent: Some(68u16), labelled: false, button: false, bg: Some(0x121F2Du32), style: placed(30, 54, 420, 212) },
        70 => TreeRow { parent: Some(69u16), labelled: false, button: false, bg: None, style: flow_box(-1, 26) },
        71 => TreeRow { parent: Some(70u16), labelled: true, button: false, bg: None, style: flow_box(-1, 22) },
        72 => TreeRow { parent: Some(70u16), labelled: true, button: true, bg: Some(0x233644u32), style: flow_box(28, 25) },
        73 => TreeRow { parent: Some(69u16), labelled: true, button: false, bg: None, style: flow_box(-1, 20) },
        74 => TreeRow { parent: Some(69u16), labelled: true, button: false, bg: None, style: flow_box(-1, 20) },
        75 => TreeRow { parent: Some(69u16), labelled: true, button: false, bg: None, style: flow_box(-1, 20) },
        76 => TreeRow { parent: Some(69u16), labelled: true, button: false, bg: None, style: flow_box(-1, 20) },
        77 => TreeRow { parent: Some(69u16), labelled: true, button: false, bg: None, style: flow_box(-1, 20) },
        78 => TreeRow { parent: Some(0u16), labelled: false, button: false, bg: Some(0x070D16u32), style: placed(0, 0, 480, 320) },
        79 => TreeRow { parent: Some(78u16), labelled: false, button: false, bg: Some(0x121F2Du32), style: placed(42, 58, 396, 204) },
        80 => TreeRow { parent: Some(79u16), labelled: true, button: false, bg: None, style: flow_box(-1, 24) },
        81 => TreeRow { parent: Some(79u16), labelled: true, button: false, bg: None, style: flow_box(-1, 17) },
        82 => TreeRow { parent: Some(79u16), labelled: true, button: false, bg: None, style: flow_box(-1, 20) },
        83 => TreeRow { parent: Some(79u16), labelled: true, button: false, bg: None, style: flow_box(-1, 17) },
        84 => TreeRow { parent: Some(79u16), labelled: true, button: false, bg: None, style: flow_box(-1, 17) },
        85 => TreeRow { parent: Some(79u16), labelled: true, button: true, bg: Some(0xF4B969u32), style: flow_box(190, 31) },
        86 => TreeRow { parent: Some(0u16), labelled: false, button: false, bg: Some(0x070D16u32), style: placed(0, 0, 480, 320) },
        87 => TreeRow { parent: Some(86u16), labelled: false, button: false, bg: Some(0x121F2Du32), style: placed(36, 38, 408, 244) },
        88 => TreeRow { parent: Some(87u16), labelled: true, button: false, bg: None, style: flow_box(-1, 25) },
        89 => TreeRow { parent: Some(87u16), labelled: true, button: false, bg: None, style: flow_box(-1, 16) },
        90 => TreeRow { parent: Some(87u16), labelled: true, button: false, bg: None, style: flow_box(-1, 17) },
        91 => TreeRow { parent: Some(87u16), labelled: true, button: false, bg: None, style: flow_box(-1, 17) },
        92 => TreeRow { parent: Some(87u16), labelled: true, button: false, bg: None, style: flow_box(-1, 17) },
        93 => TreeRow { parent: Some(87u16), labelled: true, button: false, bg: None, style: flow_box(-1, 17) },
        94 => TreeRow { parent: Some(87u16), labelled: true, button: false, bg: None, style: flow_box(-1, 17) },
        95 => TreeRow { parent: Some(87u16), labelled: true, button: false, bg: None, style: flow_box(-1, 17) },
        96 => TreeRow { parent: Some(87u16), labelled: false, button: false, bg: None, style: flow_box(-1, 27) },
        97 => TreeRow { parent: Some(96u16), labelled: true, button: true, bg: Some(0x233644u32), style: flow_box(-1, 26) },
        98 => TreeRow { parent: Some(96u16), labelled: true, button: true, bg: Some(0x233644u32), style: flow_box(-1, 26) },
        99 => TreeRow { parent: Some(96u16), labelled: true, button: true, bg: Some(0x233644u32), style: flow_box(-1, 26) },
        100 => TreeRow { parent: Some(96u16), labelled: true, button: true, bg: Some(0x233644u32), style: flow_box(-1, 26) },
        101 => TreeRow { parent: Some(96u16), labelled: true, button: true, bg: Some(0x233644u32), style: flow_box(-1, 26) },
        _ => TreeRow { parent: Some(96u16), labelled: true, button: true, bg: Some(0x233644u32), style: flow_box(-1, 26) },
    }
}

#[verifier::rlimit(100)]
fn atlas_text_exec(k: u8) -> (t: &'static str)
    ensures
        t == atlas_text(k),
{
    match k {
        0 => "",
        1 => "ATLAS RESTORATION",
        2 => "",
        3 => "",
        4 => "",
        5 => "",
        6 => "",
        7 => "",
        8 => "",
        9 => "",
        10 => "",
        11 => "",
        12 => "",
        13 => "",
        14 => "",
        15 => "",
        16 => "",
        17 => "",
        18 => "",
        19 => "",
        20 => "",
        21 => "",
        22 => "",
        23 => "",
        24 => "OBSERVATION TOOLS",
        25 => "FILL",
        26 => "MARK",
        27 => "UNDO",
        28 => "REVEAL ONE",
        29 => "CHECK",
        30 => "",
        31 => "",
        32 => "CHAPTERS",
        33 => "RULES",
        34 => "RESET",
        35 => "",
        36 => "",
        37 => "",
        38 => "",
        39 => "",
        40 => "下一幅图已经开放；提示不会影响关卡解锁。",
        41 => "",
        42 => "重新挑战",
        43 => "查看航图",
        44 => "继续远征 →",
        45 => "",
        46 => "",
        47 => "",
        48 => "EXPEDITION MAP",
        49 => "×",
        50 => "",
        51 => "",
        52 => "01",
        53 => "02",
        54 => "03",
        55 => "04",
        56 => "05",
        57 => "06",
        58 => "",
        59 => "",
        60 => "",
        61 => "01",
        62 => "02",
        63 => "03",
        64 => "04",
        65 => "05",
        66 => "06",
        67 => "6 CHAPTERS × 6 LEVELS · COMPLETE TO UNLOCK",
        68 => "",
        69 => "",
        70 => "",
        71 => "ATLAS RESTORATION · RULES",
        72 => "×",
        73 => "01  边缘数字表示这一行或列中连续填色段的长度。",
        74 => "02  例如 2 1：填两格，至少空一格，再填一格。",
        75 => "03  选择填色或标空，按住拖动；同一笔画可一次撤销。",
        76 => "04  青点是固定观测点，不可修改；空格不必全部标叉。",
        77 => "05  方向键选格，空格使用当前工具，X 键标空。",
        78 => "",
        79 => "",
        80 => "",
        81 => "新机制解锁 · 先理解规则，再启程",
        82 => "",
        83 => "尺寸增加时优先处理大数字与完整行。",
        84 => "段与段之间至少隔一个空格；青点观测不可修改。",
        85 => "开始这一章 →",
        86 => "",
        87 => "",
        88 => "远征档案 · 星图修复局",
        89 => "36 关全部完成；每章记录保留，可随时重访。",
        90 => "",
        91 => "",
        92 => "",
        93 => "",
        94 => "",
        95 => "",
        96 => "",
        97 => "01",
        98 => "02",
        99 => "03",
        100 => "04",
        101 => "05",
        _ => "06",
    }
}

/// Every node's parent comes before it.
#[verifier::rlimit(100)]
proof fn lemma_atlas_ordered()
    ensures
        crate::gallery::tree::rows_ordered(atlas_rows()),
{
    assert forall|k: int| 0 <= k < atlas_rows().len() implies (#[trigger] atlas_rows()[k]).parent matches Some(p) ==> (p
        < k) by {
        assert(atlas_rows()[k] == atlas_row(k as u8));
    }
}

/// The screen's nodes, parents first.
pub fn atlas_rows_exec() -> (v: Vec<TreeRow>)
    ensures
        v@ == atlas_rows(),
{
    let mut v: Vec<TreeRow> = Vec::new();
    let mut k: usize = 0;
    while k < ATLAS_NODES
        invariant
            k <= ATLAS_NODES,
            v@ == Seq::new(k as nat, |j: int| atlas_row(j as u8)),
        decreases ATLAS_NODES - k,
    {
        v.push(atlas_row_exec(k as u8));
        k = k + 1;
        assert(v@ =~= Seq::new(k as nat, |j: int| atlas_row(j as u8)));
    }
    v
}

/// The texts the nodes show.
pub fn atlas_texts_exec() -> (v: Vec<&'static str>)
    ensures
        v@ == atlas_texts(),
{
    let mut v: Vec<&'static str> = Vec::new();
    let mut k: usize = 0;
    while k < ATLAS_NODES
        invariant
            k <= ATLAS_NODES,
            v@ == Seq::new(k as nat, |j: int| atlas_text(j as u8)),
        decreases ATLAS_NODES - k,
    {
        v.push(atlas_text_exec(k as u8));
        k = k + 1;
        assert(v@ =~= Seq::new(k as nat, |j: int| atlas_text(j as u8)));
    }
    v
}

/// Spec: the screen as built under `parent`.
pub open spec fn atlas_built(w: &World, w2: &World, parent: Entity) -> bool {
    tree_built(w, w2, parent, atlas_rows(), atlas_texts())
}

pub fn build_widgets(world: &mut World, parent: Entity)
    requires
        old(world).has(parent),
        old(world).entities@.len() + 103 < u32::MAX,
    ensures
        atlas_built(old(world), final(world), parent),
{
    let rows = atlas_rows_exec();
    let texts = atlas_texts_exec();
    proof {
        lemma_atlas_ordered();
    }
    build_tree(world, parent, &rows, &texts);
}

pub fn setup_app(app: &mut App, parent: Entity)
    requires
        old(app).world.has(parent),
        old(app).world.entities@.len() + 103 < u32::MAX,
    ensures
        atlas_built(&old(app).world, &final(app).world, parent),
{
    build_widgets(&mut app.world, parent);
}

} // verus!
