//! One module per gallery demo.
pub mod absolute;
pub mod app_demo;
pub mod atlas_restoration;
pub mod book_flip;
pub mod builder_form;
pub mod butterfly;
pub mod click;
pub mod compact_layout;
pub mod components;
pub mod cover_flow;
pub mod custom_view;
pub mod disabled;
pub mod dsl;
pub mod echo_walker;
pub mod effect_glass;
pub mod effect_panels;
pub mod enchants;
pub mod flip_card;
pub mod folding_ark;
pub mod gesture;
pub mod hello;
pub mod hover_tour;
pub mod image_flip;

use vstd::prelude::*;

verus! {

/// Angle, in whole degrees, at which the spinning and flipping demos
/// start: facing the viewer.
pub const PROJECTIVE_SPIN_PHASE_DEG: i32 = 0;

} // verus!
