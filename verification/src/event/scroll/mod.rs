//! Scroll containers: components and the drag / inertia systems.
pub mod system;

use vstd::prelude::*;

use crate::types::Fixed;

pub use system::{scroll_inertia_system, scroll_system, ScrollDragState, ScrollSpring};

verus! {

#[derive(Clone, Copy, Debug, PartialEq, Eq, Structural)]
pub enum ScrollAxis {
    Vertical,
    Horizontal,
    Both,
}

/// Scroll container settings. Content sizes default to the container's
/// own size when the config is absent.
#[derive(Clone, Copy, Debug, PartialEq, Eq, Structural)]
pub struct ScrollConfig {
    pub direction: ScrollAxis,
    pub content_width: Fixed,
    pub content_height: Fixed,
    /// Overscroll springs back to the edge.
    pub elastic: bool,
}

/// How far a scroll container's content is scrolled.
#[derive(Clone, Copy, Debug, PartialEq, Eq, Structural)]
pub struct ScrollOffset {
    pub x: Fixed,
    pub y: Fixed,
}

/// Marker: a scroll delta is pending on this container this frame.
pub struct ScrollDelta;

} // verus!
