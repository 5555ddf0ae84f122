//! Gesture recognition.
pub mod event;
pub mod recognizer;
pub mod system;

pub use event::GestureEvent;
pub use recognizer::GestureRecognizer;
pub use system::{GestureEvents, GestureSystem};
