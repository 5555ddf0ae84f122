//! Input pipeline of a small embedded UI toolkit: gesture recognition,
//! hit testing, scrolling, focus, simulated input and input feedback,
//! with gallery demos that build widget trees on it and animate them.
pub mod anim;
pub mod components;
pub mod ecs;
pub mod event;
pub mod feedback;
pub mod gallery;
pub mod types;
pub mod view;
pub mod widget;
pub mod laws;
