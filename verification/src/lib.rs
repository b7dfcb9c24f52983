//! A verified core for an interactive wireframe cube renderer.
//!
//! The crate models the renderer's arithmetic with a fixed-point scalar
//! type, so that the projection pipeline, the keyboard-to-rotation state
//! machine, and the render-loop lifecycle can all be specified and proved.
//! The host shell (canvas, DOM events, animation frames) lives outside the
//! verified library and drives it through plain values.

pub mod assets_loader;
pub mod error;
pub mod fx;
pub mod game;
pub mod logic;
pub mod mat;
pub mod renderer;
pub mod transformation;
pub mod vec;
