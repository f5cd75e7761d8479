//! A small renderer that draws one mesh through a graphics driver: shader
//! units are compiled and linked into a program, the places where the program
//! takes its inputs are resolved, and frame after frame is drawn.
//!
//! The driver is whatever carries a `gl::GlCall` out and answers it. What this
//! library asks of the driver, in which order, and what it makes of the
//! answers is stated in the contracts and proved.

pub mod components;
pub mod error;
pub mod gl;
pub mod models;
pub mod renderer;
pub mod shader;
pub mod transform;
