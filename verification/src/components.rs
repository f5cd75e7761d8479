//! The state of the widgets that the host shows beside the canvas.

pub mod variable;
