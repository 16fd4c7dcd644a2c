//! A minimal retained-mode widget layout engine.
//!
//! A tree of boxes allocates screen space to its children and records, for
//! every box, one colored rectangle to be rendered. The layout protocol, the
//! box geometry and the color parser are verified; submitting the recorded
//! rectangles to a graphics backend is left to the host application.

pub mod widgets;
