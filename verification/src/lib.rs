//! A retained-mode 2D scene graph.
//!
//! A caller builds a tree of drawable elements, each carrying absolute and
//! relative position/size plus origin and alignment anchors, and then calls
//! `draw` on the root.  The tree resolves itself bottom-up into a flat list
//! of device-space draw primitives, in paint order, ready for a renderer.
//!
//! All geometry is fixed-point: a scalar is an `i64` holding the value times
//! `fixed::SCALE`, so fractional quantities such as "half of my parent's
//! width" are exact.

pub mod box_2d;
pub mod color;
pub mod drawable_2d;
pub mod drawable_state_2d;
pub mod fixed;
pub mod text_2d;
