//! The core of an interactive editor for points and the line segments
//! between them.
//!
//! The crate holds no window, no pixels and no widgets.  It owns the drawing
//! (a [`store::GeometryStore`]), decides what each pointer or key event means
//! in the current [`machine::Mode`], answers nearest-point queries, and says
//! what a frame must show.  Coordinates are whole numbers of drawing units,
//! so every distance comparison is exact.

pub mod point;
pub mod query;
pub mod store;
pub mod machine;
pub mod frame;
pub mod line_tool;
