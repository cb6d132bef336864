//! The engine of a spline editor: a curve of control points, each with its
//! own interpolation mode, sampled into a strip of points, picked with a
//! cursor and changed point by point.
//!
//! Everything is counted on an integer grid of ten-thousandths of the
//! normalized screen unit; what draws the geometry and what reads the pointer
//! convert at their own end.

pub mod blend;
pub mod curve;
pub mod editor;
pub mod error;
pub mod key;
pub mod sample;
pub mod screen;
pub mod selection;
pub mod vertex;

pub use curve::Curve;
pub use editor::{Editor, Tessellation};
pub use error::EditorError;
pub use key::{Interpolation, Key};
pub use screen::ScreenPos;
pub use selection::{HandleSelection, Selection};
pub use vertex::{LineVertex, PointVertex, Semantics, VColor, VPos, VRadius};
