//! A boundary-representation modeling kernel: edge approximation with exact
//! vertices, a validated store of cycles, and the two-dimensional difference
//! of shapes by triangle classification.

pub mod approx;
pub mod context;
pub mod difference;
pub mod geometry;
pub mod topology;

pub use approx::approx_edge;
pub use context::{Context, ContextError, ContextExt, MissingArgument, ParseFailed};
pub use geometry::{BoundingVolume, Segment};
pub use topology::Cycles;
