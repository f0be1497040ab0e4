//! Object store and consistency validation for boundary-representation
//! shapes.
//!
//! A shape is a graph of topological objects (vertices, edges, cycles,
//! faces) over geometric objects (points, curves, surfaces). Objects never
//! own or point at each other: every cross-reference is a [`Handle`] into an
//! append-only [`Store`]. [`Shape`] validates each object against the stores
//! before it inserts it, so the graph never holds a dangling handle and never
//! holds two vertices closer together than the configured minimum distance.

pub mod geometry;
pub mod math;
pub mod polygon;
pub mod movement;
pub mod shape;
pub mod stores;
pub mod topology;
pub mod validate;

pub use geometry::{Curve, Position, Surface, SweptCurve};
pub use movement::{CursorPosition, Drag, FocusPoint, Movement};
pub use shape::Shape;
pub use stores::{Handle, Store, Stores};
pub use topology::{Cycle, Edge, Face, Vertex};
pub use validate::{StructuralIssues, Validate, ValidationError, ValidationResult};
