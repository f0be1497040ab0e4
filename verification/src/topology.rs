//! Topological objects: what refers to other objects of the shape.
//!
//! A vertex refers to a point, an edge to a curve and its two end vertices, a
//! cycle to its edges, a face to a surface and its boundary cycles. Every such
//! reference is a handle; no object owns another.

use vstd::prelude::*;
use crate::geometry::{Curve, Position, Surface};
use crate::stores::Handle;

verus! {

/// A vertex: a point of the shape that edges can end in.
#[derive(Clone, Copy, Debug, PartialEq, Eq, Hash)]
pub struct Vertex {
    /// The point at which the vertex lies.
    pub point: Handle<Position>,
}

/// An edge: a curve, bounded by two vertices or not bounded at all.
#[derive(Clone, Copy, Debug, PartialEq, Eq, Hash)]
pub struct Edge {
    /// The curve that the edge follows.
    pub curve: Handle<Curve>,
    /// The vertices that bound the edge. An edge without vertices is a
    /// closed or unbounded curve.
    pub vertices: Option<[Handle<Vertex>; 2]>,
}

impl Edge {
    /// The vertex handles that the edge holds: none or two.
    pub open spec fn vertex_handles(&self) -> Seq<Handle<Vertex>> {
        match self.vertices {
            Some(ends) => seq![ends@[0], ends@[1]],
            None => Seq::empty(),
        }
    }
}

/// A cycle: a sequence of edges that is meant to close.
#[derive(Debug, PartialEq, Eq, Hash)]
pub struct Cycle {
    /// The edges of the cycle, in order.
    pub edges: Vec<Handle<Edge>>,
}

impl Clone for Cycle {
    fn clone(&self) -> (copy: Cycle)
        ensures
            copy.edges@ == self.edges@,
    {
        Cycle { edges: self.edges.clone() }
    }
}

/// A face of the shape.
#[derive(Debug, PartialEq, Eq, Hash)]
pub enum Face {
    /// A face in boundary representation: a surface, bounded by cycles.
    Face {
        /// The surface that the face lies in.
        surface: Handle<Surface>,
        /// The cycles that bound the face on the outside.
        exteriors: Vec<Handle<Cycle>>,
        /// The cycles that bound holes in the face.
        interiors: Vec<Handle<Cycle>>,
        /// The colour of the face, as red, green, blue and alpha.
        color: [u8; 4],
    },
    /// A face that is given as triangles and refers to no other object.
    Triangles(Vec<fj_math::Triangle<3>>),
}

impl Clone for Face {
    fn clone(&self) -> (copy: Face)
        ensures
            copy.cycle_handles() == self.cycle_handles(),
            self is Face <==> copy is Face,
            self matches Face::Face { surface, color, .. } ==> copy matches Face::Face {
                surface: same_surface,
                color: same_color,
                ..
            } && same_surface == surface && same_color == color,
    {
        match self {
            Face::Face { surface, exteriors, interiors, color } => Face::Face {
                surface: *surface,
                exteriors: exteriors.clone(),
                interiors: interiors.clone(),
                color: *color,
            },
            Face::Triangles(triangles) => Face::Triangles(triangles.clone()),
        }
    }
}

impl Face {
    /// The cycle handles that the face holds: those of its exterior
    /// boundary, then those of its interior boundary. A face of triangles
    /// holds none.
    pub open spec fn cycle_handles(&self) -> Seq<Handle<Cycle>> {
        match *self {
            Face::Face { exteriors, interiors, .. } => exteriors@ + interiors@,
            Face::Triangles(_) => Seq::empty(),
        }
    }
}

} // verus!
