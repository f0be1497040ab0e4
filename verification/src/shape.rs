//! The shape: stores behind validation.
//!
//! A [`Shape`] owns the stores of one shape and the minimum distance between
//! its vertices. Each insertion validates the object against the stores as
//! they stand and inserts it only if it is valid; a rejected object leaves
//! the shape as it was. An insertion covers one object: who builds several
//! related objects and is rejected halfway keeps what was inserted before.

use vstd::prelude::*;
use crate::geometry::{Curve, Position, Surface};
use crate::math::within;
use crate::stores::{Handle, Stores};
use crate::topology::{Cycle, Edge, Face, Vertex};
use crate::validate::{outcome, Failure, Validate, ValidationError, ValidationResult};

verus! {

/// The stores of one shape, and the minimum distance between its vertices.
///
/// The view of a shape is its stores.
#[derive(Debug)]
pub struct Shape {
    min_distance: fj_math::Scalar,
    stores: Stores,
}

impl View for Shape {
    type V = Stores;

    closed spec fn view(&self) -> Stores {
        self.stores
    }
}

/// The content of what an insertion returned, without the handle.
pub open spec fn outcome_of<T>(result: ValidationResult<T>) -> Result<(), Failure> {
    match result {
        Ok(_) => Ok(()),
        Err(error) => Err(error@),
    }
}

/// Vertices that are apart stay apart while points and vertices stay as
/// they are.
proof fn lemma_vertices_stay_apart(before: Shape, after: Shape)
    requires
        before.vertices_apart(),
        after@.points == before@.points,
        after@.vertices == before@.vertices,
        after.min_distance() == before.min_distance(),
    ensures
        after.vertices_apart(),
{
    assert forall|i: int, j: int| 0 <= i < j < after@.vertices@.len() implies !within(
        #[trigger] after@.position_of(i),
        #[trigger] after@.position_of(j),
        after.min_distance(),
    ) by {
        assert(!within(
            before@.position_of(i),
            before@.position_of(j),
            before.min_distance(),
        ));
    }
}

impl Shape {
    /// The distance below which two vertices count as one.
    pub closed spec fn spec_min_distance(&self) -> fj_math::Scalar {
        self.min_distance
    }

    /// The identifier that the shape was created with.
    pub open spec fn spec_id(&self) -> u64 {
        self@.points.id()
    }

    /// No vertex of the shape lies closer than the minimum distance to a
    /// vertex that was inserted before it.
    pub open spec fn vertices_apart(&self) -> bool {
        forall|i: int, j: int|
            0 <= i < j < self@.vertices@.len() ==> !within(
                #[trigger] self@.position_of(i),
                #[trigger] self@.position_of(j),
                self.min_distance(),
            )
    }

    /// The shape is consistent: its stores carry its identifier, no object
    /// holds a dangling handle, and no two vertices coincide.
    pub open spec fn wf(&self) -> bool {
        &&& self@.identified_by(self.id())
        &&& self@.complete()
        &&& self.vertices_apart()
    }

    /// Creates an empty shape. Its handles are bound to `id`: shapes that are
    /// to be told apart need different identifiers.
    pub fn new(id: u64, min_distance: fj_math::Scalar) -> (shape: Shape)
        ensures
            shape.wf(),
            shape.id() == id,
            shape.min_distance() == min_distance,
            shape@.points@.len() == 0,
            shape@.curves@.len() == 0,
            shape@.surfaces@.len() == 0,
            shape@.vertices@.len() == 0,
            shape@.edges@.len() == 0,
            shape@.cycles@.len() == 0,
            shape@.faces@.len() == 0,
    {
        Shape { min_distance, stores: Stores::new(id) }
    }

    /// The identifier that the shape was created with.
    #[verifier::when_used_as_spec(spec_id)]
    pub fn id(&self) -> (id: u64)
        ensures
            id == self.id(),
    {
        self.stores.points.id()
    }

    /// The distance below which two vertices count as one.
    #[verifier::when_used_as_spec(spec_min_distance)]
    pub fn min_distance(&self) -> (min_distance: fj_math::Scalar)
        ensures
            min_distance == self.min_distance(),
    {
        self.min_distance
    }

    /// The stores of the shape, to read.
    pub fn stores(&self) -> (stores: &Stores)
        ensures
            *stores == self@,
    {
        &self.stores
    }

    /// Inserts a point. A point refers to nothing, so it is always accepted.
    pub fn add_point(&mut self, point: Position) -> (result: ValidationResult<Position>)
        requires
            old(self).wf(),
        ensures
            final(self).wf(),
            final(self).min_distance() == old(self).min_distance(),
            result is Ok,
            result matches Ok(handle) ==> {
                &&& old(self)@.points.grows_by(point, final(self)@.points, handle)
                &&& final(self)@ == (Stores { points: final(self)@.points, ..old(self)@ })
            },
    {
        match point.validate(self.min_distance, &self.stores) {
            Ok(_) => {
                let handle = self.stores.points.insert(point);
                proof {
                    assert forall|i: int| 0 <= i < self@.vertices@.len() implies self@.position_of(
                        i,
                    ) == old(self)@.position_of(i) by {
                        assert(old(self)@.resolves_vertex(old(self)@.vertices@[i]));
                    }
                }
                Ok(handle)
            },
            Err(error) => Err(error),
        }
    }

    /// Inserts a curve. A curve refers to nothing, so it is always accepted.
    pub fn add_curve(&mut self, curve: Curve) -> (result: ValidationResult<Curve>)
        requires
            old(self).wf(),
        ensures
            final(self).wf(),
            final(self).min_distance() == old(self).min_distance(),
            result is Ok,
            result matches Ok(handle) ==> {
                &&& old(self)@.curves.grows_by(curve, final(self)@.curves, handle)
                &&& final(self)@ == (Stores { curves: final(self)@.curves, ..old(self)@ })
            },
    {
        match curve.validate(self.min_distance, &self.stores) {
            Ok(_) => {
                let handle = self.stores.curves.insert(curve);
                proof {
                    assert forall|i: int| 0 <= i < self@.edges@.len() implies self@.resolves_edge(
                        #[trigger] self@.edges@[i],
                    ) by {
                        assert(old(self)@.resolves_edge(old(self)@.edges@[i]));
                    }
                    lemma_vertices_stay_apart(*old(self), *self);
                }
                Ok(handle)
            },
            Err(error) => Err(error),
        }
    }

    /// Inserts a surface. A surface refers to nothing, so it is always
    /// accepted.
    pub fn add_surface(&mut self, surface: Surface) -> (result: ValidationResult<Surface>)
        requires
            old(self).wf(),
        ensures
            final(self).wf(),
            final(self).min_distance() == old(self).min_distance(),
            result is Ok,
            result matches Ok(handle) ==> {
                &&& old(self)@.surfaces.grows_by(surface, final(self)@.surfaces, handle)
                &&& final(self)@ == (Stores { surfaces: final(self)@.surfaces, ..old(self)@ })
            },
    {
        match surface.validate(self.min_distance, &self.stores) {
            Ok(_) => {
                let handle = self.stores.surfaces.insert(surface);
                proof {
                    assert forall|i: int| 0 <= i < self@.faces@.len() implies self@.resolves_face(
                        #[trigger] self@.faces@[i],
                    ) by {
                        assert(old(self)@.resolves_face(old(self)@.faces@[i]));
                    }
                    lemma_vertices_stay_apart(*old(self), *self);
                }
                Ok(handle)
            },
            Err(error) => Err(error),
        }
    }

    /// Inserts a vertex if the shape holds its point and no vertex of the
    /// shape lies closer to it than the minimum distance. If not, the shape
    /// stays as it is and the error says why.
    pub fn add_vertex(&mut self, vertex: Vertex) -> (result: ValidationResult<Vertex>)
        requires
            old(self).wf(),
        ensures
            final(self).wf(),
            final(self).min_distance() == old(self).min_distance(),
            outcome_of(result) == vertex.verdict(old(self).min_distance(), &old(self)@),
            match result {
                Ok(handle) => {
                    &&& old(self)@.vertices.grows_by(vertex, final(self)@.vertices, handle)
                    &&& final(self)@ == (Stores { vertices: final(self)@.vertices, ..old(self)@ })
                },
                Err(error) => error.distinct() && *final(self) == *old(self),
            },
    {
        match vertex.validate(self.min_distance, &self.stores) {
            Ok(_) => {
                let ghost position = self@.points.value(vertex.point)@;
                let handle = self.stores.vertices.insert(vertex);
                proof {
                    let n = old(self)@.vertices@.len() as int;
                    assert forall|i: int| 0 <= i < n implies self@.position_of(i) == old(
                        self,
                    )@.position_of(i) by {}
                    assert(self@.position_of(n) == position);
                    assert forall|i: int, j: int| 0 <= i < j < self@.vertices@.len() implies !within(
                        #[trigger] self@.position_of(i),
                        #[trigger] self@.position_of(j),
                        self.min_distance(),
                    ) by {
                        if j == n {
                            assert(old(self)@.resolves_vertex(old(self)@.vertices@[i]));
                            assert(!crate::validate::coincides_with(
                                &old(self)@,
                                self.min_distance(),
                                position,
                                i,
                            ));
                        } else {
                            assert(!within(
                                old(self)@.position_of(i),
                                old(self)@.position_of(j),
                                self.min_distance(),
                            ));
                        }
                    }
                }
                Ok(handle)
            },
            Err(error) => Err(error),
        }
    }

    /// Inserts an edge if the shape holds its curve and its vertices. If
    /// not, the shape stays as it is and the error names what is missing.
    pub fn add_edge(&mut self, edge: Edge) -> (result: ValidationResult<Edge>)
        requires
            old(self).wf(),
        ensures
            final(self).wf(),
            final(self).min_distance() == old(self).min_distance(),
            outcome_of(result) == edge.verdict(old(self).min_distance(), &old(self)@),
            match result {
                Ok(handle) => {
                    &&& old(self)@.edges.grows_by(edge, final(self)@.edges, handle)
                    &&& final(self)@ == (Stores { edges: final(self)@.edges, ..old(self)@ })
                },
                Err(error) => error.distinct() && *final(self) == *old(self),
            },
    {
        match edge.validate(self.min_distance, &self.stores) {
            Ok(_) => {
                let handle = self.stores.edges.insert(edge);
                proof {
                    lemma_vertices_stay_apart(*old(self), *self);
                }
                Ok(handle)
            },
            Err(error) => Err(error),
        }
    }

    /// Inserts a cycle if the shape holds its edges. If not, the shape stays
    /// as it is and the error names the missing edges.
    pub fn add_cycle(&mut self, cycle: Cycle) -> (result: ValidationResult<Cycle>)
        requires
            old(self).wf(),
        ensures
            final(self).wf(),
            final(self).min_distance() == old(self).min_distance(),
            outcome_of(result) == cycle.verdict(old(self).min_distance(), &old(self)@),
            match result {
                Ok(handle) => {
                    &&& old(self)@.cycles.grows_by(cycle, final(self)@.cycles, handle)
                    &&& final(self)@ == (Stores { cycles: final(self)@.cycles, ..old(self)@ })
                },
                Err(error) => error.distinct() && *final(self) == *old(self),
            },
    {
        match cycle.validate(self.min_distance, &self.stores) {
            Ok(_) => {
                let handle = self.stores.cycles.insert(cycle);
                proof {
                    lemma_vertices_stay_apart(*old(self), *self);
                }
                Ok(handle)
            },
            Err(error) => Err(error),
        }
    }

    /// Inserts a face if the shape holds its surface and its cycles. If not,
    /// the shape stays as it is and the error names what is missing. A face
    /// of triangles is always accepted.
    pub fn add_face(&mut self, face: Face) -> (result: ValidationResult<Face>)
        requires
            old(self).wf(),
        ensures
            final(self).wf(),
            final(self).min_distance() == old(self).min_distance(),
            outcome_of(result) == face.verdict(old(self).min_distance(), &old(self)@),
            match result {
                Ok(handle) => {
                    &&& old(self)@.faces.grows_by(face, final(self)@.faces, handle)
                    &&& final(self)@ == (Stores { faces: final(self)@.faces, ..old(self)@ })
                },
                Err(error) => error.distinct() && *final(self) == *old(self),
            },
    {
        match face.validate(self.min_distance, &self.stores) {
            Ok(_) => {
                let handle = self.stores.faces.insert(face);
                proof {
                    lemma_vertices_stay_apart(*old(self), *self);
                }
                Ok(handle)
            },
            Err(error) => Err(error),
        }
    }
}

} // verus!
