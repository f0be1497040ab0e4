//! Building a polygon from the insertions of a shape.
//!
//! A polygon is a face whose one boundary is a closed chain of edges. It is
//! inserted object by object, each through the validation of the shape:
//! the surface, a point and a vertex for every corner, a curve and an edge
//! for every side, the cycle of the edges, the face. Only a vertex can be
//! rejected on the way, where a corner lies too close to a vertex that is
//! there already. What was inserted up to then stays in the shape.

use vstd::prelude::*;
use crate::geometry::{Curve, Position, Surface};
use crate::math::within;
use crate::shape::Shape;
use crate::stores::{Handle, Store, Stores};
use crate::topology::{Cycle, Edge, Face, Vertex};
use crate::validate::{coincides, coincides_with, Failure, Validate, ValidationResult};

verus! {

/// `after` holds what `before` held, in the same slots, and `added` objects
/// after them.
pub open spec fn extends<T>(before: Store<T>, after: Store<T>, added: int) -> bool {
    &&& after.id() == before.id()
    &&& after@.len() == before@.len() + added
    &&& forall|slot: int| 0 <= slot < before@.len() ==> #[trigger] after@[slot] == before@[slot]
}

/// Corner `k` cannot become a vertex: it lies closer than `min_distance` to a
/// vertex that the stores held before the polygon, or to a corner before it.
pub open spec fn clashes(
    before: &Stores,
    min_distance: fj_math::Scalar,
    corners: Seq<(Position, Curve)>,
    k: int,
) -> bool {
    ||| coincides(before, min_distance, corners[k].0@)
    ||| exists|j: int|
        0 <= j < k && within((#[trigger] corners[j]).0@, corners[k].0@, min_distance)
}

/// `after` is `before` with the surface, the points of the first `points`
/// corners and the vertices of the first `vertices` corners inserted, each
/// vertex at the point of its corner.
pub open spec fn laid_out(
    before: &Stores,
    after: &Stores,
    surface: Surface,
    corners: Seq<(Position, Curve)>,
    points: int,
    vertices: int,
) -> bool {
    &&& extends(before.surfaces, after.surfaces, 1)
    &&& after.surfaces@[before.surfaces@.len() as int] == surface
    &&& extends(before.points, after.points, points)
    &&& forall|slot: int|
        before.points@.len() <= slot < before.points@.len() + points
            ==> #[trigger] after.points@[slot] == corners[slot - before.points@.len()].0
    &&& extends(before.vertices, after.vertices, vertices)
    &&& forall|slot: int|
        before.vertices@.len() <= slot < before.vertices@.len() + vertices ==> (
        #[trigger] after.vertices@[slot]).point == before.points.handle_at(
            slot - before.vertices@.len() + before.points@.len(),
        )
}

/// `edge` is side `j` of a polygon of `n` corners that was inserted into
/// `before`: it follows the curve of the side from the vertex of corner `j`
/// to the vertex of the next corner, which for the last side is the first
/// corner.
pub open spec fn is_side(edge: Edge, before: &Stores, n: int, j: int) -> bool {
    &&& edge.curve == before.curves.handle_at(before.curves@.len() + j)
    &&& edge.vertex_handles() == seq![
        before.vertices.handle_at(before.vertices@.len() + j),
        before.vertices.handle_at(
            before.vertices@.len() + if j + 1 < n {
                j + 1
            } else {
                0
            },
        ),
    ]
}

/// `after` is `before` with the whole polygon inserted, and `face` is the
/// handle of its face.
pub open spec fn polygon_added(
    before: &Stores,
    after: &Stores,
    surface: Surface,
    corners: Seq<(Position, Curve)>,
    color: [u8; 4],
    face: Handle<Face>,
) -> bool {
    let n = corners.len() as int;
    &&& laid_out(before, after, surface, corners, n, n)
    &&& extends(before.curves, after.curves, n)
    &&& forall|slot: int|
        before.curves@.len() <= slot < before.curves@.len() + n
            ==> #[trigger] after.curves@[slot] == corners[slot - before.curves@.len()].1
    &&& extends(before.edges, after.edges, n)
    &&& forall|slot: int|
        before.edges@.len() <= slot < before.edges@.len() + n ==> is_side(
            #[trigger] after.edges@[slot],
            before,
            n,
            slot - before.edges@.len(),
        )
    &&& extends(before.cycles, after.cycles, 1)
    &&& after.cycles@[before.cycles@.len() as int].edges@ == Seq::new(
        n as nat,
        |j: int| before.edges.handle_at(before.edges@.len() + j),
    )
    &&& extends(before.faces, after.faces, 1)
    &&& after.faces@[before.faces@.len() as int] matches Face::Face {
        surface: in_surface,
        exteriors,
        interiors,
        color: in_color,
    }
    &&& in_surface == before.surfaces.handle_at(before.surfaces@.len() as int)
    &&& exteriors@ == seq![before.cycles.handle_at(before.cycles@.len() as int)]
    &&& interiors@ == Seq::<Handle<Cycle>>::empty()
    &&& in_color == color
    &&& face == before.faces.handle_at(before.faces@.len() as int)
}

/// `after` is `before` with the polygon inserted up to corner `k`, which
/// was the first to clash: the surface is in, the points of the corners up to
/// and with `k`, the vertices of the corners before `k`, and nothing else.
pub open spec fn polygon_stopped(
    before: &Stores,
    after: &Stores,
    min_distance: fj_math::Scalar,
    surface: Surface,
    corners: Seq<(Position, Curve)>,
    k: int,
) -> bool {
    &&& 0 <= k < corners.len()
    &&& clashes(before, min_distance, corners, k)
    &&& forall|j: int| 0 <= j < k ==> !clashes(before, min_distance, corners, j)
    &&& laid_out(before, after, surface, corners, k + 1, k)
    &&& after.curves == before.curves
    &&& after.edges == before.edges
    &&& after.cycles == before.cycles
    &&& after.faces == before.faces
}

/// With the corners before `k` in place as vertices, corner `k` coincides
/// with a vertex of the stores exactly if it clashes.
proof fn lemma_clash_is_coincidence(
    before: &Stores,
    now: &Stores,
    min_distance: fj_math::Scalar,
    surface: Surface,
    corners: Seq<(Position, Curve)>,
    k: int,
)
    requires
        0 <= k < corners.len(),
        before.complete(),
        laid_out(before, now, surface, corners, k + 1, k),
        now.points@.len() <= usize::MAX,
    ensures
        coincides(now, min_distance, corners[k].0@) <==> clashes(
            before,
            min_distance,
            corners,
            k,
        ),
{
    let target = corners[k].0@;
    let old_vertices = before.vertices@.len() as int;
    let old_points = before.points@.len() as int;
    assert forall|slot: int| 0 <= slot < old_vertices implies now.points.has(
        (#[trigger] now.vertices@[slot]).point,
    ) && now.position_of(slot) == before.position_of(slot) by {
        assert(now.vertices@[slot] == before.vertices@[slot]);
        assert(before.resolves_vertex(before.vertices@[slot]));
        let at = before.vertices@[slot].point.slot();
        assert(now.points@[at] == before.points@[at]);
    }
    assert forall|slot: int| old_vertices <= slot < old_vertices + k implies now.points.has(
        (#[trigger] now.vertices@[slot]).point,
    ) && now.position_of(slot) == corners[slot - old_vertices].0@ by {
        before.points.lemma_handle_at(slot - old_vertices + old_points);
        assert(now.vertices@[slot].point == before.points.handle_at(slot - old_vertices + old_points));
        assert(now.points@[slot - old_vertices + old_points] == corners[slot - old_vertices].0);
    }
    if coincides(now, min_distance, target) {
        let slot = choose|slot: int| coincides_with(now, min_distance, target, slot);
        if slot < old_vertices {
            assert(coincides_with(before, min_distance, target, slot));
        } else {
            assert(within(corners[slot - old_vertices].0@, target, min_distance));
        }
    }
    if clashes(before, min_distance, corners, k) {
        if coincides(before, min_distance, target) {
            let slot = choose|slot: int| coincides_with(before, min_distance, target, slot);
            assert(coincides_with(now, min_distance, target, slot));
        } else {
            let j = choose|j: int|
                0 <= j < k && within((#[trigger] corners[j]).0@, target, min_distance);
            assert(now.points.has(now.vertices@[old_vertices + j].point));
            assert(now.position_of(old_vertices + j) == corners[old_vertices + j - old_vertices].0@);
            assert(coincides_with(now, min_distance, target, old_vertices + j));
        }
    }
}

impl Shape {
    /// Inserts a polygon in `surface`. Each entry of `corners` is a corner
    /// with the curve of the side that leaves it; the side that leaves the
    /// last corner ends in the first.
    ///
    /// The polygon is inserted if no corner clashes. The shape then holds
    /// the surface, the points and vertices of all corners, the curves and
    /// edges of all sides, the cycle of these edges and the face, whose
    /// handle is returned. If a corner clashes, the first such corner is
    /// rejected for uniqueness; the surface, the points up to that corner and
    /// the vertices before it stay in the shape.
    pub fn add_polygon(
        &mut self,
        surface: Surface,
        corners: Vec<(Position, Curve)>,
        color: [u8; 4],
    ) -> (result: ValidationResult<Face>)
        requires
            old(self).wf(),
        ensures
            final(self).wf(),
            final(self).min_distance() == old(self).min_distance(),
            match result {
                Ok(face) => {
                    &&& forall|k: int|
                        0 <= k < corners@.len() ==> !clashes(
                            &old(self)@,
                            old(self).min_distance(),
                            corners@,
                            k,
                        )
                    &&& polygon_added(&old(self)@, &final(self)@, surface, corners@, color, face)
                },
                Err(error) => {
                    &&& error@ == Failure::Uniqueness
                    &&& exists|k: int|
                        polygon_stopped(
                            &old(self)@,
                            &final(self)@,
                            old(self).min_distance(),
                            surface,
                            corners@,
                            k,
                        )
                },
            },
    {
        let ghost before = *old(self);
        let ghost min_distance = before.min_distance();
        let n = corners.len();
        proof {
            before@.points.lemma_len_bounded();
            before@.vertices.lemma_len_bounded();
        }

        let in_surface = match self.add_surface(surface) {
            Ok(handle) => handle,
            Err(error) => {
                return Err(error);
            },
        };

        let mut vertices: Vec<Handle<Vertex>> = Vec::new();
        let mut i: usize = 0;
        while i < n
            invariant
                n == corners@.len(),
                i <= n,
                before == *old(self),
                before.wf(),
                self.wf(),
                self.min_distance() == min_distance,
                min_distance == before.min_distance(),
                laid_out(&before@, &self@, surface, corners@, i as int, i as int),
                self@.curves == before@.curves,
                self@.edges == before@.edges,
                self@.cycles == before@.cycles,
                self@.faces == before@.faces,
                in_surface == before@.surfaces.handle_at(before@.surfaces@.len() as int),
                forall|j: int| 0 <= j < i ==> !clashes(&before@, min_distance, corners@, j),
                vertices@.len() == i,
                forall|j: int|
                    0 <= j < i ==> #[trigger] vertices@[j] == before@.vertices.handle_at(
                        before@.vertices@.len() + j,
                    ),
            decreases n - i,
        {
            let ghost start = *self;
            let point = match self.add_point(corners[i].0) {
                Ok(handle) => handle,
                Err(error) => {
                    return Err(error);
                },
            };
            let ghost placed = *self;
            proof {
                placed@.points.lemma_len_bounded();
                placed@.vertices.lemma_len_bounded();
                before@.points.lemma_handle_at(before@.points@.len() + i);
                assert(laid_out(&before@, &placed@, surface, corners@, i + 1, i as int));
                lemma_clash_is_coincidence(
                    &before@,
                    &placed@,
                    min_distance,
                    surface,
                    corners@,
                    i as int,
                );
            }
            let vertex = match self.add_vertex(Vertex { point }) {
                Ok(handle) => handle,
                Err(error) => {
                    assert(polygon_stopped(
                        &before@,
                        &self@,
                        min_distance,
                        surface,
                        corners@,
                        i as int,
                    ));
                    return Err(error);
                },
            };
            proof {
                before@.vertices.lemma_handle_at(before@.vertices@.len() + i);
                assert(laid_out(&before@, &self@, surface, corners@, i + 1, i + 1));
            }
            vertices.push(vertex);
            i += 1;
        }

        let ghost laid = *self;
        let mut edges: Vec<Handle<Edge>> = Vec::new();
        let mut i: usize = 0;
        while i < n
            invariant
                n == corners@.len(),
                i <= n,
                before == *old(self),
                before.wf(),
                self.wf(),
                self.min_distance() == min_distance,
                laid_out(&before@, &laid@, surface, corners@, n as int, n as int),
                self@.surfaces == laid@.surfaces,
                self@.points == laid@.points,
                self@.vertices == laid@.vertices,
                extends(before@.curves, self@.curves, i as int),
                forall|slot: int|
                    before@.curves@.len() <= slot < before@.curves@.len() + i
                        ==> #[trigger] self@.curves@[slot] == corners@[slot
                        - before@.curves@.len()].1,
                extends(before@.edges, self@.edges, i as int),
                forall|slot: int|
                    before@.edges@.len() <= slot < before@.edges@.len() + i ==> is_side(
                        #[trigger] self@.edges@[slot],
                        &before@,
                        n as int,
                        slot - before@.edges@.len(),
                    ),
                self@.cycles == before@.cycles,
                self@.faces == before@.faces,
                vertices@.len() == n,
                forall|j: int|
                    0 <= j < n ==> #[trigger] vertices@[j] == before@.vertices.handle_at(
                        before@.vertices@.len() + j,
                    ),
                edges@.len() == i,
                forall|j: int|
                    0 <= j < i ==> #[trigger] edges@[j] == before@.edges.handle_at(
                        before@.edges@.len() + j,
                    ),
            decreases n - i,
        {
            let curve = match self.add_curve(corners[i].1) {
                Ok(handle) => handle,
                Err(error) => {
                    return Err(error);
                },
            };
            let next = if i + 1 < n {
                i + 1
            } else {
                0
            };
            let side = Edge { curve, vertices: Some([vertices[i], vertices[next]]) };
            proof {
                self@.curves.lemma_len_bounded();
                self@.edges.lemma_len_bounded();
                self@.vertices.lemma_len_bounded();
                before@.curves.lemma_handle_at(before@.curves@.len() + i);
                before@.edges.lemma_handle_at(before@.edges@.len() + i);
                before@.vertices.lemma_handle_at(before@.vertices@.len() + i);
                before@.vertices.lemma_handle_at(before@.vertices@.len() + next);
                assert(side.vertex_handles() =~= seq![vertices@[i as int], vertices@[next as int]]);
                assert(is_side(side, &before@, n as int, i as int));
                assert(self@.resolves_edge(side));
            }
            let edge = match self.add_edge(side) {
                Ok(handle) => handle,
                Err(error) => {
                    return Err(error);
                },
            };
            edges.push(edge);
            i += 1;
        }

        let ghost chain = edges@;
        proof {
            self@.edges.lemma_len_bounded();
            self@.cycles.lemma_len_bounded();
            self@.faces.lemma_len_bounded();
            self@.surfaces.lemma_len_bounded();
            assert forall|j: int| 0 <= j < chain.len() implies self@.edges.has(
                #[trigger] chain[j],
            ) by {
                before@.edges.lemma_handle_at(before@.edges@.len() + j);
            }
            assert(chain =~= Seq::new(
                n as nat,
                |j: int| before@.edges.handle_at(before@.edges@.len() + j),
            ));
        }
        let cycle = match self.add_cycle(Cycle { edges }) {
            Ok(handle) => handle,
            Err(error) => {
                return Err(error);
            },
        };

        let mut exteriors: Vec<Handle<Cycle>> = Vec::new();
        exteriors.push(cycle);
        let face = Face::Face { surface: in_surface, exteriors, interiors: Vec::new(), color };
        proof {
            before@.cycles.lemma_handle_at(before@.cycles@.len() as int);
            before@.surfaces.lemma_handle_at(before@.surfaces@.len() as int);
            before@.faces.lemma_handle_at(before@.faces@.len() as int);
            assert(face.cycle_handles() =~= seq![cycle]);
            assert(self@.resolves_face(face));
        }
        self.add_face(face)
    }
}

} // verus!
