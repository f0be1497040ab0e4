//! Validation of an object against the stores of a shape.
//!
//! Structural validation asks whether the stores hold every object that the
//! candidate refers to, and names all that are missing at once. Uniqueness
//! validation asks whether a candidate vertex lies closer than the minimum
//! distance to a vertex that the stores already hold. Geometric objects refer
//! to nothing and are always valid.

use vstd::prelude::*;
use vstd::std_specs::convert::FromSpecImpl;
use crate::geometry::{Curve, Position, Surface};
use crate::math::within;
use crate::stores::{absent, all_present, Handle, Store, Stores};
use crate::topology::{Cycle, Edge, Face, Vertex};

verus! {

/// What an insertion into a shape returns: the handle of the inserted
/// object, or the reason why it was not inserted.
pub type ValidationResult<T> = Result<Handle<T>, ValidationError>;

/// The objects that a candidate refers to and the stores do not hold.
///
/// Edge validation fills `missing_curve` and `missing_vertices`, cycle
/// validation `missing_edges`, face validation `missing_surface` and
/// `missing_cycles`. Each list is a set: validation enters no handle twice.
#[derive(Debug)]
pub struct StructuralIssues {
    /// The curve of the edge, if the stores do not hold it.
    pub missing_curve: Option<Handle<Curve>>,
    /// The vertices of the edge that the stores do not hold.
    pub missing_vertices: Vec<Handle<Vertex>>,
    /// The edges of the cycle that the stores do not hold.
    pub missing_edges: Vec<Handle<Edge>>,
    /// The surface of the face, if the stores do not hold it.
    pub missing_surface: Option<Handle<Surface>>,
    /// The cycles of the face that the stores do not hold, exterior and
    /// interior ones alike.
    pub missing_cycles: Vec<Handle<Cycle>>,
}

/// The content of [`StructuralIssues`], with its lists as sets.
pub struct Issues {
    /// The missing curve.
    pub missing_curve: Option<Handle<Curve>>,
    /// The missing vertices.
    pub missing_vertices: Set<Handle<Vertex>>,
    /// The missing edges.
    pub missing_edges: Set<Handle<Edge>>,
    /// The missing surface.
    pub missing_surface: Option<Handle<Surface>>,
    /// The missing cycles.
    pub missing_cycles: Set<Handle<Cycle>>,
}

impl Issues {
    /// Nothing is missing.
    pub open spec fn none() -> Issues {
        Issues {
            missing_curve: None,
            missing_vertices: Set::empty(),
            missing_edges: Set::empty(),
            missing_surface: None,
            missing_cycles: Set::empty(),
        }
    }
}

impl View for StructuralIssues {
    type V = Issues;

    open spec fn view(&self) -> Issues {
        Issues {
            missing_curve: self.missing_curve,
            missing_vertices: self.missing_vertices@.to_set(),
            missing_edges: self.missing_edges@.to_set(),
            missing_surface: self.missing_surface,
            missing_cycles: self.missing_cycles@.to_set(),
        }
    }
}

impl StructuralIssues {
    /// No list holds a handle twice.
    pub open spec fn distinct(&self) -> bool {
        &&& self.missing_vertices@.no_duplicates()
        &&& self.missing_edges@.no_duplicates()
        &&& self.missing_cycles@.no_duplicates()
    }
}

impl Default for StructuralIssues {
    /// Issues that name nothing as missing.
    fn default() -> (issues: StructuralIssues)
        ensures
            issues@ == Issues::none(),
            issues.distinct(),
            issues.missing_vertices@.len() == 0,
            issues.missing_edges@.len() == 0,
            issues.missing_cycles@.len() == 0,
    {
        let issues = StructuralIssues {
            missing_curve: None,
            missing_vertices: Vec::new(),
            missing_edges: Vec::new(),
            missing_surface: None,
            missing_cycles: Vec::new(),
        };
        assert(issues.missing_vertices@.to_set() =~= Set::empty());
        assert(issues.missing_edges@.to_set() =~= Set::empty());
        assert(issues.missing_cycles@.to_set() =~= Set::empty());
        issues
    }
}

/// Why an object was not accepted.
#[derive(Debug)]
pub enum ValidationError {
    /// The candidate refers to objects that the stores do not hold.
    Structure(StructuralIssues),
    /// The candidate vertex lies closer than the minimum distance to a
    /// vertex that the stores hold.
    Uniqueness,
    /// A geometric constraint is violated. No validation answers this yet.
    Geometric,
}

/// The content of a [`ValidationError`], with the lists of missing handles as
/// sets.
pub enum Failure {
    /// Objects are missing.
    Structure(Issues),
    /// The vertex is not unique.
    Uniqueness,
    /// A geometric constraint is violated.
    Geometric,
}

impl View for ValidationError {
    type V = Failure;

    open spec fn view(&self) -> Failure {
        match *self {
            ValidationError::Structure(issues) => Failure::Structure(issues@),
            ValidationError::Uniqueness => Failure::Uniqueness,
            ValidationError::Geometric => Failure::Geometric,
        }
    }
}

impl From<StructuralIssues> for ValidationError {
    fn from(issues: StructuralIssues) -> (error: ValidationError) {
        ValidationError::Structure(issues)
    }
}

impl FromSpecImpl<StructuralIssues> for ValidationError {
    open spec fn obeys_from_spec() -> bool {
        true
    }

    open spec fn from_spec(issues: StructuralIssues) -> ValidationError {
        ValidationError::Structure(issues)
    }
}

/// Whether `handles` holds `handle`.
fn holds<T>(handles: &Vec<Handle<T>>, handle: &Handle<T>) -> (r: bool)
    ensures
        r == handles@.contains(*handle),
{
    let mut i: usize = 0;
    while i < handles.len()
        invariant
            i <= handles@.len(),
            forall|j: int| 0 <= j < i ==> handles@[j] != *handle,
        decreases handles@.len() - i,
    {
        if handles[i] == *handle {
            return true;
        }
        i += 1;
    }
    false
}

/// Enters `handle` into `missing` if `store` did not issue it and `missing`
/// does not hold it yet.
fn note_if_absent<T>(store: &Store<T>, handle: Handle<T>, missing: &mut Vec<Handle<T>>)
    requires
        old(missing)@.no_duplicates(),
    ensures
        final(missing)@.no_duplicates(),
        store.has(handle) ==> final(missing)@ == old(missing)@,
        !store.has(handle) ==> final(missing)@.to_set() == old(missing)@.to_set().insert(handle),
        old(missing)@.to_set().subset_of(final(missing)@.to_set()),
{
    if !store.contains(&handle) {
        if !holds(missing, &handle) {
            let ghost before = missing@;
            missing.push(handle);
            assert forall|h: Handle<T>| missing@.contains(h) <==> before.contains(h) || h
                == handle by {
                if before.contains(h) {
                    let j = choose|j: int| 0 <= j < before.len() && before[j] == h;
                    assert(missing@[j] == h);
                }
                if h == handle {
                    assert(missing@[before.len() as int] == h);
                }
            }
            assert(missing@.to_set() =~= before.to_set().insert(handle));
        } else {
            assert(missing@.to_set() =~= missing@.to_set().insert(handle));
        }
    }
}

/// Enters into `missing` every handle of `handles` that `store` did not
/// issue.
fn note_all_absent<T>(store: &Store<T>, handles: &Vec<Handle<T>>, missing: &mut Vec<Handle<T>>)
    requires
        old(missing)@.no_duplicates(),
    ensures
        final(missing)@.no_duplicates(),
        final(missing)@.to_set() == old(missing)@.to_set().union(absent(*store, handles@)),
{
    let mut i: usize = 0;
    assert(missing@.to_set() =~= old(missing)@.to_set().union(
        absent(*store, handles@.take(0)),
    ));
    while i < handles.len()
        invariant
            i <= handles@.len(),
            missing@.no_duplicates(),
            missing@.to_set() == old(missing)@.to_set().union(
                absent(*store, handles@.take(i as int)),
            ),
        decreases handles@.len() - i,
    {
        let ghost before = missing@.to_set();
        note_if_absent(store, handles[i], missing);
        proof {
            let seen = handles@.take(i as int);
            let next = handles@.take(i + 1);
            assert(next == seen.push(handles@[i as int]));
            assert forall|h: Handle<T>| next.contains(h) <==> seen.contains(h) || h
                == handles@[i as int] by {
                if seen.contains(h) {
                    let j = choose|j: int| 0 <= j < seen.len() && seen[j] == h;
                    assert(next[j] == h);
                }
                if h == handles@[i as int] {
                    assert(next[i as int] == h);
                }
            }
            assert(missing@.to_set() =~= old(missing)@.to_set().union(absent(*store, next)));
        }
        i += 1;
    }
    assert(handles@.take(i as int) == handles@);
}

/// All handles of `handles` are present exactly if none of them is absent.
proof fn lemma_present_or_absent<T>(store: Store<T>, handles: Seq<Handle<T>>)
    ensures
        all_present(store, handles) <==> absent(store, handles) == Set::<Handle<T>>::empty(),
{
    if all_present(store, handles) {
        assert forall|h: Handle<T>| !absent(store, handles).contains(h) by {
            if handles.contains(h) {
                let i = choose|i: int| 0 <= i < handles.len() && handles[i] == h;
                assert(store.has(handles[i]));
            }
        }
        assert(absent(store, handles) =~= Set::<Handle<T>>::empty());
    }
    if absent(store, handles) == Set::<Handle<T>>::empty() {
        assert forall|i: int| 0 <= i < handles.len() implies store.has(#[trigger] handles[i]) by {
            assert(handles.contains(handles[i]));
            assert(!absent(store, handles).contains(handles[i]));
        }
    }
}

/// What is absent from two sequences joined is what is absent from either.
proof fn lemma_absent_of_joined<T>(store: Store<T>, first: Seq<Handle<T>>, second: Seq<Handle<T>>)
    ensures
        absent(store, first + second) == absent(store, first).union(absent(store, second)),
{
    let joined = first + second;
    assert forall|h: Handle<T>| joined.contains(h) <==> first.contains(h) || second.contains(
        h,
    ) by {
        if first.contains(h) {
            let i = choose|i: int| 0 <= i < first.len() && first[i] == h;
            assert(joined[i] == h);
        }
        if second.contains(h) {
            let i = choose|i: int| 0 <= i < second.len() && second[i] == h;
            assert(joined[first.len() + i] == h);
        }
        if joined.contains(h) {
            let i = choose|i: int| 0 <= i < joined.len() && joined[i] == h;
            if i < first.len() {
                assert(first[i] == h);
            } else {
                assert(second[i - first.len()] == h);
            }
        }
    }
    assert(absent(store, joined) =~= absent(store, first).union(absent(store, second)));
}

/// A list is empty exactly if it holds nothing.
proof fn lemma_empty_list<T>(handles: Seq<Handle<T>>)
    ensures
        handles.len() == 0 <==> handles.to_set() == Set::<Handle<T>>::empty(),
{
    if handles.len() == 0 {
        assert(handles.to_set() =~= Set::<Handle<T>>::empty());
    } else {
        assert(handles.contains(handles[0]));
        assert(handles.to_set().contains(handles[0]));
    }
}

impl ValidationError {
    /// No list of missing handles holds a handle twice.
    pub open spec fn distinct(&self) -> bool {
        match *self {
            ValidationError::Structure(issues) => issues.distinct(),
            _ => true,
        }
    }
}

/// The content of what a validation returned.
pub open spec fn outcome(result: Result<(), ValidationError>) -> Result<(), Failure> {
    match result {
        Ok(_) => Ok(()),
        Err(error) => Err(error@),
    }
}

/// The vertex in slot `slot` of the stores lies at a point that the stores
/// hold, closer than `min_distance` to `position`.
pub open spec fn coincides_with(
    stores: &Stores,
    min_distance: fj_math::Scalar,
    position: fj_math::Point<3>,
    slot: int,
) -> bool {
    &&& 0 <= slot < stores.vertices@.len()
    &&& stores.points.has(stores.vertices@[slot].point)
    &&& within(stores.position_of(slot), position, min_distance)
}

/// Some vertex of the stores lies closer than `min_distance` to `position`.
pub open spec fn coincides(
    stores: &Stores,
    min_distance: fj_math::Scalar,
    position: fj_math::Point<3>,
) -> bool {
    exists|slot: int| coincides_with(stores, min_distance, position, slot)
}

/// An object that can be checked against the stores of a shape.
pub trait Validate {
    /// What validation of the object against `stores` answers.
    spec fn verdict(&self, min_distance: fj_math::Scalar, stores: &Stores) -> Result<(), Failure>;

    /// Checks the object against `stores`, which are left as they are.
    /// `min_distance` is the distance below which two vertices count as one.
    fn validate(&self, min_distance: fj_math::Scalar, stores: &Stores) -> (result: Result<
        (),
        ValidationError,
    >)
        ensures
            outcome(result) == self.verdict(min_distance, stores),
            result matches Err(error) ==> error.distinct(),
    ;
}

impl Validate for Face {
    /// A face in boundary representation is valid if the stores hold its
    /// surface and all its cycles. If not, the issues name the surface, if it
    /// is missing, and every missing cycle, exterior or interior. A face of
    /// triangles is valid.
    open spec fn verdict(&self, min_distance: fj_math::Scalar, stores: &Stores) -> Result<
        (),
        Failure,
    > {
        match *self {
            Face::Face { surface, .. } => {
                if stores.resolves_face(*self) {
                    Ok(())
                } else {
                    Err(
                        Failure::Structure(
                            Issues {
                                missing_curve: None,
                                missing_vertices: Set::empty(),
                                missing_edges: Set::empty(),
                                missing_surface: if stores.surfaces.has(surface) {
                                    None
                                } else {
                                    Some(surface)
                                },
                                missing_cycles: absent(stores.cycles, self.cycle_handles()),
                            },
                        ),
                    )
                }
            },
            Face::Triangles(_) => Ok(()),
        }
    }

    fn validate(&self, min_distance: fj_math::Scalar, stores: &Stores) -> (result: Result<
        (),
        ValidationError,
    >) {
        match self {
            Face::Face { surface, exteriors, interiors, .. } => {
                let mut missing_surface: Option<Handle<Surface>> = None;
                let mut missing_cycles: Vec<Handle<Cycle>> = Vec::new();

                if !stores.surfaces.contains(surface) {
                    missing_surface = Some(*surface);
                }
                note_all_absent(&stores.cycles, exteriors, &mut missing_cycles);
                note_all_absent(&stores.cycles, interiors, &mut missing_cycles);

                proof {
                    lemma_absent_of_joined(stores.cycles, exteriors@, interiors@);
                    lemma_present_or_absent(stores.cycles, self.cycle_handles());
                    lemma_empty_list(missing_cycles@);
                    assert(missing_cycles@.to_set() =~= absent(
                        stores.cycles,
                        self.cycle_handles(),
                    ));
                }
                if missing_surface.is_some() || missing_cycles.len() != 0 {
                    let blank = StructuralIssues::default();
                    return Err(
                        ValidationError::from(
                            StructuralIssues {
                                missing_curve: blank.missing_curve,
                                missing_vertices: blank.missing_vertices,
                                missing_edges: blank.missing_edges,
                                missing_surface,
                                missing_cycles,
                            },
                        ),
                    );
                }
                Ok(())
            },
            Face::Triangles(_) => Ok(()),
        }
    }
}

impl Validate for Edge {
    /// An edge is valid if the stores hold its curve and each of its
    /// vertices. If not, the issues name the curve, if it is missing, and
    /// every missing vertex.
    open spec fn verdict(&self, min_distance: fj_math::Scalar, stores: &Stores) -> Result<
        (),
        Failure,
    > {
        if stores.resolves_edge(*self) {
            Ok(())
        } else {
            Err(
                Failure::Structure(
                    Issues {
                        missing_curve: if stores.curves.has(self.curve) {
                            None
                        } else {
                            Some(self.curve)
                        },
                        missing_vertices: absent(stores.vertices, self.vertex_handles()),
                        missing_edges: Set::empty(),
                        missing_surface: None,
                        missing_cycles: Set::empty(),
                    },
                ),
            )
        }
    }

    fn validate(&self, min_distance: fj_math::Scalar, stores: &Stores) -> (result: Result<
        (),
        ValidationError,
    >) {
        let mut missing_curve: Option<Handle<Curve>> = None;
        let mut missing_vertices: Vec<Handle<Vertex>> = Vec::new();

        if !stores.curves.contains(&self.curve) {
            missing_curve = Some(self.curve);
        }
        match &self.vertices {
            Some(ends) => {
                note_if_absent(&stores.vertices, ends[0], &mut missing_vertices);
                note_if_absent(&stores.vertices, ends[1], &mut missing_vertices);
                proof {
                    let pair = self.vertex_handles();
                    assert forall|h: Handle<Vertex>| pair.contains(h) <==> h == ends@[0] || h
                        == ends@[1] by {
                        if h == ends@[0] {
                            assert(pair[0] == h);
                        }
                        if h == ends@[1] {
                            assert(pair[1] == h);
                        }
                    }
                    assert(missing_vertices@.to_set() =~= absent(stores.vertices, pair));
                }
            },
            None => {
                assert(missing_vertices@.to_set() =~= absent(
                    stores.vertices,
                    self.vertex_handles(),
                ));
            },
        }

        proof {
            lemma_present_or_absent(stores.vertices, self.vertex_handles());
            lemma_empty_list(missing_vertices@);
        }
        if missing_curve.is_some() || missing_vertices.len() != 0 {
            let blank = StructuralIssues::default();
            return Err(
                ValidationError::from(
                    StructuralIssues {
                        missing_curve,
                        missing_vertices,
                        missing_edges: blank.missing_edges,
                        missing_surface: blank.missing_surface,
                        missing_cycles: blank.missing_cycles,
                    },
                ),
            );
        }
        Ok(())
    }
}

impl Validate for Cycle {
    /// A cycle is valid if the stores hold each of its edges. If not, the
    /// issues name every missing edge. Whether the edges close, overlap or
    /// repeat another cycle is not asked.
    open spec fn verdict(&self, min_distance: fj_math::Scalar, stores: &Stores) -> Result<
        (),
        Failure,
    > {
        if stores.resolves_cycle(*self) {
            Ok(())
        } else {
            Err(
                Failure::Structure(
                    Issues {
                        missing_curve: None,
                        missing_vertices: Set::empty(),
                        missing_edges: absent(stores.edges, self.edges@),
                        missing_surface: None,
                        missing_cycles: Set::empty(),
                    },
                ),
            )
        }
    }

    fn validate(&self, min_distance: fj_math::Scalar, stores: &Stores) -> (result: Result<
        (),
        ValidationError,
    >) {
        let mut missing_edges: Vec<Handle<Edge>> = Vec::new();
        note_all_absent(&stores.edges, &self.edges, &mut missing_edges);

        proof {
            lemma_present_or_absent(stores.edges, self.edges@);
            lemma_empty_list(missing_edges@);
            assert(missing_edges@.to_set() =~= absent(stores.edges, self.edges@));
        }
        if missing_edges.len() != 0 {
            let blank = StructuralIssues::default();
            return Err(
                ValidationError::from(
                    StructuralIssues {
                        missing_curve: blank.missing_curve,
                        missing_vertices: blank.missing_vertices,
                        missing_edges,
                        missing_surface: blank.missing_surface,
                        missing_cycles: blank.missing_cycles,
                    },
                ),
            );
        }
        Ok(())
    }
}

impl Validate for Vertex {
    /// A vertex whose point the stores do not hold fails structurally, with
    /// issues that name nothing. Otherwise it fails for uniqueness if some
    /// vertex of the stores lies closer to it than `min_distance`, and is
    /// valid if none does.
    open spec fn verdict(&self, min_distance: fj_math::Scalar, stores: &Stores) -> Result<
        (),
        Failure,
    > {
        if !stores.points.has(self.point) {
            Err(Failure::Structure(Issues::none()))
        } else if coincides(stores, min_distance, stores.points.value(self.point)@) {
            Err(Failure::Uniqueness)
        } else {
            Ok(())
        }
    }

    fn validate(&self, min_distance: fj_math::Scalar, stores: &Stores) -> (result: Result<
        (),
        ValidationError,
    >) {
        let candidate = match stores.points.get(&self.point) {
            Some(point) => point,
            None => {
                return Err(ValidationError::from(StructuralIssues::default()));
            },
        };
        let handles = stores.vertices.handles();
        let mut i: usize = 0;
        while i < handles.len()
            invariant
                i <= handles@.len(),
                handles@.len() == stores.vertices@.len(),
                stores.points.has(self.point),
                *candidate == stores.points.value(self.point),
                forall|j: int|
                    0 <= j < handles@.len() ==> (#[trigger] handles@[j]).store_id()
                        == stores.vertices.id() && handles@[j].slot() == j,
                forall|j: int| 0 <= j < i ==> !coincides_with(stores, min_distance, candidate@, j),
            decreases handles@.len() - i,
        {
            assert(stores.vertices.has(handles@[i as int]));
            match stores.vertices.get(&handles[i]) {
                Some(existing) => {
                    match stores.points.get(&existing.point) {
                        Some(point) => {
                            if point.closer_than(candidate, &min_distance) {
                                assert(coincides_with(stores, min_distance, candidate@, i as int));
                                return Err(ValidationError::Uniqueness);
                            }
                        },
                        None => {},
                    }
                },
                None => {},
            }
            i += 1;
        }
        Ok(())
    }
}

impl Validate for Position {
    /// A point is valid.
    open spec fn verdict(&self, min_distance: fj_math::Scalar, stores: &Stores) -> Result<
        (),
        Failure,
    > {
        Ok(())
    }

    fn validate(&self, min_distance: fj_math::Scalar, stores: &Stores) -> (result: Result<
        (),
        ValidationError,
    >) {
        Ok(())
    }
}

impl Validate for Curve {
    /// A curve is valid.
    open spec fn verdict(&self, min_distance: fj_math::Scalar, stores: &Stores) -> Result<
        (),
        Failure,
    > {
        Ok(())
    }

    fn validate(&self, min_distance: fj_math::Scalar, stores: &Stores) -> (result: Result<
        (),
        ValidationError,
    >) {
        Ok(())
    }
}

impl Validate for Surface {
    /// A surface is valid.
    open spec fn verdict(&self, min_distance: fj_math::Scalar, stores: &Stores) -> Result<
        (),
        Failure,
    > {
        Ok(())
    }

    fn validate(&self, min_distance: fj_math::Scalar, stores: &Stores) -> (result: Result<
        (),
        ValidationError,
    >) {
        Ok(())
    }
}

impl ValidationError {
    /// Whether validation found `curve` missing.
    pub fn missing_curve(&self, curve: &Handle<Curve>) -> (r: bool)
        ensures
            r == (self@ matches Failure::Structure(issues) && issues.missing_curve == Some(
                *curve,
            )),
    {
        match self {
            ValidationError::Structure(issues) => {
                match &issues.missing_curve {
                    Some(missing) => *missing == *curve,
                    None => false,
                }
            },
            _ => false,
        }
    }

    /// Whether validation found `vertex` missing.
    pub fn missing_vertex(&self, vertex: &Handle<Vertex>) -> (r: bool)
        ensures
            r == (self@ matches Failure::Structure(issues) && issues.missing_vertices.contains(
                *vertex,
            )),
    {
        match self {
            ValidationError::Structure(issues) => holds(&issues.missing_vertices, vertex),
            _ => false,
        }
    }

    /// Whether validation found `edge` missing.
    pub fn missing_edge(&self, edge: &Handle<Edge>) -> (r: bool)
        ensures
            r == (self@ matches Failure::Structure(issues) && issues.missing_edges.contains(
                *edge,
            )),
    {
        match self {
            ValidationError::Structure(issues) => holds(&issues.missing_edges, edge),
            _ => false,
        }
    }

    /// Whether validation found `surface` missing.
    pub fn missing_surface(&self, surface: &Handle<Surface>) -> (r: bool)
        ensures
            r == (self@ matches Failure::Structure(issues) && issues.missing_surface == Some(
                *surface,
            )),
    {
        match self {
            ValidationError::Structure(issues) => {
                match &issues.missing_surface {
                    Some(missing) => *missing == *surface,
                    None => false,
                }
            },
            _ => false,
        }
    }

    /// Whether validation found `cycle` missing.
    pub fn missing_cycle(&self, cycle: &Handle<Cycle>) -> (r: bool)
        ensures
            r == (self@ matches Failure::Structure(issues) && issues.missing_cycles.contains(
                *cycle,
            )),
    {
        match self {
            ValidationError::Structure(issues) => holds(&issues.missing_cycles, cycle),
            _ => false,
        }
    }
}

} // verus!
