//! Append-only stores and the handles that refer into them.
//!
//! A [`Store`] keeps objects of one kind in the order of their insertion and
//! never removes or changes one. Inserting an object yields a [`Handle`],
//! which names the store by its identifier and the object by its slot. A
//! handle stays valid as long as its store lives.

use vstd::prelude::*;
use vstd::std_specs::cmp::PartialEqSpecImpl;
use core::marker::PhantomData;
use crate::geometry::{Curve, Position, Surface};
use crate::topology::{Cycle, Edge, Face, Vertex};

verus! {

/// A reference to one object of kind `T` in one store.
///
/// Two handles are equal if they name the same slot of the same store; what
/// the objects in those slots hold plays no part.
#[derive(Debug, Hash)]
pub struct Handle<T> {
    store: u64,
    slot: usize,
    kind: PhantomData<T>,
}

impl<T> Handle<T> {
    /// The identifier of the store that issued the handle.
    pub closed spec fn store_id(&self) -> u64 {
        self.store
    }

    /// The slot of the object in that store: the number of objects inserted
    /// before it.
    pub closed spec fn slot(&self) -> int {
        self.slot as int
    }

    /// Handles are compared by identity: two handles are equal exactly if
    /// they name the same slot of the same store.
    pub proof fn law_handles_equal_by_identity(a: Handle<T>, b: Handle<T>)
        ensures
            a == b <==> a.store_id() == b.store_id() && a.slot() == b.slot(),
    {
    }
}

impl<T> Clone for Handle<T> {
    fn clone(&self) -> (r: Self)
        ensures
            r == *self,
    {
        Handle { store: self.store, slot: self.slot, kind: PhantomData }
    }
}

impl<T> Copy for Handle<T> {}

impl<T> PartialEq for Handle<T> {
    fn eq(&self, other: &Self) -> (r: bool) {
        self.store == other.store && self.slot == other.slot
    }
}

impl<T> Eq for Handle<T> {}

impl<T> PartialEqSpecImpl for Handle<T> {
    open spec fn obeys_eq_spec() -> bool {
        true
    }

    open spec fn eq_spec(&self, other: &Self) -> bool {
        *self == *other
    }
}

/// An append-only collection of objects of kind `T`.
///
/// The view of a store is the sequence of its objects in insertion order.
#[derive(Debug)]
pub struct Store<T> {
    id: u64,
    objects: Vec<T>,
}

impl<T> View for Store<T> {
    type V = Seq<T>;

    closed spec fn view(&self) -> Seq<T> {
        self.objects@
    }
}

impl<T> Store<T> {
    /// The identifier that the store was created with.
    pub closed spec fn spec_id(&self) -> u64 {
        self.id
    }

    /// The number of objects in the store.
    pub open spec fn spec_len(&self) -> usize {
        self@.len() as usize
    }

    /// `handle` was issued by this store.
    pub open spec fn has(&self, handle: Handle<T>) -> bool {
        handle.store_id() == self.id() && 0 <= handle.slot() < self@.len()
    }

    /// The object that `handle` refers to, where `self.has(handle)`.
    pub open spec fn value(&self, handle: Handle<T>) -> T
        recommends
            self.has(handle),
    {
        self@[handle.slot()]
    }

    /// The handle that this store issues for the object in slot `slot`.
    pub closed spec fn handle_at(&self, slot: int) -> Handle<T> {
        Handle { store: self.id, slot: slot as usize, kind: PhantomData }
    }

    /// `after` is this store after one insertion of `value`, for which it
    /// issued `handle`: `value` was appended, and `handle` names its slot.
    pub open spec fn grows_by(&self, value: T, after: Store<T>, handle: Handle<T>) -> bool {
        &&& after.id() == self.id()
        &&& after@ == self@.push(value)
        &&& handle == self.handle_at(self@.len() as int)
        &&& handle.store_id() == self.id()
        &&& handle.slot() == self@.len()
    }

    /// A store holds no more objects than can be counted.
    pub proof fn lemma_len_bounded(&self)
        ensures
            self@.len() <= usize::MAX,
    {
        assert(self.objects.len() == self.objects@.len());
    }

    /// The handle for a slot names this store and that slot, and a handle
    /// that does so is the handle for the slot.
    pub proof fn lemma_handle_at(&self, slot: int)
        requires
            0 <= slot <= usize::MAX,
        ensures
            self.handle_at(slot).store_id() == self.id(),
            self.handle_at(slot).slot() == slot,
            forall|handle: Handle<T>|
                handle.store_id() == self.id() && handle.slot() == slot ==> handle
                    == self.handle_at(slot),
    {
    }

    /// Creates an empty store. Stores that are to be told apart need
    /// different identifiers: a handle is bound to the identifier of the
    /// store that issued it.
    pub fn new(id: u64) -> (store: Store<T>)
        ensures
            store.id() == id,
            store@ == Seq::<T>::empty(),
    {
        Store { id, objects: Vec::new() }
    }

    /// The identifier that the store was created with.
    #[verifier::when_used_as_spec(spec_id)]
    pub fn id(&self) -> (id: u64)
        ensures
            id == self.id(),
    {
        self.id
    }

    /// The number of objects in the store.
    #[verifier::when_used_as_spec(spec_len)]
    pub fn len(&self) -> (len: usize)
        ensures
            len == self@.len(),
    {
        self.objects.len()
    }

    /// Appends `value` and returns the handle that refers to it from now on.
    /// Nothing is compared: inserting a value twice stores it twice.
    pub fn insert(&mut self, value: T) -> (handle: Handle<T>)
        ensures
            old(self).grows_by(value, *final(self), handle),
    {
        let slot = self.objects.len();
        self.objects.push(value);
        Handle { store: self.id, slot, kind: PhantomData }
    }

    /// Whether `handle` was issued by this store.
    pub fn contains(&self, handle: &Handle<T>) -> (r: bool)
        ensures
            r == self.has(*handle),
    {
        handle.store == self.id && handle.slot < self.objects.len()
    }

    /// The object that `handle` refers to, if this store issued the handle.
    pub fn get(&self, handle: &Handle<T>) -> (r: Option<&T>)
        ensures
            r is Some <==> self.has(*handle),
            r matches Some(value) ==> *value == self.value(*handle),
    {
        if handle.store == self.id && handle.slot < self.objects.len() {
            Some(&self.objects[handle.slot])
        } else {
            None
        }
    }

    /// The handles of all objects in the store, in insertion order.
    pub fn handles(&self) -> (handles: Vec<Handle<T>>)
        ensures
            handles@.len() == self@.len(),
            forall|i: int|
                0 <= i < handles@.len() ==> (#[trigger] handles@[i]).store_id() == self.id()
                    && handles@[i].slot() == i,
            forall|i: int| 0 <= i < handles@.len() ==> #[trigger] handles@[i] == self.handle_at(i),
    {
        let mut handles: Vec<Handle<T>> = Vec::new();
        let n = self.objects.len();
        let mut i: usize = 0;
        while i < n
            invariant
                n == self.objects@.len(),
                i <= n,
                handles@.len() == i,
                forall|j: int|
                    0 <= j < i ==> (#[trigger] handles@[j]).store == self.id && handles@[j].slot
                        == j,
            decreases n - i,
        {
            handles.push(Handle { store: self.id, slot: i, kind: PhantomData });
            i += 1;
        }
        handles
    }

    /// Two insertions, of equal values or not, yield two different handles,
    /// and the store tells them apart: each refers to its own slot, and
    /// neither was known to the store before its insertion.
    pub proof fn law_insertions_yield_distinct_handles(
        before: Store<T>,
        first_value: T,
        between: Store<T>,
        first: Handle<T>,
        second_value: T,
        after: Store<T>,
        second: Handle<T>,
    )
        requires
            before.grows_by(first_value, between, first),
            between.grows_by(second_value, after, second),
        ensures
            first != second,
            !before.has(first),
            between.has(first),
            !between.has(second),
            after.has(first),
            after.has(second),
            after.value(first) == first_value,
            after.value(second) == second_value,
            after@.len() == before@.len() + 2,
    {
    }

    /// A store only grows: after an insertion every handle that the store had
    /// issued before still refers to the object it referred to, and the one
    /// new handle refers to the inserted value.
    pub proof fn law_handles_persist(before: Store<T>, value: T, after: Store<T>, handle: Handle<T>)
        requires
            before.grows_by(value, after, handle),
        ensures
            forall|h: Handle<T>| before.has(h) ==> after.has(h) && after.value(h) == before.value(h),
            forall|h: Handle<T>| after.has(h) ==> before.has(h) || h == handle,
            !before.has(handle),
            after.value(handle) == value,
    {
    }

    /// Stores with different identifiers share no handle, whatever their
    /// slots hold.
    pub proof fn law_stores_share_no_handle(a: Store<T>, b: Store<T>, handle: Handle<T>)
        requires
            a.id() != b.id(),
        ensures
            !(a.has(handle) && b.has(handle)),
    {
    }
}

/// The stores of a shape: one for each kind of object.
///
/// The stores are independent of each other. A handle is typed by the kind
/// of its object, so a handle of one store is never taken for a handle of
/// another, whichever slots they name.
#[derive(Debug)]
pub struct Stores {
    /// The points.
    pub points: Store<Position>,
    /// The curves.
    pub curves: Store<Curve>,
    /// The surfaces.
    pub surfaces: Store<Surface>,
    /// The vertices.
    pub vertices: Store<Vertex>,
    /// The edges.
    pub edges: Store<Edge>,
    /// The cycles.
    pub cycles: Store<Cycle>,
    /// The faces.
    pub faces: Store<Face>,
}

/// Every handle of `handles` was issued by `store`.
pub open spec fn all_present<T>(store: Store<T>, handles: Seq<Handle<T>>) -> bool {
    forall|i: int| 0 <= i < handles.len() ==> store.has(#[trigger] handles[i])
}

/// The handles of `handles` that `store` did not issue.
pub open spec fn absent<T>(store: Store<T>, handles: Seq<Handle<T>>) -> Set<Handle<T>> {
    Set::new(|handle: Handle<T>| handles.contains(handle) && !store.has(handle))
}

impl Stores {
    /// All seven stores carry the identifier `id`.
    pub open spec fn identified_by(&self, id: u64) -> bool {
        &&& self.points.id() == id
        &&& self.curves.id() == id
        &&& self.surfaces.id() == id
        &&& self.vertices.id() == id
        &&& self.edges.id() == id
        &&& self.cycles.id() == id
        &&& self.faces.id() == id
    }

    /// Where the vertex in slot `slot` lies, if the stores hold its point.
    pub open spec fn position_of(&self, slot: int) -> fj_math::Point<3>
        recommends
            0 <= slot < self.vertices@.len(),
            self.points.has(self.vertices@[slot].point),
    {
        self.points.value(self.vertices@[slot].point)@
    }

    /// The stores hold every object that `vertex` refers to.
    pub open spec fn resolves_vertex(&self, vertex: Vertex) -> bool {
        self.points.has(vertex.point)
    }

    /// The stores hold every object that `edge` refers to.
    pub open spec fn resolves_edge(&self, edge: Edge) -> bool {
        self.curves.has(edge.curve) && all_present(self.vertices, edge.vertex_handles())
    }

    /// The stores hold every object that `cycle` refers to.
    pub open spec fn resolves_cycle(&self, cycle: Cycle) -> bool {
        all_present(self.edges, cycle.edges@)
    }

    /// The stores hold every object that `face` refers to.
    pub open spec fn resolves_face(&self, face: Face) -> bool {
        match face {
            Face::Face { surface, .. } => self.surfaces.has(surface) && all_present(
                self.cycles,
                face.cycle_handles(),
            ),
            Face::Triangles(_) => true,
        }
    }

    /// No stored object holds a dangling handle: whatever a vertex, an edge,
    /// a cycle or a face of these stores refers to is in these stores too.
    pub open spec fn complete(&self) -> bool {
        &&& forall|i: int|
            0 <= i < self.vertices@.len() ==> self.resolves_vertex(#[trigger] self.vertices@[i])
        &&& forall|i: int|
            0 <= i < self.edges@.len() ==> self.resolves_edge(#[trigger] self.edges@[i])
        &&& forall|i: int|
            0 <= i < self.cycles@.len() ==> self.resolves_cycle(#[trigger] self.cycles@[i])
        &&& forall|i: int|
            0 <= i < self.faces@.len() ==> self.resolves_face(#[trigger] self.faces@[i])
    }

    /// Creates seven empty stores, all with the identifier `id`.
    pub fn new(id: u64) -> (stores: Stores)
        ensures
            stores.identified_by(id),
            stores.points@.len() == 0,
            stores.curves@.len() == 0,
            stores.surfaces@.len() == 0,
            stores.vertices@.len() == 0,
            stores.edges@.len() == 0,
            stores.cycles@.len() == 0,
            stores.faces@.len() == 0,
            stores.complete(),
    {
        Stores {
            points: Store::new(id),
            curves: Store::new(id),
            surfaces: Store::new(id),
            vertices: Store::new(id),
            edges: Store::new(id),
            cycles: Store::new(id),
            faces: Store::new(id),
        }
    }
}

} // verus!
