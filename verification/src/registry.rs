//! The handle registry: one store per category of object, which issues the
//! handles and finds the objects again.

use vstd::prelude::*;
use crate::error::Error;

verus! {

/// A handle: an integer that names one object within one registry.
pub type Id = usize;

/// The objects of one category, each under the handle it was registered with.
///
/// The model is the sequence of registered objects: a handle is a position in
/// it. Nothing is ever removed, so a handle, once issued, stays valid and
/// keeps naming the same slot.
pub struct Registry<T> {
    items: Vec<T>,
}

/// The object that `id` names in `objects`, if it names one.
pub open spec fn lookup<T>(objects: Seq<T>, id: Id) -> Option<T> {
    if id < objects.len() {
        Some(objects[id as int])
    } else {
        None
    }
}

/// One registration: `object` enters `before` under the fresh handle `id`,
/// which gives `after`.
pub open spec fn registered<T>(before: Seq<T>, object: T, id: Id, after: Seq<T>) -> bool {
    &&& id == before.len()
    &&& after == before.push(object)
}

impl<T> View for Registry<T> {
    type V = Seq<T>;

    closed spec fn view(&self) -> Seq<T> {
        self.items@
    }
}

impl<T> Registry<T> {
    /// An empty registry.
    pub fn new() -> (registry: Self)
        ensures
            registry@ == Seq::<T>::empty(),
    {
        Registry { items: Vec::new() }
    }

    /// Takes ownership of `object` and returns the fresh handle it now has.
    pub fn register(&mut self, object: T) -> (id: Id)
        ensures
            registered(old(self)@, object, id, final(self)@),
    {
        let id: usize = self.items.len();
        self.items.push(object);
        id
    }

    /// Shared access to the object under `id`.
    pub fn get(&self, id: Id) -> (found: Result<&T, Error>)
        ensures
            match found {
                Ok(object) => lookup(self@, id) == Some(*object),
                Err(e) => e == Error::HandleNotFound && lookup(self@, id) is None,
            },
    {
        if id < self.items.len() {
            Ok(&self.items[id])
        } else {
            Err(Error::HandleNotFound)
        }
    }

    /// Exclusive access to the object under `id`. What the caller writes
    /// through the reference replaces that object and nothing else.
    pub fn get_mut(&mut self, id: Id) -> (found: Result<&mut T, Error>)
        ensures
            match found {
                Ok(object) => {
                    &&& lookup(old(self)@, id) == Some(*object)
                    &&& final(self)@ == old(self)@.update(id as int, *final(object))
                },
                Err(e) => {
                    &&& e == Error::HandleNotFound
                    &&& lookup(old(self)@, id) is None
                    &&& final(self)@ == old(self)@
                },
            },
    {
        if id < self.items.len() {
            Ok(&mut self.items[id])
        } else {
            Err(Error::HandleNotFound)
        }
    }

    /// Whether `id` names an object here.
    pub fn contains(&self, id: Id) -> (present: bool)
        ensures
            present == (lookup(self@, id) is Some),
    {
        id < self.items.len()
    }

    /// How many objects have been registered.
    pub fn len(&self) -> (n: usize)
        ensures
            n == self@.len(),
    {
        self.items.len()
    }
}

/// A run of registrations on one registry: `states[0]` is where it starts,
/// and step `k` registers `objects[k]`, returns `ids[k]` and leaves
/// `states[k + 1]`.
pub open spec fn registration_run<T>(states: Seq<Seq<T>>, objects: Seq<T>, ids: Seq<Id>) -> bool {
    &&& states.len() == objects.len() + 1
    &&& ids.len() == objects.len()
    &&& forall|k: int|
        0 <= k < objects.len() ==> registered(states[k], objects[k], #[trigger] ids[k], states[k + 1])
}

/// In a run of registrations, step `k` issues the handle that lies `k` past
/// the size the registry started with, and the registry then holds the
/// objects it started with followed by those registered so far.
pub proof fn lemma_run_prefix<T>(states: Seq<Seq<T>>, objects: Seq<T>, ids: Seq<Id>, k: int)
    requires
        registration_run(states, objects, ids),
        0 <= k <= objects.len(),
    ensures
        states[k] == states[0] + objects.subrange(0, k),
        k < objects.len() ==> ids[k] == states[0].len() + k,
    decreases k,
{
    if k == 0 {
        assert(objects.subrange(0, 0) =~= Seq::<T>::empty());
        assert(states[0] + Seq::<T>::empty() =~= states[0]);
    } else {
        lemma_run_prefix(states, objects, ids, k - 1);
        let j = k - 1;
        assert(registered(states[j], objects[j], ids[j], states[j + 1]));
        assert(objects.subrange(0, k) =~= objects.subrange(0, j).push(objects[j]));
        assert(states[k] =~= states[0] + objects.subrange(0, k));
    }
    if k < objects.len() {
        assert(registered(states[k], objects[k], ids[k], states[k + 1]));
    }
}

/// Uniqueness: however many objects are registered in one registry, no two
/// of the handles returned are equal.
pub proof fn lemma_handles_distinct<T>(states: Seq<Seq<T>>, objects: Seq<T>, ids: Seq<Id>)
    requires
        registration_run(states, objects, ids),
    ensures
        forall|i: int, j: int| 0 <= i < j < ids.len() ==> ids[i] != ids[j],
{
    assert forall|i: int, j: int| 0 <= i < j < ids.len() implies ids[i] != ids[j] by {
        lemma_run_prefix(states, objects, ids, i);
        lemma_run_prefix(states, objects, ids, j);
    }
}

/// Round trip: looking up the handle that a registration returned finds the
/// object that was registered.
pub proof fn lemma_round_trip<T>(before: Seq<T>, object: T, id: Id, after: Seq<T>)
    requires
        registered(before, object, id, after),
    ensures
        lookup(after, id) == Some(object),
{
}

/// A registration neither moves nor changes what earlier handles name, and
/// makes no handle valid but the one it returns.
pub proof fn lemma_registration_frames<T>(
    before: Seq<T>,
    object: T,
    id: Id,
    after: Seq<T>,
    other: Id,
)
    requires
        registered(before, object, id, after),
        other != id,
    ensures
        lookup(after, other) == lookup(before, other),
{
}

/// Nothing is lost: after a run of registrations every handle issued in it
/// still finds the object it was issued for.
pub proof fn lemma_issued_found<T>(states: Seq<Seq<T>>, objects: Seq<T>, ids: Seq<Id>, k: int)
    requires
        registration_run(states, objects, ids),
        0 <= k < objects.len(),
    ensures
        lookup(states.last(), ids[k]) == Some(objects[k]),
        states.last().len() == states[0].len() + objects.len(),
{
    let n = objects.len() as int;
    lemma_run_prefix(states, objects, ids, k);
    lemma_run_prefix(states, objects, ids, n);
    assert(objects.subrange(0, n) =~= objects);
}

/// Not found: in a registry that started empty, a handle that no
/// registration returned names nothing.
pub proof fn lemma_unissued_not_found<T>(
    states: Seq<Seq<T>>,
    objects: Seq<T>,
    ids: Seq<Id>,
    id: Id,
)
    requires
        registration_run(states, objects, ids),
        states[0].len() == 0,
        forall|k: int| 0 <= k < ids.len() ==> ids[k] != id,
    ensures
        lookup(states.last(), id) is None,
{
    let n = objects.len() as int;
    lemma_run_prefix(states, objects, ids, n);
    assert(objects.subrange(0, n) =~= objects);
    if id < n {
        lemma_run_prefix(states, objects, ids, id as int);
        assert(ids[id as int] == id);
    }
}

} // verus!
