//! The object identity table: opaque handles that stand for durable
//! references to objects on the host runtime's heap.

use crate::error::NotFoundError;
use crate::value::ObjectId;
use std::collections::HashMap;
use vstd::prelude::*;

verus! {

broadcast use vstd::std_specs::hash::group_hash_axioms;

/// What an object identity table holds: the live handles with the durable
/// reference behind each, and the handle that the next registration issues.
pub struct ObjectTableView<R> {
    pub objects: Map<u64, R>,
    pub next: u64,
}

impl<R> ObjectTableView<R> {
    /// Every live handle was issued before `next`.
    pub open spec fn wf(self) -> bool {
        forall|k: u64| #[trigger] self.objects.contains_key(k) ==> k < self.next
    }

    /// Whether another handle can be issued.
    pub open spec fn has_room(self) -> bool {
        self.next < u64::MAX
    }

    /// The table after a registration of `object`.
    pub open spec fn register(self, object: R) -> ObjectTableView<R> {
        if self.has_room() {
            ObjectTableView {
                objects: self.objects.insert(self.next, object),
                next: (self.next + 1) as u64,
            }
        } else {
            self
        }
    }

    /// The durable reference that `id` stands for.
    pub open spec fn resolve(self, id: ObjectId) -> Option<R> {
        if self.objects.contains_key(id.0) {
            Some(self.objects[id.0])
        } else {
            None
        }
    }

    /// The table after `id` was unregistered.
    pub open spec fn unregister(self, id: ObjectId) -> ObjectTableView<R> {
        ObjectTableView { objects: self.objects.remove(id.0), next: self.next }
    }
}

/// One change to an object identity table.
pub enum ObjectTableStep<R> {
    Register(R),
    Unregister(ObjectId),
}

impl<R> ObjectTableView<R> {
    /// The table after one change.
    pub open spec fn step(self, change: ObjectTableStep<R>) -> ObjectTableView<R> {
        match change {
            ObjectTableStep::Register(object) => self.register(object),
            ObjectTableStep::Unregister(id) => self.unregister(id),
        }
    }

    /// The table after a sequence of changes, first to last.
    pub open spec fn run(self, changes: Seq<ObjectTableStep<R>>) -> ObjectTableView<R>
        decreases changes.len(),
    {
        if changes.len() == 0 {
            self
        } else {
            self.run(changes.drop_last()).step(changes.last())
        }
    }

    /// A registration issues a handle that was not live, makes it stand for
    /// the object, and leaves every other handle as it was.
    pub proof fn lemma_register_issues_fresh_handle(self, object: R)
        requires
            self.wf(),
            self.has_room(),
        ensures
            self.resolve(ObjectId(self.next)) is None,
            self.register(object).resolve(ObjectId(self.next)) == Some(object),
            forall|id: ObjectId|
                id != ObjectId(self.next) ==> #[trigger] self.register(object).resolve(id)
                    == self.resolve(id),
            self.register(object).wf(),
    {
    }

    /// Once a handle is unregistered it resolves to nothing.
    pub proof fn lemma_unregistered_is_unknown(self, id: ObjectId)
        ensures
            self.unregister(id).resolve(id) is None,
            forall|other: ObjectId|
                other != id ==> #[trigger] self.unregister(id).resolve(other) == self.resolve(
                    other,
                ),
            self.wf() ==> self.unregister(id).wf(),
    {
    }

    /// A handle that this table issued and that was unregistered stays
    /// unknown, whatever is registered or unregistered afterwards: no handle
    /// is issued a second time.
    pub proof fn lemma_unregistered_stays_unknown(
        self,
        id: ObjectId,
        changes: Seq<ObjectTableStep<R>>,
    )
        requires
            self.wf(),
            id.0 < self.next,
        ensures
            self.unregister(id).run(changes).resolve(id) is None,
            self.unregister(id).run(changes).wf(),
            id.0 < self.unregister(id).run(changes).next,
        decreases changes.len(),
    {
        if changes.len() > 0 {
            self.lemma_unregistered_stays_unknown(id, changes.drop_last());
        }
    }

    /// A registration undone by the unregistration of the handle it issued
    /// leaves the live handles as they were and gives the object back: paired
    /// calls leak nothing.
    pub proof fn lemma_register_then_unregister(self, object: R)
        requires
            self.wf(),
            self.has_room(),
        ensures
            self.register(object).unregister(ObjectId(self.next)).objects == self.objects,
            self.register(object).resolve(ObjectId(self.next)) == Some(object),
    {
    }
}

/// The object identity table.
///
/// It owns the durable references: an object stays reachable exactly as long
/// as its entry exists. Handles are issued in increasing order and never
/// again, so a handle that was unregistered stays unknown for good.
pub struct ObjectTable<R> {
    objects: HashMap<u64, R>,
    next: u64,
}

impl<R> View for ObjectTable<R> {
    type V = ObjectTableView<R>;

    closed spec fn view(&self) -> ObjectTableView<R> {
        ObjectTableView { objects: self.objects@, next: self.next }
    }
}

impl<R> ObjectTable<R> {
    #[verifier::type_invariant]
    spec fn inv(&self) -> bool {
        forall|k: u64| #[trigger] self.objects@.contains_key(k) ==> k < self.next
    }

    /// An empty table, whose first handle will be 0.
    pub fn new() -> (table: ObjectTable<R>)
        ensures
            table@.objects == Map::<u64, R>::empty(),
            table@.next == 0,
            table@.wf(),
    {
        ObjectTable { objects: HashMap::new(), next: 0 }
    }

    /// The number of live handles.
    pub fn len(&self) -> (n: usize)
        ensures
            n == self@.objects.len(),
            self@.wf(),
    {
        proof {
            use_type_invariant(self);
        }
        self.objects.len()
    }

    /// Takes ownership of `object` and issues a handle for it. Every call
    /// issues a handle of its own, also for an object registered before.
    ///
    /// Where the handles are used up the table stays as it is and the object
    /// comes back.
    pub fn register(&mut self, object: R) -> (r: Result<ObjectId, R>)
        ensures
            old(self)@.wf(),
            final(self)@ == old(self)@.register(object),
            final(self)@.wf(),
            r == if old(self)@.has_room() {
                Ok::<ObjectId, R>(ObjectId(old(self)@.next))
            } else {
                Err::<ObjectId, R>(object)
            },
    {
        proof {
            use_type_invariant(&*self);
        }
        if self.next == u64::MAX {
            return Err(object);
        }
        let id = self.next;
        self.next = id + 1;
        let mut objects = HashMap::new();
        std::mem::swap(&mut self.objects, &mut objects);
        objects.insert(id, object);
        std::mem::swap(&mut self.objects, &mut objects);
        Ok(ObjectId(id))
    }

    /// The durable reference behind `id`.
    pub fn resolve(&self, id: ObjectId) -> (r: Result<&R, NotFoundError>)
        ensures
            self@.wf(),
            match r {
                Ok(object) => self@.resolve(id) == Some(*object),
                Err(e) => self@.resolve(id) is None && e@ == "C# object not synced to Java"@,
            },
    {
        proof {
            use_type_invariant(self);
        }
        match self.objects.get(&id.0) {
            Some(object) => Ok(object),
            None => Err(NotFoundError::new("C# object not synced to Java")),
        }
    }

    /// Removes `id` from the table and hands its durable reference to the
    /// caller, who releases it. `None` where `id` is not a live handle; the
    /// table is then unchanged.
    pub fn unregister(&mut self, id: ObjectId) -> (r: Option<R>)
        ensures
            old(self)@.wf(),
            final(self)@ == old(self)@.unregister(id),
            final(self)@.wf(),
            r == old(self)@.resolve(id),
    {
        proof {
            use_type_invariant(&*self);
        }
        let mut objects = HashMap::new();
        std::mem::swap(&mut self.objects, &mut objects);
        let removed = objects.remove(&id.0);
        std::mem::swap(&mut self.objects, &mut objects);
        removed
    }
}

} // verus!
