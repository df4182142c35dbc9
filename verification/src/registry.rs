//! The identifier registries: from a qualified name and a member name to
//! the callable handle that the host runtime resolved for them once.

use crate::error::NotFoundError;
use vstd::prelude::*;

verus! {

/// Identifier of a function or method of the host runtime, issued by a
/// registry of the bridge.
///
/// It is the position of the registry's entry, and means nothing to the other
/// side of the boundary.
#[derive(Debug, Clone, Copy, PartialEq, Eq, Hash, Structural)]
pub struct JavaFnId(pub u64);

/// One cached resolution: the two names and the handle resolved for them.
pub struct RegistryEntry<H> {
    pub qualified_name: Seq<char>,
    pub member_name: Seq<char>,
    pub handle: H,
}

/// What a registry holds: its entries, each at the position that is its
/// identifier.
pub struct RegistryView<H> {
    pub entries: Seq<RegistryEntry<H>>,
}

impl<H> RegistryView<H> {
    /// Whether the entry at `i` was resolved for the two names.
    pub open spec fn names_at(self, i: int, qualified_name: Seq<char>, member_name: Seq<char>) -> bool {
        &&& 0 <= i < self.entries.len()
        &&& self.entries[i].qualified_name == qualified_name
        &&& self.entries[i].member_name == member_name
    }

    /// No pair of names is cached twice.
    pub open spec fn wf(self) -> bool {
        forall|i: int, j: int|
            0 <= i < j < self.entries.len() ==> !{
                &&& (#[trigger] self.entries[i]).qualified_name == (
                #[trigger] self.entries[j]).qualified_name
                &&& self.entries[i].member_name == self.entries[j].member_name
            }
    }

    /// The position of the entry cached for the two names.
    pub open spec fn find(self, qualified_name: Seq<char>, member_name: Seq<char>) -> Option<int> {
        if exists|i: int| self.names_at(i, qualified_name, member_name) {
            Some(choose|i: int| self.names_at(i, qualified_name, member_name))
        } else {
            None
        }
    }

    /// The handle cached at position `i`.
    pub open spec fn handle(self, i: int) -> Option<H> {
        if 0 <= i < self.entries.len() {
            Some(self.entries[i].handle)
        } else {
            None
        }
    }

    /// The position that a resolution of the two names yields, where
    /// `looked_up` is what the host runtime answered: the cached position
    /// where there is one, else the position of a new entry for the handle
    /// that was looked up, else nothing.
    pub open spec fn resolution(
        self,
        qualified_name: Seq<char>,
        member_name: Seq<char>,
        looked_up: Option<H>,
    ) -> Option<int> {
        match self.find(qualified_name, member_name) {
            Some(i) => Some(i),
            None => match looked_up {
                Some(_) => Some(self.entries.len() as int),
                None => None,
            },
        }
    }

    /// The registry after that resolution: one entry more where the names
    /// were not cached and the host runtime found the member, else unchanged.
    pub open spec fn resolve(
        self,
        qualified_name: Seq<char>,
        member_name: Seq<char>,
        looked_up: Option<H>,
    ) -> RegistryView<H> {
        match (self.find(qualified_name, member_name), looked_up) {
            (None, Some(handle)) => RegistryView {
                entries: self.entries.push(RegistryEntry { qualified_name, member_name, handle }),
            },
            _ => self,
        }
    }
}

/// One resolution: the two names, and what the host runtime answered.
pub struct Resolution<H> {
    pub qualified_name: Seq<char>,
    pub member_name: Seq<char>,
    pub looked_up: Option<H>,
}

impl<H> RegistryView<H> {
    /// The registry after a sequence of resolutions, first to last.
    pub open spec fn run(self, resolutions: Seq<Resolution<H>>) -> RegistryView<H>
        decreases resolutions.len(),
    {
        if resolutions.len() == 0 {
            self
        } else {
            let last = resolutions.last();
            self.run(resolutions.drop_last()).resolve(
                last.qualified_name,
                last.member_name,
                last.looked_up,
            )
        }
    }

    /// Where names are cached, `find` yields the one position that holds
    /// them.
    pub proof fn lemma_find_is_the_position(
        self,
        i: int,
        qualified_name: Seq<char>,
        member_name: Seq<char>,
    )
        requires
            self.wf(),
            self.names_at(i, qualified_name, member_name),
        ensures
            self.find(qualified_name, member_name) == Some(i),
    {
    }

    /// A resolution keeps what is cached: every identifier issued before it
    /// still stands for the same names and the same handle.
    pub proof fn lemma_resolve_keeps_entries(
        self,
        qualified_name: Seq<char>,
        member_name: Seq<char>,
        looked_up: Option<H>,
    )
        requires
            self.wf(),
        ensures
            self.resolve(qualified_name, member_name, looked_up).wf(),
            self.entries.len() <= self.resolve(qualified_name, member_name, looked_up).entries.len(),
            forall|i: int|
                0 <= i < self.entries.len() ==> #[trigger] self.resolve(
                    qualified_name,
                    member_name,
                    looked_up,
                ).entries[i] == self.entries[i],
    {
        let after = self.resolve(qualified_name, member_name, looked_up);
        if self.find(qualified_name, member_name) is None && looked_up is Some {
            assert forall|i: int, j: int| 0 <= i < j < after.entries.len() implies !{
                &&& (#[trigger] after.entries[i]).qualified_name == (
                #[trigger] after.entries[j]).qualified_name
                &&& after.entries[i].member_name == after.entries[j].member_name
            } by {
                if j == self.entries.len() {
                    assert(!self.names_at(i, qualified_name, member_name));
                }
            }
        }
    }

    /// A resolution of unknown names for which the host runtime has no
    /// member fails and caches nothing.
    pub proof fn lemma_unknown_name_fails(self, qualified_name: Seq<char>, member_name: Seq<char>)
        requires
            self.find(qualified_name, member_name) is None,
        ensures
            self.resolution(qualified_name, member_name, None) is None,
            self.resolve(qualified_name, member_name, None) == self,
    {
    }

    /// Resolving the same names twice yields the same identifier: after a
    /// resolution that succeeded, the names are cached under the identifier
    /// it returned, and a second resolution returns that identifier and
    /// changes nothing, whatever the host runtime answers.
    pub proof fn lemma_resolve_is_idempotent(
        self,
        qualified_name: Seq<char>,
        member_name: Seq<char>,
        first: Option<H>,
        second: Option<H>,
    )
        requires
            self.wf(),
            self.resolution(qualified_name, member_name, first) is Some,
        ensures
            ({
                let id = self.resolution(qualified_name, member_name, first);
                let after = self.resolve(qualified_name, member_name, first);
                &&& after.find(qualified_name, member_name) == id
                &&& after.resolution(qualified_name, member_name, second) == id
                &&& after.resolve(qualified_name, member_name, second) == after
            }),
    {
        let id = self.resolution(qualified_name, member_name, first)->Some_0;
        let after = self.resolve(qualified_name, member_name, first);
        self.lemma_resolve_keeps_entries(qualified_name, member_name, first);
        after.lemma_find_is_the_position(id, qualified_name, member_name);
    }

    /// An identifier is never invalidated: names that are cached keep their
    /// identifier and their handle through every later resolution.
    pub proof fn lemma_identifier_is_stable(
        self,
        i: int,
        qualified_name: Seq<char>,
        member_name: Seq<char>,
        resolutions: Seq<Resolution<H>>,
    )
        requires
            self.wf(),
            self.find(qualified_name, member_name) == Some(i),
        ensures
            self.run(resolutions).wf(),
            self.run(resolutions).find(qualified_name, member_name) == Some(i),
            self.run(resolutions).handle(i) == self.handle(i),
        decreases resolutions.len(),
    {
        if resolutions.len() > 0 {
            let last = resolutions.last();
            let before = self.run(resolutions.drop_last());
            self.lemma_identifier_is_stable(i, qualified_name, member_name, resolutions.drop_last());
            before.lemma_resolve_keeps_entries(last.qualified_name, last.member_name, last.looked_up);
            let after = before.resolve(last.qualified_name, last.member_name, last.looked_up);
            after.lemma_find_is_the_position(i, qualified_name, member_name);
        }
    }
}

struct Entry<H> {
    qualified_name: String,
    member_name: String,
    handle: H,
}

impl<H> View for Entry<H> {
    type V = RegistryEntry<H>;

    closed spec fn view(&self) -> RegistryEntry<H> {
        RegistryEntry {
            qualified_name: self.qualified_name@,
            member_name: self.member_name@,
            handle: self.handle,
        }
    }
}

/// A registry of resolved callable handles.
///
/// Entries are only ever added, so an identifier stays valid, and keeps its
/// handle, for as long as the registry lives.
pub struct Registry<H> {
    entries: Vec<Entry<H>>,
}

impl<H> View for Registry<H> {
    type V = RegistryView<H>;

    closed spec fn view(&self) -> RegistryView<H> {
        RegistryView { entries: Seq::new(self.entries@.len(), |i: int| self.entries@[i]@) }
    }
}

impl<H> Registry<H> {
    #[verifier::type_invariant]
    spec fn inv(&self) -> bool {
        self@.wf()
    }

    /// An empty registry.
    pub fn new() -> (registry: Registry<H>)
        ensures
            registry@.entries.len() == 0,
            registry@.wf(),
    {
        Registry { entries: Vec::new() }
    }

    /// The number of cached resolutions.
    pub fn len(&self) -> (n: usize)
        ensures
            n == self@.entries.len(),
            self@.wf(),
    {
        proof {
            use_type_invariant(self);
        }
        self.entries.len()
    }

    /// The identifier cached for the two names, without asking the host
    /// runtime.
    pub fn lookup(&self, qualified_name: &str, member_name: &str) -> (r: Option<JavaFnId>)
        ensures
            self@.wf(),
            match r {
                Some(id) => self@.find(qualified_name@, member_name@) == Some(id.0 as int),
                None => self@.find(qualified_name@, member_name@) is None,
            },
    {
        proof {
            use_type_invariant(self);
        }
        let wanted_qualified = qualified_name.to_owned();
        let wanted_member = member_name.to_owned();
        let mut i: usize = 0;
        while i < self.entries.len()
            invariant
                i <= self.entries.len(),
                wanted_qualified@ == qualified_name@,
                wanted_member@ == member_name@,
                self@.wf(),
                forall|j: int| 0 <= j < i ==> !self@.names_at(j, qualified_name@, member_name@),
            decreases self.entries.len() - i,
        {
            if self.entries[i].qualified_name == wanted_qualified && self.entries[i].member_name
                == wanted_member {
                assert(self@.names_at(i as int, qualified_name@, member_name@));
                return Some(JavaFnId(i as u64));
            }
            i += 1;
        }
        None
    }

    /// The handle that `id` stands for.
    pub fn handle(&self, id: JavaFnId) -> (r: Option<&H>)
        ensures
            self@.wf(),
            match r {
                Some(handle) => self@.handle(id.0 as int) == Some(*handle),
                None => self@.handle(id.0 as int) is None,
            },
    {
        proof {
            use_type_invariant(self);
        }
        if id.0 < self.entries.len() as u64 {
            Some(&self.entries[id.0 as usize].handle)
        } else {
            None
        }
    }

    /// Completes a resolution of the two names. `looked_up` is what the host
    /// runtime answered when asked for the member: its handle, or `None`
    /// where it has no such member.
    ///
    /// Names that are cached keep their identifier, and `looked_up` is
    /// dropped. Names that are new are cached with the handle that was looked
    /// up. Without a cached entry and without a handle the resolution fails
    /// and the registry stays as it is.
    pub fn resolve(&mut self, qualified_name: &str, member_name: &str, looked_up: Option<H>) -> (r:
        Result<JavaFnId, NotFoundError>)
        ensures
            old(self)@.wf(),
            final(self)@ == old(self)@.resolve(qualified_name@, member_name@, looked_up),
            final(self)@.wf(),
            match r {
                Ok(id) => {
                    &&& old(self)@.resolution(qualified_name@, member_name@, looked_up) == Some(
                        id.0 as int,
                    )
                    &&& final(self)@.find(qualified_name@, member_name@) == Some(id.0 as int)
                },
                Err(e) => old(self)@.resolution(qualified_name@, member_name@, looked_up) is None && e@
                    == "Unable to find method with name"@,
            },
    {
        proof {
            use_type_invariant(&*self);
        }
        proof {
            if self@.resolution(qualified_name@, member_name@, looked_up) is Some {
                self@.lemma_resolve_is_idempotent(qualified_name@, member_name@, looked_up, None);
            }
        }
        match self.lookup(qualified_name, member_name) {
            Some(id) => Ok(id),
            None => match looked_up {
                Some(handle) => {
                    let id = JavaFnId(self.entries.len() as u64);
                    let entry = Entry {
                        qualified_name: qualified_name.to_owned(),
                        member_name: member_name.to_owned(),
                        handle,
                    };
                    let ghost before = self@;
                    let ghost added = entry@;
                    let mut entries = Vec::new();
                    std::mem::swap(&mut self.entries, &mut entries);
                    entries.push(entry);
                    proof {
                        let after = RegistryView {
                            entries: Seq::new(entries@.len(), |i: int| entries@[i]@),
                        };
                        assert(after.entries =~= before.entries.push(added));
                        before.lemma_resolve_keeps_entries(
                            qualified_name@,
                            member_name@,
                            Some(added.handle),
                        );
                    }
                    std::mem::swap(&mut self.entries, &mut entries);
                    Ok(id)
                },
                None => Err(NotFoundError::new("Unable to find method with name")),
            },
        }
    }
}

} // verus!
