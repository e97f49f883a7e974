//! The table registry of one engine instance: which filesystem identifiers
//! have been registered with the engine, and under which logical table name.
//!
//! The registry only grows. An identifier, once registered, keeps its name
//! for the life of the instance, and no two identifiers share a name: an
//! identifier whose derived name is already taken is not admitted.

use crate::naming::{derive_table_from_fs_name, derived_name};
use vstd::prelude::*;

verus! {

/// One registered table: the filesystem identifier and its logical name.
#[derive(Debug)]
struct RegistryEntry {
    identifier: String,
    table: String,
}

/// How a table reference stands with a registry.
#[derive(Clone, Copy, Debug, PartialEq, Eq, Structural)]
pub enum ResolutionStatus {
    /// The identifier is registered; the engine need not be touched.
    Cached,
    /// The identifier is not registered and its name is free: it newly needs
    /// registration with the engine.
    NeedsRegistration,
    /// The identifier is not registered, and another identifier already holds
    /// its derived name: it cannot be registered.
    Collides,
}

/// What resolving a table reference gives: its logical table name, and how it
/// stands with the registry.
#[derive(Debug)]
pub struct Resolution {
    pub name: String,
    pub status: ResolutionStatus,
}

/// The mapping from filesystem identifiers to logical table names that one
/// engine instance keeps.
#[derive(Debug)]
pub struct TableRegistry {
    entries: Vec<RegistryEntry>,
}

impl View for TableRegistry {
    type V = Map<Seq<char>, Seq<char>>;

    /// The registry as a map from identifier to logical name.
    open spec fn view(&self) -> Map<Seq<char>, Seq<char>> {
        Map::new(|k: Seq<char>| self.identifiers().contains(k), |k: Seq<char>| derived_name(k))
    }
}

impl TableRegistry {
    /// The registered identifiers, in the order of their registration.
    pub closed spec fn identifiers(&self) -> Seq<Seq<char>> {
        Seq::new(self.entries@.len(), |i: int| self.entries@[i].identifier@)
    }

    /// The logical names held, in the order of their registration.
    pub closed spec fn names(&self) -> Seq<Seq<char>> {
        Seq::new(self.entries@.len(), |i: int| self.entries@[i].table@)
    }

    /// The invariant of a registry: every identifier occurs once, holds the
    /// name derived from it, and shares it with no other.
    pub open spec fn wf(&self) -> bool {
        &&& self.identifiers().no_duplicates()
        &&& self.names() == self.identifiers().map_values(|k: Seq<char>| derived_name(k))
        &&& self.names().no_duplicates()
    }

    /// Whether this registry is `earlier` with further registrations.
    pub open spec fn extends(&self, earlier: &TableRegistry) -> bool {
        earlier.identifiers().is_prefix_of(self.identifiers())
    }

    /// How `identifier` stands with this registry.
    pub open spec fn status(&self, identifier: Seq<char>) -> ResolutionStatus {
        if self.identifiers().contains(identifier) {
            ResolutionStatus::Cached
        } else if self.names().contains(derived_name(identifier)) {
            ResolutionStatus::Collides
        } else {
            ResolutionStatus::NeedsRegistration
        }
    }

    /// The identifiers after `identifier` has been offered for registration:
    /// it is added at the end where it newly needs registration, and nothing
    /// changes otherwise.
    pub open spec fn committed(&self, identifier: Seq<char>) -> Seq<Seq<char>> {
        if self.status(identifier) == ResolutionStatus::NeedsRegistration {
            self.identifiers().push(identifier)
        } else {
            self.identifiers()
        }
    }

    /// An empty registry.
    pub fn new() -> (registry: TableRegistry)
        ensures
            registry.wf(),
            registry.identifiers() == Seq::<Seq<char>>::empty(),
            registry@ == Map::<Seq<char>, Seq<char>>::empty(),
    {
        let registry = TableRegistry { entries: Vec::new() };
        assert(registry.identifiers() =~= Seq::empty());
        assert(registry.names() =~= Seq::empty());
        assert(registry.names() =~= registry.identifiers().map_values(
            |k: Seq<char>| derived_name(k),
        ));
        assert(registry@ =~= Map::empty());
        registry
    }

    /// The number of registered identifiers.
    pub fn len(&self) -> (count: usize)
        ensures
            count == self.identifiers().len(),
    {
        self.entries.len()
    }

    /// Whether `identifier` is registered.
    pub fn contains(&self, identifier: &str) -> (found: bool)
        ensures
            found == self@.contains_key(identifier@),
    {
        self.position(identifier).is_some()
    }

    /// The logical name `identifier` is registered under, if it is.
    pub fn lookup(&self, identifier: &str) -> (name: Option<String>)
        requires
            self.wf(),
        ensures
            match name {
                Some(table) => self@.contains_key(identifier@) && table@ == self@[identifier@],
                None => !self@.contains_key(identifier@),
            },
    {
        match self.position(identifier) {
            Some(at) => {
                assert(self.names()[at as int] == self.entries@[at as int].table@);
                Some(self.entries[at].table.clone())
            },
            None => None,
        }
    }

    /// What the table reference `head` becomes in a rewritten statement: its
    /// logical name where it is a registered identifier, and itself where it
    /// is not.
    pub fn rewritten(&self, head: &str) -> (name: String)
        requires
            self.wf(),
        ensures
            name@ == if self@.contains_key(head@) {
                self@[head@]
            } else {
                head@
            },
    {
        match self.lookup(head) {
            Some(table) => table,
            None => head.to_owned(),
        }
    }

    /// Whether some registered identifier holds the logical name `name`.
    pub fn name_taken(&self, name: &str) -> (taken: bool)
        ensures
            taken == self.names().contains(name@),
    {
        let wanted = name.to_owned();
        let mut at: usize = 0;
        while at < self.entries.len()
            invariant
                at <= self.entries.len(),
                wanted@ == name@,
                forall|i: int| 0 <= i < at ==> self.names()[i] != name@,
            decreases self.entries.len() - at,
        {
            assert(self.names()[at as int] == self.entries@[at as int].table@);
            if self.entries[at].table == wanted {
                return true;
            }
            at = at + 1;
        }
        false
    }

    /// Resolves a table reference: gives its logical table name, and says
    /// whether the identifier is registered, newly needs registration, or
    /// cannot be registered because its name is taken.
    pub fn resolve(&self, identifier: &str) -> (resolution: Resolution)
        requires
            self.wf(),
        ensures
            resolution.name@ == derived_name(identifier@),
            resolution.status == self.status(identifier@),
            resolution.status == ResolutionStatus::Cached ==> resolution.name@ == self@[identifier@],
    {
        let name = derive_table_from_fs_name(identifier);
        let status = if self.contains(identifier) {
            ResolutionStatus::Cached
        } else if self.name_taken(name.as_str()) {
            ResolutionStatus::Collides
        } else {
            ResolutionStatus::NeedsRegistration
        };
        Resolution { name, status }
    }

    /// Records that the engine has registered `identifier` under its derived
    /// name. The identifier is added where it newly needs registration; a
    /// registered identifier keeps its entry, and one whose name is taken is
    /// not admitted. Says whether the identifier was added.
    pub fn commit(&mut self, identifier: &str) -> (added: bool)
        requires
            old(self).wf(),
        ensures
            final(self).wf(),
            added == (old(self).status(identifier@) == ResolutionStatus::NeedsRegistration),
            final(self).identifiers() == old(self).committed(identifier@),
            final(self).extends(old(self)),
            added ==> final(self)@ == old(self)@.insert(identifier@, derived_name(identifier@)),
            !added ==> final(self)@ == old(self)@,
    {
        let resolution = self.resolve(identifier);
        match resolution.status {
            ResolutionStatus::NeedsRegistration => {
                let ghost before = *self;
                self.entries.push(
                    RegistryEntry { identifier: identifier.to_owned(), table: resolution.name },
                );
                proof {
                    assert(self.identifiers() =~= before.identifiers().push(identifier@));
                    assert(self.names() =~= before.names().push(derived_name(identifier@)));
                    assert(self.names() =~= self.identifiers().map_values(
                        |k: Seq<char>| derived_name(k),
                    ));
                    assert forall|k: Seq<char>|
                        self.identifiers().contains(k) <==> before.identifiers().contains(k) || k
                            == identifier@ by {
                        let grown = self.identifiers();
                        if before.identifiers().contains(k) {
                            let i = choose|i: int|
                                0 <= i < before.identifiers().len() && before.identifiers()[i] == k;
                            assert(grown[i] == k);
                        }
                        if k == identifier@ {
                            assert(grown[grown.len() - 1] == k);
                        }
                    }
                    assert(self@ =~= before@.insert(identifier@, derived_name(identifier@)));
                }
                true
            },
            _ => false,
        }
    }

    /// The place of `identifier` among the entries, if it is registered.
    fn position(&self, identifier: &str) -> (at: Option<usize>)
        ensures
            match at {
                Some(i) => i < self.entries@.len() && self.identifiers()[i as int] == identifier@,
                None => !self.identifiers().contains(identifier@),
            },
    {
        let wanted = identifier.to_owned();
        let mut at: usize = 0;
        while at < self.entries.len()
            invariant
                at <= self.entries.len(),
                wanted@ == identifier@,
                forall|i: int| 0 <= i < at ==> self.identifiers()[i] != identifier@,
            decreases self.entries.len() - at,
        {
            assert(self.identifiers()[at as int] == self.entries@[at as int].identifier@);
            if self.entries[at].identifier == wanted {
                return Some(at);
            }
            at = at + 1;
        }
        None
    }
}

/// An identifier that is registered stays registered under the same name in
/// every later state of the registry: it never needs registration again.
pub proof fn lemma_registration_is_kept(
    earlier: TableRegistry,
    later: TableRegistry,
    identifier: Seq<char>,
)
    requires
        later.extends(&earlier),
        earlier@.contains_key(identifier),
    ensures
        later@.contains_key(identifier),
        later@[identifier] == earlier@[identifier],
        later.status(identifier) == ResolutionStatus::Cached,
{
    let i = choose|i: int|
        0 <= i < earlier.identifiers().len() && earlier.identifiers()[i] == identifier;
    assert(later.identifiers()[i] == identifier);
}

/// An identifier that newly needs registration is registered once it has
/// been committed, under the name derived from it.
pub proof fn lemma_commit_registers(
    before: TableRegistry,
    after: TableRegistry,
    identifier: Seq<char>,
)
    requires
        before.status(identifier) == ResolutionStatus::NeedsRegistration,
        after.identifiers() == before.committed(identifier),
    ensures
        after.extends(&before),
        after.status(identifier) == ResolutionStatus::Cached,
        after@.contains_key(identifier),
        after@[identifier] == derived_name(identifier),
{
    let grown = after.identifiers();
    assert(grown[grown.len() - 1] == identifier);
}

/// No two registered identifiers share a logical name.
pub proof fn lemma_names_are_unshared(registry: TableRegistry, a: Seq<char>, b: Seq<char>)
    requires
        registry.wf(),
        registry@.contains_key(a),
        registry@.contains_key(b),
        a != b,
    ensures
        registry@[a] != registry@[b],
{
    let identifiers = registry.identifiers();
    let i = choose|i: int| 0 <= i < identifiers.len() && identifiers[i] == a;
    let j = choose|j: int| 0 <= j < identifiers.len() && identifiers[j] == b;
    assert(registry.names()[i] == derived_name(a));
    assert(registry.names()[j] == derived_name(b));
}

} // verus!
