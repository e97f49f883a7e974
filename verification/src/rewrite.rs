//! Which table references of a statement have yet to be registered, and what
//! rewriting makes of a statement's references.

use crate::naming::derived_name;
use crate::registry::TableRegistry;
use crate::sql::{rewritten_heads, texts};
use vstd::prelude::*;

verus! {

/// The table references among `heads` that are not registered in `tables`,
/// each once, in the order in which they first occur.
pub open spec fn unresolved(tables: Map<Seq<char>, Seq<char>>, heads: Seq<Seq<char>>) -> Seq<
    Seq<char>,
>
    decreases heads.len(),
{
    if heads.len() == 0 {
        Seq::empty()
    } else {
        let earlier = unresolved(tables, heads.drop_last());
        let head = heads.last();
        if tables.contains_key(head) || earlier.contains(head) {
            earlier
        } else {
            earlier.push(head)
        }
    }
}

/// Whether `wanted` is among `strings`.
pub fn holds(strings: &Vec<String>, wanted: &String) -> (found: bool)
    ensures
        found == texts(strings@).contains(wanted@),
{
    let mut at: usize = 0;
    while at < strings.len()
        invariant
            at <= strings.len(),
            forall|i: int| 0 <= i < at ==> texts(strings@)[i] != wanted@,
        decreases strings.len() - at,
    {
        assert(texts(strings@)[at as int] == strings@[at as int]@);
        if strings[at] == *wanted {
            return true;
        }
        at = at + 1;
    }
    false
}

/// The table references among `heads` that have yet to be registered: each
/// identifier that `registry` does not hold, once, in the order of its first
/// occurrence.
pub fn pending_registrations(registry: &TableRegistry, heads: &Vec<String>) -> (pending: Vec<
    String,
>)
    ensures
        texts(pending@) == unresolved(registry@, texts(heads@)),
{
    let mut pending: Vec<String> = Vec::new();
    let mut at: usize = 0;
    assert(texts(heads@).take(0) =~= Seq::empty());
    assert(texts(pending@) =~= Seq::empty());
    while at < heads.len()
        invariant
            at <= heads.len(),
            texts(pending@) == unresolved(registry@, texts(heads@).take(at as int)),
        decreases heads.len() - at,
    {
        let ghost seen = texts(heads@).take(at as int);
        let ghost grown = texts(heads@).take(at + 1);
        let ghost earlier = texts(pending@);
        assert(grown.drop_last() =~= seen);
        assert(grown.last() == heads@[at as int]@);
        if !registry.contains(heads[at].as_str()) && !holds(&pending, &heads[at]) {
            pending.push(heads[at].clone());
            assert(texts(pending@) =~= earlier.push(heads@[at as int]@));
        }
        at = at + 1;
    }
    assert(texts(heads@).take(heads@.len() as int) =~= texts(heads@));
    pending
}

/// Every pending registration is a table reference of the statement that the
/// registry does not hold, and every such reference is pending.
pub proof fn lemma_unresolved_members(
    tables: Map<Seq<char>, Seq<char>>,
    heads: Seq<Seq<char>>,
    identifier: Seq<char>,
)
    ensures
        unresolved(tables, heads).contains(identifier) <==> heads.contains(identifier)
            && !tables.contains_key(identifier),
    decreases heads.len(),
{
    if heads.len() > 0 {
        let shorter = heads.drop_last();
        let earlier = unresolved(tables, shorter);
        let head = heads.last();
        lemma_unresolved_members(tables, shorter, identifier);
        assert(heads =~= shorter.push(head));
        assert(heads.contains(identifier) <==> shorter.contains(identifier) || identifier == head)
            by {
            if shorter.contains(identifier) {
                let i = choose|i: int| 0 <= i < shorter.len() && shorter[i] == identifier;
                assert(heads[i] == identifier);
            }
            if identifier == head {
                assert(heads[heads.len() - 1] == identifier);
            }
            if heads.contains(identifier) {
                let i = choose|i: int| 0 <= i < heads.len() && heads[i] == identifier;
                if i < shorter.len() {
                    assert(shorter[i] == identifier);
                }
            }
        }
        if !(tables.contains_key(head) || earlier.contains(head)) {
            let grown = earlier.push(head);
            assert(grown.contains(identifier) <==> earlier.contains(identifier) || identifier
                == head) by {
                if earlier.contains(identifier) {
                    let i = choose|i: int| 0 <= i < earlier.len() && earlier[i] == identifier;
                    assert(grown[i] == identifier);
                }
                if identifier == head {
                    assert(grown[grown.len() - 1] == identifier);
                }
            }
        }
    }
}

/// However often a statement refers to one unregistered identifier, the
/// identifier is pending once: it is offered to the engine one time.
pub proof fn lemma_unresolved_distinct(tables: Map<Seq<char>, Seq<char>>, heads: Seq<Seq<char>>)
    ensures
        unresolved(tables, heads).no_duplicates(),
    decreases heads.len(),
{
    if heads.len() > 0 {
        lemma_unresolved_distinct(tables, heads.drop_last());
    }
}

/// Rewriting gives equal table references equal names: a statement that
/// refers to one identifier in several places is rewritten to one table name
/// in all of them.
pub proof fn lemma_equal_references_rewrite_alike(
    tables: Map<Seq<char>, Seq<char>>,
    heads: Seq<Seq<char>>,
    i: int,
    j: int,
)
    requires
        0 <= i < heads.len(),
        0 <= j < heads.len(),
        heads[i] == heads[j],
    ensures
        rewritten_heads(tables, heads).len() == heads.len(),
        rewritten_heads(tables, heads)[i] == rewritten_heads(tables, heads)[j],
{
}

/// A reference that is registered is rewritten to the name derived from it.
pub proof fn lemma_registered_reference_is_renamed(
    registry: TableRegistry,
    heads: Seq<Seq<char>>,
    i: int,
)
    requires
        0 <= i < heads.len(),
        registry@.contains_key(heads[i]),
    ensures
        rewritten_heads(registry@, heads)[i] == derived_name(heads[i]),
{
}

/// A reference that is not registered passes through rewriting unchanged: a
/// failed registration leaves the statement's own token in place.
pub proof fn lemma_unregistered_reference_passes_through(
    tables: Map<Seq<char>, Seq<char>>,
    heads: Seq<Seq<char>>,
    i: int,
)
    requires
        0 <= i < heads.len(),
        !tables.contains_key(heads[i]),
    ensures
        rewritten_heads(tables, heads)[i] == heads[i],
{
}

} // verus!
