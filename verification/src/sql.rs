//! Parsed SQL statements, as far as this library looks at them.
//!
//! The library does not parse. Whoever calls it parses the text and tells the
//! library, of each statement, its text and the table references it holds, in
//! the order in which a walk over the whole statement meets them; the library
//! answers with the references to put in their place.

use crate::registry::TableRegistry;
use vstd::prelude::*;

verus! {

/// The ways in which a text fails to parse.
#[derive(Clone, Copy, Debug, PartialEq, Eq, Structural)]
pub enum ParseErrorKind {
    /// The text could not be split into tokens.
    Tokenizer,
    /// The tokens do not form statements.
    Syntax,
    /// The text nests deeper than the parser follows.
    RecursionLimit,
}

/// A text's failure to parse, with the detail given.
#[derive(Debug)]
pub struct ParseError {
    pub kind: ParseErrorKind,
    pub detail: String,
}

/// What a table reference becomes when the statement is rewritten: the
/// logical name where the reference is a registered identifier, and the
/// reference itself where it is not.
pub open spec fn rewritten_head(tables: Map<Seq<char>, Seq<char>>, head: Seq<char>) -> Seq<char> {
    if tables.contains_key(head) {
        tables[head]
    } else {
        head
    }
}

/// The table references of a statement after rewriting, one for one.
pub open spec fn rewritten_heads(tables: Map<Seq<char>, Seq<char>>, heads: Seq<Seq<char>>) -> Seq<
    Seq<char>,
> {
    heads.map_values(|head: Seq<char>| rewritten_head(tables, head))
}

/// The texts of the given strings, in order.
pub open spec fn texts(strings: Seq<String>) -> Seq<Seq<char>> {
    strings.map_values(|s: String| s@)
}

/// One parsed SQL statement: its text as it was written, and its table
/// references. A table reference is the first identifier of a relation; the
/// references stand in the order in which a walk over the whole statement
/// meets the relations, subqueries, joins and common table expressions
/// included.
#[derive(Debug, PartialEq, Eq)]
pub struct ParsedStatement {
    text: String,
    relations: Vec<String>,
}

impl ParsedStatement {
    /// The SQL text of the statement.
    pub closed spec fn text(&self) -> Seq<char> {
        self.text@
    }

    /// The table references of the statement, in the order of the walk.
    pub closed spec fn relations(&self) -> Seq<Seq<char>> {
        texts(self.relations@)
    }

    /// The statement with the text `text` and the table references
    /// `relations`.
    pub fn new(text: String, relations: Vec<String>) -> (statement: ParsedStatement)
        ensures
            statement.text() == text@,
            statement.relations() == texts(relations@),
    {
        ParsedStatement { text, relations }
    }

    /// The SQL text of the statement.
    pub fn to_sql(&self) -> (text: String)
        ensures
            text@ == self.text(),
    {
        self.text.clone()
    }

    /// The table references of the statement, in order.
    pub fn relation_heads(&self) -> (heads: &Vec<String>)
        ensures
            texts(heads@) == self.relations(),
    {
        &self.relations
    }

    /// The table references to put in the place of the statement's own, one
    /// for one: for a reference that is a registered identifier its logical
    /// table name, and for every other the reference itself.
    pub fn rewritten_references(&self, registry: &TableRegistry) -> (references: Vec<String>)
        requires
            registry.wf(),
        ensures
            texts(references@) == rewritten_heads(registry@, self.relations()),
    {
        let mut references: Vec<String> = Vec::new();
        let mut at: usize = 0;
        assert(texts(references@) =~= rewritten_heads(registry@, self.relations()).take(0));
        while at < self.relations.len()
            invariant
                at <= self.relations.len(),
                registry.wf(),
                texts(references@) == rewritten_heads(registry@, self.relations()).take(at as int),
            decreases self.relations.len() - at,
        {
            let ghost earlier = texts(references@);
            let name = registry.rewritten(self.relations[at].as_str());
            references.push(name);
            assert(texts(references@) =~= earlier.push(name@));
            assert(rewritten_heads(registry@, self.relations()).take(at + 1) =~= rewritten_heads(
                registry@,
                self.relations(),
            ).take(at as int).push(name@));
            at = at + 1;
        }
        assert(rewritten_heads(registry@, self.relations()).take(self.relations@.len() as int)
            =~= rewritten_heads(registry@, self.relations()));
        references
    }
}

} // verus!
