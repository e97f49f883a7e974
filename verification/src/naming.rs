//! Derivation of logical table names from filesystem table references.

use vstd::prelude::*;
use vstd::string::StringExecFns;

verus! {

/// The literal every logical table name starts with.
pub const TABLE_PREFIX: &'static str = "tbl_";

/// The characters of [`TABLE_PREFIX`].
pub open spec fn table_prefix() -> Seq<char> {
    seq!['t', 'b', 'l', '_']
}

/// The final path component of `path`: everything after its last `/`, or all
/// of `path` where it holds none.
pub open spec fn last_segment(path: Seq<char>) -> Seq<char>
    decreases path.len(),
{
    if path.len() == 0 {
        path
    } else if path.last() == '/' {
        Seq::empty()
    } else {
        last_segment(path.drop_last()).push(path.last())
    }
}

/// What one character of a path component becomes in a table name.
pub open spec fn normalized(c: char) -> char {
    if c == '.' || c == '-' || c == '*' {
        '_'
    } else {
        c
    }
}

/// The logical table name of the filesystem identifier `identifier`.
pub open spec fn derived_name(identifier: Seq<char>) -> Seq<char> {
    table_prefix() + last_segment(identifier).map_values(|c: char| normalized(c))
}

/// `String::push` appends one character to the end of the string.
pub assume_specification[ String::push ](s: &mut String, ch: char)
    ensures
        final(s)@ == old(s)@.push(ch),
;

fn fresh_name() -> (name: String)
    ensures
        name@ == table_prefix(),
{
    proof {
        reveal_strlit("tbl_");
    }
    let name = String::from_str(TABLE_PREFIX);
    assert(name@ =~= table_prefix());
    name
}

/// Derives the logical table name for a filesystem table reference: the last
/// path component with `.`, `-` and `*` replaced by `_`, after the prefix
/// `tbl_`.
pub fn derive_table_from_fs_name(fs_name: &str) -> (name: String)
    ensures
        name@ == derived_name(fs_name@),
{
    let mut name = fresh_name();
    for c in it: fs_name.chars()
        invariant
            it.seq() == fs_name@,
            name@ == derived_name(fs_name@.take(it.index() as int)),
    {
        proof {
            let seen = fs_name@.take(it.index() as int);
            let grown = fs_name@.take(it.index() + 1);
            assert(grown.drop_last() =~= seen);
            assert(grown.last() == c);
            assert(last_segment(grown).map_values(|c: char| normalized(c)) =~= if c == '/' {
                Seq::empty()
            } else {
                last_segment(seen).map_values(|c: char| normalized(c)).push(normalized(c))
            });
        }
        if c == '/' {
            name = fresh_name();
        } else if c == '.' || c == '-' || c == '*' {
            name.push('_');
        } else {
            name.push(c);
        }
    }
    assert(fs_name@.take(fs_name@.len() as int) =~= fs_name@);
    name
}

/// Whether `c` may stand in an unquoted SQL identifier: an ASCII letter, an
/// ASCII digit or the underscore.
pub open spec fn is_identifier_char(c: char) -> bool {
    ('a' <= c && c <= 'z') || ('A' <= c && c <= 'Z') || ('0' <= c && c <= '9') || c == '_'
}

/// Whether `name` is a syntactically valid unquoted SQL identifier: letters,
/// digits and underscores, the first of them no digit.
pub open spec fn is_unquoted_identifier(name: Seq<char>) -> bool {
    &&& name.len() > 0
    &&& !('0' <= name[0] && name[0] <= '9')
    &&& forall|i: int| 0 <= i < name.len() ==> is_identifier_char(#[trigger] name[i])
}

/// The final path component is the longest end of the path without a `/`:
/// it is an end of the path, holds no `/`, and either is the whole path or
/// stands right after a `/`.
pub proof fn lemma_last_segment_is_longest_end(path: Seq<char>)
    ensures
        last_segment(path).len() <= path.len(),
        last_segment(path) == path.skip(path.len() - last_segment(path).len()),
        forall|i: int| 0 <= i < last_segment(path).len() ==> #[trigger] last_segment(path)[i] != '/',
        last_segment(path).len() < path.len() ==> path[path.len() - last_segment(path).len() - 1]
            == '/',
    decreases path.len(),
{
    if path.len() > 0 && path.last() != '/' {
        let shorter = path.drop_last();
        lemma_last_segment_is_longest_end(shorter);
        let start = shorter.len() - last_segment(shorter).len();
        assert(last_segment(path) =~= path.skip(start));
    } else if path.len() > 0 {
        assert(last_segment(path) =~= path.skip(path.len() as int));
    } else {
        assert(last_segment(path) =~= path.skip(0));
    }
}

/// A derived name is the prefix followed by one character for each character
/// of the final path component, and holds no `/`, `.`, `-` or `*`.
pub proof fn lemma_derived_name_shape(identifier: Seq<char>)
    ensures
        derived_name(identifier).len() == 4 + last_segment(identifier).len(),
        table_prefix().is_prefix_of(derived_name(identifier)),
        forall|i: int|
            0 <= i < derived_name(identifier).len() ==> {
                let c = #[trigger] derived_name(identifier)[i];
                c != '/' && c != '.' && c != '-' && c != '*'
            },
{
    lemma_last_segment_is_longest_end(identifier);
    let segment = last_segment(identifier);
    let name = derived_name(identifier);
    assert forall|i: int| 0 <= i < name.len() implies {
        let c = #[trigger] name[i];
        c != '/' && c != '.' && c != '-' && c != '*'
    } by {
        if i >= 4 {
            assert(name[i] == normalized(segment[i - 4]));
        }
    }
}

/// Where the final path component is made of letters, digits, underscores,
/// `.`, `-` and `*` alone, the derived name is a valid unquoted SQL
/// identifier.
pub proof fn lemma_derived_name_is_identifier(identifier: Seq<char>)
    requires
        forall|i: int|
            0 <= i < last_segment(identifier).len() ==> {
                let c = #[trigger] last_segment(identifier)[i];
                is_identifier_char(c) || c == '.' || c == '-' || c == '*'
            },
    ensures
        is_unquoted_identifier(derived_name(identifier)),
{
    let segment = last_segment(identifier);
    let name = derived_name(identifier);
    assert forall|i: int| 0 <= i < name.len() implies is_identifier_char(#[trigger] name[i]) by {
        if i >= 4 {
            assert(name[i] == normalized(segment[i - 4]));
        }
    }
}

/// Identifiers with the same final path component have the same derived
/// name, whatever directories lead to it.
pub proof fn lemma_name_depends_on_last_segment(a: Seq<char>, b: Seq<char>)
    requires
        last_segment(a) == last_segment(b),
    ensures
        derived_name(a) == derived_name(b),
{
}

} // verus!
