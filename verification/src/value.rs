//! The generic value tree produced by parsing a manifest.

use vstd::prelude::*;

verus! {

/// A semi-structured value: the substrate that path lookup walks.
///
/// A `Table` maps string keys to nested values (entries are kept as a list,
/// and well-formed tables have unique keys); an `Array` is an ordered
/// sequence of nested values; the remaining variants are scalars. Lookup
/// never inspects a scalar's content, so floating-point and date-time
/// scalars are carried as their textual rendering.
#[derive(Debug, PartialEq)]
pub enum ValueTree {
    /// A table of key/value entries.
    Table(Vec<(String, ValueTree)>),
    /// An ordered sequence of values.
    Array(Vec<ValueTree>),
    /// A string scalar.
    Str(String),
    /// An integer scalar.
    Int(i64),
    /// A floating-point scalar, carried as its decimal rendering.
    Float(String),
    /// A boolean scalar.
    Bool(bool),
    /// A date-time scalar, carried as its textual rendering.
    Datetime(String),
}

/// The character sequences of a list of strings, in order.
pub open spec fn string_views(ss: Seq<String>) -> Seq<Seq<char>> {
    ss.map_values(|s: String| s@)
}

/// Whether some entry of `entries` has a key reading `key`.
pub open spec fn has_key(entries: Seq<(String, ValueTree)>, key: Seq<char>) -> bool {
    exists|i: int| 0 <= i < entries.len() && entries[i].0@ == key
}

/// The value bound to `key` in `entries`: the first entry whose key reads
/// `key` wins (well-formed tables never repeat a key).
pub open spec fn table_get(entries: Seq<(String, ValueTree)>, key: Seq<char>) -> Option<ValueTree>
    decreases entries.len(),
{
    if entries.len() == 0 {
        None
    } else if entries[0].0@ == key {
        Some(entries[0].1)
    } else {
        table_get(entries.skip(1), key)
    }
}

/// `table_get` finds a value exactly when some entry carries the key.
pub proof fn lemma_table_get_some_iff_has_key(entries: Seq<(String, ValueTree)>, key: Seq<char>)
    ensures
        table_get(entries, key) is Some <==> has_key(entries, key),
    decreases entries.len(),
{
    if entries.len() == 0 {
    } else if entries[0].0@ == key {
    } else {
        let rest = entries.skip(1);
        lemma_table_get_some_iff_has_key(rest, key);
        if has_key(entries, key) {
            let w = choose|i: int| 0 <= i < entries.len() && entries[i].0@ == key;
            assert(rest[w - 1] == entries[w]);
        }
        if has_key(rest, key) {
            let w = choose|i: int| 0 <= i < rest.len() && rest[i].0@ == key;
            assert(entries[w + 1] == rest[w]);
        }
    }
}

} // verus!
