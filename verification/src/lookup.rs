//! Path lookup: walking a [`ValueTree`] tree along a sequence of segments.

use vstd::prelude::*;
use vstd::string::StrSliceExecFns;

use crate::value::{has_key, lemma_table_get_some_iff_has_key, string_views, table_get, ValueTree};

verus! {

/// Whether `c` is a decimal digit.
pub open spec fn is_digit(c: char) -> bool {
    48 <= c as int && c as int <= 57
}

/// The numeric value of a decimal digit.
pub open spec fn digit_val(c: char) -> int {
    c as int - 48
}

/// Whether every character of `s` is a decimal digit.
pub open spec fn all_digits(s: Seq<char>) -> bool {
    forall|i: int| 0 <= i < s.len() ==> is_digit(#[trigger] s[i])
}

/// The base-10 value of a digit string.
pub open spec fn digits_val(s: Seq<char>) -> int
    decreases s.len(),
{
    if s.len() == 0 {
        0
    } else {
        10 * digits_val(s.drop_last()) + digit_val(s.last())
    }
}

/// How a path segment reads as an array index: a non-empty, all-digit
/// segment whose base-10 value fits a `usize`, and nothing else.
pub open spec fn spec_parse_index(s: Seq<char>) -> Option<int> {
    if s.len() > 0 && all_digits(s) && digits_val(s) <= usize::MAX as int {
        Some(digits_val(s))
    } else {
        None
    }
}

/// A digit string's value is never negative.
pub proof fn lemma_digits_val_nonneg(s: Seq<char>)
    requires
        all_digits(s),
    ensures
        digits_val(s) >= 0,
    decreases s.len(),
{
    if s.len() > 0 {
        assert(all_digits(s.drop_last())) by {
            assert(forall|i: int|
                0 <= i < s.len() - 1 ==> #[trigger] s.drop_last()[i] == s[i]);
        }
        lemma_digits_val_nonneg(s.drop_last());
    }
}

/// A digit string's value only grows as digits are appended.
pub proof fn lemma_digits_val_prefix_le(s: Seq<char>, j: int)
    requires
        all_digits(s),
        0 <= j <= s.len(),
    ensures
        digits_val(s.take(j)) <= digits_val(s),
    decreases s.len() - j,
{
    if j == s.len() {
        assert(s.take(j) =~= s);
    } else {
        assert(all_digits(s.take(j))) by {
            assert(forall|i: int| 0 <= i < j ==> #[trigger] s.take(j)[i] == s[i]);
        }
        lemma_digits_val_nonneg(s.take(j));
        assert(s.take(j + 1).drop_last() =~= s.take(j));
        assert(s.take(j + 1).last() == s[j]);
        lemma_digits_val_prefix_le(s, j + 1);
    }
}

/// Parse a path segment as a base-10 array index.
///
/// Returns the index exactly when the whole segment is one or more decimal
/// digits and the value fits a `usize`; anything else reads as no index.
pub fn parse_index(s: &str) -> (r: Option<usize>)
    ensures
        r matches Some(k) ==> spec_parse_index(s@) == Some(k as int),
        r is None ==> spec_parse_index(s@) is None,
{
    let n = s.unicode_len();
    if n == 0 {
        return None;
    }
    let mut i: usize = 0;
    let mut acc: usize = 0;
    while i < n
        invariant
            0 < n == s@.len(),
            i <= n,
            all_digits(s@.take(i as int)),
            acc == digits_val(s@.take(i as int)),
        decreases n - i,
    {
        let c = s.get_char(i);
        let cv = c as u32;
        if cv < 48 || cv > 57 {
            assert(!all_digits(s@));
            return None;
        }
        let d = (cv - 48) as usize;
        proof {
            vstd::arithmetic::div_mod::lemma_fundamental_div_mod(
                usize::MAX as int - d as int,
                10,
            );
            assert(s@.take(i + 1).drop_last() =~= s@.take(i as int));
            assert(s@.take(i + 1).last() == s@[i as int]);
            assert(all_digits(s@.take(i + 1))) by {
                assert(forall|k: int|
                    0 <= k < i + 1 ==> #[trigger] s@.take(i + 1)[k] == s@[k]);
            }
        }
        if acc > (usize::MAX - d) / 10 {
            proof {
                assert(10 * acc + d > usize::MAX as int);
                if all_digits(s@) {
                    lemma_digits_val_prefix_le(s@, i + 1);
                }
            }
            return None;
        }
        acc = acc * 10 + d;
        i = i + 1;
    }
    assert(s@.take(n as int) =~= s@);
    Some(acc)
}

/// What lookup returns: descend from `v` along `path`, treating each segment
/// as a table key when the current node is a table and as an array index
/// when it is an array; scalars end the descent. The empty path is the
/// identity.
pub open spec fn spec_lookup(v: ValueTree, path: Seq<Seq<char>>) -> Option<ValueTree>
    decreases path.len(),
{
    if path.len() == 0 {
        Some(v)
    } else {
        match v {
            ValueTree::Table(entries) => match table_get(entries@, path[0]) {
                Some(child) => spec_lookup(child, path.skip(1)),
                None => None,
            },
            ValueTree::Array(items) => match spec_parse_index(path[0]) {
                Some(idx) => if idx < items@.len() {
                    spec_lookup(items@[idx], path.skip(1))
                } else {
                    None
                },
                None => None,
            },
            _ => None,
        }
    }
}

/// The index of the first entry of `entries` whose key reads `key@`.
fn find_key(entries: &Vec<(String, ValueTree)>, key: &String) -> (r: Option<usize>)
    ensures
        r matches Some(j) ==> j < entries@.len() && entries@[j as int].0@ == key@
            && table_get(entries@, key@) == Some(entries@[j as int].1),
        r is None ==> table_get(entries@, key@) is None,
{
    let mut j: usize = 0;
    assert(entries@.skip(0) =~= entries@);
    while j < entries.len()
        invariant
            j <= entries@.len(),
            table_get(entries@, key@) == table_get(entries@.skip(j as int), key@),
        decreases entries@.len() - j,
    {
        if entries[j].0 == *key {
            assert(entries@.skip(j as int)[0] == entries@[j as int]);
            return Some(j);
        }
        proof {
            assert(entries@.skip(j as int).skip(1) =~= entries@.skip(j + 1));
        }
        j = j + 1;
    }
    None
}

/// Walk `value` along `path` and extract the subtree there, if any.
///
/// Each segment selects a table entry by key when the current node is a
/// table — a numeric-looking segment is still a key there — and an element
/// by base-10 index when it is an array; a scalar met before the path is
/// exhausted yields `None`. Segments are consumed left to right, and the
/// selected subtree is moved out of its parent.
pub fn lookup(value: ValueTree, path: &Vec<String>) -> (r: Option<ValueTree>)
    ensures
        r == spec_lookup(value, string_views(path@)),
{
    let ghost full: Seq<Seq<char>> = string_views(path@);
    let mut current = value;
    let mut i: usize = 0;
    assert(full.skip(0) =~= full);
    while i < path.len()
        invariant
            i <= path@.len(),
            full == string_views(path@),
            full.len() == path@.len(),
            spec_lookup(value, full) == spec_lookup(current, full.skip(i as int)),
        decreases path@.len() - i,
    {
        let seg: &String = &path[i];
        proof {
            assert(full.skip(i as int)[0] == full[i as int]);
            assert(full[i as int] == path@[i as int]@);
            assert(full.skip(i as int).skip(1) =~= full.skip(i + 1));
        }
        match current {
            ValueTree::Table(mut entries) => {
                match find_key(&entries, seg) {
                    Some(j) => {
                        let entry = entries.remove(j);
                        current = entry.1;
                    },
                    None => {
                        return None;
                    },
                }
            },
            ValueTree::Array(mut items) => {
                match parse_index(seg.as_str()) {
                    Some(idx) => {
                        if idx < items.len() {
                            current = items.remove(idx);
                        } else {
                            return None;
                        }
                    },
                    None => {
                        return None;
                    },
                }
            },
            _ => {
                return None;
            },
        }
        i = i + 1;
    }
    proof {
        assert(full.skip(i as int) =~= Seq::<Seq<char>>::empty());
    }
    Some(current)
}

/// Looking up the empty path is the identity: it returns the whole tree.
pub proof fn lemma_lookup_empty(t: ValueTree)
    ensures
        spec_lookup(t, Seq::<Seq<char>>::empty()) == Some(t),
{
}

/// A table that lacks the first segment's key yields absent, whatever
/// deeper segments remain.
pub proof fn lemma_lookup_missing_key(entries: Vec<(String, ValueTree)>, path: Seq<Seq<char>>)
    requires
        path.len() > 0,
        !has_key(entries@, path[0]),
    ensures
        spec_lookup(ValueTree::Table(entries), path) is None,
{
    lemma_table_get_some_iff_has_key(entries@, path[0]);
}

/// On an array of `n` elements, a final segment that reads as a decimal
/// index `k` selects element `k` when `k < n` and yields absent when
/// `k >= n`; a segment that does not read as an index yields absent.
pub proof fn lemma_lookup_array_index(items: Vec<ValueTree>, seg: Seq<char>)
    ensures
        spec_parse_index(seg) matches Some(k) ==> spec_lookup(
            ValueTree::Array(items),
            seq![seg],
        ) == (if k < items@.len() {
            Some(items@[k])
        } else {
            None::<ValueTree>
        }),
        spec_parse_index(seg) is None ==> spec_lookup(ValueTree::Array(items), seq![seg]) is None,
{
    let path = seq![seg];
    assert(path.len() == 1);
    assert(path[0] == seg);
    assert(path.skip(1) =~= Seq::<Seq<char>>::empty());
    if spec_parse_index(seg) is Some {
        let k = spec_parse_index(seg)->Some_0;
        lemma_digits_val_nonneg(seg);
        assert(k >= 0);
        if k < items@.len() {
            assert(spec_lookup(ValueTree::Array(items), path) == spec_lookup(items@[k], path.skip(1)));
        }
    }
}

} // verus!
