//! The arguments of a command: a mapping from names to values, kept as a
//! list of entries in which no name occurs twice.
//!
//! The values are carried along and never interpreted. Where a list of
//! entries names something twice, the last entry is the one that counts; the
//! mapping is the same whatever the order of the entries.

use vstd::prelude::*;
use crate::json::{entries_of, JsonTree, JsonValue};
use crate::text::same_text;

verus! {

/// The mapping that a list of entries stands for: each name that occurs, with
/// the value of its last entry.
pub open spec fn arguments_of(entries: Seq<(Seq<char>, JsonTree)>) -> Map<Seq<char>, JsonTree> {
    Map::new(
        |name: Seq<char>| JsonTree::lookup(entries, name) is Some,
        |name: Seq<char>| JsonTree::lookup(entries, name)->0,
    )
}

/// No name occurs twice among the entries.
pub open spec fn distinct_names(entries: Seq<(Seq<char>, JsonTree)>) -> bool {
    forall|i: int, j: int| 0 <= i < j < entries.len() ==> entries[i].0 != entries[j].0
}

/// The entry at place `i` is followed by an entry of the same name.
pub open spec fn shadowed(entries: Seq<(Seq<char>, JsonTree)>, i: int) -> bool {
    exists|j: int| i < j < entries.len() && (#[trigger] entries[j]).0 == entries[i].0
}

/// Whether `i` is the place of the last entry that is named `name`.
pub open spec fn last_named(entries: Seq<(Seq<char>, JsonTree)>, name: Seq<char>, i: int) -> bool {
    &&& 0 <= i < entries.len()
    &&& entries[i].0 == name
    &&& forall|j: int| i < j < entries.len() ==> (#[trigger] entries[j]).0 != name
}

/// Looking a name up finds the value of the last entry of that name, and
/// finds nothing only where no entry has the name.
pub proof fn lemma_lookup_last(entries: Seq<(Seq<char>, JsonTree)>, name: Seq<char>)
    ensures
        match JsonTree::lookup(entries, name) {
            Some(value) => exists|i: int| #[trigger]
                last_named(entries, name, i) && entries[i].1 == value,
            None => forall|i: int| 0 <= i < entries.len() ==> (#[trigger] entries[i]).0 != name,
        },
    decreases entries.len(),
{
    if entries.len() == 0 {
    } else if entries.last().0 == name {
        assert(last_named(entries, name, entries.len() - 1));
    } else {
        let front = entries.drop_last();
        lemma_lookup_last(front, name);
        match JsonTree::lookup(front, name) {
            Some(value) => {
                let i = choose|i: int| #[trigger] last_named(front, name, i) && front[i].1 == value;
                assert forall|j: int| i < j < entries.len() implies (#[trigger] entries[j]).0
                    != name by {
                    if j < front.len() {
                        assert(front[j].0 != name);
                    }
                }
                assert(last_named(entries, name, i));
            },
            None => {
                assert forall|i: int| 0 <= i < entries.len() implies (#[trigger] entries[i]).0
                    != name by {
                    if i < front.len() {
                        assert(front[i].0 != name);
                    }
                }
            },
        }
    }
}

/// The value under a name is the value of the last entry of that name.
pub proof fn lemma_lookup_at(entries: Seq<(Seq<char>, JsonTree)>, name: Seq<char>, i: int)
    requires
        last_named(entries, name, i),
    ensures
        JsonTree::lookup(entries, name) == Some(entries[i].1),
{
    lemma_lookup_last(entries, name);
    match JsonTree::lookup(entries, name) {
        Some(value) => {
            let k = choose|k: int| #[trigger] last_named(entries, name, k) && entries[k].1 == value;
            if k < i {
                assert(entries[i].0 != name);
            } else if i < k {
                assert(entries[k].0 != name);
            }
        },
        None => {
            assert(entries[i].0 != name);
        },
    }
}

/// Whether a later entry has the name of the entry at place `i`.
fn is_shadowed(entries: &Vec<(String, JsonValue)>, i: usize) -> (found: bool)
    requires
        i < entries.len(),
    ensures
        found == shadowed(entries_of(entries@), i as int),
{
    let ghost trees = entries_of(entries@);
    let mut j: usize = i + 1;
    while j < entries.len()
        invariant
            i < j <= entries.len(),
            trees == entries_of(entries@),
            forall|k: int| i < k < j ==> (#[trigger] trees[k]).0 != trees[i as int].0,
        decreases entries.len() - j,
    {
        if same_text(entries[j].0.as_str(), entries[i].0.as_str()) {
            assert(trees[j as int].0 == trees[i as int].0);
            return true;
        }
        j += 1;
    }
    false
}

/// Whether no name occurs twice among the entries.
pub fn has_distinct_names(entries: &Vec<(String, JsonValue)>) -> (distinct: bool)
    ensures
        distinct == distinct_names(entries_of(entries@)),
{
    let ghost trees = entries_of(entries@);
    let mut i: usize = 0;
    while i < entries.len()
        invariant
            i <= entries.len(),
            trees == entries_of(entries@),
            forall|a: int, b: int| 0 <= a < i && a < b < trees.len() ==> trees[a].0 != trees[b].0,
        decreases entries.len() - i,
    {
        if is_shadowed(entries, i) {
            proof {
                let j = choose|j: int|
                    i < j < trees.len() && (#[trigger] trees[j]).0 == trees[i as int].0;
                assert(trees[i as int].0 == trees[j].0);
            }
            return false;
        }
        proof {
            assert forall|b: int| i < b < trees.len() implies trees[i as int].0 != trees[b].0 by {
                if trees[b].0 == trees[i as int].0 {
                    assert(shadowed(trees, i as int));
                }
            }
        }
        i += 1;
    }
    true
}

/// A copy of the entries without those that a later entry of the same name
/// shadows: the same mapping, with no name twice.
pub fn unshadowed(entries: &Vec<(String, JsonValue)>) -> (kept: Vec<(String, JsonValue)>)
    ensures
        distinct_names(entries_of(kept@)),
        arguments_of(entries_of(kept@)) == arguments_of(entries_of(entries@)),
        distinct_names(entries_of(entries@)) ==> entries_of(kept@) == entries_of(entries@),
{
    let ghost all = entries_of(entries@);
    let ghost mut origin: Seq<int> = Seq::empty();
    let mut kept: Vec<(String, JsonValue)> = Vec::new();
    let mut i: usize = 0;
    while i < entries.len()
        invariant
            i <= entries.len(),
            all == entries_of(entries@),
            origin.len() == kept.len(),
            forall|k: int|
                0 <= k < origin.len() ==> 0 <= #[trigger] origin[k] < i && !shadowed(
                    all,
                    origin[k],
                ) && (kept[k].0@, kept[k].1@) == all[origin[k]],
            forall|k: int, l: int| 0 <= k < l < origin.len() ==> origin[k] < origin[l],
            forall|m: int|
                0 <= m < i && !shadowed(all, m) ==> exists|k: int|
                    0 <= k < origin.len() && #[trigger] origin[k] == m,
            distinct_names(all) ==> origin.len() == i && forall|k: int|
                0 <= k < i ==> #[trigger] origin[k] == k,
        decreases entries.len() - i,
    {
        let ghost before = origin;
        if !is_shadowed(entries, i) {
            kept.push((entries[i].0.clone(), entries[i].1.deep_copy()));
            proof {
                origin = origin.push(i as int);
                assert forall|m: int| 0 <= m < i + 1 && !shadowed(all, m) implies exists|k: int|
                    0 <= k < origin.len() && #[trigger] origin[k] == m by {
                    if m < i {
                        let k = choose|k: int| 0 <= k < before.len() && #[trigger] before[k] == m;
                        assert(origin[k] == m);
                    } else {
                        assert(origin[origin.len() - 1] == m);
                    }
                }
            }
        } else {
            proof {
                let j = choose|j: int|
                    i < j < all.len() && (#[trigger] all[j]).0 == all[i as int].0;
                assert(all[i as int].0 == all[j].0);
                assert forall|m: int| 0 <= m < i + 1 && !shadowed(all, m) implies exists|k: int|
                    0 <= k < origin.len() && #[trigger] origin[k] == m by {
                    let k = choose|k: int| 0 <= k < before.len() && #[trigger] before[k] == m;
                    assert(origin[k] == m);
                }
            }
        }
        i += 1;
    }
    let ghost out = entries_of(kept@);
    proof {
        assert forall|a: int, b: int| 0 <= a < b < out.len() implies out[a].0 != out[b].0 by {
            if out[a].0 == out[b].0 {
                assert(all[origin[b]].0 == all[origin[a]].0);
                assert(shadowed(all, origin[a]));
            }
        }
        assert forall|name: Seq<char>| JsonTree::lookup(out, name) == JsonTree::lookup(
            all,
            name,
        ) by {
            lemma_lookup_last(all, name);
            match JsonTree::lookup(all, name) {
                Some(value) => {
                    let m = choose|m: int| #[trigger] last_named(all, name, m) && all[m].1 == value;
                    if shadowed(all, m) {
                        let j = choose|j: int|
                            m < j < all.len() && (#[trigger] all[j]).0 == all[m].0;
                        assert(all[j].0 != name);
                    }
                    let k = choose|k: int| 0 <= k < origin.len() && #[trigger] origin[k] == m;
                    assert(out[k] == all[m]);
                    assert forall|l: int| k < l < out.len() implies (#[trigger] out[l]).0
                        != name by {
                        assert(out[k].0 != out[l].0);
                    }
                    assert(last_named(out, name, k));
                    lemma_lookup_at(out, name, k);
                },
                None => {
                    lemma_lookup_last(out, name);
                    if JsonTree::lookup(out, name) is Some {
                        let k = choose|k: int| #[trigger]
                            last_named(out, name, k) && out[k].1 == JsonTree::lookup(out, name)->0;
                        assert(out[k] == all[origin[k]]);
                        assert(all[origin[k]].0 != name);
                    }
                },
            }
        }
        assert(arguments_of(out) =~= arguments_of(all));
        if distinct_names(all) {
            assert(out.len() == all.len());
            assert forall|k: int| 0 <= k < out.len() implies out[k] == all[k] by {
                assert(origin[k] == k);
            }
            assert(out =~= all);
        }
    }
    kept
}

} // verus!
