//! Reading one setting out of the entries of a map.
//!
//! A map of settings is handed over as its entries, each a key with its
//! value, in whatever order the map gave them out. Four keys are known. The
//! setting read here is the one under `start`, with a fallback for a map
//! that holds no such entry.

use vstd::prelude::*;

verus! {

/// An entry as the contracts see it: the text of the key, then of the value.
pub type Entry = (Seq<char>, Seq<char>);

/// Whether `key` is one of the four keys that a map of settings may hold.
pub open spec fn known_key(key: Seq<char>) -> bool {
    ||| key == "start"@
    ||| key == "repeat"@
    ||| key == "remaining"@
    ||| key == "message"@
}

/// Whether every key among `entries` is a known one.
pub open spec fn all_keys_known(entries: Seq<Entry>) -> bool {
    forall|i: int| 0 <= i < entries.len() ==> known_key(#[trigger] entries[i].0)
}

/// The value of the last entry under `start`, or `Unknown` where no entry
/// has that key.
pub open spec fn start_of(entries: Seq<Entry>) -> Seq<char>
    decreases entries.len(),
{
    if entries.len() == 0 {
        "Unknown"@
    } else if entries.last().0 == "start"@ {
        entries.last().1
    } else {
        start_of(entries.drop_last())
    }
}

/// Whether no key occurs twice among `entries`, as in the entries of a map.
pub open spec fn keys_distinct(entries: Seq<Entry>) -> bool {
    forall|i: int, j: int|
        0 <= i < j < entries.len() ==> (#[trigger] entries[i]).0 != (#[trigger] entries[j]).0
}

/// Tells whether `key` is one of the four known keys.
pub fn is_known_key(key: &String) -> (known: bool)
    ensures
        known == known_key(key@),
{
    *key == "start".to_owned() || *key == "repeat".to_owned() || *key == "remaining".to_owned()
        || *key == "message".to_owned()
}

/// Tells whether every key among `entries` is a known one.
pub fn has_only_known_keys(entries: &Vec<(String, String)>) -> (known: bool)
    ensures
        known == all_keys_known(entries.deep_view()),
{
    let mut i: usize = 0;
    while i < entries.len()
        invariant
            i <= entries.len(),
            forall|j: int| 0 <= j < i ==> known_key(#[trigger] entries.deep_view()[j].0),
        decreases entries.len() - i,
    {
        if !is_known_key(&entries[i].0) {
            assert(!known_key(entries.deep_view()[i as int].0));
            return false;
        }
        i += 1;
    }
    true
}

/// Reads the setting under `start`: walks the entries in the order given and
/// keeps the value of each entry with that key, so that the last one stays.
/// Entries under the other known keys are passed over.
pub fn start_value(entries: &Vec<(String, String)>) -> (start: String)
    requires
        all_keys_known(entries.deep_view()),
    ensures
        start@ == start_of(entries.deep_view()),
{
    let start_key = "start".to_owned();
    let mut start = "Unknown".to_owned();
    let mut i: usize = 0;
    while i < entries.len()
        invariant
            i <= entries.len(),
            start_key@ == "start"@,
            start@ == start_of(entries.deep_view().subrange(0, i as int)),
        decreases entries.len() - i,
    {
        let ghost seen = entries.deep_view().subrange(0, i as int + 1);
        assert(seen.drop_last() =~= entries.deep_view().subrange(0, i as int));
        assert(seen.last() == entries.deep_view()[i as int]);
        if entries[i].0 == start_key {
            start = entries[i].1.clone();
        }
        i += 1;
    }
    assert(entries.deep_view().subrange(0, i as int) =~= entries.deep_view());
    start
}

/// Where no entry is under `start`, the fallback is read.
pub proof fn lemma_start_of_without_entry(entries: Seq<Entry>)
    requires
        forall|i: int| 0 <= i < entries.len() ==> (#[trigger] entries[i]).0 != "start"@,
    ensures
        start_of(entries) == "Unknown"@,
    decreases entries.len(),
{
    if entries.len() > 0 {
        assert(entries.last() == entries[entries.len() - 1]);
        assert forall|i: int| 0 <= i < entries.drop_last().len() implies (
        #[trigger] entries.drop_last()[i]).0 != "start"@ by {
            assert(entries.drop_last()[i] == entries[i]);
        }
        lemma_start_of_without_entry(entries.drop_last());
    }
}

/// Where no key occurs twice, the value of the entry under `start` is read,
/// wherever among the entries it stands.
pub proof fn lemma_start_of_finds_entry(entries: Seq<Entry>, at: int)
    requires
        keys_distinct(entries),
        0 <= at < entries.len(),
        entries[at].0 == "start"@,
    ensures
        start_of(entries) == entries[at].1,
    decreases entries.len(),
{
    let last = entries.len() - 1;
    assert(entries.last() == entries[last]);
    if at < last {
        assert(entries[at].0 != entries[last].0);
        assert forall|i: int, j: int| 0 <= i < j < entries.drop_last().len() implies (
        #[trigger] entries.drop_last()[i]).0 != (#[trigger] entries.drop_last()[j]).0 by {
            assert(entries.drop_last()[i] == entries[i]);
            assert(entries.drop_last()[j] == entries[j]);
        }
        assert(entries.drop_last()[at] == entries[at]);
        lemma_start_of_finds_entry(entries.drop_last(), at);
    }
}

/// The order in which a map gives out its entries does not matter: two
/// sequences that hold the same entries, each key once, read the same.
pub proof fn lemma_start_of_any_order(first: Seq<Entry>, second: Seq<Entry>)
    requires
        keys_distinct(first),
        keys_distinct(second),
        forall|entry: Entry| first.contains(entry) <==> second.contains(entry),
    ensures
        start_of(first) == start_of(second),
{
    if exists|i: int| 0 <= i < first.len() && (#[trigger] first[i]).0 == "start"@ {
        let i = choose|i: int| 0 <= i < first.len() && (#[trigger] first[i]).0 == "start"@;
        assert(first.contains(first[i]));
        let j = choose|j: int| 0 <= j < second.len() && second[j] == first[i];
        lemma_start_of_finds_entry(first, i);
        lemma_start_of_finds_entry(second, j);
    } else {
        assert forall|j: int| 0 <= j < second.len() implies (#[trigger] second[j]).0
            != "start"@ by {
            assert(second.contains(second[j]));
            let i = choose|i: int| 0 <= i < first.len() && first[i] == second[j];
            assert(first[i].0 != "start"@);
        }
        lemma_start_of_without_entry(first);
        lemma_start_of_without_entry(second);
    }
}

} // verus!
