//! Tables keyed by name, held as lists of pairs in which the first entry of
//! a name counts.

use vstd::prelude::*;

verus! {

/// The value of the first entry named `key`.
pub open spec fn first_match<V>(entries: Seq<(String, V)>, key: Seq<char>) -> Option<V>
    decreases entries.len(),
{
    if entries.len() == 0 {
        None
    } else if entries[0].0@ == key {
        Some(entries[0].1)
    } else {
        first_match(entries.drop_first(), key)
    }
}

/// Position of the first entry named `key`.
pub open spec fn first_index<V>(entries: Seq<(String, V)>, key: Seq<char>) -> Option<int>
    decreases entries.len(),
{
    if entries.len() == 0 {
        None
    } else if entries[0].0@ == key {
        Some(0)
    } else {
        match first_index(entries.drop_first(), key) {
            Some(i) => Some(i + 1),
            None => None,
        }
    }
}

/// The first index of a name lies in the table, holds that name, and no
/// entry before it does; without one no entry holds the name.
pub proof fn lemma_first_index<V>(entries: Seq<(String, V)>, key: Seq<char>)
    ensures
        match first_index(entries, key) {
            Some(i) => 0 <= i < entries.len() && entries[i].0@ == key && first_match(entries, key)
                == Some(entries[i].1) && forall|j: int| 0 <= j < i ==> entries[j].0@ != key,
            None => first_match(entries, key).is_none() && forall|j: int|
                0 <= j < entries.len() ==> entries[j].0@ != key,
        },
    decreases entries.len(),
{
    if entries.len() > 0 && entries[0].0@ != key {
        let rest = entries.drop_first();
        lemma_first_index(rest, key);
        match first_index(rest, key) {
            Some(i) => {
                assert forall|j: int| 0 <= j < i + 1 implies entries[j].0@ != key by {
                    if j > 0 {
                        assert(entries[j] == rest[j - 1]);
                    }
                }
            },
            None => {
                assert forall|j: int| 0 <= j < entries.len() implies entries[j].0@ != key by {
                    if j > 0 {
                        assert(entries[j] == rest[j - 1]);
                    }
                }
            },
        }
    }
}

/// Whether a name is the given text.
pub fn is_named(name: &String, text: &str) -> (r: bool)
    ensures
        r == (name@ == text@),
{
    let owned = text.to_owned();
    *name == owned
}

/// Position of the first entry named `key`.
pub fn find_index<V>(entries: &Vec<(String, V)>, key: &String) -> (r: Option<usize>)
    ensures
        match r {
            Some(i) => first_index(entries@, key@) == Some(i as int),
            None => first_index(entries@, key@).is_none(),
        },
{
    let mut i: usize = 0;
    while i < entries.len()
        invariant
            i <= entries.len(),
            forall|j: int| 0 <= j < i ==> entries@[j].0@ != key@,
        decreases entries.len() - i,
    {
        if entries[i].0 == *key {
            proof {
                assert(entries@[i as int].0@ == key@);
                lemma_first_index(entries@, key@);
                match first_index(entries@, key@) {
                    Some(k) => {
                        assert(entries@[k].0@ == key@);
                        assert(k == i);
                    },
                    None => {},
                }
            }
            return Some(i);
        }
        i += 1;
    }
    proof {
        lemma_first_index(entries@, key@);
    }
    None
}

/// The value of the first entry named `key`.
pub fn find_first<V: Copy>(entries: &Vec<(String, V)>, key: &str) -> (r: Option<V>)
    ensures
        r == first_match(entries@, key@),
{
    let owned = key.to_owned();
    proof {
        lemma_first_index(entries@, key@);
    }
    match find_index(entries, &owned) {
        Some(i) => Some(entries[i].1),
        None => None,
    }
}

/// A table of lists by name, as names and lists.
pub open spec fn listing<T>(table: Seq<(String, Vec<T>)>) -> Seq<(Seq<char>, Seq<T>)> {
    Seq::new(table.len(), |i: int| (table[i].0@, table[i].1@))
}

/// Position of the first list named `key`.
pub open spec fn listed_index<T>(lists: Seq<(Seq<char>, Seq<T>)>, key: Seq<char>) -> Option<int>
    decreases lists.len(),
{
    if lists.len() == 0 {
        None
    } else if lists[0].0 == key {
        Some(0)
    } else {
        match listed_index(lists.drop_first(), key) {
            Some(i) => Some(i + 1),
            None => None,
        }
    }
}

/// The first list named `key`.
pub open spec fn listed<T>(lists: Seq<(Seq<char>, Seq<T>)>, key: Seq<char>) -> Option<Seq<T>> {
    match listed_index(lists, key) {
        Some(i) => Some(lists[i].1),
        None => None,
    }
}

/// The lists after `items` have been put under `key`: appended to the first
/// list of that name, or, without one, as a new list at the end.
pub open spec fn put<T>(lists: Seq<(Seq<char>, Seq<T>)>, key: Seq<char>, items: Seq<T>) -> Seq<
    (Seq<char>, Seq<T>),
> {
    match listed_index(lists, key) {
        Some(i) => lists.update(i, (key, lists[i].1 + items)),
        None => lists.push((key, items)),
    }
}

/// The first list of a name is in the table and holds that name, and no
/// list before it does; without one no list holds the name.
pub proof fn lemma_listed_index<T>(lists: Seq<(Seq<char>, Seq<T>)>, key: Seq<char>)
    ensures
        match listed_index(lists, key) {
            Some(i) => 0 <= i < lists.len() && lists[i].0 == key && forall|j: int|
                0 <= j < i ==> (#[trigger] lists[j]).0 != key,
            None => forall|j: int| 0 <= j < lists.len() ==> (#[trigger] lists[j]).0 != key,
        },
    decreases lists.len(),
{
    if lists.len() > 0 && lists[0].0 != key {
        let rest = lists.drop_first();
        lemma_listed_index(rest, key);
        match listed_index(rest, key) {
            Some(i) => {
                assert forall|j: int| 0 <= j < i + 1 implies (#[trigger] lists[j]).0 != key by {
                    if j > 0 {
                        assert(lists[j] == rest[j - 1]);
                    }
                }
            },
            None => {
                assert forall|j: int| 0 <= j < lists.len() implies (#[trigger] lists[j]).0
                    != key by {
                    if j > 0 {
                        assert(lists[j] == rest[j - 1]);
                    }
                }
            },
        }
    }
}

/// A name is found in a table where it is found among its lists.
pub proof fn lemma_listing_index<T>(table: Seq<(String, Vec<T>)>, key: Seq<char>)
    ensures
        first_index(table, key) == listed_index(listing(table), key),
        match first_match(table, key) {
            Some(list) => listed(listing(table), key) == Some(list@),
            None => listed(listing(table), key).is_none(),
        },
{
    let lists = listing(table);
    lemma_first_index(table, key);
    lemma_listed_index(lists, key);
    match first_index(table, key) {
        Some(i) => {
            assert(lists[i].0 == key);
            match listed_index(lists, key) {
                Some(k) => {
                    assert(lists[k].0 == key);
                    assert(table[k].0@ == key);
                    assert(k == i);
                },
                None => {},
            }
        },
        None => {
            match listed_index(lists, key) {
                Some(k) => {
                    assert(table[k].0@ == key);
                },
                None => {},
            }
        },
    }
}

/// Puts `items` under `key`, and leaves `items` empty.
pub fn put_under<T>(table: &mut Vec<(String, Vec<T>)>, key: String, items: &mut Vec<T>)
    ensures
        listing(final(table)@) == put(listing(old(table)@), key@, old(items)@),
        final(items)@.len() == 0,
{
    proof {
        lemma_listing_index(table@, key@);
        lemma_first_index(table@, key@);
    }
    match find_index(table, &key) {
        Some(i) => {
            table[i].1.append(items);
            assert(listing(table@) =~~= put(listing(old(table)@), key@, old(items)@));
        },
        None => {
            let mut list: Vec<T> = Vec::new();
            list.append(items);
            table.push((key, list));
            assert(listing(table@) =~~= put(listing(old(table)@), key@, old(items)@));
        },
    }
}

} // verus!
