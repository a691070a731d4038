//! Property lists, as the `plist` crate holds them.
//!
//! A value of a property list stays what the crate makes of it. The names below say what is
//! in such a value, and the contracts of the crate's functions are stated over them.

use vstd::prelude::*;

verus! {

/// `plist::Value`: any value of a property list.
#[verifier::external_type_specification]
#[verifier::external_body]
pub struct ExValue(plist::Value);

/// `plist::Dictionary`: text keys with their values, in the order in which the keys came.
#[verifier::external_type_specification]
#[verifier::external_body]
pub struct ExDictionary(plist::Dictionary);

/// The entries of a dictionary, in order.
pub uninterp spec fn entries(dictionary: plist::Dictionary) -> Seq<(Seq<char>, plist::Value)>;

/// The dictionary that a value is, if it is one.
pub uninterp spec fn dictionary_in(value: plist::Value) -> Option<plist::Dictionary>;

/// The string that a value is, if it is one.
pub uninterp spec fn string_in(value: plist::Value) -> Option<Seq<char>>;

/// The position of the entry with the given key.
pub open spec fn find_key(items: Seq<(Seq<char>, plist::Value)>, key: Seq<char>) -> Option<int>
    decreases items.len(),
{
    if items.len() == 0 {
        None
    } else if items.last().0 == key {
        Some(items.len() - 1)
    } else {
        find_key(items.drop_last(), key)
    }
}

/// The value under a key.
pub open spec fn value_under(items: Seq<(Seq<char>, plist::Value)>, key: Seq<char>) -> Option<
    plist::Value,
> {
    match find_key(items, key) {
        Some(i) => Some(items[i].1),
        None => None,
    }
}

/// The entries after a value is put under a key: in the place of the entry with that key, or
/// behind all others where there is none.
pub open spec fn with_entry(
    items: Seq<(Seq<char>, plist::Value)>,
    key: Seq<char>,
    value: plist::Value,
) -> Seq<(Seq<char>, plist::Value)> {
    match find_key(items, key) {
        Some(i) => items.update(i, (key, value)),
        None => items.push((key, value)),
    }
}

/// Whether no two entries have the same key.
pub open spec fn keys_distinct(items: Seq<(Seq<char>, plist::Value)>) -> bool {
    forall|i: int, j: int|
        0 <= i < j < items.len() ==> (#[trigger] items[i]).0 != (#[trigger] items[j]).0
}

/// Entries with their keys taken by their characters.
pub open spec fn item_views(items: Seq<(&String, &plist::Value)>) -> Seq<
    (Seq<char>, plist::Value),
> {
    items.map_values(|item: (&String, &plist::Value)| (item.0@, *item.1))
}

/// `plist::Value::as_dictionary` gives the dictionary of a value that is one, and nothing
/// otherwise.
pub assume_specification[ plist::Value::as_dictionary ](value: &plist::Value) -> (r: Option<
    &plist::Dictionary,
>)
    ensures
        match r {
            Some(d) => dictionary_in(*value) == Some(*d),
            None => dictionary_in(*value) is None,
        },
;

/// `plist::Value::as_string` gives the text of a value that is a string, and nothing otherwise.
pub assume_specification[ plist::Value::as_string ](value: &plist::Value) -> (r: Option<&str>)
    ensures
        match r {
            Some(s) => string_in(*value) == Some(s@),
            None => string_in(*value) is None,
        },
;

/// `plist::Dictionary::new` makes a dictionary without entries.
pub assume_specification[ plist::Dictionary::new ]() -> (d: plist::Dictionary)
    ensures
        entries(d) == Seq::<(Seq<char>, plist::Value)>::empty(),
;

/// `plist::Dictionary::get` gives the value under a key.
pub assume_specification<'a>[ plist::Dictionary::get ](
    d: &'a plist::Dictionary,
    key: &str,
) -> (r: Option<&'a plist::Value>)
    ensures
        match r {
            Some(v) => value_under(entries(*d), key@) == Some(*v),
            None => value_under(entries(*d), key@) is None,
        },
;

/// `plist::Dictionary::insert` puts a value under a key and hands back the value that was
/// there. An entry with that key keeps its place; a new key goes behind the others.
pub assume_specification[ plist::Dictionary::insert ](
    d: &mut plist::Dictionary,
    k: String,
    v: plist::Value,
) -> (r: Option<plist::Value>)
    ensures
        entries(*final(d)) == with_entry(entries(*old(d)), k@, v),
        r == value_under(entries(*old(d)), k@),
;

/// `plist::Dictionary::iter` walks the entries in their order, each key once.
#[verifier::external_body]
fn dictionary_items(d: &plist::Dictionary) -> (items: Vec<(&String, &plist::Value)>)
    ensures
        item_views(items@) == entries(*d),
        keys_distinct(item_views(items@)),
{
    d.iter().collect()
}

/// The `clone` of a `plist::Value` is the same value.
pub assume_specification[ <plist::Value as Clone>::clone ](value: &plist::Value) -> (r:
    plist::Value)
    ensures
        r == *value,
;

/// The entries of `base` with those of `added` put in, one after the other.
pub open spec fn merged(
    base: Seq<(Seq<char>, plist::Value)>,
    added: Seq<(Seq<char>, plist::Value)>,
) -> Seq<(Seq<char>, plist::Value)>
    decreases added.len(),
{
    if added.len() == 0 {
        base
    } else {
        with_entry(merged(base, added.drop_last()), added.last().0, added.last().1)
    }
}

/// Puts every entry of `from` into `into`.
pub fn insert_all(into: &mut plist::Dictionary, from: &plist::Dictionary)
    ensures
        entries(*final(into)) == merged(entries(*old(into)), entries(*from)),
        keys_distinct(entries(*from)),
{
    let items = dictionary_items(from);
    let ghost wanted = entries(*from);
    let mut i: usize = 0;
    proof {
        assert(wanted.take(0) =~= Seq::<(Seq<char>, plist::Value)>::empty());
    }
    while i < items.len()
        invariant
            i <= items@.len(),
            item_views(items@) == wanted,
            keys_distinct(wanted),
            entries(*into) == merged(entries(*old(into)), wanted.take(i as int)),
        decreases items@.len() - i,
    {
        proof {
            assert(wanted.take(i + 1).drop_last() =~= wanted.take(i as int));
            assert(wanted[i as int] == (items@[i as int].0@, *items@[i as int].1));
        }
        let _ = into.insert(items[i].0.clone(), items[i].1.clone());
        i = i + 1;
    }
    proof {
        assert(wanted.take(i as int) =~= wanted);
    }
}

/// Where `find_key` finds a position, the entry there has the key, and no later one has.
pub proof fn lemma_find_key(items: Seq<(Seq<char>, plist::Value)>, key: Seq<char>)
    ensures
        match find_key(items, key) {
            Some(i) => 0 <= i < items.len() && items[i].0 == key && forall|j: int|
                i < j < items.len() ==> (#[trigger] items[j]).0 != key,
            None => forall|j: int| 0 <= j < items.len() ==> (#[trigger] items[j]).0 != key,
        },
    decreases items.len(),
{
    if items.len() > 0 && items.last().0 != key {
        lemma_find_key(items.drop_last(), key);
        let front = items.drop_last();
        let from = match find_key(items, key) {
            Some(i) => i + 1,
            None => 0,
        };
        assert forall|j: int| from <= j < items.len() implies (#[trigger] items[j]).0 != key by {
            if j < items.len() - 1 {
                assert(front[j] == items[j]);
            }
        }
    }
}

/// A position whose entry has the key, with none behind it that has, is the one found.
proof fn lemma_found_at(items: Seq<(Seq<char>, plist::Value)>, key: Seq<char>, i: int)
    requires
        0 <= i < items.len(),
        items[i].0 == key,
        forall|j: int| i < j < items.len() ==> (#[trigger] items[j]).0 != key,
    ensures
        find_key(items, key) == Some(i),
{
    lemma_find_key(items, key);
    match find_key(items, key) {
        Some(k) => {
            if k < i {
                assert(items[i].0 != key);
            } else if k > i {
                assert(items[k].0 != key);
            }
        },
        None => {
            assert(items[i].0 != key);
        },
    }
}

/// Putting a value under a key changes what is found under that key and nothing else.
pub proof fn law_entry_is_found(
    items: Seq<(Seq<char>, plist::Value)>,
    key: Seq<char>,
    value: plist::Value,
    other: Seq<char>,
)
    ensures
        value_under(with_entry(items, key, value), other) == if other == key {
            Some(value)
        } else {
            value_under(items, other)
        },
{
    let after = with_entry(items, key, value);
    lemma_find_key(items, key);
    lemma_find_key(items, other);
    lemma_find_key(after, other);
    match find_key(items, key) {
        Some(i) => {
            if other == key {
                assert forall|j: int| i < j < after.len() implies (#[trigger] after[j]).0
                    != key by {
                    assert(after[j] == items[j]);
                }
                lemma_found_at(after, key, i);
            } else {
                match find_key(items, other) {
                    Some(k) => {
                        assert forall|j: int| k < j < after.len() implies (#[trigger] after[j]).0
                            != other by {
                            if j != i {
                                assert(after[j] == items[j]);
                            }
                        }
                        lemma_found_at(after, other, k);
                    },
                    None => {
                        match find_key(after, other) {
                            Some(k) => {
                                if k != i {
                                    assert(after[k] == items[k]);
                                }
                            },
                            None => {},
                        }
                    },
                }
            }
        },
        None => {
            assert(after.drop_last() =~= items);
        },
    }
}

/// What a merge holds: under each key the added value, or the base's where none was added.
pub proof fn law_added_entries_win(
    base: Seq<(Seq<char>, plist::Value)>,
    added: Seq<(Seq<char>, plist::Value)>,
    key: Seq<char>,
)
    ensures
        value_under(merged(base, added), key) == match value_under(added, key) {
            Some(v) => Some(v),
            None => value_under(base, key),
        },
    decreases added.len(),
{
    if added.len() > 0 {
        let front = added.drop_last();
        law_added_entries_win(base, front, key);
        law_entry_is_found(merged(base, front), added.last().0, added.last().1, key);
        if added.last().0 != key {
            lemma_find_key(front, key);
            match find_key(front, key) {
                Some(i) => {
                    assert(front[i] == added[i]);
                },
                None => {},
            }
        }
    }
}

/// A merge keeps the keys of the base in their places.
pub proof fn law_merge_keeps_places(
    base: Seq<(Seq<char>, plist::Value)>,
    added: Seq<(Seq<char>, plist::Value)>,
)
    ensures
        merged(base, added).len() >= base.len(),
        forall|i: int|
            0 <= i < base.len() ==> (#[trigger] merged(base, added)[i]).0 == base[i].0,
    decreases added.len(),
{
    if added.len() > 0 {
        let front = added.drop_last();
        law_merge_keeps_places(base, front);
        lemma_find_key(merged(base, front), added.last().0);
        assert forall|i: int| 0 <= i < base.len() implies (#[trigger] merged(base, added)[i]).0
            == base[i].0 by {
            assert(merged(base, front)[i].0 == base[i].0);
        }
    }
}

/// Merging distinct entries into none gives those entries.
pub proof fn lemma_merged_into_none(added: Seq<(Seq<char>, plist::Value)>)
    requires
        keys_distinct(added),
    ensures
        merged(Seq::empty(), added) == added,
    decreases added.len(),
{
    let none = Seq::<(Seq<char>, plist::Value)>::empty();
    if added.len() == 0 {
        assert(added =~= none);
    } else {
        let front = added.drop_last();
        assert forall|i: int, j: int| 0 <= i < j < front.len() implies (#[trigger] front[i]).0
            != (#[trigger] front[j]).0 by {
            assert(front[i] == added[i] && front[j] == added[j]);
        }
        lemma_merged_into_none(front);
        let last = added.last();
        lemma_find_key(front, last.0);
        match find_key(front, last.0) {
            Some(i) => {
                assert(front[i] == added[i]);
                assert(added[i].0 != added[added.len() - 1].0);
            },
            None => {
                assert(front.push((last.0, last.1)) =~= added);
            },
        }
    }
}

/// Entries with keys of their own come behind those of the base, all of them and in their order.
pub proof fn law_other_entries_come_behind(
    base: Seq<(Seq<char>, plist::Value)>,
    added: Seq<(Seq<char>, plist::Value)>,
)
    requires
        keys_distinct(added),
        forall|i: int, j: int|
            0 <= i < base.len() && 0 <= j < added.len() ==> (#[trigger] base[i]).0 != (
            #[trigger] added[j]).0,
    ensures
        merged(base, added) == base + added,
    decreases added.len(),
{
    if added.len() == 0 {
        assert(base + added =~= base);
    } else {
        let front = added.drop_last();
        let last = added.last();
        assert forall|i: int, j: int| 0 <= i < j < front.len() implies (#[trigger] front[i]).0
            != (#[trigger] front[j]).0 by {
            assert(front[i] == added[i] && front[j] == added[j]);
        }
        assert forall|i: int, j: int| 0 <= i < base.len() && 0 <= j < front.len() implies (
        #[trigger] base[i]).0 != (#[trigger] front[j]).0 by {
            assert(front[j] == added[j]);
        }
        law_other_entries_come_behind(base, front);
        let so_far = base + front;
        lemma_find_key(so_far, last.0);
        assert(added[added.len() - 1] == last);
        match find_key(so_far, last.0) {
            Some(i) => {
                if i < base.len() {
                    assert(so_far[i] == base[i]);
                } else {
                    assert(so_far[i] == front[i - base.len()]);
                    assert(front[i - base.len()] == added[i - base.len()]);
                }
            },
            None => {
                assert(so_far.push((last.0, last.1)) =~= base + added);
            },
        }
    }
}

} // verus!
