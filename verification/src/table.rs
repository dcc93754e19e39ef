//! Insertion-ordered tables keyed by account.
//!
//! A [`Table`] keeps its entries in the order in which their keys first
//! arrived, so that it can be paged through by index. Its mathematical
//! model is a [`TableModel`]: a sequence of names beside a sequence of
//! values, looked up by the first matching name.

use vstd::prelude::*;
use crate::ident::AccountId;

verus! {

/// A name of an account as plain characters.
pub type Name = Seq<char>;

/// The names that a sequence of account identifiers denotes.
pub open spec fn names_of(ids: Seq<AccountId>) -> Seq<Name> {
    ids.map_values(|id: AccountId| id@)
}

/// `i` is the first position of `item` in `items`.
pub open spec fn is_first<A>(items: Seq<A>, item: A, i: int) -> bool {
    &&& 0 <= i < items.len()
    &&& items[i] == item
    &&& forall|j: int| 0 <= j < i ==> items[j] != item
}

/// Whether `item` occurs in `items`.
#[verifier::opaque]
pub open spec fn has_item<A>(items: Seq<A>, item: A) -> bool {
    exists|i: int| is_first(items, item, i)
}

/// The first position of `item` in `items`, where it occurs.
#[verifier::opaque]
pub open spec fn first_index<A>(items: Seq<A>, item: A) -> int {
    choose|i: int| is_first(items, item, i)
}

/// The set-like insertion: `items` with `item` appended unless present.
pub open spec fn with_item<A>(items: Seq<A>, item: A) -> Seq<A> {
    if has_item(items, item) {
        items
    } else {
        items.push(item)
    }
}

/// The set-like removal: the first occurrence of `item` gives way to the
/// last element.
pub open spec fn without_item<A>(items: Seq<A>, item: A) -> Seq<A> {
    if has_item(items, item) {
        items.update(first_index(items, item), items.last()).drop_last()
    } else {
        items
    }
}

/// An item that occurs anywhere has a first position.
pub proof fn lemma_occurrence_has_first<A>(items: Seq<A>, item: A, i: int)
    requires
        0 <= i < items.len(),
        items[i] == item,
    ensures
        has_item(items, item),
        first_index(items, item) <= i,
    decreases i,
{
    reveal(has_item);
    reveal(first_index);
    if exists|j: int| 0 <= j < i && items[j] == item {
        let j = choose|j: int| 0 <= j < i && items[j] == item;
        lemma_occurrence_has_first(items, item, j);
    } else {
        assert(is_first(items, item, i));
    }
}

/// A first position is the one that `first_index` names.
pub proof fn lemma_first_is_index<A>(items: Seq<A>, item: A, i: int)
    requires
        is_first(items, item, i),
    ensures
        has_item(items, item),
        first_index(items, item) == i,
{
    reveal(has_item);
    reveal(first_index);
}

/// Where an item occurs, `first_index` names its first position.
pub proof fn lemma_index_is_first<A>(items: Seq<A>, item: A)
    requires
        has_item(items, item),
    ensures
        is_first(items, item, first_index(items, item)),
{
    reveal(has_item);
    reveal(first_index);
}

/// An item that differs from every element does not occur.
pub proof fn lemma_absent<A>(items: Seq<A>, item: A)
    requires
        forall|j: int| 0 <= j < items.len() ==> items[j] != item,
    ensures
        !has_item(items, item),
{
    reveal(has_item);
}

/// An item that does not occur differs from every element.
pub proof fn lemma_absent_everywhere<A>(items: Seq<A>, item: A)
    requires
        !has_item(items, item),
    ensures
        forall|j: int| 0 <= j < items.len() ==> items[j] != item,
{
    assert forall|j: int| 0 <= j < items.len() implies items[j] != item by {
        if items[j] == item {
            lemma_occurrence_has_first(items, item, j);
        }
    }
}

/// The mathematical content of a table.
pub ghost struct TableModel<T> {
    pub names: Seq<Name>,
    pub values: Seq<T>,
}

impl<T> TableModel<T> {
    /// The table without entries.
    pub open spec fn empty() -> TableModel<T> {
        TableModel { names: Seq::empty(), values: Seq::empty() }
    }

    /// Every name has its value.
    pub open spec fn aligned(self) -> bool {
        self.names.len() == self.values.len()
    }

    /// No name occurs twice.
    pub open spec fn unique(self) -> bool {
        self.names.no_duplicates()
    }

    /// The number of entries.
    pub open spec fn len(self) -> nat {
        self.names.len()
    }

    /// Whether there is an entry under `name`.
    pub open spec fn contains(self, name: Name) -> bool {
        has_item(self.names, name)
    }

    /// The position of the entry under `name`, where there is one.
    pub open spec fn index_of(self, name: Name) -> int {
        first_index(self.names, name)
    }

    /// The value stored under `name`, if any.
    pub open spec fn get(self, name: Name) -> Option<T> {
        if self.contains(name) {
            Some(self.values[self.index_of(name)])
        } else {
            None
        }
    }

    /// The table after storing `value` under `name`: an existing entry is
    /// overwritten in place, a new one goes to the end.
    pub open spec fn put(self, name: Name, value: T) -> TableModel<T> {
        if self.contains(name) {
            TableModel { names: self.names, values: self.values.update(self.index_of(name), value) }
        } else {
            TableModel { names: self.names.push(name), values: self.values.push(value) }
        }
    }

    /// The table after removing the entry under `name`; the last entry
    /// takes the freed position.
    pub open spec fn without(self, name: Name) -> TableModel<T> {
        if self.contains(name) {
            let i = self.index_of(name);
            let last = self.len() - 1;
            TableModel {
                names: self.names.update(i, self.names[last]).drop_last(),
                values: self.values.update(i, self.values[last]).drop_last(),
            }
        } else {
            self
        }
    }

    /// Storing under a name makes that value the one found there.
    pub proof fn lemma_put_get_same(self, name: Name, value: T)
        requires
            self.aligned(),
        ensures
            self.put(name, value).aligned(),
            self.put(name, value).contains(name),
            self.put(name, value).get(name) == Some(value),
    {
        let after = self.put(name, value);
        if self.contains(name) {
            let i = self.index_of(name);
            lemma_index_is_first(self.names, name);
            lemma_first_is_index(after.names, name, i);
        } else {
            let i = self.names.len() as int;
            lemma_absent_everywhere(self.names, name);
            lemma_first_is_index(after.names, name, i);
        }
    }

    /// Storing under a name leaves every other name's value as it was.
    pub proof fn lemma_put_get_other(self, name: Name, value: T, other: Name)
        requires
            self.aligned(),
            other != name,
        ensures
            self.put(name, value).contains(other) == self.contains(other),
            self.put(name, value).get(other) == self.get(other),
    {
        let after = self.put(name, value);
        if self.contains(name) {
            lemma_index_is_first(self.names, name);
        }
        if self.contains(other) {
            let i = self.index_of(other);
            lemma_index_is_first(self.names, other);
            lemma_first_is_index(after.names, other, i);
        }
        if after.contains(other) {
            let i = after.index_of(other);
            lemma_index_is_first(after.names, other);
            assert(after.names[i] == other);
            assert(i < self.names.len());
            assert forall|j: int| 0 <= j < i implies self.names[j] != other by {
                assert(after.names[j] == self.names[j]);
            }
            lemma_first_is_index(self.names, other, i);
        }
    }

    /// The table with `f` applied to every value.
    pub open spec fn mapped<U>(self, f: spec_fn(T) -> U) -> TableModel<U> {
        TableModel { names: self.names, values: self.values.map_values(f) }
    }

    /// Looking up in a mapped table is mapping what is looked up.
    pub proof fn lemma_mapped_get<U>(self, f: spec_fn(T) -> U, name: Name)
        requires
            self.aligned(),
        ensures
            self.mapped(f).get(name) == match self.get(name) {
                Some(v) => Some(f(v)),
                None => None,
            },
    {
        if self.contains(name) {
            lemma_index_is_first(self.names, name);
        }
    }

    /// Storing and then mapping is mapping and then storing.
    pub proof fn lemma_mapped_put<U>(self, f: spec_fn(T) -> U, name: Name, value: T)
        requires
            self.aligned(),
        ensures
            self.put(name, value).mapped(f) == self.mapped(f).put(name, f(value)),
    {
        if self.contains(name) {
            lemma_index_is_first(self.names, name);
        }
        assert(self.put(name, value).mapped(f).values =~= self.mapped(f).put(name, f(value)).values);
    }

    /// Removing and then mapping is mapping and then removing.
    pub proof fn lemma_mapped_without<U>(self, f: spec_fn(T) -> U, name: Name)
        requires
            self.aligned(),
        ensures
            self.without(name).mapped(f) == self.mapped(f).without(name),
    {
        if self.contains(name) {
            lemma_index_is_first(self.names, name);
        }
        assert(self.without(name).mapped(f).values =~= self.mapped(f).without(name).values);
    }

    /// Storing keeps names unique.
    pub proof fn lemma_put_unique(self, name: Name, value: T)
        requires
            self.unique(),
        ensures
            self.put(name, value).unique(),
    {
        if !self.contains(name) {
            lemma_absent_everywhere(self.names, name);
        }
    }

    /// Removing keeps names unique.
    pub proof fn lemma_without_unique(self, name: Name)
        requires
            self.unique(),
        ensures
            self.without(name).unique(),
    {
        if self.contains(name) {
            lemma_index_is_first(self.names, name);
        }
    }
}

/// One entry of a table.
#[derive(Debug)]
pub struct Entry<V> {
    pub key: AccountId,
    pub value: V,
}

/// A table from accounts to values that remembers the order of arrival.
#[derive(Debug)]
pub struct Table<V> {
    pub entries: Vec<Entry<V>>,
}

impl<V> Table<V> {
    /// The content of the table.
    pub open spec fn model(&self) -> TableModel<V> {
        TableModel {
            names: self.entries@.map_values(|e: Entry<V>| e.key@),
            values: self.entries@.map_values(|e: Entry<V>| e.value),
        }
    }

    /// In the content of a table every name has its value.
    pub proof fn lemma_model_aligned(&self)
        ensures
            self.model().aligned(),
    {
    }

    /// An empty table.
    pub fn new() -> (r: Table<V>)
        ensures
            r.model() == TableModel::<V>::empty(),
            r.model().unique(),
    {
        let r = Table { entries: Vec::new() };
        assert(r.model().names =~= Seq::<Name>::empty());
        assert(r.model().values =~= Seq::<V>::empty());
        r
    }

    /// The number of entries.
    pub fn len(&self) -> (r: usize)
        ensures
            r == self.model().len(),
    {
        self.entries.len()
    }

    /// The position of `key`, if the table has it.
    pub fn position(&self, key: &AccountId) -> (r: Option<usize>)
        ensures
            match r {
                Some(i) => self.model().contains(key@) && i == self.model().index_of(key@),
                None => !self.model().contains(key@),
            },
    {
        let mut i: usize = 0;
        while i < self.entries.len()
            invariant
                i <= self.entries.len(),
                forall|j: int| 0 <= j < i ==> self.model().names[j] != key@,
            decreases self.entries.len() - i,
        {
            if self.entries[i].key == *key {
                proof {
                    lemma_first_is_index(self.model().names, key@, i as int);
                }
                return Some(i);
            }
            i = i + 1;
        }
        proof {
            lemma_absent(self.model().names, key@);
        }
        None
    }

    /// Whether the table has `key`.
    pub fn contains_key(&self, key: &AccountId) -> (r: bool)
        ensures
            r == self.model().contains(key@),
    {
        self.position(key).is_some()
    }

    /// The value stored under `key`.
    pub fn get(&self, key: &AccountId) -> (r: Option<&V>)
        ensures
            match r {
                Some(v) => self.model().get(key@) == Some(*v),
                None => self.model().get(key@).is_none(),
            },
    {
        match self.position(key) {
            Some(i) => {
                proof {
                    lemma_index_is_first(self.model().names, key@);
                }
                Some(&self.entries[i].value)
            },
            None => None,
        }
    }

    /// The key at position `i`.
    pub fn key_at(&self, i: usize) -> (r: &AccountId)
        requires
            i < self.model().len(),
        ensures
            r@ == self.model().names[i as int],
    {
        &self.entries[i].key
    }

    /// The value at position `i`.
    pub fn value_at(&self, i: usize) -> (r: &V)
        requires
            i < self.model().len(),
        ensures
            *r == self.model().values[i as int],
    {
        &self.entries[i].value
    }

    /// Stores `value` under `key`, replacing what was stored there.
    pub fn insert(&mut self, key: AccountId, value: V)
        ensures
            final(self).model() == old(self).model().put(key@, value),
            old(self).model().unique() ==> final(self).model().unique(),
    {
        proof {
            if self.model().unique() {
                self.model().lemma_put_unique(key@, value);
            }
        }
        match self.position(&key) {
            Some(i) => {
                proof {
                    lemma_index_is_first(self.model().names, key@);
                }
                self.entries[i].value = value;
                assert(self.model().names =~= old(self).model().names);
                assert(self.model().values =~= old(self).model().values.update(i as int, value));
            },
            None => {
                self.entries.push(Entry { key, value });
                assert(self.model().names =~= old(self).model().names.push(key@));
                assert(self.model().values =~= old(self).model().values.push(value));
            },
        }
    }

    /// Removes the entry under `key` and returns its value. The last entry
    /// moves into the freed position.
    pub fn remove(&mut self, key: &AccountId) -> (r: Option<V>)
        ensures
            r == old(self).model().get(key@),
            final(self).model() == old(self).model().without(key@),
            old(self).model().unique() ==> final(self).model().unique(),
    {
        proof {
            if self.model().unique() {
                self.model().lemma_without_unique(key@);
            }
        }
        match self.position(key) {
            Some(i) => {
                proof {
                    lemma_index_is_first(self.model().names, key@);
                }
                let entry = self.entries.swap_remove(i);
                assert(self.model().names =~= old(self).model().without(key@).names);
                assert(self.model().values =~= old(self).model().without(key@).values);
                Some(entry.value)
            },
            None => None,
        }
    }
}

} // verus!
