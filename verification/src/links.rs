//! Invitation links: access keys under which an account may bring in new
//! accounts as their referrer.

use vstd::prelude::*;
use crate::ident::{AccountId, PublicKey};
use crate::table::{
    Name, first_index, has_item, lemma_absent, lemma_first_is_index, lemma_index_is_first,
};

verus! {

/// One link: the key and the account that made it.
#[derive(Debug)]
pub struct Link {
    pub key: PublicKey,
    pub account_id: AccountId,
}

/// The links of all accounts, by key.
#[derive(Debug)]
pub struct LinkTable {
    pub entries: Vec<Link>,
}

/// The mathematical content of the links.
pub ghost struct LinkModel {
    pub keys: Seq<Seq<u8>>,
    pub owners: Seq<Name>,
}

impl LinkModel {
    /// No links.
    pub open spec fn empty() -> LinkModel {
        LinkModel { keys: Seq::empty(), owners: Seq::empty() }
    }

    pub open spec fn contains(self, key: Seq<u8>) -> bool {
        has_item(self.keys, key)
    }

    /// The account that made the link under `key`, if there is one.
    pub open spec fn get(self, key: Seq<u8>) -> Option<Name> {
        if self.contains(key) {
            Some(self.owners[first_index(self.keys, key)])
        } else {
            None
        }
    }

    /// The links with `key` made by `owner`.
    pub open spec fn put(self, key: Seq<u8>, owner: Name) -> LinkModel {
        if self.contains(key) {
            LinkModel { keys: self.keys, owners: self.owners.update(first_index(self.keys, key), owner) }
        } else {
            LinkModel { keys: self.keys.push(key), owners: self.owners.push(owner) }
        }
    }

    /// The links without the one under `key`; the last link takes the
    /// freed position.
    pub open spec fn without(self, key: Seq<u8>) -> LinkModel {
        if self.contains(key) {
            let i = first_index(self.keys, key);
            LinkModel {
                keys: self.keys.update(i, self.keys.last()).drop_last(),
                owners: self.owners.update(i, self.owners.last()).drop_last(),
            }
        } else {
            self
        }
    }
}

impl View for LinkTable {
    type V = LinkModel;

    open spec fn view(&self) -> LinkModel {
        LinkModel {
            keys: self.entries@.map_values(|l: Link| l.key@),
            owners: self.entries@.map_values(|l: Link| l.account_id@),
        }
    }
}

impl LinkTable {
    /// No links.
    pub fn new() -> (r: LinkTable)
        ensures
            r@ == LinkModel::empty(),
    {
        let r = LinkTable { entries: Vec::new() };
        assert(r@.keys =~= Seq::<Seq<u8>>::empty());
        assert(r@.owners =~= Seq::<Name>::empty());
        r
    }

    /// The position of the link under `key`.
    pub fn position(&self, key: &PublicKey) -> (r: Option<usize>)
        ensures
            match r {
                Some(i) => self@.contains(key@) && i == first_index(self@.keys, key@),
                None => !self@.contains(key@),
            },
    {
        let mut i: usize = 0;
        while i < self.entries.len()
            invariant
                i <= self.entries.len(),
                forall|j: int| 0 <= j < i ==> self@.keys[j] != key@,
            decreases self.entries.len() - i,
        {
            if self.entries[i].key == *key {
                proof {
                    lemma_first_is_index(self@.keys, key@, i as int);
                }
                return Some(i);
            }
            i = i + 1;
        }
        proof {
            lemma_absent(self@.keys, key@);
        }
        None
    }

    /// The account that made the link under `key`.
    pub fn get(&self, key: &PublicKey) -> (r: Option<&AccountId>)
        ensures
            match r {
                Some(owner) => self@.get(key@) == Some(owner@),
                None => self@.get(key@).is_none(),
            },
    {
        match self.position(key) {
            Some(i) => {
                proof {
                    lemma_index_is_first(self@.keys, key@);
                }
                Some(&self.entries[i].account_id)
            },
            None => None,
        }
    }

    /// Records that `account_id` made the link under `key`.
    pub fn insert(&mut self, key: PublicKey, account_id: AccountId)
        ensures
            final(self)@ == old(self)@.put(key@, account_id@),
    {
        match self.position(&key) {
            Some(i) => {
                proof {
                    lemma_index_is_first(self@.keys, key@);
                }
                self.entries[i].account_id = account_id;
                assert(self@.keys =~= old(self)@.keys);
                assert(self@.owners =~= old(self)@.owners.update(i as int, account_id@));
            },
            None => {
                self.entries.push(Link { key, account_id });
                assert(self@.keys =~= old(self)@.keys.push(key@));
                assert(self@.owners =~= old(self)@.owners.push(account_id@));
            },
        }
    }

    /// Removes the link under `key`.
    pub fn remove(&mut self, key: &PublicKey)
        ensures
            final(self)@ == old(self)@.without(key@),
    {
        match self.position(key) {
            Some(i) => {
                proof {
                    lemma_index_is_first(self@.keys, key@);
                }
                let _ = self.entries.swap_remove(i);
                assert(self@.keys =~= old(self)@.without(key@).keys);
                assert(self@.owners =~= old(self)@.without(key@).owners);
            },
            None => {},
        }
    }
}

} // verus!
