//! Accounts of the referral program.
//!
//! Every account names the account that referred it and keeps, for each of
//! three levels, the accounts that joined below it: level 0 holds its direct
//! referrals, level 1 theirs, level 2 the third degree.

use vstd::prelude::*;
use crate::ident::{AccountId, PublicKey};
use crate::table::{
    Name, first_index, has_item, lemma_absent, lemma_first_is_index, lemma_index_is_first, names_of,
    with_item, without_item,
};

verus! {

/// The byte strings that a sequence of access keys denotes.
pub open spec fn keys_of(keys: Seq<PublicKey>) -> Seq<Seq<u8>> {
    keys.map_values(|k: PublicKey| k@)
}

/// An account in the layout that had no affiliate sets.
#[derive(Debug)]
pub struct AccountOld {
    pub referrer: AccountId,
    pub links: Vec<PublicKey>,
}

/// The accounts that joined below an account, by level.
#[derive(Debug)]
pub struct Affiliates {
    pub level_0: Vec<AccountId>,
    pub level_1: Vec<AccountId>,
    pub level_2: Vec<AccountId>,
}

/// An account of the referral program.
#[derive(Debug)]
pub struct Account {
    pub referrer: AccountId,
    pub links: Vec<PublicKey>,
    pub affiliates: Affiliates,
}

/// A stored account.
#[derive(Debug)]
pub enum VAccount {
    Current(Account),
}

/// What readers are told of an account.
#[derive(Debug)]
pub struct AccountOutput {
    pub referrer: AccountId,
    pub affiliates_num: u64,
}

/// The mathematical content of an account.
pub ghost struct AccountView {
    pub referrer: Name,
    pub links: Seq<Seq<u8>>,
    /// The affiliate names of levels 0, 1 and 2.
    pub affiliates: Seq<Seq<Name>>,
}

impl AccountView {
    /// The content of an account that was just created.
    pub open spec fn fresh(referrer: Name) -> AccountView {
        AccountView {
            referrer,
            links: Seq::empty(),
            affiliates: seq![Seq::empty(), Seq::empty(), Seq::empty()],
        }
    }

    /// The affiliates on `level`; none beyond the third level.
    pub open spec fn level(self, level: u8) -> Seq<Name> {
        if level < 3 {
            self.affiliates[level as int]
        } else {
            Seq::empty()
        }
    }

    /// The account after `affiliate` joined on `level`.
    pub open spec fn with_affiliate(self, level: u8, affiliate: Name) -> AccountView {
        AccountView {
            affiliates: self.affiliates.update(
                level as int,
                with_item(self.affiliates[level as int], affiliate),
            ),
            ..self
        }
    }

    /// The number of affiliates that readers are told: deeper levels count
    /// only below a level that has members. The count stops at the largest
    /// 64-bit value.
    pub open spec fn affiliates_num(self) -> int {
        let aff_0 = self.level(0).len() as int;
        let aff_1 = if aff_0 > 0 {
            self.level(1).len() as int
        } else {
            0
        };
        let aff_2 = if aff_1 > 0 {
            self.level(2).len() as int
        } else {
            0
        };
        let total = aff_0 + aff_1 + aff_2;
        if total <= u64::MAX {
            total
        } else {
            u64::MAX as int
        }
    }
}

impl View for Affiliates {
    type V = Seq<Seq<Name>>;

    open spec fn view(&self) -> Seq<Seq<Name>> {
        seq![names_of(self.level_0@), names_of(self.level_1@), names_of(self.level_2@)]
    }
}

impl View for Account {
    type V = AccountView;

    open spec fn view(&self) -> AccountView {
        AccountView {
            referrer: self.referrer@,
            links: keys_of(self.links@),
            affiliates: self.affiliates@,
        }
    }
}

impl View for VAccount {
    type V = AccountView;

    open spec fn view(&self) -> AccountView {
        match self {
            VAccount::Current(account) => account@,
        }
    }
}

impl AccountOld {
    /// The account in the current layout: it has no affiliates yet.
    pub open spec fn upgraded(&self) -> AccountView {
        AccountView {
            referrer: self.referrer@,
            links: keys_of(self.links@),
            affiliates: seq![Seq::empty(), Seq::empty(), Seq::empty()],
        }
    }

    /// Reads an account of the old layout.
    pub fn upgrade(self) -> (r: Account)
        ensures
            r@ == self.upgraded(),
    {
        let r = Account {
            referrer: self.referrer,
            links: self.links,
            affiliates: Affiliates { level_0: Vec::new(), level_1: Vec::new(), level_2: Vec::new() },
        };
        assert(r@.affiliates =~= self.upgraded().affiliates) by {
            assert(names_of(r.affiliates.level_0@) =~= Seq::<Name>::empty());
            assert(names_of(r.affiliates.level_1@) =~= Seq::<Name>::empty());
            assert(names_of(r.affiliates.level_2@) =~= Seq::<Name>::empty());
        }
        r
    }
}

/// Copies a list of account identifiers.
pub fn clone_ids(ids: &Vec<AccountId>) -> (r: Vec<AccountId>)
    ensures
        r@ == ids@,
{
    let mut r: Vec<AccountId> = Vec::new();
    let mut i: usize = 0;
    while i < ids.len()
        invariant
            i <= ids.len(),
            r@ == ids@.subrange(0, i as int),
        decreases ids.len() - i,
    {
        r.push(ids[i].clone());
        assert(r@ =~= ids@.subrange(0, i + 1));
        i = i + 1;
    }
    assert(r@ =~= ids@);
    r
}

/// Whether `id` is among `ids`.
pub fn contains_id(ids: &Vec<AccountId>, id: &AccountId) -> (r: bool)
    ensures
        r == has_item(names_of(ids@), id@),
{
    let mut i: usize = 0;
    while i < ids.len()
        invariant
            i <= ids.len(),
            forall|j: int| 0 <= j < i ==> names_of(ids@)[j] != id@,
        decreases ids.len() - i,
    {
        if ids[i] == *id {
            proof {
                lemma_first_is_index(names_of(ids@), id@, i as int);
            }
            return true;
        }
        i = i + 1;
    }
    proof {
        lemma_absent(names_of(ids@), id@);
    }
    false
}

/// Adds `id` to the set `ids` unless it is a member already.
pub fn insert_id(ids: &mut Vec<AccountId>, id: AccountId)
    ensures
        names_of(final(ids)@) == with_item(names_of(old(ids)@), id@),
{
    if !contains_id(ids, &id) {
        ids.push(id);
        assert(names_of(ids@) =~= names_of(old(ids)@).push(id@));
    }
}

/// Whether `key` is among `keys`.
pub fn position_of_key(keys: &Vec<PublicKey>, key: &PublicKey) -> (r: Option<usize>)
    ensures
        match r {
            Some(i) => has_item(keys_of(keys@), key@) && i == first_index(keys_of(keys@), key@),
            None => !has_item(keys_of(keys@), key@),
        },
{
    let mut i: usize = 0;
    while i < keys.len()
        invariant
            i <= keys.len(),
            forall|j: int| 0 <= j < i ==> keys_of(keys@)[j] != key@,
        decreases keys.len() - i,
    {
        if keys[i] == *key {
            proof {
                lemma_first_is_index(keys_of(keys@), key@, i as int);
            }
            return Some(i);
        }
        i = i + 1;
    }
    proof {
        lemma_absent(keys_of(keys@), key@);
    }
    None
}

/// Adds `key` to the set `keys` unless it is a member already.
pub fn insert_key(keys: &mut Vec<PublicKey>, key: PublicKey)
    ensures
        keys_of(final(keys)@) == with_item(keys_of(old(keys)@), key@),
{
    if position_of_key(keys, &key).is_none() {
        keys.push(key);
        assert(keys_of(keys@) =~= keys_of(old(keys)@).push(key@));
    }
}

/// Takes `key` out of the set `keys`; the last key moves into its place.
pub fn remove_key(keys: &mut Vec<PublicKey>, key: &PublicKey)
    ensures
        keys_of(final(keys)@) == without_item(keys_of(old(keys)@), key@),
{
    match position_of_key(keys, key) {
        Some(i) => {
            proof {
                lemma_index_is_first(keys_of(keys@), key@);
            }
            let _ = keys.swap_remove(i);
            assert(keys_of(keys@) =~= without_item(keys_of(old(keys)@), key@));
        },
        None => {},
    }
}

/// Copies a list of access keys.
pub fn clone_keys(keys: &Vec<PublicKey>) -> (r: Vec<PublicKey>)
    ensures
        keys_of(r@) == keys_of(keys@),
{
    let mut r: Vec<PublicKey> = Vec::new();
    let mut i: usize = 0;
    while i < keys.len()
        invariant
            i <= keys.len(),
            r@.len() == i,
            keys_of(r@) == keys_of(keys@).subrange(0, i as int),
        decreases keys.len() - i,
    {
        let key = keys[i].clone();
        let ghost before = r@;
        r.push(key);
        assert forall|j: int| 0 <= j < r@.len() implies keys_of(r@)[j] == keys_of(keys@)[j] by {
            if j < before.len() {
                assert(keys_of(before)[j] == keys_of(keys@).subrange(0, i as int)[j]);
            }
        }
        assert(keys_of(r@) =~= keys_of(keys@).subrange(0, i + 1));
        i = i + 1;
    }
    assert(keys_of(r@) =~= keys_of(keys@));
    r
}

impl AccountView {
    /// The account with `key` among its links.
    pub open spec fn with_link(self, key: Seq<u8>) -> AccountView {
        AccountView { links: with_item(self.links, key), ..self }
    }

    /// The account without `key` among its links.
    pub open spec fn without_link(self, key: Seq<u8>) -> AccountView {
        AccountView { links: without_item(self.links, key), ..self }
    }
}

impl Account {
    /// A new account of `account_id`, referred by `referrer`. The account
    /// is kept under its identifier, which is no part of the account
    /// itself.
    pub fn new(account_id: &AccountId, referrer: &AccountId) -> (r: Account)
        ensures
            r@ == AccountView::fresh(referrer@),
    {
        let _ = account_id;
        let r = Account {
            referrer: referrer.clone(),
            links: Vec::new(),
            affiliates: Affiliates { level_0: Vec::new(), level_1: Vec::new(), level_2: Vec::new() },
        };
        assert(r@.links =~= Seq::<Seq<u8>>::empty());
        assert(r@.affiliates =~= AccountView::fresh(referrer@).affiliates) by {
            assert(names_of(r.affiliates.level_0@) =~= Seq::<Name>::empty());
            assert(names_of(r.affiliates.level_1@) =~= Seq::<Name>::empty());
            assert(names_of(r.affiliates.level_2@) =~= Seq::<Name>::empty());
        }
        r
    }

    /// Reads a stored account.
    pub fn from(v_account: VAccount) -> (r: Account)
        ensures
            r@ == v_account@,
    {
        match v_account {
            VAccount::Current(account) => account,
        }
    }

    /// Records that `affiliate` joined below this account on `level`.
    pub fn insert_affiliate(&mut self, level: u8, affiliate: AccountId)
        requires
            level < 3,
        ensures
            final(self)@ == old(self)@.with_affiliate(level, affiliate@),
    {
        if level == 0 {
            insert_id(&mut self.affiliates.level_0, affiliate);
        } else if level == 1 {
            insert_id(&mut self.affiliates.level_1, affiliate);
        } else {
            insert_id(&mut self.affiliates.level_2, affiliate);
        }
        assert(self@.affiliates =~= old(self)@.with_affiliate(level, affiliate@).affiliates);
    }
}

/// The number of affiliates of `account` on `level`.
pub fn get_affiliates_num(account: &Account, level: u8) -> (r: u64)
    ensures
        r == account@.level(level).len(),
{
    if level == 0 {
        account.affiliates.level_0.len() as u64
    } else if level == 1 {
        account.affiliates.level_1.len() as u64
    } else if level == 2 {
        account.affiliates.level_2.len() as u64
    } else {
        0
    }
}

/// The affiliates on `level`, in the order in which they joined.
pub fn internal_get_affiliates_vector(affiliates: &Affiliates, level: u8) -> (r: Vec<AccountId>)
    ensures
        names_of(r@) == if level < 3 {
            affiliates@[level as int]
        } else {
            Seq::<Name>::empty()
        },
{
    if level == 0 {
        clone_ids(&affiliates.level_0)
    } else if level == 1 {
        clone_ids(&affiliates.level_1)
    } else if level == 2 {
        clone_ids(&affiliates.level_2)
    } else {
        let r: Vec<AccountId> = Vec::new();
        assert(names_of(r@) =~= Seq::<Name>::empty());
        r
    }
}

impl AccountOutput {
    /// What readers are told of `account`.
    pub fn from(account: Account) -> (r: AccountOutput)
        ensures
            r.referrer@ == account@.referrer,
            r.affiliates_num == account@.affiliates_num(),
    {
        let aff_0: u64 = get_affiliates_num(&account, 0);
        let aff_1: u64 = if aff_0 > 0 {
            get_affiliates_num(&account, 1)
        } else {
            0
        };
        let aff_2: u64 = if aff_1 > 0 {
            get_affiliates_num(&account, 2)
        } else {
            0
        };
        AccountOutput {
            referrer: account.referrer,
            affiliates_num: aff_0.saturating_add(aff_1).saturating_add(aff_2),
        }
    }

    /// What readers are told of the account behind `account`.
    pub fn of(account: &Account) -> (r: AccountOutput)
        ensures
            r.referrer@ == account@.referrer,
            r.affiliates_num == account@.affiliates_num(),
    {
        let aff_0: u64 = get_affiliates_num(account, 0);
        let aff_1: u64 = if aff_0 > 0 {
            get_affiliates_num(account, 1)
        } else {
            0
        };
        let aff_2: u64 = if aff_1 > 0 {
            get_affiliates_num(account, 2)
        } else {
            0
        };
        AccountOutput {
            referrer: account.referrer.clone(),
            affiliates_num: aff_0.saturating_add(aff_1).saturating_add(aff_2),
        }
    }
}

} // verus!
