//! The referral program: joining, and what is known of accounts and their
//! affiliates.

use vstd::prelude::*;
use crate::account::{
    Account, AccountOutput, AccountView, VAccount, internal_get_affiliates_vector,
};
use crate::contract::{Contract, ContractView, read_account};
use crate::error::Error;
use crate::ident::AccountId;
use crate::sale::name_of;
use crate::table::{Name, lemma_index_is_first, names_of};

verus! {

/// The end of the page that starts at `from_index` and holds up to
/// `limit` of `len` entries.
pub open spec fn page_end(from_index: u64, limit: u64, len: nat) -> int {
    if from_index + limit <= len {
        from_index + limit
    } else {
        len as int
    }
}

/// The number of entries on the page.
pub open spec fn page_len(from_index: u64, limit: u64, len: nat) -> int {
    if page_end(from_index, limit, len) >= from_index {
        page_end(from_index, limit, len) - from_index
    } else {
        0
    }
}

/// The end of the page that starts at `from_index` and holds up to
/// `limit` of `len` entries.
pub fn end_of_page(from_index: u64, limit: u64, len: usize) -> (r: u64)
    ensures
        r == page_end(from_index, limit, len as nat),
{
    let end: u64 = from_index.saturating_add(limit);
    let len: u64 = len as u64;
    if end <= len {
        end
    } else {
        len
    }
}

impl ContractView {
    /// The referrer that a joining account gets: the one it names if that
    /// has an account, else the owner.
    pub open spec fn resolved_referrer(self, referrer: Option<Name>) -> Name {
        match referrer {
            Some(r) => if self.accounts.contains(r) {
                r
            } else {
                self.owner_id
            },
            None => self.owner_id,
        }
    }

    /// The state after `affiliate` was added to the affiliates of
    /// `referrer` on `level`. A referrer without an account keeps no
    /// affiliates.
    pub open spec fn with_affiliate_on_level(self, referrer: Name, level: u8, affiliate: Name) -> ContractView {
        match self.accounts.get(referrer) {
            Some(account) => ContractView {
                accounts: self.accounts.put(referrer, account.with_affiliate(level, affiliate)),
                ..self
            },
            None => self,
        }
    }

    /// The state after `account` was added to the affiliates of the
    /// referrers above it: on level 0 of the nearest, on level 1 of the
    /// next, on level 2 of the third. The owner keeps no affiliates, nor
    /// does anyone above the owner.
    pub open spec fn with_affiliates(self, account: Name) -> ContractView {
        let chain = self.reward_chain(account);
        let after_1 = if chain.len() >= 1 {
            self.with_affiliate_on_level(chain[0], 0, account)
        } else {
            self
        };
        let after_2 = if chain.len() >= 2 {
            after_1.with_affiliate_on_level(chain[1], 1, account)
        } else {
            after_1
        };
        if chain.len() >= 3 {
            after_2.with_affiliate_on_level(chain[2], 2, account)
        } else {
            after_2
        }
    }

    /// What joining does: the state with the new account, or why the
    /// account cannot join.
    pub open spec fn join(self, account: Name, attached_deposit: u128, referrer: Option<Name>) -> Result<
        ContractView,
        Error,
    > {
        let resolved = self.resolved_referrer(referrer);
        if resolved == account {
            Err(Error::SelfReferrer)
        } else if self.accounts.contains(account) {
            Err(Error::AccountExists)
        } else if attached_deposit != self.join_fee {
            Err(Error::Fee)
        } else {
            Ok(
                (ContractView {
                    accounts: self.accounts.put(account, AccountView::fresh(resolved)),
                    ..self
                }).with_affiliates(account),
            )
        }
    }
}

impl Contract {
    /// Adds `affiliate_account_id` to the affiliates of `referrer_id` on
    /// `level`.
    pub fn insert_affiliate_on_level(
        &mut self,
        referrer_id: &AccountId,
        level: u8,
        affiliate_account_id: &AccountId,
    )
        requires
            level < 3,
        ensures
            final(self)@ == old(self)@.with_affiliate_on_level(
                referrer_id@,
                level,
                affiliate_account_id@,
            ),
    {
        proof {
            self.accounts.model().lemma_mapped_get(read_account(), referrer_id@);
        }
        match self.accounts.position(referrer_id) {
            None => {},
            Some(i) => {
                proof {
                    lemma_index_is_first(self.accounts.model().names, referrer_id@);
                }
                let ghost before = self.accounts.entries@[i as int].value@;
                match &mut self.accounts.entries[i].value {
                    VAccount::Current(account) => {
                        account.insert_affiliate(level, affiliate_account_id.clone());
                    },
                }
                assert(self@.accounts.names =~= old(self)@.accounts.names);
                assert(self@.accounts.values =~= old(self)@.accounts.values.update(
                    i as int,
                    before.with_affiliate(level, affiliate_account_id@),
                ));
            },
        }
    }

    /// Adds `account_id` to the affiliates of the referrers above it.
    pub fn insert_affiliates(&mut self, account_id: &AccountId)
        ensures
            final(self)@ == old(self)@.with_affiliates(account_id@),
    {
        let chain = self.reward_chain(account_id);
        if chain.len() >= 1 {
            self.insert_affiliate_on_level(&chain[0], 0, account_id);
        }
        if chain.len() >= 2 {
            self.insert_affiliate_on_level(&chain[1], 1, account_id);
        }
        if chain.len() >= 3 {
            self.insert_affiliate_on_level(&chain[2], 2, account_id);
        }
    }

    /// Lets `account_id` join the referral program. `attached_deposit`
    /// must be the join fee. The account is referred by `referrer_id` if
    /// that names an account, else by the owner.
    pub fn join(&mut self, account_id: AccountId, attached_deposit: u128, referrer_id: Option<AccountId>) -> (r:
        Result<(), Error>)
        ensures
            match r {
                Ok(_) => old(self)@.join(account_id@, attached_deposit, name_of(referrer_id)) == Ok::<
                    ContractView,
                    Error,
                >(final(self)@),
                Err(e) => {
                    &&& old(self)@.join(account_id@, attached_deposit, name_of(referrer_id)) == Err::<
                        ContractView,
                        Error,
                    >(e)
                    &&& final(self)@ == old(self)@
                },
            },
            final(self)@.sales == old(self)@.sales,
            old(self)@.sound() ==> final(self)@.sound(),
    {
        let referrer_id_unwrapped: AccountId = match referrer_id {
            Some(referrer) => if self.has_account(&referrer) {
                referrer
            } else {
                self.owner_id.clone()
            },
            None => self.owner_id.clone(),
        };
        if referrer_id_unwrapped == account_id {
            return Err(Error::SelfReferrer);
        }
        if self.has_account(&account_id) {
            return Err(Error::AccountExists);
        }
        if attached_deposit != self.join_fee {
            return Err(Error::Fee);
        }
        let account = Account::new(&account_id, &referrer_id_unwrapped);
        self.store_account(account_id.clone(), account);
        self.insert_affiliates(&account_id);
        Ok(())
    }

    /// What joining costs.
    pub fn get_join_fee(&self) -> (r: u128)
        ensures
            r == self@.join_fee,
    {
        self.join_fee
    }

    /// The referral fees of the three levels.
    pub fn get_referral_fees(&self) -> (r: Vec<u64>)
        ensures
            r@ == self@.referral_fees,
    {
        self.referral_fees.clone()
    }

    /// What readers are told of the account `account_id`.
    pub fn get_account(&self, account_id: &AccountId) -> (r: Result<AccountOutput, Error>)
        ensures
            match r {
                Ok(output) => {
                    &&& self@.accounts.get(account_id@) is Some
                    &&& output.referrer@ == self@.accounts.get(account_id@).unwrap().referrer
                    &&& output.affiliates_num == self@.accounts.get(
                        account_id@,
                    ).unwrap().affiliates_num()
                },
                Err(e) => e == Error::AccountDoesntExist && self@.accounts.get(account_id@) is None,
            },
    {
        proof {
            self.accounts.model().lemma_mapped_get(read_account(), account_id@);
        }
        match self.accounts.get(account_id) {
            Some(VAccount::Current(account)) => Ok(AccountOutput::of(account)),
            None => Err(Error::AccountDoesntExist),
        }
    }

    /// The number of accounts.
    pub fn get_num_accounts(&self) -> (r: u64)
        ensures
            r == self@.accounts.len(),
    {
        self.accounts.len() as u64
    }

    /// The accounts from the position `from_index` on, up to `limit` of
    /// them, in the order in which they joined.
    pub fn get_accounts(&self, from_index: u64, limit: u64) -> (r: Vec<(AccountId, AccountOutput)>)
        ensures
            r@.len() == page_len(from_index, limit, self@.accounts.len()),
            forall|k: int|
                0 <= k < r@.len() ==> {
                    &&& (#[trigger] r@[k]).0@ == self@.accounts.names[from_index + k]
                    &&& r@[k].1.referrer@ == self@.accounts.values[from_index + k].referrer
                    &&& r@[k].1.affiliates_num == self@.accounts.values[from_index
                        + k].affiliates_num()
                },
    {
        let end: u64 = end_of_page(from_index, limit, self.accounts.len());
        let mut page: Vec<(AccountId, AccountOutput)> = Vec::new();
        if from_index >= end {
            return page;
        }
        let mut index: u64 = from_index;
        while index < end
            invariant
                from_index <= index <= end,
                end <= self.accounts.entries.len(),
                self.accounts.model().len() == self.accounts.entries@.len(),
                self@.accounts.values.len() == self.accounts.entries@.len(),
                page@.len() == index - from_index,
                forall|k: int|
                    0 <= k < page@.len() ==> {
                        &&& (#[trigger] page@[k]).0@ == self@.accounts.names[from_index + k]
                        &&& page@[k].1.referrer@ == self@.accounts.values[from_index + k].referrer
                        &&& page@[k].1.affiliates_num == self@.accounts.values[from_index
                            + k].affiliates_num()
                    },
            decreases end - index,
        {
            assert(index < self.accounts.entries.len());
            let i: usize = index as usize;
            let key = self.accounts.key_at(i).clone();
            let output = match self.accounts.value_at(i) {
                VAccount::Current(account) => AccountOutput::of(account),
            };
            assert(self@.accounts.values[i as int] == self.accounts.model().values[i as int]@);
            assert(self@.accounts.names[i as int] == key@);
            let ghost before = page@;
            page.push((key, output));
            assert forall|k: int| 0 <= k < page@.len() implies {
                &&& (#[trigger] page@[k]).0@ == self@.accounts.names[from_index + k]
                &&& page@[k].1.referrer@ == self@.accounts.values[from_index + k].referrer
                &&& page@[k].1.affiliates_num == self@.accounts.values[from_index
                    + k].affiliates_num()
            } by {
                if k < before.len() {
                    assert(page@[k] == before[k]);
                }
            }
            index = index + 1;
        }
        page
    }

    /// The three sets of affiliates of `account_id`, nearest level first.
    pub fn get_affiliates(&self, account_id: &AccountId) -> (r: Result<
        (Vec<AccountId>, Vec<AccountId>, Vec<AccountId>),
        Error,
    >)
        ensures
            match r {
                Ok(levels) => {
                    &&& self@.accounts.get(account_id@) is Some
                    &&& names_of(levels.0@) == self@.accounts.get(account_id@).unwrap().level(0)
                    &&& names_of(levels.1@) == self@.accounts.get(account_id@).unwrap().level(1)
                    &&& names_of(levels.2@) == self@.accounts.get(account_id@).unwrap().level(2)
                },
                Err(e) => e == Error::NoAccount && self@.accounts.get(account_id@) is None,
            },
    {
        proof {
            self.accounts.model().lemma_mapped_get(read_account(), account_id@);
        }
        match self.accounts.get(account_id) {
            Some(VAccount::Current(account)) => Ok(
                (
                    internal_get_affiliates_vector(&account.affiliates, 0),
                    internal_get_affiliates_vector(&account.affiliates, 1),
                    internal_get_affiliates_vector(&account.affiliates, 2),
                ),
            ),
            None => Err(Error::NoAccount),
        }
    }
}

} // verus!
