//! Bringing in new accounts through invitation links.
//!
//! An account makes a link by naming an access key. Whoever holds the key
//! may have a new account created, which then has the maker of the link as
//! its referrer; the link is used up by that.

use vstd::prelude::*;
use crate::account::{
    Account, AccountView, VAccount, clone_keys, insert_key, keys_of, remove_key,
};
use crate::contract::{Contract, ContractView, read_account};
use crate::error::Error;
use crate::ident::{AccountId, PublicKey};
use crate::table::{Name, lemma_index_is_first};

verus! {

/// What making a link costs: a hundredth of a whole unit of the native
/// currency.
pub const CREATE_LINK_AMOUNT: u128 = 10_000_000_000_000_000_000_000;

/// What the holder of a link may spend on calls.
pub const ACCESS_KEY_ALLOWANCE: u128 = 10_000_000_000_000_000_000_000;

/// What is sent along with the creation of an account.
pub const CREATE_ACCOUNT_AMOUNT: u128 = 10_000_000_000_000_000_000_000;

/// A request to let `public_key` call the creation of accounts on the
/// engine, within `allowance`.
#[derive(Debug)]
pub struct AccessKeyGrant {
    pub public_key: PublicKey,
    pub allowance: u128,
}

/// A request to have the account `new_account_id` created with the key
/// `new_public_key`, sending `amount` along. When it has ended, the
/// engine is to be told through its continuation.
#[derive(Debug)]
pub struct AccountCreation {
    pub new_account_id: AccountId,
    pub new_public_key: PublicKey,
    pub amount: u128,
}

impl ContractView {
    /// The state after the link under `key` was removed from the links
    /// and from those of `account`, which must exist.
    pub open spec fn without_link(self, account: Name, key: Seq<u8>) -> Result<ContractView, Error> {
        match self.accounts.get(account) {
            None => Err(Error::NoAccount),
            Some(a) => Ok(
                ContractView {
                    links: self.links.without(key),
                    accounts: self.accounts.put(account, a.without_link(key)),
                    ..self
                },
            ),
        }
    }

    /// What making a link does.
    pub open spec fn create_link(self, caller: Name, attached_deposit: u128, key: Seq<u8>) -> Result<
        ContractView,
        Error,
    > {
        if attached_deposit != CREATE_LINK_AMOUNT {
            Err(Error::WrongDeposit)
        } else {
            match self.accounts.get(caller) {
                None => Err(Error::NoAccount),
                Some(a) => if self.links.contains(key) {
                    Err(Error::DuplicateKey)
                } else {
                    Ok(
                        ContractView {
                            links: self.links.put(key, caller),
                            accounts: self.accounts.put(caller, a.with_link(key)),
                            ..self
                        },
                    )
                },
            }
        }
    }

    /// What removing a link does. Only its maker may remove it.
    pub open spec fn remove_link(self, caller: Name, key: Seq<u8>) -> Result<ContractView, Error> {
        match self.links.get(key) {
            None => Err(Error::NoLink),
            Some(owner) => if owner != caller {
                Err(Error::NotLinkOwner)
            } else {
                self.without_link(caller, key)
            },
        }
    }

    /// What the creation of the account `new_account` through the link
    /// under `signer_key` does: the account is referred by the maker of
    /// the link, and the link is used up.
    pub open spec fn on_create_account(self, invoked_by_self: bool, signer_key: Seq<u8>, new_account: Name) -> Result<
        ContractView,
        Error,
    > {
        if !invoked_by_self {
            Err(Error::NotOwner)
        } else {
            match self.links.get(signer_key) {
                None => Err(Error::NoLink),
                Some(referrer) => (ContractView {
                    accounts: self.accounts.put(new_account, AccountView::fresh(referrer)),
                    ..self
                }).without_link(referrer, signer_key),
            }
        }
    }
}

impl Contract {
    /// Removes the link under `public_key` from the links and from those
    /// of `account_id`. Returns the key that is to lose its access.
    pub fn internal_remove_link(&mut self, account_id: &AccountId, public_key: PublicKey) -> (r: Result<
        PublicKey,
        Error,
    >)
        ensures
            match r {
                Ok(key) => key@ == public_key@ && old(self)@.without_link(account_id@, public_key@)
                    == Ok::<ContractView, Error>(final(self)@),
                Err(e) => {
                    &&& old(self)@.without_link(account_id@, public_key@) == Err::<
                        ContractView,
                        Error,
                    >(e)
                    &&& final(self)@ == old(self)@
                },
            },
            final(self)@.sales == old(self)@.sales,
            old(self)@.sound() ==> final(self)@.sound(),
    {
        proof {
            self.accounts.model().lemma_mapped_get(read_account(), account_id@);
        }
        match self.accounts.position(account_id) {
            None => Err(Error::NoAccount),
            Some(i) => {
                proof {
                    lemma_index_is_first(self.accounts.model().names, account_id@);
                }
                let ghost before = self.accounts.entries@[i as int].value@;
                self.links.remove(&public_key);
                match &mut self.accounts.entries[i].value {
                    VAccount::Current(account) => {
                        remove_key(&mut account.links, &public_key);
                    },
                }
                assert(self@.accounts.names =~= old(self)@.accounts.names);
                assert(self@.accounts.values =~= old(self)@.accounts.values.update(
                    i as int,
                    before.without_link(public_key@),
                ));
                Ok(public_key)
            },
        }
    }

    /// Makes a link of `predecessor_account_id` under `public_key`.
    /// `attached_deposit` must be what a link costs.
    pub fn create_link(
        &mut self,
        predecessor_account_id: &AccountId,
        attached_deposit: u128,
        public_key: PublicKey,
    ) -> (r: Result<AccessKeyGrant, Error>)
        ensures
            match r {
                Ok(grant) => {
                    &&& grant.public_key@ == public_key@
                    &&& grant.allowance == ACCESS_KEY_ALLOWANCE
                    &&& old(self)@.create_link(
                        predecessor_account_id@,
                        attached_deposit,
                        public_key@,
                    ) == Ok::<ContractView, Error>(final(self)@)
                },
                Err(e) => {
                    &&& old(self)@.create_link(
                        predecessor_account_id@,
                        attached_deposit,
                        public_key@,
                    ) == Err::<ContractView, Error>(e)
                    &&& final(self)@ == old(self)@
                },
            },
            final(self)@.sales == old(self)@.sales,
            old(self)@.sound() ==> final(self)@.sound(),
    {
        if attached_deposit != CREATE_LINK_AMOUNT {
            return Err(Error::WrongDeposit);
        }
        proof {
            self.accounts.model().lemma_mapped_get(read_account(), predecessor_account_id@);
        }
        let i: usize = match self.accounts.position(predecessor_account_id) {
            Some(i) => i,
            None => {
                return Err(Error::NoAccount);
            },
        };
        if self.links.get(&public_key).is_some() {
            return Err(Error::DuplicateKey);
        }
        proof {
            lemma_index_is_first(self.accounts.model().names, predecessor_account_id@);
        }
        let ghost before = self.accounts.entries@[i as int].value@;
        self.links.insert(public_key.clone(), predecessor_account_id.clone());
        match &mut self.accounts.entries[i].value {
            VAccount::Current(account) => {
                insert_key(&mut account.links, public_key.clone());
            },
        }
        assert(self@.accounts.names =~= old(self)@.accounts.names);
        assert(self@.accounts.values =~= old(self)@.accounts.values.update(
            i as int,
            before.with_link(public_key@),
        ));
        Ok(AccessKeyGrant { public_key, allowance: ACCESS_KEY_ALLOWANCE })
    }

    /// Removes the link under `public_key`, which
    /// `predecessor_account_id` must have made. Returns the key that is to
    /// lose its access.
    pub fn remove_link(&mut self, predecessor_account_id: &AccountId, public_key: PublicKey) -> (r: Result<
        PublicKey,
        Error,
    >)
        ensures
            match r {
                Ok(key) => key@ == public_key@ && old(self)@.remove_link(
                    predecessor_account_id@,
                    public_key@,
                ) == Ok::<ContractView, Error>(final(self)@),
                Err(e) => {
                    &&& old(self)@.remove_link(predecessor_account_id@, public_key@) == Err::<
                        ContractView,
                        Error,
                    >(e)
                    &&& final(self)@ == old(self)@
                },
            },
            final(self)@.sales == old(self)@.sales,
            old(self)@.sound() ==> final(self)@.sound(),
    {
        match self.links.get(&public_key) {
            None => {
                return Err(Error::NoLink);
            },
            Some(account_id) => {
                if *account_id != *predecessor_account_id {
                    return Err(Error::NotLinkOwner);
                }
            },
        }
        self.internal_remove_link(predecessor_account_id, public_key)
    }

    /// Asks for the creation of the account `account_id` with the key
    /// `public_key`. Only the engine itself, through a link, may do so.
    pub fn create_account(
        &self,
        predecessor_account_id: &AccountId,
        current_account_id: &AccountId,
        account_id: AccountId,
        public_key: PublicKey,
    ) -> (r: Result<AccountCreation, Error>)
        ensures
            match r {
                Ok(creation) => {
                    &&& predecessor_account_id@ == current_account_id@
                    &&& creation.new_account_id@ == account_id@
                    &&& creation.new_public_key@ == public_key@
                    &&& creation.amount == CREATE_ACCOUNT_AMOUNT
                },
                Err(e) => e == Error::NotOwner && predecessor_account_id@ != current_account_id@,
            },
    {
        if *predecessor_account_id != *current_account_id {
            return Err(Error::NotOwner);
        }
        Ok(
            AccountCreation {
                new_account_id: account_id,
                new_public_key: public_key,
                amount: CREATE_ACCOUNT_AMOUNT,
            },
        )
    }

    /// Takes note that the account `new_account_id` was created through
    /// the link under `signer_account_pk`. Only the engine itself may
    /// invoke this. Returns the key that is to lose its access.
    pub fn on_create_account(
        &mut self,
        predecessor_account_id: &AccountId,
        current_account_id: &AccountId,
        signer_account_pk: PublicKey,
        new_account_id: AccountId,
    ) -> (r: Result<PublicKey, Error>)
        ensures
            match r {
                Ok(key) => key@ == signer_account_pk@ && old(self)@.on_create_account(
                    predecessor_account_id@ == current_account_id@,
                    signer_account_pk@,
                    new_account_id@,
                ) == Ok::<ContractView, Error>(final(self)@),
                Err(e) => {
                    &&& old(self)@.on_create_account(
                        predecessor_account_id@ == current_account_id@,
                        signer_account_pk@,
                        new_account_id@,
                    ) == Err::<ContractView, Error>(e)
                    &&& final(self)@ == old(self)@
                },
            },
            final(self)@.sales == old(self)@.sales,
            old(self)@.sound() ==> final(self)@.sound(),
    {
        if *predecessor_account_id != *current_account_id {
            return Err(Error::NotOwner);
        }
        let referrer: AccountId = match self.links.get(&signer_account_pk) {
            Some(referrer) => referrer.clone(),
            None => {
                return Err(Error::NoLink);
            },
        };
        proof {
            old(self)@.accounts.lemma_put_get_same(new_account_id@, AccountView::fresh(referrer@));
            if referrer@ != new_account_id@ {
                old(self)@.accounts.lemma_put_get_other(
                    new_account_id@,
                    AccountView::fresh(referrer@),
                    referrer@,
                );
            }
        }
        if referrer != new_account_id && !self.has_account(&referrer) {
            return Err(Error::NoAccount);
        }
        let account = Account::new(&new_account_id, &referrer);
        self.store_account(new_account_id, account);
        self.internal_remove_link(&referrer, signer_account_pk)
    }

    /// The account that made the link under `public_key`.
    pub fn get_link_referrer(&self, public_key: &PublicKey) -> (r: Result<AccountId, Error>)
        ensures
            match r {
                Ok(owner) => self@.links.get(public_key@) == Some(owner@),
                Err(e) => e == Error::NoKey && self@.links.get(public_key@) is None,
            },
    {
        match self.links.get(public_key) {
            Some(owner) => Ok(owner.clone()),
            None => Err(Error::NoKey),
        }
    }

    /// The keys of the links that `account_id` has made.
    pub fn get_links(&self, account_id: &AccountId) -> (r: Result<Vec<PublicKey>, Error>)
        ensures
            match r {
                Ok(keys) => self@.accounts.get(account_id@) is Some && keys_of(keys@)
                    == self@.accounts.get(account_id@).unwrap().links,
                Err(e) => e == Error::NoAccount && self@.accounts.get(account_id@) is None,
            },
    {
        proof {
            self.accounts.model().lemma_mapped_get(read_account(), account_id@);
        }
        match self.accounts.get(account_id) {
            Some(VAccount::Current(account)) => Ok(clone_keys(&account.links)),
            None => Err(Error::NoAccount),
        }
    }
}

} // verus!
