//! Moving the accounts of the old layout over to the current one, a
//! batch at a time.

use vstd::prelude::*;
use crate::account::{AccountOld, AccountView};
use crate::contract::{
    Contract, ContractView, old_accounts_view, read_old_account, sales_view,
};
use crate::error::Error;
use crate::ident::AccountId;
use crate::links::LinkTable;
use crate::sale::VSale;
use crate::table::{Name, Table, TableModel};

verus! {

/// The state of an engine whose accounts all have the old layout.
#[derive(Debug)]
pub struct OldContract {
    pub owner_id: AccountId,
    pub join_fee: u128,
    pub referral_fees: Vec<u64>,
    pub accounts: Table<AccountOld>,
    pub sales: Vec<Option<VSale>>,
    pub links: LinkTable,
}

impl ContractView {
    /// The state after the old account `name` was moved over. A name
    /// without an old account moves nothing.
    pub open spec fn with_migrated(self, name: Name) -> ContractView {
        match self.accounts_old.get(name) {
            None => self,
            Some(account) => ContractView {
                accounts: self.accounts.put(name, account),
                accounts_old: self.accounts_old.without(name),
                ..self
            },
        }
    }

    /// The state after the old accounts `names[from..]` were moved over,
    /// one after the other.
    pub open spec fn with_all_migrated(self, names: Seq<Name>, from: int) -> ContractView
        decreases names.len() - from,
    {
        if from < 0 || from >= names.len() {
            self
        } else {
            self.with_migrated(names[from]).with_all_migrated(names, from + 1)
        }
    }

    /// The names of the first old accounts, up to `limit` of them.
    pub open spec fn first_old_accounts(self, limit: u64) -> Seq<Name> {
        if limit <= self.accounts_old.names.len() {
            self.accounts_old.names.subrange(0, limit as int)
        } else {
            self.accounts_old.names
        }
    }

    /// What moving over up to `limit` old accounts does: the state
    /// afterwards and the number of old accounts that remain.
    pub open spec fn migrate(self, invoked_by_self: bool, limit: u64) -> Result<
        (ContractView, nat),
        Error,
    > {
        if !invoked_by_self {
            Err(Error::NotOwner)
        } else {
            let after = self.with_all_migrated(self.first_old_accounts(limit), 0);
            Ok((after, after.accounts_old.len()))
        }
    }
}

impl Contract {
    /// The engine that takes over from one whose accounts all have the
    /// old layout: the accounts wait to be moved over, everything else is
    /// kept. Only the engine itself may invoke this.
    pub fn migrate_a0(
        predecessor_account_id: &AccountId,
        current_account_id: &AccountId,
        old_contract: OldContract,
    ) -> (r: Result<Contract, Error>)
        ensures
            match r {
                Ok(contract) => {
                    &&& predecessor_account_id@ == current_account_id@
                    &&& contract@ == ContractView {
                        owner_id: old_contract.owner_id@,
                        join_fee: old_contract.join_fee,
                        referral_fees: old_contract.referral_fees@,
                        accounts: TableModel::<AccountView>::empty(),
                        sales: sales_view(old_contract.sales@),
                        links: old_contract.links@,
                        accounts_old: old_accounts_view(old_contract.accounts),
                    }
                },
                Err(e) => e == Error::NotOwner && predecessor_account_id@ != current_account_id@,
            },
    {
        if *predecessor_account_id != *current_account_id {
            return Err(Error::NotOwner);
        }
        let contract = Contract {
            owner_id: old_contract.owner_id,
            join_fee: old_contract.join_fee,
            referral_fees: old_contract.referral_fees,
            accounts: Table::new(),
            sales: old_contract.sales,
            links: old_contract.links,
            accounts_old: old_contract.accounts,
        };
        assert(contract@.accounts.values =~= Seq::<AccountView>::empty());
        Ok(contract)
    }

    /// Moves the old account `account_id` over.
    pub fn migrate_account(&mut self, account_id: &AccountId)
        ensures
            final(self)@ == old(self)@.with_migrated(account_id@),
    {
        proof {
            self.accounts_old.model().lemma_mapped_get(read_old_account(), account_id@);
            self.accounts_old.model().lemma_mapped_without(read_old_account(), account_id@);
        }
        match self.accounts_old.remove(account_id) {
            None => {},
            Some(account_old) => {
                let account = account_old.upgrade();
                self.store_account(account_id.clone(), account);
            },
        }
    }

    /// Moves up to `limit` old accounts over, in the order in which they
    /// stand, and returns the number of old accounts that remain. Only
    /// the engine itself may invoke this.
    pub fn migrate_a1(
        &mut self,
        predecessor_account_id: &AccountId,
        current_account_id: &AccountId,
        limit: u64,
    ) -> (r: Result<u64, Error>)
        ensures
            match r {
                Ok(pending) => old(self)@.migrate(
                    predecessor_account_id@ == current_account_id@,
                    limit,
                ) == Ok::<(ContractView, nat), Error>((final(self)@, pending as nat)),
                Err(e) => {
                    &&& old(self)@.migrate(predecessor_account_id@ == current_account_id@, limit)
                        == Err::<(ContractView, nat), Error>(e)
                    &&& final(self)@ == old(self)@
                },
            },
            final(self)@.sales == old(self)@.sales,
            old(self)@.sound() ==> final(self)@.sound(),
    {
        if *predecessor_account_id != *current_account_id {
            return Err(Error::NotOwner);
        }
        let len: usize = self.accounts_old.len();
        let count: usize = if limit <= len as u64 {
            limit as usize
        } else {
            len
        };
        let mut account_ids: Vec<AccountId> = Vec::new();
        let mut index: usize = 0;
        while index < count
            invariant
                index <= count <= self.accounts_old.entries.len(),
                self.accounts_old.model().len() == self.accounts_old.entries.len(),
                account_ids@.len() == index,
                forall|k: int|
                    0 <= k < index ==> (#[trigger] account_ids@[k])@
                        == self.accounts_old.model().names[k],
            decreases count - index,
        {
            account_ids.push(self.accounts_old.key_at(index).clone());
            index = index + 1;
        }
        let ghost names = old(self)@.first_old_accounts(limit);
        assert(names.len() == account_ids@.len());
        assert(forall|k: int| 0 <= k < names.len() ==> (#[trigger] account_ids@[k])@ == names[k]);
        let mut next: usize = 0;
        while next < account_ids.len()
            invariant
                next <= account_ids@.len() == names.len(),
                forall|k: int| 0 <= k < names.len() ==> (#[trigger] account_ids@[k])@ == names[k],
                self@.with_all_migrated(names, next as int) == old(self)@.with_all_migrated(
                    names,
                    0,
                ),
                self@.sales == old(self)@.sales,
                old(self)@.sound() ==> self@.sound(),
            decreases account_ids@.len() - next,
        {
            self.migrate_account(&account_ids[next]);
            next = next + 1;
        }
        Ok(self.accounts_old.len() as u64)
    }
}

} // verus!
