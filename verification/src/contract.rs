//! The engine's state: the accounts of the referral program and the sales.

use vstd::prelude::*;
use crate::account::{Account, AccountOld, AccountView, VAccount};
use crate::deposit::deposit_outcome;
use crate::error::Error;
use crate::ident::AccountId;
use crate::links::{LinkModel, LinkTable};
use crate::sale::{Sale, SaleView, VSale};
use crate::table::{Name, Table, TableModel, names_of};

verus! {

/// The whole state of the engine.
#[derive(Debug)]
pub struct Contract {
    /// The platform owner: the root of the referral program.
    pub owner_id: AccountId,
    /// What joining costs.
    pub join_fee: u128,
    /// The referral fees of the three levels; 1 is 0.01%.
    pub referral_fees: Vec<u64>,
    pub accounts: Table<VAccount>,
    /// The sales by identifier. A removed sale leaves its place empty.
    pub sales: Vec<Option<VSale>>,
    pub links: LinkTable,
    /// Accounts in the old layout that still wait to be moved over.
    pub accounts_old: Table<AccountOld>,
}

/// The mathematical content of the engine's state.
pub ghost struct ContractView {
    pub owner_id: Name,
    pub join_fee: u128,
    pub referral_fees: Seq<u64>,
    pub accounts: TableModel<AccountView>,
    pub sales: Seq<Option<SaleView>>,
    pub links: LinkModel,
    pub accounts_old: TableModel<AccountView>,
}

/// Reading a stored account.
pub open spec fn read_account() -> spec_fn(VAccount) -> AccountView {
    |v: VAccount| v@
}

/// Reading an account of the old layout.
pub open spec fn read_old_account() -> spec_fn(AccountOld) -> AccountView {
    |v: AccountOld| v.upgraded()
}

/// The content of a table of stored accounts.
pub open spec fn accounts_view(accounts: Table<VAccount>) -> TableModel<AccountView> {
    accounts.model().mapped(read_account())
}

/// The content of a table of accounts in the old layout, each seen in the
/// current one.
pub open spec fn old_accounts_view(accounts: Table<AccountOld>) -> TableModel<AccountView> {
    accounts.model().mapped(read_old_account())
}

/// The content of the stored sales, each seen in the current layout.
pub open spec fn sales_view(sales: Seq<Option<VSale>>) -> Seq<Option<SaleView>> {
    sales.map_values(
        |s: Option<VSale>|
            match s {
                Some(v) => Some(v@),
                None => None,
            },
    )
}

impl View for Contract {
    type V = ContractView;

    open spec fn view(&self) -> ContractView {
        ContractView {
            owner_id: self.owner_id@,
            join_fee: self.join_fee,
            referral_fees: self.referral_fees@,
            accounts: accounts_view(self.accounts),
            sales: sales_view(self.sales@),
            links: self.links@,
            accounts_old: old_accounts_view(self.accounts_old),
        }
    }
}

impl ContractView {
    /// The sale with the identifier `sale_id`, if there is one.
    pub open spec fn sale(self, sale_id: u64) -> Option<SaleView> {
        if sale_id < self.sales.len() {
            self.sales[sale_id as int]
        } else {
            None
        }
    }

    /// The state with `sale` in the place of the sale `sale_id`.
    pub open spec fn with_sale(self, sale_id: u64, sale: SaleView) -> ContractView {
        ContractView { sales: self.sales.update(sale_id as int, Some(sale)), ..self }
    }

    /// The referrer of `name`, if `name` has an account.
    pub open spec fn referrer_of(self, name: Name) -> Option<Name> {
        match self.accounts.get(name) {
            Some(account) => Some(account.referrer),
            None => None,
        }
    }

    /// The chain of up to three referrers above `name`, nearest first. It
    /// ends early where a referrer has no account.
    pub open spec fn referrals(self, name: Name) -> Seq<Name> {
        match self.referrer_of(name) {
            None => Seq::empty(),
            Some(first) => match self.referrer_of(first) {
                None => seq![first],
                Some(second) => match self.referrer_of(second) {
                    None => seq![first, second],
                    Some(third) => seq![first, second, third],
                },
            },
        }
    }

    /// The referrers above `name` that a deposit rewards: the chain of
    /// referrals up to, and without, the owner.
    pub open spec fn reward_chain(self, name: Name) -> Seq<Name> {
        let chain = self.referrals(name);
        if chain.len() >= 1 && chain[0] != self.owner_id {
            if chain.len() >= 2 && chain[1] != self.owner_id {
                if chain.len() >= 3 && chain[2] != self.owner_id {
                    chain
                } else {
                    chain.subrange(0, 2)
                }
            } else {
                chain.subrange(0, 1)
            }
        } else {
            Seq::empty()
        }
    }

    /// Putting a sale back where it was taken from restores the state.
    pub proof fn lemma_put_back(self, sale_id: u64)
        requires
            self.sale(sale_id) is Some,
        ensures
            (ContractView { sales: self.sales.update(sale_id as int, None), ..self }).with_sale(
                sale_id,
                self.sale(sale_id).unwrap(),
            ) == self,
    {
        assert(self.sales.update(sale_id as int, None).update(
            sale_id as int,
            Some(self.sale(sale_id).unwrap()),
        ) =~= self.sales);
    }

    /// Putting another sale where one was taken from replaces it.
    pub proof fn lemma_put_instead(self, sale_id: u64, sale: SaleView)
        requires
            self.sale(sale_id) is Some,
        ensures
            (ContractView { sales: self.sales.update(sale_id as int, None), ..self }).with_sale(
                sale_id,
                sale,
            ) == self.with_sale(sale_id, sale),
            self.sound() && sale.balanced() && sale.within_capacity() ==> self.with_sale(
                sale_id,
                sale,
            ).sound(),
    {
        assert(self.sales.update(sale_id as int, None).update(sale_id as int, Some(sale))
            =~= self.sales.update(sale_id as int, Some(sale)));
    }

    /// What a deposit does not take is part of what was offered.
    pub proof fn lemma_refused_within(
        self,
        sale_id: u64,
        token: Name,
        sender: Name,
        staked: u128,
        amount: u128,
    )
        requires
            self.deposit(sale_id, token, sender, staked, amount) is Ok,
        ensures
            self.deposit(sale_id, token, sender, staked, amount).unwrap().1 <= amount,
    {
    }

    /// In every sale the collected amount is the sum of the deposits of
    /// its accounts, and stays within a hard capacity.
    pub open spec fn sound(self) -> bool {
        forall|i: int|
            0 <= i < self.sales.len() && (#[trigger] self.sales[i]) is Some
                ==> self.sales[i].unwrap().balanced() && self.sales[i].unwrap().within_capacity()
    }

    /// What a deposit into the sale `sale_id` does: the state afterwards
    /// and the part of `amount` that the sale did not take, or the reason
    /// for refusing the deposit.
    pub open spec fn deposit(
        self,
        sale_id: u64,
        token: Name,
        sender: Name,
        staked: u128,
        amount: u128,
    ) -> Result<(ContractView, u128), Error> {
        match self.sale(sale_id) {
            None => Err(Error::NoSale),
            Some(sale) => match deposit_outcome(
                sale,
                token,
                sender,
                staked,
                amount,
                self.reward_chain(sender),
                self.referral_fees,
            ) {
                Err(e) => Err(e),
                Ok((after, refused)) => Ok((self.with_sale(sale_id, after), refused)),
            },
        }
    }
}

impl Contract {
    /// A new engine owned by `owner_id`, whose account is its own referrer.
    pub fn new(owner_id: AccountId, join_fee: u128, referral_fees: Vec<u64>) -> (r: Contract)
        ensures
            r@.owner_id == owner_id@,
            r@.join_fee == join_fee,
            r@.referral_fees == referral_fees@,
            r@.accounts == TableModel::<AccountView>::empty().put(
                owner_id@,
                AccountView::fresh(owner_id@),
            ),
            r@.sales == Seq::<Option<SaleView>>::empty(),
            r@.links == LinkModel::empty(),
            r@.accounts_old == TableModel::<AccountView>::empty(),
            r@.sound(),
    {
        let mut this = Contract {
            owner_id,
            join_fee,
            referral_fees,
            accounts: Table::new(),
            sales: Vec::new(),
            links: LinkTable::new(),
            accounts_old: Table::new(),
        };
        assert(this@.accounts.values =~= Seq::<AccountView>::empty());
        let account = Account::new(&this.owner_id, &this.owner_id);
        this.store_account(this.owner_id.clone(), account);
        assert(this@.sales =~= Seq::<Option<SaleView>>::empty());
        assert(this@.accounts_old.values =~= Seq::<AccountView>::empty());
        this
    }

    /// Stores `account` under `account_id`.
    pub fn store_account(&mut self, account_id: AccountId, account: Account)
        ensures
            final(self)@ == (ContractView {
                accounts: old(self)@.accounts.put(account_id@, account@),
                ..old(self)@
            }),
    {
        proof {
            self.accounts.model().lemma_mapped_put(
                read_account(),
                account_id@,
                VAccount::Current(account),
            );
        }
        self.accounts.insert(account_id, VAccount::Current(account));
    }

    /// Whether `account_id` has an account.
    pub fn has_account(&self, account_id: &AccountId) -> (r: bool)
        ensures
            r == self@.accounts.contains(account_id@),
    {
        self.accounts.contains_key(account_id)
    }

    /// Takes the sale `sale_id` out of the state, in the current layout.
    /// Until it is put back its place is empty.
    pub(crate) fn take_sale(&mut self, sale_id: u64) -> (r: Option<Sale>)
        ensures
            match r {
                Some(sale) => {
                    &&& old(self)@.sale(sale_id) == Some(sale@)
                    &&& sale_id < old(self)@.sales.len()
                    &&& final(self)@ == ContractView {
                        sales: old(self)@.sales.update(sale_id as int, None),
                        ..old(self)@
                    }
                },
                None => old(self)@.sale(sale_id) is None && final(self)@ == old(self)@,
            },
    {
        if sale_id >= self.sales.len() as u64 {
            return None;
        }
        let i: usize = sale_id as usize;
        assert(self@.sales[i as int] == match self.sales@[i as int] {
            Some(v) => Some(v@),
            None => None,
        });
        let taken = self.sales[i].take();
        assert(self@.sales =~= old(self)@.sales.update(sale_id as int, None));
        match taken {
            Some(v_sale) => Some(Sale::from(v_sale)),
            None => {
                assert(self@.sales =~= old(self)@.sales);
                None
            },
        }
    }

    /// Puts `sale` in the place of the sale `sale_id`.
    pub(crate) fn put_sale(&mut self, sale_id: u64, sale: Sale)
        requires
            sale_id < old(self)@.sales.len(),
        ensures
            final(self)@ == old(self)@.with_sale(sale_id, sale@),
    {
        assert(self@.sales.len() == self.sales@.len());
        assert(sale_id < self.sales.len());
        let i: usize = sale_id as usize;
        self.sales[i] = Some(VSale::Current(sale));
        assert(self@.sales =~= old(self)@.sales.update(sale_id as int, Some(sale@)));
    }

    /// The referrer of `account_id`, if it has an account.
    pub fn referrer_of(&self, account_id: &AccountId) -> (r: Option<&AccountId>)
        ensures
            match r {
                Some(referrer) => self@.referrer_of(account_id@) == Some(referrer@),
                None => self@.referrer_of(account_id@) is None,
            },
    {
        proof {
            self.accounts.model().lemma_mapped_get(read_account(), account_id@);
        }
        match self.accounts.get(account_id) {
            Some(VAccount::Current(account)) => Some(&account.referrer),
            None => None,
        }
    }

    /// The chain of up to three referrers above `account_id`.
    pub fn get_referrals(&self, account_id: &AccountId) -> (r: Vec<AccountId>)
        ensures
            names_of(r@) == self@.referrals(account_id@),
            r@.len() <= 3,
    {
        let mut referrals: Vec<AccountId> = Vec::new();
        if let Some(first) = self.referrer_of(account_id) {
            referrals.push(first.clone());
            if let Some(second) = self.referrer_of(first) {
                referrals.push(second.clone());
                if let Some(third) = self.referrer_of(second) {
                    referrals.push(third.clone());
                }
            }
        }
        assert(names_of(referrals@) =~= self@.referrals(account_id@));
        referrals
    }

    /// The referrers above `account_id` that a deposit rewards.
    pub fn reward_chain(&self, account_id: &AccountId) -> (r: Vec<AccountId>)
        ensures
            names_of(r@) == self@.reward_chain(account_id@),
            r@.len() <= 3,
    {
        let mut chain = self.get_referrals(account_id);
        let mut keep: usize = 0;
        while keep < chain.len() && chain[keep] != self.owner_id
            invariant
                keep <= chain.len() <= 3,
                names_of(chain@) == self@.referrals(account_id@),
                forall|j: int| 0 <= j < keep ==> names_of(chain@)[j] != self@.owner_id,
            decreases chain.len() - keep,
        {
            keep = keep + 1;
        }
        chain.truncate(keep);
        assert(names_of(chain@) =~= self@.reward_chain(account_id@));
        chain
    }

    /// Validates a deposit and records it for the given account in the
    /// given sale. Returns the part of the amount that the sale did not
    /// take because it is at capacity.
    pub fn internal_sale_deposit(
        &mut self,
        sale_id: u64,
        token_id: &AccountId,
        sender_id: &AccountId,
        staked_amount: u128,
        amount: u128,
    ) -> (r: Result<u128, Error>)
        ensures
            match r {
                Ok(refused) => old(self)@.deposit(
                    sale_id,
                    token_id@,
                    sender_id@,
                    staked_amount,
                    amount,
                ) == Ok::<(ContractView, u128), Error>((final(self)@, refused)),
                Err(e) => {
                    &&& old(self)@.deposit(sale_id, token_id@, sender_id@, staked_amount, amount)
                        == Err::<(ContractView, u128), Error>(e)
                    &&& final(self)@ == old(self)@
                },
            },
            old(self)@.sound() ==> final(self)@.sound(),
    {
        let chain = self.reward_chain(sender_id);
        let mut sale = match self.take_sale(sale_id) {
            Some(sale) => sale,
            None => {
                return Err(Error::NoSale);
            },
        };
        let r = sale.record_deposit(
            token_id,
            sender_id,
            staked_amount,
            amount,
            &chain,
            &self.referral_fees,
        );
        self.put_sale(sale_id, sale);
        proof {
            old(self)@.lemma_put_instead(sale_id, sale@);
            if r.is_err() {
                old(self)@.lemma_put_back(sale_id);
            }
        }
        r
    }
}

} // verus!
