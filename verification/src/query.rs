//! What readers are told of sales and of the accounts in them.

use vstd::prelude::*;
use crate::account::clone_ids;
use crate::claim::{get_amount_by_subscription, reward_settled, settled, subscription_share};
use crate::contract::{Contract, ContractView};
use crate::deposit::{deposited, rewarded};
use crate::error::Error;
use crate::ident::AccountId;
use crate::referral::{end_of_page, page_end, page_len};
use crate::sale::{
    AffiliateRewardAccount, SaleAccount, SaleOutput, SaleType, SaleView, VSale,
    VSaleAccount, output_shows,
};
use crate::table::{Name, Table, lemma_absent};

verus! {

/// The identifiers of the sales that exist among `sales[from..end]`, in
/// rising order.
pub open spec fn listed(sales: Seq<Option<SaleView>>, from: int, end: int) -> Seq<int>
    decreases end - from,
{
    if end <= from {
        Seq::empty()
    } else if 0 <= end - 1 < sales.len() && sales[end - 1] is Some {
        listed(sales, from, end - 1).push(end - 1)
    } else {
        listed(sales, from, end - 1)
    }
}

/// `outputs` shows the sales with the identifiers `ids`, one by one.
pub open spec fn shows_sales(outputs: Seq<SaleOutput>, sales: Seq<Option<SaleView>>, ids: Seq<int>) -> bool {
    &&& outputs.len() == ids.len()
    &&& forall|k: int|
        0 <= k < ids.len() ==> {
            &&& 0 <= #[trigger] ids[k] < sales.len()
            &&& sales[ids[k]] is Some
            &&& output_shows(outputs[k], sales[ids[k]].unwrap(), Some(ids[k] as u64))
        }
}

/// The amount that readers are told `account` has in `sale`: its deposit
/// under the first-come policy, the share of the supply that its deposit
/// stands for under the subscription policy, nothing without a record.
pub open spec fn sale_amount(sale: SaleView, account: Name) -> Result<u128, Error> {
    match sale.account_sales.get(account) {
        None => Ok(0),
        Some(stored) => match sale.sale_type {
            SaleType::ByAmount => Ok(stored.upgraded().amount),
            SaleType::BySubscription => match sale.distribute_supply_amount {
                None => Err(Error::MustHaveSupplyAmount),
                Some(supply) => subscription_share(
                    stored.upgraded().amount,
                    sale.collected_amount,
                    supply,
                ),
            },
        },
    }
}

/// The record of `account` as it would stand after its claim.
pub open spec fn account_after_claim(sale: SaleView, account: Name) -> Result<SaleAccount, Error> {
    match sale.distribute_token_decimals {
        None => Err(Error::NoTokenDecimals),
        Some(decimals) => match sale.account_sales.get(account) {
            None => Err(Error::NoData),
            Some(stored) => settled(sale, stored.upgraded(), decimals),
        },
    }
}

/// The reward record of `account` as it would stand after its claim.
pub open spec fn reward_account_after_claim(sale: SaleView, account: Name) -> Result<
    AffiliateRewardAccount,
    Error,
> {
    match sale.distribute_token_decimals {
        None => Err(Error::NoTokenDecimals),
        Some(decimals) => match sale.account_affiliate_rewards.get(account) {
            None => Err(Error::NoData),
            Some(stored) => reward_settled(sale, stored.upgraded(), decimals),
        },
    }
}

impl ContractView {
    /// What a question about the sale `sale_id` is answered, where
    /// `answer` is the answer that the sale gives.
    pub open spec fn ask_sale<T>(self, sale_id: u64, answer: spec_fn(SaleView) -> Result<T, Error>) -> Result<
        T,
        Error,
    > {
        match self.sale(sale_id) {
            None => Err(Error::NoSale),
            Some(sale) => answer(sale),
        }
    }
}

/// Copies an optional account identifier.
fn clone_id(id: &Option<AccountId>) -> (r: Option<AccountId>)
    ensures
        r == *id,
{
    match id {
        Some(t) => Some(t.clone()),
        None => None,
    }
}

impl VSale {
    /// The records of the depositors.
    pub fn account_sales(&self) -> (r: &Table<VSaleAccount>)
        ensures
            r.model() == self@.account_sales,
    {
        match self {
            VSale::First(sale) => &sale.account_sales,
            VSale::Current(sale) => &sale.account_sales,
        }
    }

    /// The record of `account_id`, or the empty record.
    pub fn account_record(&self, account_id: &AccountId) -> (r: SaleAccount)
        ensures
            r == deposited(self@.account_sales, account_id@),
    {
        match self.account_sales().get(account_id) {
            Some(v) => SaleAccount::from(*v),
            None => SaleAccount::empty(),
        }
    }

    /// The referral reward record of `account_id`, or the empty record.
    pub fn reward_record(&self, account_id: &AccountId) -> (r: AffiliateRewardAccount)
        ensures
            r == rewarded(self@.account_affiliate_rewards, account_id@),
    {
        match self {
            VSale::First(_) => {
                proof {
                    lemma_absent(Seq::<Name>::empty(), account_id@);
                }
                AffiliateRewardAccount::empty()
            },
            VSale::Current(sale) => sale.reward_record(account_id),
        }
    }

    /// The amount that readers are told `account_id` has in the sale.
    pub fn amount_of(&self, account_id: &AccountId) -> (r: Result<u128, Error>)
        ensures
            r == sale_amount(self@, account_id@),
    {
        match self.account_sales().get(account_id) {
            None => Ok(0),
            Some(stored) => {
                let record = SaleAccount::from(*stored);
                match self {
                    VSale::First(_) => Ok(record.amount),
                    VSale::Current(sale) => match sale.sale_type {
                        SaleType::ByAmount => Ok(record.amount),
                        SaleType::BySubscription => match sale.distribute_supply_amount {
                            None => Err(Error::MustHaveSupplyAmount),
                            Some(supply) => get_amount_by_subscription(
                                record.amount,
                                sale.collected_amount,
                                supply,
                            ),
                        },
                    },
                }
            },
        }
    }

    /// The record of `account_id` as it would stand after its claim.
    pub fn record_after_claim(&self, account_id: &AccountId) -> (r: Result<SaleAccount, Error>)
        ensures
            r == account_after_claim(self@, account_id@),
    {
        match self {
            VSale::First(_) => Err(Error::NoTokenDecimals),
            VSale::Current(sale) => match sale.distribute_token_decimals {
                None => Err(Error::NoTokenDecimals),
                Some(decimals) => match sale.account_sales.get(account_id) {
                    None => Err(Error::NoData),
                    Some(stored) => sale.settle(SaleAccount::from(*stored), decimals),
                },
            },
        }
    }

    /// The reward record of `account_id` as it would stand after its
    /// claim.
    pub fn reward_after_claim(&self, account_id: &AccountId) -> (r: Result<
        AffiliateRewardAccount,
        Error,
    >)
        ensures
            r == reward_account_after_claim(self@, account_id@),
    {
        match self {
            VSale::First(_) => Err(Error::NoTokenDecimals),
            VSale::Current(sale) => match sale.distribute_token_decimals {
                None => Err(Error::NoTokenDecimals),
                Some(decimals) => match sale.account_affiliate_rewards.get(account_id) {
                    None => Err(Error::NoData),
                    Some(stored) => sale.settle_reward(
                        AffiliateRewardAccount::from(*stored),
                        decimals,
                    ),
                },
            },
        }
    }
}

impl SaleOutput {
    /// The snapshot of the stored sale behind `v_sale`, whichever layout
    /// it has. The sale identifier is left open.
    pub fn of(v_sale: &VSale) -> (r: SaleOutput)
        ensures
            output_shows(r, v_sale@, None),
    {
        match v_sale {
            VSale::First(sale) => SaleOutput {
                sale_id: None,
                num_account_sales: sale.account_sales.len() as u64,
                metadata: sale.metadata.clone(),
                staking_contracts: clone_ids(&sale.staking_contracts),
                min_near_deposit: sale.min_near_deposit,
                deposit_token_id: sale.deposit_token_id.clone(),
                claim_available: false,
                distribute_token_id: None,
                distribute_token_decimals: None,
                distribute_supply_amount: None,
                min_buy: sale.min_buy,
                max_buy: sale.max_buy,
                max_amount: sale.max_amount,
                hard_max_amount_limit: sale.hard_max_amount_limit,
                start_date: sale.start_date,
                end_date: sale.end_date,
                price: sale.price,
                whitelist_hash: sale.whitelist_hash,
                limit_per_transaction: sale.limit_per_transaction,
                collected_amount: sale.collected_amount,
                sale_type: SaleType::ByAmount,
            },
            VSale::Current(sale) => SaleOutput {
                sale_id: None,
                num_account_sales: sale.account_sales.len() as u64,
                metadata: sale.metadata.clone(),
                staking_contracts: clone_ids(&sale.staking_contracts),
                min_near_deposit: sale.min_near_deposit,
                deposit_token_id: sale.deposit_token_id.clone(),
                claim_available: sale.claim_available,
                distribute_token_id: clone_id(&sale.distribute_token_id),
                distribute_token_decimals: sale.distribute_token_decimals,
                distribute_supply_amount: sale.distribute_supply_amount,
                min_buy: sale.min_buy,
                max_buy: sale.max_buy,
                max_amount: sale.max_amount,
                hard_max_amount_limit: sale.hard_max_amount_limit,
                start_date: sale.start_date,
                end_date: sale.end_date,
                price: sale.price,
                whitelist_hash: sale.whitelist_hash,
                limit_per_transaction: sale.limit_per_transaction,
                collected_amount: sale.collected_amount,
                sale_type: sale.sale_type,
            },
        }
    }
}

impl Contract {
    /// The stored sale `sale_id`.
    pub fn stored_sale(&self, sale_id: u64) -> (r: Option<&VSale>)
        ensures
            match r {
                Some(v_sale) => self@.sale(sale_id) == Some(v_sale@) && sale_id < self@.sales.len(),
                None => self@.sale(sale_id) is None,
            },
    {
        if sale_id >= self.sales.len() as u64 {
            return None;
        }
        let i: usize = sale_id as usize;
        assert(self@.sales[i as int] == match self.sales@[i as int] {
            Some(v) => Some(v@),
            None => None,
        });
        match &self.sales[i] {
            Some(v_sale) => Some(v_sale),
            None => None,
        }
    }

    /// The snapshot of `sale` under the identifier `sale_id`.
    pub fn get_sale_output(sale: &VSale, sale_id: u64) -> (r: SaleOutput)
        ensures
            output_shows(r, sale@, Some(sale_id)),
    {
        let mut output = SaleOutput::of(sale);
        output.sale_id = Some(sale_id);
        output
    }

    /// The number of sales that were created.
    pub fn get_num_sales(&self) -> (r: u64)
        ensures
            r == self@.sales.len(),
    {
        self.sales.len() as u64
    }

    /// The snapshot of the sale `sale_id`.
    pub fn get_sale(&self, sale_id: u64) -> (r: Result<SaleOutput, Error>)
        ensures
            match r {
                Ok(output) => self@.sale(sale_id) is Some && output_shows(
                    output,
                    self@.sale(sale_id).unwrap(),
                    Some(sale_id),
                ),
                Err(e) => e == Error::NoSale && self@.sale(sale_id) is None,
            },
    {
        match self.stored_sale(sale_id) {
            Some(v_sale) => Ok(Contract::get_sale_output(v_sale, sale_id)),
            None => Err(Error::NoSale),
        }
    }

    /// The snapshots of the sales that exist with identifiers from
    /// `from_index` on, up to `limit` identifiers further.
    pub fn get_sales(&self, from_index: u64, limit: u64) -> (r: Vec<SaleOutput>)
        ensures
            shows_sales(
                r@,
                self@.sales,
                listed(
                    self@.sales,
                    from_index as int,
                    page_end(from_index, limit, self@.sales.len()),
                ),
            ),
    {
        let end: u64 = end_of_page(from_index, limit, self.sales.len());
        let mut outputs: Vec<SaleOutput> = Vec::new();
        if from_index >= end {
            return outputs;
        }
        let mut sale_id: u64 = from_index;
        while sale_id < end
            invariant
                from_index <= sale_id <= end,
                end <= self.sales.len(),
                self@.sales.len() == self.sales.len(),
                shows_sales(
                    outputs@,
                    self@.sales,
                    listed(self@.sales, from_index as int, sale_id as int),
                ),
            decreases end - sale_id,
        {
            let ghost before = outputs@;
            let ghost ids = listed(self@.sales, from_index as int, sale_id as int);
            match self.stored_sale(sale_id) {
                Some(v_sale) => {
                    outputs.push(Contract::get_sale_output(v_sale, sale_id));
                    proof {
                        let after = listed(self@.sales, from_index as int, sale_id + 1);
                        assert(after == ids.push(sale_id as int));
                        assert forall|k: int| 0 <= k < after.len() implies {
                            &&& 0 <= #[trigger] after[k] < self@.sales.len()
                            &&& self@.sales[after[k]] is Some
                            &&& output_shows(
                                outputs@[k],
                                self@.sales[after[k]].unwrap(),
                                Some(after[k] as u64),
                            )
                        } by {
                            if k < ids.len() {
                                assert(after[k] == ids[k]);
                                assert(outputs@[k] == before[k]);
                            }
                        }
                    }
                },
                None => {
                    assert(listed(self@.sales, from_index as int, sale_id + 1) == ids);
                },
            }
            sale_id = sale_id + 1;
        }
        outputs
    }

    /// The records of the depositors of the sale `sale_id` from the
    /// position `from_index` on, up to `limit` of them, in the order of
    /// their first deposits.
    pub fn get_sale_accounts(&self, sale_id: u64, from_index: u64, limit: u64) -> (r: Result<
        Vec<(AccountId, SaleAccount)>,
        Error,
    >)
        ensures
            match r {
                Ok(page) => {
                    &&& self@.sale(sale_id) is Some
                    &&& page@.len() == page_len(
                        from_index,
                        limit,
                        self@.sale(sale_id).unwrap().account_sales.len(),
                    )
                    &&& forall|k: int|
                        0 <= k < page@.len() ==> {
                            &&& (#[trigger] page@[k]).0@ == self@.sale(
                                sale_id,
                            ).unwrap().account_sales.names[from_index + k]
                            &&& page@[k].1 == self@.sale(
                                sale_id,
                            ).unwrap().account_sales.values[from_index + k].upgraded()
                        }
                },
                Err(e) => e == Error::NoSale && self@.sale(sale_id) is None,
            },
    {
        let v_sale = match self.stored_sale(sale_id) {
            Some(v_sale) => v_sale,
            None => {
                return Err(Error::NoSale);
            },
        };
        let table = v_sale.account_sales();
        let end: u64 = end_of_page(from_index, limit, table.len());
        let mut page: Vec<(AccountId, SaleAccount)> = Vec::new();
        if from_index >= end {
            return Ok(page);
        }
        let mut index: u64 = from_index;
        while index < end
            invariant
                from_index <= index <= end,
                end <= table.entries.len(),
                table.model().len() == table.entries.len(),
                table.model().values.len() == table.entries.len(),
                page@.len() == index - from_index,
                forall|k: int|
                    0 <= k < page@.len() ==> {
                        &&& (#[trigger] page@[k]).0@ == table.model().names[from_index + k]
                        &&& page@[k].1 == table.model().values[from_index + k].upgraded()
                    },
            decreases end - index,
        {
            assert(index < table.entries.len());
            let i: usize = index as usize;
            let key = table.key_at(i).clone();
            let record = SaleAccount::from(*table.value_at(i));
            let ghost before = page@;
            page.push((key, record));
            assert forall|k: int| 0 <= k < page@.len() implies {
                &&& (#[trigger] page@[k]).0@ == table.model().names[from_index + k]
                &&& page@[k].1 == table.model().values[from_index + k].upgraded()
            } by {
                if k < before.len() {
                    assert(page@[k] == before[k]);
                }
            }
            index = index + 1;
        }
        Ok(page)
    }

    /// The record of `account_id` in the sale `sale_id`; the empty record
    /// if it has none.
    pub fn get_sale_account(&self, sale_id: u64, account_id: &AccountId) -> (r: Result<
        SaleAccount,
        Error,
    >)
        ensures
            r == self@.ask_sale(
                sale_id,
                |s: SaleView| Ok::<SaleAccount, Error>(deposited(s.account_sales, account_id@)),
            ),
    {
        match self.stored_sale(sale_id) {
            Some(v_sale) => Ok(v_sale.account_record(account_id)),
            None => Err(Error::NoSale),
        }
    }

    /// The referral reward record of `account_id` in the sale `sale_id`;
    /// the empty record if it has none.
    pub fn get_affiliate_account(&self, sale_id: u64, account_id: &AccountId) -> (r: Result<
        AffiliateRewardAccount,
        Error,
    >)
        ensures
            r == self@.ask_sale(
                sale_id,
                |s: SaleView|
                    Ok::<AffiliateRewardAccount, Error>(
                        rewarded(s.account_affiliate_rewards, account_id@),
                    ),
            ),
    {
        match self.stored_sale(sale_id) {
            Some(v_sale) => Ok(v_sale.reward_record(account_id)),
            None => Err(Error::NoSale),
        }
    }

    /// The amount that `account_id` has in the sale `sale_id`.
    pub fn get_sale_amount(&self, sale_id: u64, account_id: &AccountId) -> (r: Result<u128, Error>)
        ensures
            r == self@.ask_sale(sale_id, |s: SaleView| sale_amount(s, account_id@)),
    {
        match self.stored_sale(sale_id) {
            Some(v_sale) => v_sale.amount_of(account_id),
            None => Err(Error::NoSale),
        }
    }

    /// The record of `account_id` in the sale `sale_id` as it would
    /// stand after its claim. Nothing is changed.
    pub fn get_account_after_claim(&self, sale_id: u64, account_id: &AccountId) -> (r: Result<
        SaleAccount,
        Error,
    >)
        ensures
            r == self@.ask_sale(sale_id, |s: SaleView| account_after_claim(s, account_id@)),
    {
        match self.stored_sale(sale_id) {
            Some(v_sale) => v_sale.record_after_claim(account_id),
            None => Err(Error::NoSale),
        }
    }

    /// The referral reward record of `account_id` in the sale `sale_id`
    /// as it would stand after its claim. Nothing is changed.
    pub fn get_affiliate_reward_account_after_claim(&self, sale_id: u64, account_id: &AccountId) -> (r:
        Result<AffiliateRewardAccount, Error>)
        ensures
            r == self@.ask_sale(sale_id, |s: SaleView| reward_account_after_claim(s, account_id@)),
    {
        match self.stored_sale(sale_id) {
            Some(v_sale) => v_sale.reward_after_claim(account_id),
            None => Err(Error::NoSale),
        }
    }
}

} // verus!
