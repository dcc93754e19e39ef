//! The sale aggregate: configuration, accounting totals and per-account
//! records, in their stored (versioned) and their current form.

use vstd::prelude::*;
use vstd::std_specs::convert::FromSpecImpl;
use crate::ident::AccountId;
use crate::table::{Name, Table, TableModel, names_of};

verus! {

/// The two allocation policies a sale can follow.
#[derive(Clone, Copy, Debug, PartialEq, Eq, Structural)]
pub enum SaleType {
    /// First buyers receive tokens; the sale stops once the collected amount is reached.
    ByAmount,
    /// Unlimited purchase with proportional distribution; the sale stops at its end date.
    BySubscription,
}

/// Descriptive data of a sale. The engine carries it along and never reads it.
#[derive(Debug)]
pub struct SaleMetadata {
    /// Project name that is going to be on sale.
    pub name: String,
    /// Symbol (ticker) for the token on sale.
    pub symbol: String,
    /// Project description.
    pub description: String,
    /// Link to project smart contract.
    pub smart_contract_url: String,
    /// Project logo.
    pub logo_url: String,
    /// Symbol for output token.
    pub output_ticker: String,
    /// Social media of the project.
    pub project_telegram: Option<String>,
    pub project_medium: Option<String>,
    pub project_twitter: Option<String>,
    pub reward_timestamp: Option<u64>,
    pub reward_description: Option<String>,
}

/// Copies an optional text.
fn clone_text(text: &Option<String>) -> (r: Option<String>)
    ensures
        r == *text,
{
    match text {
        Some(s) => Some(s.clone()),
        None => None,
    }
}

impl Clone for SaleMetadata {
    fn clone(&self) -> (r: SaleMetadata)
        ensures
            r == *self,
    {
        SaleMetadata {
            name: self.name.clone(),
            symbol: self.symbol.clone(),
            description: self.description.clone(),
            smart_contract_url: self.smart_contract_url.clone(),
            logo_url: self.logo_url.clone(),
            output_ticker: self.output_ticker.clone(),
            project_telegram: clone_text(&self.project_telegram),
            project_medium: clone_text(&self.project_medium),
            project_twitter: clone_text(&self.project_twitter),
            reward_timestamp: self.reward_timestamp,
            reward_description: clone_text(&self.reward_description),
        }
    }
}

/// What one account has put into a sale, in the first stored layout.
#[derive(Clone, Copy, Debug, PartialEq, Eq, Structural)]
pub struct SaleAccountOld {
    pub amount: u128,
}

/// What one account has put into a sale and taken out of it.
#[derive(Clone, Copy, Debug, PartialEq, Eq, Structural)]
pub struct SaleAccount {
    /// Total accepted deposit.
    pub amount: u128,
    /// Distribution-token amount already settled.
    pub claimed: u128,
    /// Excess deposit owed back, computed when the purchase is claimed.
    pub refund: u128,
    /// The part of the excess that was paid out.
    pub refunded: u128,
}

/// A stored per-account record, in whichever layout it was written.
#[derive(Clone, Copy, Debug, PartialEq, Eq, Structural)]
pub enum VSaleAccount {
    First(SaleAccountOld),
    Current(SaleAccount),
}

/// Referral reward of one account in one sale.
#[derive(Clone, Copy, Debug, PartialEq, Eq, Structural)]
pub struct AffiliateRewardAccount {
    /// Reward credited from deposits further down the referral chain.
    pub amount: u128,
    /// Amount paid out.
    pub claimed: u128,
}

/// A stored referral reward record.
#[derive(Clone, Copy, Debug, PartialEq, Eq, Structural)]
pub enum VAffiliateRewardAccount {
    Current(AffiliateRewardAccount),
}

impl SaleAccount {
    /// The record of an account that has not deposited.
    pub open spec fn zero() -> SaleAccount {
        SaleAccount { amount: 0, claimed: 0, refund: 0, refunded: 0 }
    }

    /// The record of an account that has not deposited.
    pub fn empty() -> (r: SaleAccount)
        ensures
            r == SaleAccount::zero(),
    {
        SaleAccount { amount: 0, claimed: 0, refund: 0, refunded: 0 }
    }
}

impl VSaleAccount {
    /// The record in the current layout: fields that the first layout
    /// lacked are zero.
    pub open spec fn upgraded(self) -> SaleAccount {
        match self {
            VSaleAccount::Current(account) => account,
            VSaleAccount::First(account) => SaleAccount {
                amount: account.amount,
                claimed: 0,
                refund: 0,
                refunded: 0,
            },
        }
    }
}

impl From<VSaleAccount> for SaleAccount {
    fn from(v_account_sale: VSaleAccount) -> (r: SaleAccount) {
        match v_account_sale {
            VSaleAccount::Current(account_sale) => account_sale,
            VSaleAccount::First(account_sale) => SaleAccount {
                amount: account_sale.amount,
                claimed: 0,
                refund: 0,
                refunded: 0,
            },
        }
    }
}

impl FromSpecImpl<VSaleAccount> for SaleAccount {
    open spec fn obeys_from_spec() -> bool {
        true
    }

    open spec fn from_spec(v_account_sale: VSaleAccount) -> SaleAccount {
        v_account_sale.upgraded()
    }
}

impl AffiliateRewardAccount {
    /// The record of an account that has earned nothing.
    pub open spec fn zero() -> AffiliateRewardAccount {
        AffiliateRewardAccount { amount: 0, claimed: 0 }
    }

    /// The record of an account that has earned nothing.
    pub fn empty() -> (r: AffiliateRewardAccount)
        ensures
            r == AffiliateRewardAccount::zero(),
    {
        AffiliateRewardAccount { amount: 0, claimed: 0 }
    }
}

impl VAffiliateRewardAccount {
    /// The record in the current layout.
    pub open spec fn upgraded(self) -> AffiliateRewardAccount {
        match self {
            VAffiliateRewardAccount::Current(account) => account,
        }
    }
}

impl From<VAffiliateRewardAccount> for AffiliateRewardAccount {
    fn from(v_account_affiliate_reward: VAffiliateRewardAccount) -> (r: AffiliateRewardAccount) {
        match v_account_affiliate_reward {
            VAffiliateRewardAccount::Current(account_affiliate_reward) => account_affiliate_reward,
        }
    }
}

impl FromSpecImpl<VAffiliateRewardAccount> for AffiliateRewardAccount {
    open spec fn obeys_from_spec() -> bool {
        true
    }

    open spec fn from_spec(v_account_affiliate_reward: VAffiliateRewardAccount) -> AffiliateRewardAccount {
        v_account_affiliate_reward.upgraded()
    }
}

/// Sale information for creating a new sale.
#[derive(Debug)]
pub struct SaleInput {
    pub metadata: SaleMetadata,
    /// Staking contracts that are checked for the depositor's stake.
    /// Empty if staking is not required for this sale.
    pub staking_contracts: Vec<AccountId>,
    /// Minimum stake with one of the above contracts.
    pub min_near_deposit: u128,
    /// Token to sell for.
    pub deposit_token_id: AccountId,
    /// Is claim available?
    pub claim_available: bool,
    /// Token for sale.
    pub distribute_token_id: Option<AccountId>,
    /// Number of decimals of the token for sale, used to calculate the purchase amount.
    pub distribute_token_decimals: Option<u8>,
    /// Total supply in tokens for distribution. Only for subscription sales.
    pub distribute_supply_amount: Option<u128>,
    /// Minimum amount of deposit token.
    pub min_buy: u128,
    /// Maximum amount of deposit token for one account.
    pub max_buy: u128,
    /// Maximum amount that can be collected by the sale.
    pub max_amount: Option<u128>,
    /// Whether the maximum amount is a hard limit.
    pub hard_max_amount_limit: bool,
    /// Start date of the sale.
    pub start_date: u64,
    /// End date of the sale.
    pub end_date: u64,
    /// Price per a single token in decimals of the deposit token.
    pub price: u128,
    /// Hash of the merkle tree of whitelisted accounts.
    pub whitelist_hash: Option<[u8; 32]>,
    /// Limit per transaction.
    pub limit_per_transaction: u128,
    /// Allocation policy.
    pub sale_type: SaleType,
}

/// A snapshot of a sale for readers.
#[derive(Debug)]
pub struct SaleOutput {
    pub sale_id: Option<u64>,
    pub metadata: SaleMetadata,
    pub staking_contracts: Vec<AccountId>,
    pub min_near_deposit: u128,
    pub deposit_token_id: AccountId,
    pub claim_available: bool,
    pub distribute_token_id: Option<AccountId>,
    pub distribute_token_decimals: Option<u8>,
    pub distribute_supply_amount: Option<u128>,
    pub min_buy: u128,
    pub max_buy: u128,
    pub max_amount: Option<u128>,
    pub hard_max_amount_limit: bool,
    pub start_date: u64,
    pub end_date: u64,
    pub price: u128,
    pub whitelist_hash: Option<[u8; 32]>,
    pub limit_per_transaction: u128,
    pub collected_amount: u128,
    pub num_account_sales: u64,
    pub sale_type: SaleType,
}

/// A sale in the first stored layout.
#[derive(Debug)]
pub struct SaleOld {
    pub metadata: SaleMetadata,
    pub staking_contracts: Vec<AccountId>,
    pub min_near_deposit: u128,
    pub deposit_token_id: AccountId,
    pub min_buy: u128,
    pub max_buy: u128,
    pub max_amount: Option<u128>,
    pub hard_max_amount_limit: bool,
    pub start_date: u64,
    pub end_date: u64,
    pub price: u128,
    pub whitelist_hash: Option<[u8; 32]>,
    pub limit_per_transaction: u128,
    pub collected_amount: u128,
    pub account_sales: Table<VSaleAccount>,
}

/// A sale in the current layout.
#[derive(Debug)]
pub struct Sale {
    pub metadata: SaleMetadata,
    pub staking_contracts: Vec<AccountId>,
    pub min_near_deposit: u128,
    pub deposit_token_id: AccountId,
    pub claim_available: bool,
    pub distribute_token_id: Option<AccountId>,
    pub distribute_token_decimals: Option<u8>,
    pub distribute_supply_amount: Option<u128>,
    pub min_buy: u128,
    pub max_buy: u128,
    pub max_amount: Option<u128>,
    pub hard_max_amount_limit: bool,
    pub start_date: u64,
    pub end_date: u64,
    pub price: u128,
    pub whitelist_hash: Option<[u8; 32]>,
    pub limit_per_transaction: u128,
    pub collected_amount: u128,
    pub account_sales: Table<VSaleAccount>,
    pub account_affiliate_rewards: Table<VAffiliateRewardAccount>,
    pub sale_type: SaleType,
}

/// A stored sale, in whichever layout it was written.
#[derive(Debug)]
pub enum VSale {
    First(SaleOld),
    Current(Sale),
}

/// The name that an optional account identifier denotes.
pub open spec fn name_of(id: Option<AccountId>) -> Option<Name> {
    match id {
        Some(a) => Some(a@),
        None => None,
    }
}

/// The mathematical content of a sale in the current layout.
pub ghost struct SaleView {
    pub metadata: SaleMetadata,
    pub staking_contracts: Seq<Name>,
    pub min_near_deposit: u128,
    pub deposit_token_id: Name,
    pub claim_available: bool,
    pub distribute_token_id: Option<Name>,
    pub distribute_token_decimals: Option<u8>,
    pub distribute_supply_amount: Option<u128>,
    pub min_buy: u128,
    pub max_buy: u128,
    pub max_amount: Option<u128>,
    pub hard_max_amount_limit: bool,
    pub start_date: u64,
    pub end_date: u64,
    pub price: u128,
    pub whitelist_hash: Option<[u8; 32]>,
    pub limit_per_transaction: u128,
    pub collected_amount: u128,
    pub account_sales: TableModel<VSaleAccount>,
    pub account_affiliate_rewards: TableModel<VAffiliateRewardAccount>,
    pub sale_type: SaleType,
}

impl View for Sale {
    type V = SaleView;

    open spec fn view(&self) -> SaleView {
        SaleView {
            metadata: self.metadata,
            staking_contracts: names_of(self.staking_contracts@),
            min_near_deposit: self.min_near_deposit,
            deposit_token_id: self.deposit_token_id@,
            claim_available: self.claim_available,
            distribute_token_id: name_of(self.distribute_token_id),
            distribute_token_decimals: self.distribute_token_decimals,
            distribute_supply_amount: self.distribute_supply_amount,
            min_buy: self.min_buy,
            max_buy: self.max_buy,
            max_amount: self.max_amount,
            hard_max_amount_limit: self.hard_max_amount_limit,
            start_date: self.start_date,
            end_date: self.end_date,
            price: self.price,
            whitelist_hash: self.whitelist_hash,
            limit_per_transaction: self.limit_per_transaction,
            collected_amount: self.collected_amount,
            account_sales: self.account_sales.model(),
            account_affiliate_rewards: self.account_affiliate_rewards.model(),
            sale_type: self.sale_type,
        }
    }
}

impl SaleOld {
    /// The sale in the current layout: claims are closed, nothing is known
    /// of a distribution token, nobody has earned a referral reward, and the
    /// policy is first-come.
    pub open spec fn upgraded(&self) -> SaleView {
        SaleView {
            metadata: self.metadata,
            staking_contracts: names_of(self.staking_contracts@),
            min_near_deposit: self.min_near_deposit,
            deposit_token_id: self.deposit_token_id@,
            claim_available: false,
            distribute_token_id: None,
            distribute_token_decimals: None,
            distribute_supply_amount: None,
            min_buy: self.min_buy,
            max_buy: self.max_buy,
            max_amount: self.max_amount,
            hard_max_amount_limit: self.hard_max_amount_limit,
            start_date: self.start_date,
            end_date: self.end_date,
            price: self.price,
            whitelist_hash: self.whitelist_hash,
            limit_per_transaction: self.limit_per_transaction,
            collected_amount: self.collected_amount,
            account_sales: self.account_sales.model(),
            account_affiliate_rewards: TableModel::empty(),
            sale_type: SaleType::ByAmount,
        }
    }
}

impl View for VSale {
    type V = SaleView;

    /// A stored sale is seen through its upgrade to the current layout.
    open spec fn view(&self) -> SaleView {
        match self {
            VSale::First(sale) => sale.upgraded(),
            VSale::Current(sale) => sale@,
        }
    }
}

/// The sale that `sale_input` describes, before any deposit.
pub open spec fn sale_of_input(sale_input: SaleInput) -> SaleView {
    SaleView {
        metadata: sale_input.metadata,
        staking_contracts: names_of(sale_input.staking_contracts@),
        min_near_deposit: sale_input.min_near_deposit,
        deposit_token_id: sale_input.deposit_token_id@,
        claim_available: sale_input.claim_available,
        distribute_token_id: name_of(sale_input.distribute_token_id),
        distribute_token_decimals: sale_input.distribute_token_decimals,
        distribute_supply_amount: sale_input.distribute_supply_amount,
        min_buy: sale_input.min_buy,
        max_buy: sale_input.max_buy,
        max_amount: sale_input.max_amount,
        hard_max_amount_limit: sale_input.hard_max_amount_limit,
        start_date: sale_input.start_date,
        end_date: sale_input.end_date,
        price: sale_input.price,
        whitelist_hash: sale_input.whitelist_hash,
        limit_per_transaction: sale_input.limit_per_transaction,
        collected_amount: 0,
        account_sales: TableModel::empty(),
        account_affiliate_rewards: TableModel::empty(),
        sale_type: sale_input.sale_type,
    }
}

/// `output` shows `sale` under the identifier `sale_id`.
pub open spec fn output_shows(output: SaleOutput, sale: SaleView, sale_id: Option<u64>) -> bool {
    &&& output.sale_id == sale_id
    &&& output.metadata == sale.metadata
    &&& names_of(output.staking_contracts@) == sale.staking_contracts
    &&& output.min_near_deposit == sale.min_near_deposit
    &&& output.deposit_token_id@ == sale.deposit_token_id
    &&& output.claim_available == sale.claim_available
    &&& name_of(output.distribute_token_id) == sale.distribute_token_id
    &&& output.distribute_token_decimals == sale.distribute_token_decimals
    &&& output.distribute_supply_amount == sale.distribute_supply_amount
    &&& output.min_buy == sale.min_buy
    &&& output.max_buy == sale.max_buy
    &&& output.max_amount == sale.max_amount
    &&& output.hard_max_amount_limit == sale.hard_max_amount_limit
    &&& output.start_date == sale.start_date
    &&& output.end_date == sale.end_date
    &&& output.price == sale.price
    &&& output.whitelist_hash == sale.whitelist_hash
    &&& output.limit_per_transaction == sale.limit_per_transaction
    &&& output.collected_amount == sale.collected_amount
    &&& output.num_account_sales == sale.account_sales.len()
    &&& output.sale_type == sale.sale_type
}

impl VSale {
    /// A fresh sale in the current layout with nothing collected. The
    /// identifier `sale_id` is where the sale will be kept; it is no part
    /// of the sale itself.
    pub fn new(sale_id: u64, sale_input: SaleInput) -> (r: VSale)
        ensures
            r is Current,
            r@ == sale_of_input(sale_input),
    {
        let _ = sale_id;
        VSale::Current(
            Sale {
                metadata: sale_input.metadata,
                staking_contracts: sale_input.staking_contracts,
                min_near_deposit: sale_input.min_near_deposit,
                deposit_token_id: sale_input.deposit_token_id,
                claim_available: sale_input.claim_available,
                distribute_token_id: sale_input.distribute_token_id,
                distribute_token_decimals: sale_input.distribute_token_decimals,
                distribute_supply_amount: sale_input.distribute_supply_amount,
                min_buy: sale_input.min_buy,
                max_buy: sale_input.max_buy,
                max_amount: sale_input.max_amount,
                hard_max_amount_limit: sale_input.hard_max_amount_limit,
                start_date: sale_input.start_date,
                end_date: sale_input.end_date,
                price: sale_input.price,
                whitelist_hash: sale_input.whitelist_hash,
                limit_per_transaction: sale_input.limit_per_transaction,
                collected_amount: 0,
                account_sales: Table::new(),
                account_affiliate_rewards: Table::new(),
                sale_type: sale_input.sale_type,
            },
        )
    }
}

impl Sale {
    /// Reads a stored sale, upgrading the first layout to the current one.
    pub fn from(v_sale: VSale) -> (r: Sale)
        ensures
            r@ == v_sale@,
    {
        match v_sale {
            VSale::First(sale) => Sale {
                metadata: sale.metadata,
                staking_contracts: sale.staking_contracts,
                min_near_deposit: sale.min_near_deposit,
                deposit_token_id: sale.deposit_token_id,
                claim_available: false,
                distribute_token_id: None,
                distribute_token_decimals: None,
                distribute_supply_amount: None,
                min_buy: sale.min_buy,
                max_buy: sale.max_buy,
                max_amount: sale.max_amount,
                hard_max_amount_limit: sale.hard_max_amount_limit,
                start_date: sale.start_date,
                end_date: sale.end_date,
                price: sale.price,
                whitelist_hash: sale.whitelist_hash,
                limit_per_transaction: sale.limit_per_transaction,
                collected_amount: sale.collected_amount,
                account_sales: sale.account_sales,
                account_affiliate_rewards: Table::new(),
                sale_type: SaleType::ByAmount,
            },
            VSale::Current(sale) => sale,
        }
    }
}

/// The number of entries of a table as the 64-bit count that snapshots carry.
fn entry_count<V>(table: &Table<V>) -> (r: u64)
    ensures
        r == table.model().len(),
{
    table.len() as u64
}

impl SaleOutput {
    /// The snapshot of a stored sale, whichever layout it has. The sale
    /// identifier is left open.
    pub fn from(v_sale: VSale) -> (r: SaleOutput)
        ensures
            output_shows(r, v_sale@, None),
    {
        match v_sale {
            VSale::First(sale) => SaleOutput {
                sale_id: None,
                num_account_sales: entry_count(&sale.account_sales),
                metadata: sale.metadata,
                staking_contracts: sale.staking_contracts,
                min_near_deposit: sale.min_near_deposit,
                deposit_token_id: sale.deposit_token_id,
                claim_available: false,
                distribute_token_id: None,
                distribute_token_decimals: None,
                distribute_supply_amount: None,
                min_buy: sale.min_buy,
                max_buy: sale.max_buy,
                max_amount: sale.max_amount,
                hard_max_amount_limit: sale.hard_max_amount_limit,
                start_date: sale.start_date,
                end_date: sale.end_date,
                price: sale.price,
                whitelist_hash: sale.whitelist_hash,
                limit_per_transaction: sale.limit_per_transaction,
                collected_amount: sale.collected_amount,
                sale_type: SaleType::ByAmount,
            },
            VSale::Current(sale) => SaleOutput {
                sale_id: None,
                num_account_sales: entry_count(&sale.account_sales),
                metadata: sale.metadata,
                staking_contracts: sale.staking_contracts,
                min_near_deposit: sale.min_near_deposit,
                deposit_token_id: sale.deposit_token_id,
                claim_available: sale.claim_available,
                distribute_token_id: sale.distribute_token_id,
                distribute_token_decimals: sale.distribute_token_decimals,
                distribute_supply_amount: sale.distribute_supply_amount,
                min_buy: sale.min_buy,
                max_buy: sale.max_buy,
                max_amount: sale.max_amount,
                hard_max_amount_limit: sale.hard_max_amount_limit,
                start_date: sale.start_date,
                end_date: sale.end_date,
                price: sale.price,
                whitelist_hash: sale.whitelist_hash,
                limit_per_transaction: sale.limit_per_transaction,
                collected_amount: sale.collected_amount,
                sale_type: sale.sale_type,
            },
        }
    }
}

} // verus!
