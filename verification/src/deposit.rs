//! Admission of deposits into a sale.
//!
//! A deposit is checked against the sale's rules, clamped at the sale's
//! hard capacity, added to the depositor's record and to the collected
//! total, and rewarded to the depositor's referrers. This is the only
//! place where the collected total changes.

use vstd::prelude::*;
use crate::error::Error;
use crate::ident::AccountId;
use crate::sale::{
    AffiliateRewardAccount, Sale, SaleAccount, SaleView, VAffiliateRewardAccount, VSaleAccount,
};
use crate::table::{Name, TableModel, lemma_index_is_first, names_of};

verus! {

/// Referral fees are parts of this denominator.
pub const REFERRAL_FEE_DENOMINATOR: u128 = 10000;

/// The number of referrers above a depositor that are rewarded.
pub const REWARDED_LEVELS: usize = 3;

/// The record of `name` in a sale, or the empty record.
pub open spec fn deposited(accounts: TableModel<VSaleAccount>, name: Name) -> SaleAccount {
    match accounts.get(name) {
        Some(v) => v.upgraded(),
        None => SaleAccount::zero(),
    }
}

/// The referral reward record of `name` in a sale, or the empty record.
pub open spec fn rewarded(rewards: TableModel<VAffiliateRewardAccount>, name: Name) -> AffiliateRewardAccount {
    match rewards.get(name) {
        Some(v) => v.upgraded(),
        None => AffiliateRewardAccount::zero(),
    }
}

/// The sum of the deposits of all records.
pub open spec fn total_deposits(values: Seq<VSaleAccount>) -> int
    decreases values.len(),
{
    if values.len() == 0 {
        0
    } else {
        total_deposits(values.drop_last()) + values.last().upgraded().amount
    }
}

impl SaleView {
    /// The collected amount is the sum of the deposits of all accounts.
    pub open spec fn balanced(self) -> bool {
        self.collected_amount == total_deposits(self.account_sales.values)
    }

    /// Under a hard capacity the collected amount stays within the maximum.
    pub open spec fn within_capacity(self) -> bool {
        self.hard_max_amount_limit && self.max_amount is Some ==> self.collected_amount
            <= self.max_amount.unwrap()
    }

    /// The part of `amount` that the sale takes: all of it without a hard
    /// capacity, else what the capacity leaves room for.
    pub open spec fn accepted_amount(self, amount: u128) -> int {
        if !self.hard_max_amount_limit {
            amount as int
        } else {
            let room = self.max_amount.unwrap() - self.collected_amount;
            if amount <= room {
                amount as int
            } else {
                room
            }
        }
    }
}

/// The reward on `accepted` at the fee of `level`, or why there is none.
pub open spec fn level_reward(fees: Seq<u64>, level: int, accepted: u128) -> Result<u128, Error> {
    if level >= fees.len() {
        Err(Error::WrongLength)
    } else if accepted * fees[level] > u128::MAX {
        Err(Error::Overflow)
    } else {
        Ok(((accepted * fees[level]) / (REFERRAL_FEE_DENOMINATOR as int)) as u128)
    }
}

/// The record `before` after the reward of `level` on `accepted` was added,
/// or why it cannot be added.
pub open spec fn credit_step(
    before: AffiliateRewardAccount,
    fees: Seq<u64>,
    level: int,
    accepted: u128,
) -> Result<AffiliateRewardAccount, Error> {
    match level_reward(fees, level, accepted) {
        Err(e) => Err(e),
        Ok(reward) => if before.amount + reward > u128::MAX {
            Err(Error::Overflow)
        } else {
            Ok(
                AffiliateRewardAccount {
                    amount: (before.amount + reward) as u128,
                    claimed: before.claimed,
                },
            )
        },
    }
}

/// The reward records after `reward` was credited to `name`.
pub open spec fn credited(
    rewards: TableModel<VAffiliateRewardAccount>,
    name: Name,
    reward: u128,
) -> TableModel<VAffiliateRewardAccount> {
    let before = rewarded(rewards, name);
    rewards.put(
        name,
        VAffiliateRewardAccount::Current(
            AffiliateRewardAccount {
                amount: (before.amount + reward) as u128,
                claimed: before.claimed,
            },
        ),
    )
}

/// The reward records after the referrers `chain[level..]` were credited,
/// one after the other, each at the fee of its level. Three levels are
/// rewarded; what `chain` holds beyond them gets nothing.
pub open spec fn credit_from(
    rewards: TableModel<VAffiliateRewardAccount>,
    chain: Seq<Name>,
    fees: Seq<u64>,
    accepted: u128,
    level: int,
) -> Result<TableModel<VAffiliateRewardAccount>, Error>
    decreases chain.len() - level,
{
    if level < 0 || level >= chain.len() || level >= REWARDED_LEVELS {
        Ok(rewards)
    } else {
        match credit_step(rewarded(rewards, chain[level]), fees, level, accepted) {
            Err(e) => Err(e),
            Ok(record) => credit_from(
                rewards.put(chain[level], VAffiliateRewardAccount::Current(record)),
                chain,
                fees,
                accepted,
                level + 1,
            ),
        }
    }
}

/// Why a deposit is refused before its rewards are looked at, if it is.
/// The checks come in this order: token, limit per transaction, stake,
/// capacity, the account's range.
pub open spec fn admission_rejection(
    sale: SaleView,
    token: Name,
    sender: Name,
    staked: u128,
    amount: u128,
) -> Option<Error> {
    if sale.deposit_token_id != token {
        Some(Error::WrongToken)
    } else if amount > sale.limit_per_transaction {
        Some(Error::LimitPerTx)
    } else if sale.staking_contracts.len() > 0 && staked < sale.min_near_deposit {
        Some(Error::NotEnoughStaked)
    } else if sale.hard_max_amount_limit && sale.max_amount is None {
        Some(Error::MustHaveMaxAmount)
    } else if sale.hard_max_amount_limit && sale.max_amount.unwrap() < sale.collected_amount {
        Some(Error::Overflow)
    } else {
        let accepted = sale.accepted_amount(amount);
        let total = deposited(sale.account_sales, sender).amount + accepted;
        if total > u128::MAX {
            Some(Error::Overflow)
        } else if !(sale.min_buy <= total <= sale.max_buy) {
            Some(Error::WrongAmount)
        } else if sale.collected_amount + accepted > u128::MAX {
            Some(Error::Overflow)
        } else {
            None
        }
    }
}

/// Why a deposit is refused, if it is: for a reason of admission, or
/// because a referral reward cannot be credited.
pub open spec fn deposit_rejection(
    sale: SaleView,
    token: Name,
    sender: Name,
    staked: u128,
    amount: u128,
    chain: Seq<Name>,
    fees: Seq<u64>,
) -> Option<Error> {
    match admission_rejection(sale, token, sender, staked, amount) {
        Some(e) => Some(e),
        None => match credit_from(
            sale.account_affiliate_rewards,
            chain,
            fees,
            sale.accepted_amount(amount) as u128,
            0,
        ) {
            Err(e) => Some(e),
            Ok(_) => None,
        },
    }
}

/// The sale after it took `accepted` from `sender` and rewarded `chain`.
pub open spec fn after_deposit(
    sale: SaleView,
    sender: Name,
    accepted: u128,
    chain: Seq<Name>,
    fees: Seq<u64>,
) -> SaleView {
    let before = deposited(sale.account_sales, sender);
    SaleView {
        collected_amount: (sale.collected_amount + accepted) as u128,
        account_sales: sale.account_sales.put(
            sender,
            VSaleAccount::Current(
                SaleAccount { amount: (before.amount + accepted) as u128, ..before },
            ),
        ),
        account_affiliate_rewards: credit_from(
            sale.account_affiliate_rewards,
            chain,
            fees,
            accepted,
            0,
        ).unwrap(),
        ..sale
    }
}

/// What a deposit does to a sale: the sale afterwards and the part of the
/// amount that it did not take, or the reason for refusing the deposit.
pub open spec fn deposit_outcome(
    sale: SaleView,
    token: Name,
    sender: Name,
    staked: u128,
    amount: u128,
    chain: Seq<Name>,
    fees: Seq<u64>,
) -> Result<(SaleView, u128), Error> {
    match deposit_rejection(sale, token, sender, staked, amount, chain, fees) {
        Some(e) => Err(e),
        None => {
            let accepted = sale.accepted_amount(amount) as u128;
            Ok((after_deposit(sale, sender, accepted, chain, fees), (amount - accepted) as u128))
        },
    }
}

/// Appending a record adds its deposit to the total.
pub proof fn lemma_total_push(values: Seq<VSaleAccount>, v: VSaleAccount)
    ensures
        total_deposits(values.push(v)) == total_deposits(values) + v.upgraded().amount,
{
    assert(values.push(v).drop_last() =~= values);
}

/// Replacing a record changes the total by the difference of the deposits.
pub proof fn lemma_total_update(values: Seq<VSaleAccount>, i: int, v: VSaleAccount)
    requires
        0 <= i < values.len(),
    ensures
        total_deposits(values.update(i, v)) == total_deposits(values) - values[i].upgraded().amount
            + v.upgraded().amount,
    decreases values.len(),
{
    let after = values.update(i, v);
    if i == values.len() - 1 {
        assert(after.drop_last() =~= values.drop_last());
    } else {
        assert(after.drop_last() =~= values.drop_last().update(i, v));
        lemma_total_update(values.drop_last(), i, v);
    }
}

/// Storing a record changes the total of a table by the difference between
/// the new deposit and the one that `name` had.
pub proof fn lemma_total_put(accounts: TableModel<VSaleAccount>, name: Name, v: VSaleAccount)
    requires
        accounts.aligned(),
    ensures
        total_deposits(accounts.put(name, v).values) == total_deposits(accounts.values) - deposited(
            accounts,
            name,
        ).amount + v.upgraded().amount,
{
    if accounts.contains(name) {
        lemma_index_is_first(accounts.names, name);
        lemma_total_update(accounts.values, accounts.index_of(name), v);
    } else {
        lemma_total_push(accounts.values, v);
    }
}

/// A deposit keeps the collected amount equal to the sum of the deposits,
/// and within a hard capacity.
pub proof fn lemma_deposit_keeps_balance(
    sale: SaleView,
    token: Name,
    sender: Name,
    staked: u128,
    amount: u128,
    chain: Seq<Name>,
    fees: Seq<u64>,
)
    requires
        sale.account_sales.aligned(),
        deposit_outcome(sale, token, sender, staked, amount, chain, fees) is Ok,
    ensures
        sale.balanced() ==> deposit_outcome(
            sale,
            token,
            sender,
            staked,
            amount,
            chain,
            fees,
        ).unwrap().0.balanced(),
        deposit_outcome(sale, token, sender, staked, amount, chain, fees).unwrap().0.within_capacity(),
{
    let accepted = sale.accepted_amount(amount) as u128;
    let before = deposited(sale.account_sales, sender);
    lemma_total_put(
        sale.account_sales,
        sender,
        VSaleAccount::Current(SaleAccount { amount: (before.amount + accepted) as u128, ..before }),
    );
}

/// The reward on `accepted` at the fee of `level`.
fn reward_for_level(fees: &Vec<u64>, level: usize, accepted: u128) -> (r: Result<u128, Error>)
    ensures
        r == level_reward(fees@, level as int, accepted),
{
    if level >= fees.len() {
        return Err(Error::WrongLength);
    }
    let fee: u128 = fees[level] as u128;
    match accepted.checked_mul(fee) {
        Some(product) => Ok(product / REFERRAL_FEE_DENOMINATOR),
        None => Err(Error::Overflow),
    }
}

/// The record `before` with `reward` added, where the sum fits.
fn raised(before: AffiliateRewardAccount, reward: u128) -> (r: Option<AffiliateRewardAccount>)
    ensures
        r == if before.amount + reward > u128::MAX {
            None
        } else {
            Some(
                AffiliateRewardAccount {
                    amount: (before.amount + reward) as u128,
                    claimed: before.claimed,
                },
            )
        },
{
    match before.amount.checked_add(reward) {
        Some(amount) => Some(AffiliateRewardAccount { amount, claimed: before.claimed }),
        None => None,
    }
}

/// The record `before` after the reward of `level` on `accepted` was added.
fn next_credit(before: AffiliateRewardAccount, fees: &Vec<u64>, level: usize, accepted: u128) -> (r:
    Result<AffiliateRewardAccount, Error>)
    ensures
        r == credit_step(before, fees@, level as int, accepted),
{
    match reward_for_level(fees, level, accepted) {
        Err(e) => Err(e),
        Ok(reward) => match raised(before, reward) {
            Some(record) => Ok(record),
            None => Err(Error::Overflow),
        },
    }
}

/// The records that up to three referrers get, nearest first.
struct RewardPlan {
    first: AffiliateRewardAccount,
    second: AffiliateRewardAccount,
    third: AffiliateRewardAccount,
}

/// What an admitted deposit changes in the sale besides the rewards.
struct Admission {
    accepted: u128,
    record: SaleAccount,
    collected: u128,
}

/// The reward records after the plan was written for `chain`.
spec fn planned(
    rewards: TableModel<VAffiliateRewardAccount>,
    chain: Seq<Name>,
    plan: RewardPlan,
) -> TableModel<VAffiliateRewardAccount> {
    let after_1 = if chain.len() >= 1 {
        rewards.put(chain[0], VAffiliateRewardAccount::Current(plan.first))
    } else {
        rewards
    };
    let after_2 = if chain.len() >= 2 {
        after_1.put(chain[1], VAffiliateRewardAccount::Current(plan.second))
    } else {
        after_1
    };
    if chain.len() >= 3 {
        after_2.put(chain[2], VAffiliateRewardAccount::Current(plan.third))
    } else {
        after_2
    }
}

/// Beyond the end of the chain nothing is credited.
proof fn lemma_credit_done(
    rewards: TableModel<VAffiliateRewardAccount>,
    chain: Seq<Name>,
    fees: Seq<u64>,
    accepted: u128,
    level: int,
)
    requires
        level >= chain.len() || level >= 3,
    ensures
        credit_from(rewards, chain, fees, accepted, level) == Ok::<
            TableModel<VAffiliateRewardAccount>,
            Error,
        >(rewards),
{
}

/// Crediting from a level is crediting that level and then the rest.
proof fn lemma_credit_unfold(
    rewards: TableModel<VAffiliateRewardAccount>,
    chain: Seq<Name>,
    fees: Seq<u64>,
    accepted: u128,
    level: int,
)
    requires
        0 <= level < chain.len(),
        level < 3,
    ensures
        credit_from(rewards, chain, fees, accepted, level) == match credit_step(
            rewarded(rewards, chain[level]),
            fees,
            level,
            accepted,
        ) {
            Err(e) => Err(e),
            Ok(record) => credit_from(
                rewards.put(chain[level], VAffiliateRewardAccount::Current(record)),
                chain,
                fees,
                accepted,
                level + 1,
            ),
        },
{
}

/// After a record was stored under `name`, it is the record of `name`, and
/// the records of other names are as before.
proof fn lemma_rewarded_after_put(
    rewards: TableModel<VAffiliateRewardAccount>,
    name: Name,
    record: AffiliateRewardAccount,
    other: Name,
)
    requires
        rewards.aligned(),
    ensures
        rewards.put(name, VAffiliateRewardAccount::Current(record)).aligned(),
        rewarded(rewards.put(name, VAffiliateRewardAccount::Current(record)), other) == if other
            == name {
            record
        } else {
            rewarded(rewards, other)
        },
{
    rewards.lemma_put_get_same(name, VAffiliateRewardAccount::Current(record));
    if other != name {
        rewards.lemma_put_get_other(name, VAffiliateRewardAccount::Current(record), other);
    }
}

impl Sale {
    /// The record of `account_id`, or the empty record.
    pub fn account_record(&self, account_id: &AccountId) -> (r: SaleAccount)
        ensures
            r == deposited(self@.account_sales, account_id@),
    {
        match self.account_sales.get(account_id) {
            Some(v) => SaleAccount::from(*v),
            None => SaleAccount::empty(),
        }
    }

    /// The referral reward record of `account_id`, or the empty record.
    pub fn reward_record(&self, account_id: &AccountId) -> (r: AffiliateRewardAccount)
        ensures
            r == rewarded(self@.account_affiliate_rewards, account_id@),
    {
        match self.account_affiliate_rewards.get(account_id) {
            Some(v) => AffiliateRewardAccount::from(*v),
            None => AffiliateRewardAccount::empty(),
        }
    }

    /// Credits `amount` to the referral reward of `account_id`.
    pub fn internal_insert_affiliate(&mut self, account_id: &AccountId, amount: u128) -> (r: Result<
        (),
        Error,
    >)
        ensures
            match r {
                Ok(_) => {
                    &&& rewarded(old(self)@.account_affiliate_rewards, account_id@).amount + amount
                        <= u128::MAX
                    &&& final(self)@ == SaleView {
                        account_affiliate_rewards: credited(
                            old(self)@.account_affiliate_rewards,
                            account_id@,
                            amount,
                        ),
                        ..old(self)@
                    }
                },
                Err(e) => {
                    &&& e == Error::Overflow
                    &&& rewarded(old(self)@.account_affiliate_rewards, account_id@).amount + amount
                        > u128::MAX
                    &&& final(self)@ == old(self)@
                },
            },
    {
        let before = self.reward_record(account_id);
        match raised(before, amount) {
            Some(after) => {
                self.account_affiliate_rewards.insert(
                    account_id.clone(),
                    VAffiliateRewardAccount::Current(after),
                );
                Ok(())
            },
            None => Err(Error::Overflow),
        }
    }

    /// Checks a deposit against the sale's rules and works out what it
    /// changes, without changing it.
    fn check_admission(&self, token_id: &AccountId, sender_id: &AccountId, staked_amount: u128, amount: u128) -> (r:
        Result<Admission, Error>)
        ensures
            match r {
                Ok(a) => {
                    &&& admission_rejection(self@, token_id@, sender_id@, staked_amount, amount)
                        is None
                    &&& a.accepted == self@.accepted_amount(amount)
                    &&& a.accepted <= amount
                    &&& a.record == SaleAccount {
                        amount: (deposited(self@.account_sales, sender_id@).amount
                            + a.accepted) as u128,
                        ..deposited(self@.account_sales, sender_id@)
                    }
                    &&& a.collected == self@.collected_amount + a.accepted
                },
                Err(e) => admission_rejection(self@, token_id@, sender_id@, staked_amount, amount)
                    == Some(e),
            },
    {
        if self.deposit_token_id != *token_id {
            return Err(Error::WrongToken);
        }
        if amount > self.limit_per_transaction {
            return Err(Error::LimitPerTx);
        }
        if self.staking_contracts.len() > 0 && staked_amount < self.min_near_deposit {
            return Err(Error::NotEnoughStaked);
        }
        let accepted: u128 = if !self.hard_max_amount_limit {
            amount
        } else {
            match self.max_amount {
                None => {
                    return Err(Error::MustHaveMaxAmount);
                },
                Some(max_amount) => {
                    if max_amount < self.collected_amount {
                        return Err(Error::Overflow);
                    }
                    let room: u128 = max_amount - self.collected_amount;
                    if amount <= room {
                        amount
                    } else {
                        room
                    }
                },
            }
        };
        let mut record = self.account_record(sender_id);
        record.amount = match record.amount.checked_add(accepted) {
            Some(total) => total,
            None => {
                return Err(Error::Overflow);
            },
        };
        if !(self.max_buy >= record.amount && self.min_buy <= record.amount) {
            return Err(Error::WrongAmount);
        }
        let collected: u128 = match self.collected_amount.checked_add(accepted) {
            Some(total) => total,
            None => {
                return Err(Error::Overflow);
            },
        };
        Ok(Admission { accepted, record, collected })
    }

    /// Works out the reward records of the referrers in `chain` without
    /// writing them. A referrer that occurs again further up builds on
    /// what the nearer level gave it.
    fn plan_rewards(&self, chain: &Vec<AccountId>, fees: &Vec<u64>, accepted: u128) -> (r: Result<
        RewardPlan,
        Error,
    >)
        ensures
            match r {
                Ok(plan) => credit_from(
                    self@.account_affiliate_rewards,
                    names_of(chain@),
                    fees@,
                    accepted,
                    0,
                ) == Ok::<TableModel<VAffiliateRewardAccount>, Error>(
                    planned(self@.account_affiliate_rewards, names_of(chain@), plan),
                ),
                Err(e) => credit_from(
                    self@.account_affiliate_rewards,
                    names_of(chain@),
                    fees@,
                    accepted,
                    0,
                ) == Err::<TableModel<VAffiliateRewardAccount>, Error>(e),
            },
    {
        let ghost names = names_of(chain@);
        let ghost rewards_0 = self@.account_affiliate_rewards;
        let zero = AffiliateRewardAccount::empty();
        let mut plan = RewardPlan { first: zero, second: zero, third: zero };
        if chain.len() == 0 {
            proof {
                lemma_credit_done(rewards_0, names, fees@, accepted, 0);
            }
            return Ok(plan);
        }
        proof {
            lemma_credit_unfold(rewards_0, names, fees@, accepted, 0);
        }
        plan.first = match next_credit(self.reward_record(&chain[0]), fees, 0, accepted) {
            Ok(record) => record,
            Err(e) => {
                return Err(e);
            },
        };
        let ghost rewards_1 = rewards_0.put(names[0], VAffiliateRewardAccount::Current(plan.first));
        if chain.len() == 1 {
            proof {
                lemma_credit_done(rewards_1, names, fees@, accepted, 1);
            }
            return Ok(plan);
        }
        proof {
            lemma_credit_unfold(rewards_1, names, fees@, accepted, 1);
            lemma_rewarded_after_put(rewards_0, names[0], plan.first, names[1]);
        }
        let before_2 = if chain[1] == chain[0] {
            plan.first
        } else {
            self.reward_record(&chain[1])
        };
        plan.second = match next_credit(before_2, fees, 1, accepted) {
            Ok(record) => record,
            Err(e) => {
                return Err(e);
            },
        };
        let ghost rewards_2 = rewards_1.put(names[1], VAffiliateRewardAccount::Current(plan.second));
        if chain.len() == 2 {
            proof {
                lemma_credit_done(rewards_2, names, fees@, accepted, 2);
            }
            return Ok(plan);
        }
        proof {
            lemma_credit_unfold(rewards_2, names, fees@, accepted, 2);
            lemma_rewarded_after_put(rewards_0, names[0], plan.first, names[2]);
            lemma_rewarded_after_put(rewards_1, names[1], plan.second, names[2]);
        }
        let before_3 = if chain[2] == chain[1] {
            plan.second
        } else if chain[2] == chain[0] {
            plan.first
        } else {
            self.reward_record(&chain[2])
        };
        plan.third = match next_credit(before_3, fees, 2, accepted) {
            Ok(record) => record,
            Err(e) => {
                return Err(e);
            },
        };
        proof {
            let rewards_3 = rewards_2.put(names[2], VAffiliateRewardAccount::Current(plan.third));
            lemma_credit_done(rewards_3, names, fees@, accepted, 3);
        }
        Ok(plan)
    }

    /// Writes the planned reward records.
    fn write_rewards(&mut self, chain: &Vec<AccountId>, plan: RewardPlan)
        ensures
            final(self)@ == (SaleView {
                account_affiliate_rewards: planned(
                    old(self)@.account_affiliate_rewards,
                    names_of(chain@),
                    plan,
                ),
                ..old(self)@
            }),
    {
        if chain.len() >= 1 {
            self.account_affiliate_rewards.insert(
                chain[0].clone(),
                VAffiliateRewardAccount::Current(plan.first),
            );
        }
        if chain.len() >= 2 {
            self.account_affiliate_rewards.insert(
                chain[1].clone(),
                VAffiliateRewardAccount::Current(plan.second),
            );
        }
        if chain.len() >= 3 {
            self.account_affiliate_rewards.insert(
                chain[2].clone(),
                VAffiliateRewardAccount::Current(plan.third),
            );
        }
    }

    /// Validates a deposit of `amount` by `sender_id` and records it.
    /// `chain` holds the referrers to reward, nearest first; `fees` the
    /// fee of each level.
    ///
    /// Returns the part of `amount` that the sale did not take.
    pub fn record_deposit(
        &mut self,
        token_id: &AccountId,
        sender_id: &AccountId,
        staked_amount: u128,
        amount: u128,
        chain: &Vec<AccountId>,
        fees: &Vec<u64>,
    ) -> (r: Result<u128, Error>)
        ensures
            match r {
                Ok(refused) => deposit_outcome(
                    old(self)@,
                    token_id@,
                    sender_id@,
                    staked_amount,
                    amount,
                    names_of(chain@),
                    fees@,
                ) == Ok::<(SaleView, u128), Error>((final(self)@, refused)),
                Err(e) => {
                    &&& deposit_outcome(
                        old(self)@,
                        token_id@,
                        sender_id@,
                        staked_amount,
                        amount,
                        names_of(chain@),
                        fees@,
                    ) == Err::<(SaleView, u128), Error>(e)
                    &&& final(self)@ == old(self)@
                },
            },
            old(self)@.balanced() ==> final(self)@.balanced(),
            old(self)@.within_capacity() ==> final(self)@.within_capacity(),
    {
        let admission = match self.check_admission(token_id, sender_id, staked_amount, amount) {
            Ok(a) => a,
            Err(e) => {
                return Err(e);
            },
        };
        let plan = match self.plan_rewards(chain, fees, admission.accepted) {
            Ok(p) => p,
            Err(e) => {
                return Err(e);
            },
        };
        proof {
            lemma_deposit_keeps_balance(
                self@,
                token_id@,
                sender_id@,
                staked_amount,
                amount,
                names_of(chain@),
                fees@,
            );
        }
        self.account_sales.insert(sender_id.clone(), VSaleAccount::Current(admission.record));
        self.collected_amount = admission.collected;
        self.write_rewards(chain, plan);
        Ok(amount - admission.accepted)
    }
}

} // verus!
