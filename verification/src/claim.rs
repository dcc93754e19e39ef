//! Claims: what a deposit or a referral reward is worth in distribution
//! tokens, what is owed back to a depositor, and the records of both.
//!
//! A claim is recorded before the tokens are sent. If the transfer then
//! fails, the recorded amount is taken back off so that the account can
//! claim again.

use vstd::prelude::*;
use crate::deposit::{deposited, lemma_total_put};
use crate::error::Error;
use crate::ident::AccountId;
use crate::sale::{
    AffiliateRewardAccount, Sale, SaleAccount, SaleType, SaleView, VAffiliateRewardAccount,
    VSaleAccount,
};
use crate::table::Name;
use crate::wide::{checked_mul_div, checked_pow10, mul_div, pow10};

verus! {

/// `amount` of the deposit token in units of a distribution token with
/// `decimals` decimals, at `price` per whole token.
pub open spec fn scaled(amount: u128, decimals: u8, price: u128) -> Result<u128, Error> {
    if pow10(decimals as nat) > u128::MAX {
        Err(Error::Overflow)
    } else if price == 0 {
        Err(Error::DivisionByZero)
    } else if mul_div(pow10(decimals as nat), amount as nat, price as nat) > u128::MAX {
        Err(Error::Overflow)
    } else {
        Ok(mul_div(pow10(decimals as nat), amount as nat, price as nat) as u128)
    }
}

/// The share of `supply_amount` that falls to `amount_to_claim` when
/// `collected_amount` was asked for in all.
pub open spec fn subscription_share(
    amount_to_claim: u128,
    collected_amount: u128,
    supply_amount: u128,
) -> Result<u128, Error> {
    if collected_amount == 0 {
        Err(Error::DivisionByZero)
    } else if mul_div(amount_to_claim as nat, supply_amount as nat, collected_amount as nat)
        > u128::MAX {
        Err(Error::Overflow)
    } else {
        Ok(
            mul_div(amount_to_claim as nat, supply_amount as nat, collected_amount as nat) as u128,
        )
    }
}

/// What `claimed` distribution tokens cost in the deposit token.
pub open spec fn purchase_value(claimed: u128, decimals: u8, price: u128) -> Result<u128, Error> {
    if pow10(decimals as nat) > u128::MAX {
        Err(Error::Overflow)
    } else if mul_div(claimed as nat, price as nat, pow10(decimals as nat)) > u128::MAX {
        Err(Error::Overflow)
    } else {
        Ok(mul_div(claimed as nat, price as nat, pow10(decimals as nat)) as u128)
    }
}

/// The distribution tokens that `amount` of the deposit token claims from
/// `sale`: under the first-come policy the scaled amount; under the
/// subscription policy its share of the supply, in the proportion of the
/// scaled amount to the scaled total that the sale collected.
pub open spec fn claim_amount(sale: SaleView, amount: u128, decimals: u8) -> Result<u128, Error> {
    match scaled(amount, decimals, sale.price) {
        Err(e) => Err(e),
        Ok(total_amount_to_claim) => match scaled(sale.collected_amount, decimals, sale.price) {
            Err(e) => Err(e),
            Ok(total_filled_amount) => match sale.sale_type {
                SaleType::ByAmount => Ok(total_amount_to_claim),
                SaleType::BySubscription => match sale.distribute_supply_amount {
                    None => Err(Error::MustHaveSupplyAmount),
                    Some(supply) => subscription_share(
                        total_amount_to_claim,
                        total_filled_amount,
                        supply,
                    ),
                },
            },
        },
    }
}

/// The record of a depositor once its claim is settled: the claim is
/// noted, and where the deposit exceeds what the claimed tokens cost, the
/// excess is owed back.
pub open spec fn settled(sale: SaleView, record: SaleAccount, decimals: u8) -> Result<
    SaleAccount,
    Error,
> {
    match claim_amount(sale, record.amount, decimals) {
        Err(e) => Err(e),
        Ok(amount_to_claim) => match purchase_value(amount_to_claim, decimals, sale.price) {
            Err(e) => Err(e),
            Ok(value) => Ok(
                SaleAccount {
                    claimed: amount_to_claim,
                    refund: if record.amount > value {
                        (record.amount - value) as u128
                    } else {
                        record.refund
                    },
                    ..record
                },
            ),
        },
    }
}

/// The reward record of a referrer once its claim is settled.
pub open spec fn reward_settled(sale: SaleView, record: AffiliateRewardAccount, decimals: u8) -> Result<
    AffiliateRewardAccount,
    Error,
> {
    match claim_amount(sale, record.amount, decimals) {
        Err(e) => Err(e),
        Ok(amount_to_claim) => Ok(AffiliateRewardAccount { claimed: amount_to_claim, ..record }),
    }
}

/// What every claim asks of a sale: claims are open, and the sale has a
/// price, the decimals of its distribution token and that token itself.
pub open spec fn claim_gate(sale: SaleView) -> Option<Error> {
    if !sale.claim_available {
        Some(Error::ClaimNotAvailable)
    } else if sale.price == 0 {
        Some(Error::NoSalePrice)
    } else if sale.distribute_token_decimals is None {
        Some(Error::NoTokenDecimals)
    } else if sale.distribute_token_id is None {
        Some(Error::NoTokenId)
    } else {
        None
    }
}

/// The claim of a purchase by `account`: the sale afterwards and the
/// amount of distribution tokens to send, or why there is no claim.
pub open spec fn purchase_claim(sale: SaleView, account: Name) -> Result<(SaleView, u128), Error> {
    match claim_gate(sale) {
        Some(e) => Err(e),
        None => match sale.account_sales.get(account) {
            None => Err(Error::NoData),
            Some(stored) => {
                let record = stored.upgraded();
                if record.amount == 0 {
                    Err(Error::NoAllocation)
                } else if record.claimed != 0 {
                    Err(Error::AlreadyClaimed)
                } else if record.refunded != 0 {
                    Err(Error::AlreadyRefunded)
                } else {
                    match settled(sale, record, sale.distribute_token_decimals.unwrap()) {
                        Err(e) => Err(e),
                        Ok(after) => if after.claimed == 0 {
                            Err(Error::NothingToClaim)
                        } else {
                            Ok(
                                (
                                    SaleView {
                                        account_sales: sale.account_sales.put(
                                            account,
                                            VSaleAccount::Current(after),
                                        ),
                                        ..sale
                                    },
                                    after.claimed,
                                ),
                            )
                        },
                    }
                }
            },
        },
    }
}

/// The claim of the refund owed to `account`: the sale afterwards and the
/// amount of the deposit token to send, or why there is no refund.
pub open spec fn refund_claim(sale: SaleView, account: Name) -> Result<(SaleView, u128), Error> {
    match claim_gate(sale) {
        Some(e) => Err(e),
        None => match sale.account_sales.get(account) {
            None => Err(Error::NoData),
            Some(stored) => {
                let record = stored.upgraded();
                if record.refund == 0 {
                    Err(Error::NothingToRefund)
                } else if record.refunded != 0 {
                    Err(Error::AlreadyRefunded)
                } else if record.claimed == 0 {
                    Err(Error::MustClaimBeforeRefund)
                } else {
                    Ok(
                        (
                            SaleView {
                                account_sales: sale.account_sales.put(
                                    account,
                                    VSaleAccount::Current(
                                        SaleAccount { refunded: record.refund, ..record },
                                    ),
                                ),
                                ..sale
                            },
                            record.refund,
                        ),
                    )
                }
            },
        },
    }
}

/// The claim of the referral reward of `account`: the sale afterwards and
/// the amount to send, or why there is no claim.
pub open spec fn reward_claim(sale: SaleView, account: Name) -> Result<(SaleView, u128), Error> {
    match claim_gate(sale) {
        Some(e) => Err(e),
        None => match sale.account_affiliate_rewards.get(account) {
            None => Err(Error::NoData),
            Some(stored) => {
                let record = stored.upgraded();
                if record.amount == 0 {
                    Err(Error::NothingToClaim)
                } else if record.claimed != 0 {
                    Err(Error::AlreadyClaimed)
                } else {
                    match reward_settled(sale, record, sale.distribute_token_decimals.unwrap()) {
                        Err(e) => Err(e),
                        Ok(after) => if after.claimed == 0 {
                            Err(Error::NothingToClaim)
                        } else {
                            Ok(
                                (
                                    SaleView {
                                        account_affiliate_rewards:
                                            sale.account_affiliate_rewards.put(
                                            account,
                                            VAffiliateRewardAccount::Current(after),
                                        ),
                                        ..sale
                                    },
                                    after.claimed,
                                ),
                            )
                        },
                    }
                }
            },
        },
    }
}

/// The sale after `amount` was taken back off the claim that `account`
/// has recorded. An account without a record has nothing to take back.
pub open spec fn purchase_rollback(sale: SaleView, account: Name, amount: u128) -> Result<
    SaleView,
    Error,
> {
    match sale.account_sales.get(account) {
        None => Ok(sale),
        Some(stored) => {
            let record = stored.upgraded();
            if record.claimed < amount {
                Err(Error::Overflow)
            } else {
                Ok(
                    SaleView {
                        account_sales: sale.account_sales.put(
                            account,
                            VSaleAccount::Current(
                                SaleAccount { claimed: (record.claimed - amount) as u128, ..record },
                            ),
                        ),
                        ..sale
                    },
                )
            }
        },
    }
}

/// The sale after `amount` was taken back off the refund that `account`
/// has recorded as paid.
pub open spec fn refund_rollback(sale: SaleView, account: Name, amount: u128) -> Result<
    SaleView,
    Error,
> {
    match sale.account_sales.get(account) {
        None => Ok(sale),
        Some(stored) => {
            let record = stored.upgraded();
            if record.refunded < amount {
                Err(Error::Overflow)
            } else {
                Ok(
                    SaleView {
                        account_sales: sale.account_sales.put(
                            account,
                            VSaleAccount::Current(
                                SaleAccount {
                                    refunded: (record.refunded - amount) as u128,
                                    ..record
                                },
                            ),
                        ),
                        ..sale
                    },
                )
            }
        },
    }
}

/// The sale after `amount` was taken back off the reward claim that
/// `account` has recorded.
pub open spec fn reward_rollback(sale: SaleView, account: Name, amount: u128) -> Result<
    SaleView,
    Error,
> {
    match sale.account_affiliate_rewards.get(account) {
        None => Ok(sale),
        Some(stored) => {
            let record = stored.upgraded();
            if record.claimed < amount {
                Err(Error::Overflow)
            } else {
                Ok(
                    SaleView {
                        account_affiliate_rewards: sale.account_affiliate_rewards.put(
                            account,
                            VAffiliateRewardAccount::Current(
                                AffiliateRewardAccount {
                                    claimed: (record.claimed - amount) as u128,
                                    ..record
                                },
                            ),
                        ),
                        ..sale
                    },
                )
            }
        },
    }
}

/// Rewriting the record of an account without touching its deposit keeps
/// the collected amount equal to the sum of the deposits.
pub proof fn lemma_rewrite_keeps_balance(sale: SaleView, account: Name, after: SaleAccount)
    requires
        sale.account_sales.aligned(),
        sale.account_sales.contains(account),
        after.amount == deposited(sale.account_sales, account).amount,
    ensures
        sale.balanced() ==> (SaleView {
            account_sales: sale.account_sales.put(account, VSaleAccount::Current(after)),
            ..sale
        }).balanced(),
{
    lemma_total_put(sale.account_sales, account, VSaleAccount::Current(after));
}

/// Scales `amount` of the deposit token to units of the distribution token.
pub fn scale(amount: u128, decimals: u8, price: u128) -> (r: Result<u128, Error>)
    ensures
        r == scaled(amount, decimals, price),
{
    let unit: u128 = match checked_pow10(decimals) {
        Some(unit) => unit,
        None => {
            return Err(Error::Overflow);
        },
    };
    if price == 0 {
        return Err(Error::DivisionByZero);
    }
    match checked_mul_div(unit, amount, price) {
        Some(v) => Ok(v),
        None => Err(Error::Overflow),
    }
}

/// The share of the supply that falls to a claim under the subscription
/// policy.
pub fn get_amount_by_subscription(
    amount_to_claim: u128,
    collected_amount: u128,
    supply_amount: u128,
) -> (r: Result<u128, Error>)
    ensures
        r == subscription_share(amount_to_claim, collected_amount, supply_amount),
{
    if collected_amount == 0 {
        return Err(Error::DivisionByZero);
    }
    match checked_mul_div(amount_to_claim, supply_amount, collected_amount) {
        Some(v) => Ok(v),
        None => Err(Error::Overflow),
    }
}

/// What `claimed` distribution tokens cost in the deposit token.
pub fn value_of_claim(claimed: u128, decimals: u8, price: u128) -> (r: Result<u128, Error>)
    ensures
        r == purchase_value(claimed, decimals, price),
{
    let unit: u128 = match checked_pow10(decimals) {
        Some(unit) => unit,
        None => {
            return Err(Error::Overflow);
        },
    };
    proof {
        vstd::arithmetic::power::lemma_pow_positive(10, decimals as nat);
    }
    match checked_mul_div(claimed, price, unit) {
        Some(v) => Ok(v),
        None => Err(Error::Overflow),
    }
}

impl Sale {
    /// The distribution tokens that `amount` of the deposit token claims.
    pub fn amount_to_claim(&self, amount: u128, decimals: u8) -> (r: Result<u128, Error>)
        ensures
            r == claim_amount(self@, amount, decimals),
    {
        let total_amount_to_claim: u128 = match scale(amount, decimals, self.price) {
            Ok(v) => v,
            Err(e) => {
                return Err(e);
            },
        };
        let total_filled_amount: u128 = match scale(self.collected_amount, decimals, self.price) {
            Ok(v) => v,
            Err(e) => {
                return Err(e);
            },
        };
        match self.sale_type {
            SaleType::ByAmount => Ok(total_amount_to_claim),
            SaleType::BySubscription => match self.distribute_supply_amount {
                None => Err(Error::MustHaveSupplyAmount),
                Some(supply) => get_amount_by_subscription(
                    total_amount_to_claim,
                    total_filled_amount,
                    supply,
                ),
            },
        }
    }

    /// The record of a depositor as it will stand once its claim is
    /// settled.
    pub fn settle(&self, record: SaleAccount, decimals: u8) -> (r: Result<SaleAccount, Error>)
        ensures
            r == settled(self@, record, decimals),
    {
        let amount_to_claim: u128 = match self.amount_to_claim(record.amount, decimals) {
            Ok(v) => v,
            Err(e) => {
                return Err(e);
            },
        };
        let client_purchase_amount: u128 = match value_of_claim(
            amount_to_claim,
            decimals,
            self.price,
        ) {
            Ok(v) => v,
            Err(e) => {
                return Err(e);
            },
        };
        let mut after = record;
        after.claimed = amount_to_claim;
        if record.amount > client_purchase_amount {
            after.refund = record.amount - client_purchase_amount;
        }
        Ok(after)
    }

    /// The reward record of a referrer as it will stand once its claim is
    /// settled.
    pub fn settle_reward(&self, record: AffiliateRewardAccount, decimals: u8) -> (r: Result<
        AffiliateRewardAccount,
        Error,
    >)
        ensures
            r == reward_settled(self@, record, decimals),
    {
        match self.amount_to_claim(record.amount, decimals) {
            Ok(amount_to_claim) => Ok(
                AffiliateRewardAccount { amount: record.amount, claimed: amount_to_claim },
            ),
            Err(e) => Err(e),
        }
    }

    /// Checks what every claim asks of the sale.
    pub fn check_claim_gate(&self) -> (r: Result<u8, Error>)
        ensures
            match r {
                Ok(decimals) => claim_gate(self@) is None && self@.distribute_token_decimals
                    == Some(decimals),
                Err(e) => claim_gate(self@) == Some(e),
            },
    {
        if !self.claim_available {
            return Err(Error::ClaimNotAvailable);
        }
        if self.price == 0 {
            return Err(Error::NoSalePrice);
        }
        let decimals: u8 = match self.distribute_token_decimals {
            Some(d) => d,
            None => {
                return Err(Error::NoTokenDecimals);
            },
        };
        if self.distribute_token_id.is_none() {
            return Err(Error::NoTokenId);
        }
        Ok(decimals)
    }

    /// Records the claim of the purchase of `account_id` and returns the
    /// amount of distribution tokens to send.
    pub fn record_purchase_claim(&mut self, account_id: &AccountId) -> (r: Result<u128, Error>)
        ensures
            match r {
                Ok(amount) => purchase_claim(old(self)@, account_id@) == Ok::<
                    (SaleView, u128),
                    Error,
                >((final(self)@, amount)),
                Err(e) => {
                    &&& purchase_claim(old(self)@, account_id@) == Err::<(SaleView, u128), Error>(e)
                    &&& final(self)@ == old(self)@
                },
            },
            old(self)@.balanced() ==> final(self)@.balanced(),
            final(self)@.collected_amount == old(self)@.collected_amount,
            old(self)@.within_capacity() ==> final(self)@.within_capacity(),
    {
        let decimals: u8 = match self.check_claim_gate() {
            Ok(d) => d,
            Err(e) => {
                return Err(e);
            },
        };
        let record: SaleAccount = match self.account_sales.get(account_id) {
            Some(stored) => SaleAccount::from(*stored),
            None => {
                return Err(Error::NoData);
            },
        };
        if record.amount == 0 {
            return Err(Error::NoAllocation);
        }
        if record.claimed != 0 {
            return Err(Error::AlreadyClaimed);
        }
        if record.refunded != 0 {
            return Err(Error::AlreadyRefunded);
        }
        let after: SaleAccount = match self.settle(record, decimals) {
            Ok(a) => a,
            Err(e) => {
                return Err(e);
            },
        };
        if after.claimed == 0 {
            return Err(Error::NothingToClaim);
        }
        proof {
            lemma_rewrite_keeps_balance(self@, account_id@, after);
        }
        self.account_sales.insert(account_id.clone(), VSaleAccount::Current(after));
        Ok(after.claimed)
    }

    /// Records the claim of the refund owed to `account_id` and returns
    /// the amount of the deposit token to send.
    pub fn record_refund_claim(&mut self, account_id: &AccountId) -> (r: Result<u128, Error>)
        ensures
            match r {
                Ok(amount) => refund_claim(old(self)@, account_id@) == Ok::<
                    (SaleView, u128),
                    Error,
                >((final(self)@, amount)),
                Err(e) => {
                    &&& refund_claim(old(self)@, account_id@) == Err::<(SaleView, u128), Error>(e)
                    &&& final(self)@ == old(self)@
                },
            },
            old(self)@.balanced() ==> final(self)@.balanced(),
            final(self)@.collected_amount == old(self)@.collected_amount,
            old(self)@.within_capacity() ==> final(self)@.within_capacity(),
    {
        match self.check_claim_gate() {
            Ok(_) => {},
            Err(e) => {
                return Err(e);
            },
        }
        let mut record: SaleAccount = match self.account_sales.get(account_id) {
            Some(stored) => SaleAccount::from(*stored),
            None => {
                return Err(Error::NoData);
            },
        };
        if record.refund == 0 {
            return Err(Error::NothingToRefund);
        }
        if record.refunded != 0 {
            return Err(Error::AlreadyRefunded);
        }
        if record.claimed == 0 {
            return Err(Error::MustClaimBeforeRefund);
        }
        record.refunded = record.refund;
        proof {
            lemma_rewrite_keeps_balance(self@, account_id@, record);
        }
        self.account_sales.insert(account_id.clone(), VSaleAccount::Current(record));
        Ok(record.refund)
    }

    /// Records the claim of the referral reward of `account_id` and
    /// returns the amount to send.
    pub fn record_reward_claim(&mut self, account_id: &AccountId) -> (r: Result<u128, Error>)
        ensures
            match r {
                Ok(amount) => reward_claim(old(self)@, account_id@) == Ok::<
                    (SaleView, u128),
                    Error,
                >((final(self)@, amount)),
                Err(e) => {
                    &&& reward_claim(old(self)@, account_id@) == Err::<(SaleView, u128), Error>(e)
                    &&& final(self)@ == old(self)@
                },
            },
            old(self)@.balanced() ==> final(self)@.balanced(),
            final(self)@.account_sales == old(self)@.account_sales,
            final(self)@.collected_amount == old(self)@.collected_amount,
            old(self)@.within_capacity() ==> final(self)@.within_capacity(),
    {
        let decimals: u8 = match self.check_claim_gate() {
            Ok(d) => d,
            Err(e) => {
                return Err(e);
            },
        };
        let record: AffiliateRewardAccount = match self.account_affiliate_rewards.get(account_id) {
            Some(stored) => AffiliateRewardAccount::from(*stored),
            None => {
                return Err(Error::NoData);
            },
        };
        if record.amount == 0 {
            return Err(Error::NothingToClaim);
        }
        if record.claimed != 0 {
            return Err(Error::AlreadyClaimed);
        }
        let after: AffiliateRewardAccount = match self.settle_reward(record, decimals) {
            Ok(a) => a,
            Err(e) => {
                return Err(e);
            },
        };
        if after.claimed == 0 {
            return Err(Error::NothingToClaim);
        }
        self.account_affiliate_rewards.insert(
            account_id.clone(),
            VAffiliateRewardAccount::Current(after),
        );
        Ok(after.claimed)
    }

    /// Takes `amount` back off the claim that `account_id` has recorded,
    /// after the transfer of the claimed tokens failed.
    pub fn roll_back_purchase_claim(&mut self, account_id: &AccountId, amount: u128) -> (r: Result<
        (),
        Error,
    >)
        ensures
            match r {
                Ok(_) => purchase_rollback(old(self)@, account_id@, amount) == Ok::<SaleView, Error>(
                    final(self)@,
                ),
                Err(e) => {
                    &&& purchase_rollback(old(self)@, account_id@, amount) == Err::<
                        SaleView,
                        Error,
                    >(e)
                    &&& final(self)@ == old(self)@
                },
            },
            old(self)@.balanced() ==> final(self)@.balanced(),
            final(self)@.collected_amount == old(self)@.collected_amount,
            old(self)@.within_capacity() ==> final(self)@.within_capacity(),
    {
        let mut record: SaleAccount = match self.account_sales.get(account_id) {
            Some(stored) => SaleAccount::from(*stored),
            None => {
                return Ok(());
            },
        };
        if record.claimed < amount {
            return Err(Error::Overflow);
        }
        record.claimed = record.claimed - amount;
        proof {
            lemma_rewrite_keeps_balance(self@, account_id@, record);
        }
        self.account_sales.insert(account_id.clone(), VSaleAccount::Current(record));
        Ok(())
    }

    /// Takes `amount` back off the refund that `account_id` has recorded
    /// as paid, after the transfer of the refund failed.
    pub fn roll_back_refund_claim(&mut self, account_id: &AccountId, amount: u128) -> (r: Result<
        (),
        Error,
    >)
        ensures
            match r {
                Ok(_) => refund_rollback(old(self)@, account_id@, amount) == Ok::<SaleView, Error>(
                    final(self)@,
                ),
                Err(e) => {
                    &&& refund_rollback(old(self)@, account_id@, amount) == Err::<SaleView, Error>(
                        e,
                    )
                    &&& final(self)@ == old(self)@
                },
            },
            old(self)@.balanced() ==> final(self)@.balanced(),
            final(self)@.collected_amount == old(self)@.collected_amount,
            old(self)@.within_capacity() ==> final(self)@.within_capacity(),
    {
        let mut record: SaleAccount = match self.account_sales.get(account_id) {
            Some(stored) => SaleAccount::from(*stored),
            None => {
                return Ok(());
            },
        };
        if record.refunded < amount {
            return Err(Error::Overflow);
        }
        record.refunded = record.refunded - amount;
        proof {
            lemma_rewrite_keeps_balance(self@, account_id@, record);
        }
        self.account_sales.insert(account_id.clone(), VSaleAccount::Current(record));
        Ok(())
    }

    /// Takes `amount` back off the reward claim that `account_id` has
    /// recorded, after the transfer of the reward failed.
    pub fn roll_back_reward_claim(&mut self, account_id: &AccountId, amount: u128) -> (r: Result<
        (),
        Error,
    >)
        ensures
            match r {
                Ok(_) => reward_rollback(old(self)@, account_id@, amount) == Ok::<SaleView, Error>(
                    final(self)@,
                ),
                Err(e) => {
                    &&& reward_rollback(old(self)@, account_id@, amount) == Err::<SaleView, Error>(
                        e,
                    )
                    &&& final(self)@ == old(self)@
                },
            },
            old(self)@.balanced() ==> final(self)@.balanced(),
            final(self)@.account_sales == old(self)@.account_sales,
            final(self)@.collected_amount == old(self)@.collected_amount,
            old(self)@.within_capacity() ==> final(self)@.within_capacity(),
    {
        let mut record: AffiliateRewardAccount = match self.account_affiliate_rewards.get(
            account_id,
        ) {
            Some(stored) => AffiliateRewardAccount::from(*stored),
            None => {
                return Ok(());
            },
        };
        if record.claimed < amount {
            return Err(Error::Overflow);
        }
        record.claimed = record.claimed - amount;
        self.account_affiliate_rewards.insert(
            account_id.clone(),
            VAffiliateRewardAccount::Current(record),
        );
        Ok(())
    }
}

} // verus!
