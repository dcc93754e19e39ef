//! Paying out: claims of purchases, refunds and referral rewards, and what
//! happens when the payment fails.
//!
//! A claim is recorded first and handed out as a request for a transfer.
//! When the transfer has ended, the engine is told how; after a failure
//! it takes the recorded amount back so that the claim can be made again.

use vstd::prelude::*;
use crate::claim::{
    purchase_claim, purchase_rollback, refund_claim, refund_rollback, reward_claim,
    reward_rollback,
};
use crate::contract::{Contract, ContractView};
use crate::error::Error;
use crate::ident::AccountId;
use crate::settlement::{PromiseOutcome, is_promise_success, single_result};
use crate::table::Name;

verus! {

/// What a transfer pays.
#[derive(Clone, Copy, Debug, PartialEq, Eq, Structural)]
pub enum TransferPurpose {
    /// The tokens that a deposit bought.
    Purchase,
    /// The part of a deposit that bought nothing.
    Refund,
    /// A referral reward.
    AffiliateReward,
}

/// A request to transfer `amount` of `token` to `recipient`. When the
/// transfer has ended, the engine is to be told through the continuation
/// of its purpose, with the recipient, the amount and the sale.
#[derive(Debug)]
pub struct TransferRequest {
    pub recipient: AccountId,
    pub amount: u128,
    pub token: AccountId,
    pub sale_id: u64,
    pub purpose: TransferPurpose,
}

/// The content of a request for a transfer.
pub ghost struct TransferView {
    pub recipient: Name,
    pub amount: u128,
    pub token: Name,
    pub sale_id: u64,
    pub purpose: TransferPurpose,
}

impl View for TransferRequest {
    type V = TransferView;

    open spec fn view(&self) -> TransferView {
        TransferView {
            recipient: self.recipient@,
            amount: self.amount,
            token: self.token@,
            sale_id: self.sale_id,
            purpose: self.purpose,
        }
    }
}

impl ContractView {
    /// What the claim of a purchase does: the state afterwards and the
    /// transfer to make, or why there is no claim.
    pub open spec fn claim_purchase(self, account: Name, sale_id: u64) -> Result<
        (ContractView, TransferView),
        Error,
    > {
        match self.sale(sale_id) {
            None => Err(Error::NoSale),
            Some(sale) => match purchase_claim(sale, account) {
                Err(e) => Err(e),
                Ok((after, amount)) => Ok(
                    (
                        self.with_sale(sale_id, after),
                        TransferView {
                            recipient: account,
                            amount,
                            token: sale.distribute_token_id.unwrap(),
                            sale_id,
                            purpose: TransferPurpose::Purchase,
                        },
                    ),
                ),
            },
        }
    }

    /// What the claim of a refund does.
    pub open spec fn claim_refund(self, account: Name, sale_id: u64) -> Result<
        (ContractView, TransferView),
        Error,
    > {
        match self.sale(sale_id) {
            None => Err(Error::NoSale),
            Some(sale) => match refund_claim(sale, account) {
                Err(e) => Err(e),
                Ok((after, amount)) => Ok(
                    (
                        self.with_sale(sale_id, after),
                        TransferView {
                            recipient: account,
                            amount,
                            token: sale.deposit_token_id,
                            sale_id,
                            purpose: TransferPurpose::Refund,
                        },
                    ),
                ),
            },
        }
    }

    /// What the claim of a referral reward does.
    pub open spec fn claim_affiliate_reward(self, account: Name, sale_id: u64) -> Result<
        (ContractView, TransferView),
        Error,
    > {
        match self.sale(sale_id) {
            None => Err(Error::NoSale),
            Some(sale) => match reward_claim(sale, account) {
                Err(e) => Err(e),
                Ok((after, amount)) => Ok(
                    (
                        self.with_sale(sale_id, after),
                        TransferView {
                            recipient: account,
                            amount,
                            token: sale.deposit_token_id,
                            sale_id,
                            purpose: TransferPurpose::AffiliateReward,
                        },
                    ),
                ),
            },
        }
    }

    /// The state after the transfer of `purpose` to `account` has ended
    /// with `results`, and whether the transfer succeeded. A failed transfer
    /// takes `amount` back off the record of the claim.
    pub open spec fn after_transfer(
        self,
        purpose: TransferPurpose,
        invoked_by_self: bool,
        results: Seq<PromiseOutcome>,
        account: Name,
        amount: u128,
        sale_id: u64,
    ) -> Result<(ContractView, bool), Error> {
        if !invoked_by_self {
            Err(Error::NotOwner)
        } else {
            match single_result(results) {
                Err(e) => Err(e),
                Ok(succeeded) => if succeeded {
                    Ok((self, true))
                } else {
                    match self.sale(sale_id) {
                        None => Err(Error::NoSale),
                        Some(sale) => match (match purpose {
                            TransferPurpose::Purchase => purchase_rollback(sale, account, amount),
                            TransferPurpose::Refund => refund_rollback(sale, account, amount),
                            TransferPurpose::AffiliateReward => reward_rollback(
                                sale,
                                account,
                                amount,
                            ),
                        }) {
                            Err(e) => Err(e),
                            Ok(after) => Ok((self.with_sale(sale_id, after), false)),
                        },
                    }
                },
            }
        }
    }
}

/// Copies an optional token identifier.
fn clone_token(token: &Option<AccountId>) -> (r: Option<AccountId>)
    ensures
        r == *token,
{
    match token {
        Some(t) => Some(t.clone()),
        None => None,
    }
}

impl Contract {
    /// The request to send the tokens of a purchase.
    pub fn withdraw_purchase(
        &self,
        recipient_account_id: AccountId,
        amount_to_claim: u128,
        claim_token_account_id: AccountId,
        sale_id: u64,
    ) -> (r: TransferRequest)
        ensures
            r@ == (TransferView {
                recipient: recipient_account_id@,
                amount: amount_to_claim,
                token: claim_token_account_id@,
                sale_id,
                purpose: TransferPurpose::Purchase,
            }),
    {
        TransferRequest {
            recipient: recipient_account_id,
            amount: amount_to_claim,
            token: claim_token_account_id,
            sale_id,
            purpose: TransferPurpose::Purchase,
        }
    }

    /// The request to send a refund.
    pub fn refund_purchase(
        &self,
        recipient_account_id: AccountId,
        amount_to_refund: u128,
        token_account_id: AccountId,
        sale_id: u64,
    ) -> (r: TransferRequest)
        ensures
            r@ == (TransferView {
                recipient: recipient_account_id@,
                amount: amount_to_refund,
                token: token_account_id@,
                sale_id,
                purpose: TransferPurpose::Refund,
            }),
    {
        TransferRequest {
            recipient: recipient_account_id,
            amount: amount_to_refund,
            token: token_account_id,
            sale_id,
            purpose: TransferPurpose::Refund,
        }
    }

    /// The request to send a referral reward.
    pub fn withdraw_affiliate_reward(
        &self,
        recipient_account_id: AccountId,
        amount: u128,
        token_account_id: AccountId,
        sale_id: u64,
    ) -> (r: TransferRequest)
        ensures
            r@ == (TransferView {
                recipient: recipient_account_id@,
                amount,
                token: token_account_id@,
                sale_id,
                purpose: TransferPurpose::AffiliateReward,
            }),
    {
        TransferRequest {
            recipient: recipient_account_id,
            amount,
            token: token_account_id,
            sale_id,
            purpose: TransferPurpose::AffiliateReward,
        }
    }

    /// Claims the tokens that `account_id` bought in the sale `sale_id`.
    pub fn claim_purchase(&mut self, account_id: AccountId, sale_id: u64) -> (r: Result<
        TransferRequest,
        Error,
    >)
        ensures
            match r {
                Ok(request) => old(self)@.claim_purchase(account_id@, sale_id) == Ok::<
                    (ContractView, TransferView),
                    Error,
                >((final(self)@, request@)),
                Err(e) => {
                    &&& old(self)@.claim_purchase(account_id@, sale_id) == Err::<
                        (ContractView, TransferView),
                        Error,
                    >(e)
                    &&& final(self)@ == old(self)@
                },
            },
            old(self)@.sound() ==> final(self)@.sound(),
    {
        let mut sale = match self.take_sale(sale_id) {
            Some(sale) => sale,
            None => {
                return Err(Error::NoSale);
            },
        };
        let token = clone_token(&sale.distribute_token_id);
        let claimed = sale.record_purchase_claim(&account_id);
        self.put_sale(sale_id, sale);
        proof {
            old(self)@.lemma_put_instead(sale_id, sale@);
            if claimed.is_err() {
                old(self)@.lemma_put_back(sale_id);
            }
        }
        match claimed {
            Err(e) => Err(e),
            Ok(amount_to_claim) => match token {
                Some(distribute_token_id) => Ok(
                    self.withdraw_purchase(account_id, amount_to_claim, distribute_token_id, sale_id),
                ),
                None => Err(Error::NoTokenId),
            },
        }
    }

    /// Claims the part of the deposit of `account_id` in the sale
    /// `sale_id` that bought nothing.
    pub fn claim_refund(&mut self, account_id: AccountId, sale_id: u64) -> (r: Result<
        TransferRequest,
        Error,
    >)
        ensures
            match r {
                Ok(request) => old(self)@.claim_refund(account_id@, sale_id) == Ok::<
                    (ContractView, TransferView),
                    Error,
                >((final(self)@, request@)),
                Err(e) => {
                    &&& old(self)@.claim_refund(account_id@, sale_id) == Err::<
                        (ContractView, TransferView),
                        Error,
                    >(e)
                    &&& final(self)@ == old(self)@
                },
            },
            old(self)@.sound() ==> final(self)@.sound(),
    {
        let mut sale = match self.take_sale(sale_id) {
            Some(sale) => sale,
            None => {
                return Err(Error::NoSale);
            },
        };
        let token_account_id = sale.deposit_token_id.clone();
        let claimed = sale.record_refund_claim(&account_id);
        self.put_sale(sale_id, sale);
        proof {
            old(self)@.lemma_put_instead(sale_id, sale@);
            if claimed.is_err() {
                old(self)@.lemma_put_back(sale_id);
            }
        }
        match claimed {
            Err(e) => Err(e),
            Ok(amount_to_refund) => Ok(
                self.refund_purchase(account_id, amount_to_refund, token_account_id, sale_id),
            ),
        }
    }

    /// Claims the referral reward of `account_id` in the sale `sale_id`.
    pub fn claim_affiliate_reward(&mut self, account_id: AccountId, sale_id: u64) -> (r: Result<
        TransferRequest,
        Error,
    >)
        ensures
            match r {
                Ok(request) => old(self)@.claim_affiliate_reward(account_id@, sale_id) == Ok::<
                    (ContractView, TransferView),
                    Error,
                >((final(self)@, request@)),
                Err(e) => {
                    &&& old(self)@.claim_affiliate_reward(account_id@, sale_id) == Err::<
                        (ContractView, TransferView),
                        Error,
                    >(e)
                    &&& final(self)@ == old(self)@
                },
            },
            old(self)@.sound() ==> final(self)@.sound(),
    {
        let mut sale = match self.take_sale(sale_id) {
            Some(sale) => sale,
            None => {
                return Err(Error::NoSale);
            },
        };
        let deposit_token_id = sale.deposit_token_id.clone();
        let claimed = sale.record_reward_claim(&account_id);
        self.put_sale(sale_id, sale);
        proof {
            old(self)@.lemma_put_instead(sale_id, sale@);
            if claimed.is_err() {
                old(self)@.lemma_put_back(sale_id);
            }
        }
        match claimed {
            Err(e) => Err(e),
            Ok(amount) => Ok(
                self.withdraw_affiliate_reward(account_id, amount, deposit_token_id, sale_id),
            ),
        }
    }

    /// Takes note of how the transfer of a purchase ended. Only the
    /// engine itself may invoke this. Returns whether the transfer
    /// succeeded.
    pub fn after_withdraw_purchase(
        &mut self,
        predecessor_account_id: &AccountId,
        current_account_id: &AccountId,
        results: &Vec<PromiseOutcome>,
        account_id: AccountId,
        amount_to_claim: u128,
        sale_id: u64,
    ) -> (r: Result<bool, Error>)
        ensures
            match r {
                Ok(succeeded) => old(self)@.after_transfer(
                    TransferPurpose::Purchase,
                    predecessor_account_id@ == current_account_id@,
                    results@,
                    account_id@,
                    amount_to_claim,
                    sale_id,
                ) == Ok::<(ContractView, bool), Error>((final(self)@, succeeded)),
                Err(e) => {
                    &&& old(self)@.after_transfer(
                        TransferPurpose::Purchase,
                        predecessor_account_id@ == current_account_id@,
                        results@,
                        account_id@,
                        amount_to_claim,
                        sale_id,
                    ) == Err::<(ContractView, bool), Error>(e)
                    &&& final(self)@ == old(self)@
                },
            },
            old(self)@.sound() ==> final(self)@.sound(),
    {
        if *predecessor_account_id != *current_account_id {
            return Err(Error::NotOwner);
        }
        let promise_success: bool = match is_promise_success(results) {
            Ok(b) => b,
            Err(e) => {
                return Err(e);
            },
        };
        if promise_success {
            return Ok(true);
        }
        let mut sale = match self.take_sale(sale_id) {
            Some(sale) => sale,
            None => {
                return Err(Error::NoSale);
            },
        };
        let rolled_back = sale.roll_back_purchase_claim(&account_id, amount_to_claim);
        self.put_sale(sale_id, sale);
        proof {
            old(self)@.lemma_put_instead(sale_id, sale@);
            if rolled_back.is_err() {
                old(self)@.lemma_put_back(sale_id);
            }
        }
        match rolled_back {
            Err(e) => Err(e),
            Ok(_) => Ok(false),
        }
    }

    /// Takes note of how the transfer of a refund ended. Only the engine
    /// itself may invoke this. Returns whether the transfer succeeded.
    pub fn after_refund_purchase(
        &mut self,
        predecessor_account_id: &AccountId,
        current_account_id: &AccountId,
        results: &Vec<PromiseOutcome>,
        account_id: AccountId,
        amount_to_refund: u128,
        sale_id: u64,
    ) -> (r: Result<bool, Error>)
        ensures
            match r {
                Ok(succeeded) => old(self)@.after_transfer(
                    TransferPurpose::Refund,
                    predecessor_account_id@ == current_account_id@,
                    results@,
                    account_id@,
                    amount_to_refund,
                    sale_id,
                ) == Ok::<(ContractView, bool), Error>((final(self)@, succeeded)),
                Err(e) => {
                    &&& old(self)@.after_transfer(
                        TransferPurpose::Refund,
                        predecessor_account_id@ == current_account_id@,
                        results@,
                        account_id@,
                        amount_to_refund,
                        sale_id,
                    ) == Err::<(ContractView, bool), Error>(e)
                    &&& final(self)@ == old(self)@
                },
            },
            old(self)@.sound() ==> final(self)@.sound(),
    {
        if *predecessor_account_id != *current_account_id {
            return Err(Error::NotOwner);
        }
        let promise_success: bool = match is_promise_success(results) {
            Ok(b) => b,
            Err(e) => {
                return Err(e);
            },
        };
        if promise_success {
            return Ok(true);
        }
        let mut sale = match self.take_sale(sale_id) {
            Some(sale) => sale,
            None => {
                return Err(Error::NoSale);
            },
        };
        let rolled_back = sale.roll_back_refund_claim(&account_id, amount_to_refund);
        self.put_sale(sale_id, sale);
        proof {
            old(self)@.lemma_put_instead(sale_id, sale@);
            if rolled_back.is_err() {
                old(self)@.lemma_put_back(sale_id);
            }
        }
        match rolled_back {
            Err(e) => Err(e),
            Ok(_) => Ok(false),
        }
    }

    /// Takes note of how the transfer of a referral reward ended. Only
    /// the engine itself may invoke this. Returns whether the transfer
    /// succeeded.
    pub fn after_withdraw_affiliate_reward(
        &mut self,
        predecessor_account_id: &AccountId,
        current_account_id: &AccountId,
        results: &Vec<PromiseOutcome>,
        account_id: AccountId,
        amount: u128,
        sale_id: u64,
    ) -> (r: Result<bool, Error>)
        ensures
            match r {
                Ok(succeeded) => old(self)@.after_transfer(
                    TransferPurpose::AffiliateReward,
                    predecessor_account_id@ == current_account_id@,
                    results@,
                    account_id@,
                    amount,
                    sale_id,
                ) == Ok::<(ContractView, bool), Error>((final(self)@, succeeded)),
                Err(e) => {
                    &&& old(self)@.after_transfer(
                        TransferPurpose::AffiliateReward,
                        predecessor_account_id@ == current_account_id@,
                        results@,
                        account_id@,
                        amount,
                        sale_id,
                    ) == Err::<(ContractView, bool), Error>(e)
                    &&& final(self)@ == old(self)@
                },
            },
            old(self)@.sound() ==> final(self)@.sound(),
    {
        if *predecessor_account_id != *current_account_id {
            return Err(Error::NotOwner);
        }
        let promise_success: bool = match is_promise_success(results) {
            Ok(b) => b,
            Err(e) => {
                return Err(e);
            },
        };
        if promise_success {
            return Ok(true);
        }
        let mut sale = match self.take_sale(sale_id) {
            Some(sale) => sale,
            None => {
                return Err(Error::NoSale);
            },
        };
        let rolled_back = sale.roll_back_reward_claim(&account_id, amount);
        self.put_sale(sale_id, sale);
        proof {
            old(self)@.lemma_put_instead(sale_id, sale@);
            if rolled_back.is_err() {
                old(self)@.lemma_put_back(sale_id);
            }
        }
        match rolled_back {
            Err(e) => Err(e),
            Ok(_) => Ok(false),
        }
    }
}

} // verus!
