//! What holds of the engine whatever it is asked to do.

use vstd::prelude::*;
use crate::account::AccountView;
use crate::claim::{
    lemma_rewrite_keeps_balance, purchase_claim, purchase_rollback, refund_claim, refund_rollback,
    reward_claim, reward_rollback, reward_settled, settled,
};
use crate::contract::ContractView;
use crate::deposit::{deposit_outcome, deposited, lemma_deposit_keeps_balance, rewarded};
use crate::error::Error;
use crate::sale::{
    AffiliateRewardAccount, Sale, SaleAccount, SaleAccountOld, SaleOld, SaleType, SaleView,
    VAffiliateRewardAccount, VSale, VSaleAccount,
};
use crate::settlement::PromiseOutcome;
use crate::table::{
    Name, TableModel, lemma_absent_everywhere, lemma_first_is_index, lemma_index_is_first,
};
use crate::withdrawal::{TransferPurpose, TransferView};

verus! {

impl<T> TableModel<T> {
    /// Storing twice under one name is storing the second value.
    pub proof fn lemma_put_twice(self, name: Name, first: T, second: T)
        requires
            self.aligned(),
        ensures
            self.put(name, first).put(name, second) == self.put(name, second),
    {
        self.lemma_put_get_same(name, first);
        let once = self.put(name, first);
        lemma_index_is_first(once.names, name);
        if self.contains(name) {
            lemma_index_is_first(self.names, name);
            assert(once.put(name, second).values =~= self.put(name, second).values);
        } else {
            lemma_absent_everywhere(self.names, name);
            lemma_first_is_index(once.names, name, self.names.len() as int);
            assert(once.put(name, second).values =~= self.put(name, second).values);
        }
    }
}

/// A deposit keeps the books: if the collected amount of a sale was the
/// sum of the deposits of its accounts, it is so afterwards, and it is
/// within a hard capacity.
pub proof fn law_deposit_keeps_books(
    sale: SaleView,
    token: Name,
    sender: Name,
    staked: u128,
    amount: u128,
    chain: Seq<Name>,
    fees: Seq<u64>,
)
    requires
        sale.account_sales.aligned(),
        sale.balanced(),
        deposit_outcome(sale, token, sender, staked, amount, chain, fees) is Ok,
    ensures
        deposit_outcome(sale, token, sender, staked, amount, chain, fees).unwrap().0.balanced(),
        deposit_outcome(sale, token, sender, staked, amount, chain, fees).unwrap().0.within_capacity(),
{
    lemma_deposit_keeps_balance(sale, token, sender, staked, amount, chain, fees);
}

/// A deposit never lowers the collected amount of a sale, nor the deposit
/// of any account: it adds what the sale took to both, and what it took
/// and what it refused are together what was offered.
pub proof fn law_deposit_only_adds(
    sale: SaleView,
    token: Name,
    sender: Name,
    staked: u128,
    amount: u128,
    chain: Seq<Name>,
    fees: Seq<u64>,
    other: Name,
)
    requires
        sale.account_sales.aligned(),
        deposit_outcome(sale, token, sender, staked, amount, chain, fees) is Ok,
    ensures
        ({
            let (after, refused) = deposit_outcome(
                sale,
                token,
                sender,
                staked,
                amount,
                chain,
                fees,
            ).unwrap();
            let accepted = amount - refused;
            &&& 0 <= refused <= amount
            &&& after.collected_amount == sale.collected_amount + accepted
            &&& deposited(after.account_sales, sender).amount == deposited(
                sale.account_sales,
                sender,
            ).amount + accepted
            &&& other != sender ==> deposited(after.account_sales, other) == deposited(
                sale.account_sales,
                other,
            )
            &&& sale.hard_max_amount_limit ==> after.collected_amount <= sale.max_amount.unwrap()
            &&& !sale.hard_max_amount_limit ==> refused == 0
        }),
{
    let before = deposited(sale.account_sales, sender);
    let accepted = sale.accepted_amount(amount) as u128;
    let record = VSaleAccount::Current(
        SaleAccount { amount: (before.amount + accepted) as u128, ..before },
    );
    sale.account_sales.lemma_put_get_same(sender, record);
    if other != sender {
        sale.account_sales.lemma_put_get_other(sender, record, other);
    }
}

/// Claims, refunds and their reversals keep the books: none of them
/// changes a deposit or the collected amount.
pub proof fn law_claims_keep_books(sale: SaleView, account: Name, amount: u128)
    requires
        sale.account_sales.aligned(),
        sale.balanced(),
    ensures
        purchase_claim(sale, account) is Ok ==> purchase_claim(sale, account).unwrap().0.balanced(),
        refund_claim(sale, account) is Ok ==> refund_claim(sale, account).unwrap().0.balanced(),
        reward_claim(sale, account) is Ok ==> reward_claim(sale, account).unwrap().0.balanced(),
        purchase_rollback(sale, account, amount) is Ok ==> purchase_rollback(
            sale,
            account,
            amount,
        ).unwrap().balanced(),
        refund_rollback(sale, account, amount) is Ok ==> refund_rollback(
            sale,
            account,
            amount,
        ).unwrap().balanced(),
        reward_rollback(sale, account, amount) is Ok ==> reward_rollback(
            sale,
            account,
            amount,
        ).unwrap().balanced(),
{
    if sale.account_sales.contains(account) {
        let record = deposited(sale.account_sales, account);
        if purchase_claim(sale, account) is Ok {
            let after = deposited(purchase_claim(sale, account).unwrap().0.account_sales, account);
            sale.account_sales.lemma_put_get_same(
                account,
                VSaleAccount::Current(
                    settled(
                        sale,
                        record,
                        sale.distribute_token_decimals.unwrap(),
                    ).unwrap(),
                ),
            );
            lemma_rewrite_keeps_balance(sale, account, after);
        }
        if refund_claim(sale, account) is Ok {
            lemma_rewrite_keeps_balance(
                sale,
                account,
                SaleAccount { refunded: record.refund, ..record },
            );
        }
        if purchase_rollback(sale, account, amount) is Ok {
            lemma_rewrite_keeps_balance(
                sale,
                account,
                SaleAccount { claimed: (record.claimed - amount) as u128, ..record },
            );
        }
        if refund_rollback(sale, account, amount) is Ok {
            lemma_rewrite_keeps_balance(
                sale,
                account,
                SaleAccount { refunded: (record.refunded - amount) as u128, ..record },
            );
        }
    }
}

/// A refund can be claimed only after the purchase was claimed, and once
/// it is claimed it cannot be claimed again.
pub proof fn law_refund_after_claim_and_once(sale: SaleView, account: Name)
    requires
        sale.account_sales.aligned(),
        refund_claim(sale, account) is Ok,
    ensures
        deposited(sale.account_sales, account).claimed > 0,
        deposited(sale.account_sales, account).refunded == 0,
        refund_claim(sale, account).unwrap().1 == deposited(sale.account_sales, account).refund,
        refund_claim(refund_claim(sale, account).unwrap().0, account) == Err::<
            (SaleView, u128),
            Error,
        >(Error::AlreadyRefunded),
        purchase_claim(refund_claim(sale, account).unwrap().0, account) is Err,
{
    let record = deposited(sale.account_sales, account);
    sale.account_sales.lemma_put_get_same(
        account,
        VSaleAccount::Current(SaleAccount { refunded: record.refund, ..record }),
    );
}

/// A purchase is claimed at most once: after a claim, another claim is
/// refused.
pub proof fn law_purchase_claimed_once(sale: SaleView, account: Name)
    requires
        sale.account_sales.aligned(),
        purchase_claim(sale, account) is Ok,
    ensures
        deposited(sale.account_sales, account).claimed == 0,
        purchase_claim(sale, account).unwrap().1 > 0,
        purchase_claim(purchase_claim(sale, account).unwrap().0, account) == Err::<
            (SaleView, u128),
            Error,
        >(Error::AlreadyClaimed),
{
    let record = deposited(sale.account_sales, account);
    let after = settled(
        sale,
        record,
        sale.distribute_token_decimals.unwrap(),
    ).unwrap();
    sale.account_sales.lemma_put_get_same(account, VSaleAccount::Current(after));
}

/// When the transfer of a claimed purchase fails, taking the claim back
/// restores the claimed amount of the account to what it was, and the
/// claim made again ends in the very state, with the very amount, of the
/// first claim.
pub proof fn law_failed_purchase_claim_can_be_made_again(sale: SaleView, account: Name)
    requires
        sale.account_sales.aligned(),
        purchase_claim(sale, account) is Ok,
    ensures
        ({
            let (claimed, amount) = purchase_claim(sale, account).unwrap();
            &&& purchase_rollback(claimed, account, amount) is Ok
            &&& deposited(
                purchase_rollback(claimed, account, amount).unwrap().account_sales,
                account,
            ).claimed == deposited(sale.account_sales, account).claimed
            &&& purchase_claim(purchase_rollback(claimed, account, amount).unwrap(), account)
                == Ok::<(SaleView, u128), Error>((claimed, amount))
        }),
{
    let record = deposited(sale.account_sales, account);
    let decimals = sale.distribute_token_decimals.unwrap();
    let after = settled(sale, record, decimals).unwrap();
    let (claimed, amount) = purchase_claim(sale, account).unwrap();
    let undone = SaleAccount { claimed: 0, ..after };
    sale.account_sales.lemma_put_get_same(account, VSaleAccount::Current(after));
    sale.account_sales.lemma_put_twice(
        account,
        VSaleAccount::Current(after),
        VSaleAccount::Current(undone),
    );
    let rolled = purchase_rollback(claimed, account, amount).unwrap();
    assert(rolled.account_sales == sale.account_sales.put(account, VSaleAccount::Current(undone)));
    sale.account_sales.lemma_put_get_same(account, VSaleAccount::Current(undone));
    assert(settled(rolled, undone, decimals) == Ok::<SaleAccount, Error>(after));
    sale.account_sales.lemma_put_twice(
        account,
        VSaleAccount::Current(undone),
        VSaleAccount::Current(after),
    );
}

/// When the transfer of a claimed referral reward fails, taking the claim
/// back restores the claimed amount, and the claim made again ends in
/// the state of the first claim.
pub proof fn law_failed_reward_claim_can_be_made_again(sale: SaleView, account: Name)
    requires
        sale.account_affiliate_rewards.aligned(),
        reward_claim(sale, account) is Ok,
    ensures
        ({
            let (claimed, amount) = reward_claim(sale, account).unwrap();
            &&& reward_rollback(claimed, account, amount) is Ok
            &&& rewarded(
                reward_rollback(claimed, account, amount).unwrap().account_affiliate_rewards,
                account,
            ).claimed == rewarded(sale.account_affiliate_rewards, account).claimed
            &&& reward_claim(reward_rollback(claimed, account, amount).unwrap(), account) == Ok::<
                (SaleView, u128),
                Error,
            >((claimed, amount))
        }),
{
    let record = rewarded(sale.account_affiliate_rewards, account);
    let decimals = sale.distribute_token_decimals.unwrap();
    let after = reward_settled(sale, record, decimals).unwrap();
    let (claimed, amount) = reward_claim(sale, account).unwrap();
    let undone = AffiliateRewardAccount { claimed: 0, ..after };
    let rewards = sale.account_affiliate_rewards;
    rewards.lemma_put_get_same(account, VAffiliateRewardAccount::Current(after));
    rewards.lemma_put_twice(
        account,
        VAffiliateRewardAccount::Current(after),
        VAffiliateRewardAccount::Current(undone),
    );
    let rolled = reward_rollback(claimed, account, amount).unwrap();
    assert(rolled.account_affiliate_rewards == rewards.put(
        account,
        VAffiliateRewardAccount::Current(undone),
    ));
    rewards.lemma_put_get_same(account, VAffiliateRewardAccount::Current(undone));
    assert(reward_settled(rolled, undone, decimals) == Ok::<
        AffiliateRewardAccount,
        Error,
    >(after));
    rewards.lemma_put_twice(
        account,
        VAffiliateRewardAccount::Current(undone),
        VAffiliateRewardAccount::Current(after),
    );
}

/// When the transfer of a refund fails, taking it back lets the refund
/// be claimed again, with the very result of the first claim.
pub proof fn law_failed_refund_can_be_claimed_again(sale: SaleView, account: Name)
    requires
        sale.account_sales.aligned(),
        refund_claim(sale, account) is Ok,
    ensures
        ({
            let (claimed, amount) = refund_claim(sale, account).unwrap();
            &&& refund_rollback(claimed, account, amount) is Ok
            &&& deposited(
                refund_rollback(claimed, account, amount).unwrap().account_sales,
                account,
            ) == deposited(sale.account_sales, account)
            &&& refund_claim(refund_rollback(claimed, account, amount).unwrap(), account) == Ok::<
                (SaleView, u128),
                Error,
            >((claimed, amount))
        }),
{
    let record = deposited(sale.account_sales, account);
    let after = SaleAccount { refunded: record.refund, ..record };
    let (claimed, amount) = refund_claim(sale, account).unwrap();
    sale.account_sales.lemma_put_get_same(account, VSaleAccount::Current(after));
    sale.account_sales.lemma_put_twice(
        account,
        VSaleAccount::Current(after),
        VSaleAccount::Current(record),
    );
    let rolled = refund_rollback(claimed, account, amount).unwrap();
    assert(rolled.account_sales == sale.account_sales.put(account, VSaleAccount::Current(record)));
    sale.account_sales.lemma_put_get_same(account, VSaleAccount::Current(record));
    sale.account_sales.lemma_put_twice(
        account,
        VSaleAccount::Current(record),
        VSaleAccount::Current(after),
    );
}

/// The same at the level of the engine: a purchase claim whose transfer
/// is reported as failed can be made again and then asks for the very
/// transfer of the first claim, in the very state.
pub proof fn law_failed_withdrawal_can_be_made_again(
    state: ContractView,
    account: Name,
    sale_id: u64,
    outcome: PromiseOutcome,
)
    requires
        state.sale(sale_id) is Some ==> state.sale(sale_id).unwrap().account_sales.aligned(),
        state.claim_purchase(account, sale_id) is Ok,
        outcome != PromiseOutcome::Successful,
    ensures
        ({
            let (claimed, transfer) = state.claim_purchase(account, sale_id).unwrap();
            let reported = claimed.after_transfer(
                TransferPurpose::Purchase,
                true,
                seq![outcome],
                account,
                transfer.amount,
                sale_id,
            );
            &&& reported is Ok
            &&& !reported.unwrap().1
            &&& reported.unwrap().0.claim_purchase(account, sale_id) == Ok::<
                (ContractView, TransferView),
                Error,
            >((claimed, transfer))
        }),
{
    let sale = state.sale(sale_id).unwrap();
    law_failed_purchase_claim_can_be_made_again(sale, account);
    let (claimed_sale, amount) = purchase_claim(sale, account).unwrap();
    let rolled_sale = purchase_rollback(claimed_sale, account, amount).unwrap();
    let (claimed, transfer) = state.claim_purchase(account, sale_id).unwrap();
    assert(claimed.sale(sale_id) == Some(claimed_sale));
    let reported = claimed.after_transfer(
        TransferPurpose::Purchase,
        true,
        seq![outcome],
        account,
        transfer.amount,
        sale_id,
    );
    assert(reported.unwrap().0.sale(sale_id) == Some(rolled_sale));
    assert(reported.unwrap().0.with_sale(sale_id, claimed_sale).sales =~= claimed.sales);
}

/// An account never becomes its own referrer: a join that resolves to the
/// joining account itself is refused, which is the case whenever an
/// account that exists names itself. A referrer that has no account
/// gives way to the owner. After a join the account has the resolved
/// referrer.
pub proof fn law_join_referrer(
    state: ContractView,
    account: Name,
    attached_deposit: u128,
    referrer: Option<Name>,
)
    requires
        state.accounts.aligned(),
    ensures
        state.resolved_referrer(referrer) == account ==> state.join(
            account,
            attached_deposit,
            referrer,
        ) == Err::<ContractView, Error>(Error::SelfReferrer),
        referrer == Some(account) && state.accounts.contains(account) ==> state.join(
            account,
            attached_deposit,
            referrer,
        ) == Err::<ContractView, Error>(Error::SelfReferrer),
        referrer is None || !state.accounts.contains(referrer.unwrap())
            ==> state.resolved_referrer(referrer) == state.owner_id,
        state.join(account, attached_deposit, referrer) is Ok ==> {
            let after = state.join(account, attached_deposit, referrer).unwrap();
            &&& after.referrer_of(account) == Some(state.resolved_referrer(referrer))
            &&& after.referrer_of(account) != Some(account)
        },
{
    if state.join(account, attached_deposit, referrer) is Ok {
        let resolved = state.resolved_referrer(referrer);
        let joined = ContractView {
            accounts: state.accounts.put(account, AccountView::fresh(resolved)),
            ..state
        };
        state.accounts.lemma_put_get_same(account, AccountView::fresh(resolved));
        let chain = joined.reward_chain(account);
        let after_1 = if chain.len() >= 1 {
            joined.with_affiliate_on_level(chain[0], 0, account)
        } else {
            joined
        };
        lemma_affiliate_keeps_referrer(joined, chain[0], 0, account, account);
        let after_2 = if chain.len() >= 2 {
            after_1.with_affiliate_on_level(chain[1], 1, account)
        } else {
            after_1
        };
        lemma_affiliate_keeps_referrer(after_1, chain[1], 1, account, account);
        lemma_affiliate_keeps_referrer(after_2, chain[2], 2, account, account);
    }
}

/// Recording an affiliate changes nobody's referrer.
pub proof fn lemma_affiliate_keeps_referrer(
    state: ContractView,
    referrer: Name,
    level: u8,
    affiliate: Name,
    other: Name,
)
    requires
        state.accounts.aligned(),
    ensures
        state.with_affiliate_on_level(referrer, level, affiliate).accounts.aligned(),
        state.with_affiliate_on_level(referrer, level, affiliate).referrer_of(other)
            == state.referrer_of(other),
{
    match state.accounts.get(referrer) {
        Some(a) => {
            state.accounts.lemma_put_get_same(referrer, a.with_affiliate(level, affiliate));
            if other != referrer {
                state.accounts.lemma_put_get_other(
                    referrer,
                    a.with_affiliate(level, affiliate),
                    other,
                );
            }
        },
        None => {},
    }
}

/// `longer` is `shorter` or `shorter` with one more name at its end.
pub open spec fn grown_by_at_most_one(shorter: Seq<Name>, longer: Seq<Name>, name: Name) -> bool {
    longer == shorter || longer == shorter.push(name)
}

/// Recording an affiliate takes no affiliate away from anybody: on every
/// level every account keeps the affiliates that it had, in their order.
pub proof fn lemma_affiliate_only_adds(
    state: ContractView,
    referrer: Name,
    on_level: u8,
    affiliate: Name,
    other: Name,
    level: u8,
)
    requires
        state.accounts.aligned(),
        on_level < 3,
        level < 3,
        state.accounts.get(other) is Some,
        state.accounts.get(other).unwrap().affiliates.len() == 3,
    ensures
        ({
            let after = state.with_affiliate_on_level(referrer, on_level, affiliate);
            &&& after.accounts.aligned()
            &&& after.accounts.get(other) is Some
            &&& after.accounts.get(other).unwrap().affiliates.len() == 3
            &&& after.accounts.get(other).unwrap().referrer == state.accounts.get(
                other,
            ).unwrap().referrer
            &&& grown_by_at_most_one(
                state.accounts.get(other).unwrap().level(level),
                after.accounts.get(other).unwrap().level(level),
                affiliate,
            )
            &&& (other != referrer || level != on_level) ==> after.accounts.get(
                other,
            ).unwrap().level(level) == state.accounts.get(other).unwrap().level(level)
        }),
{
    match state.accounts.get(referrer) {
        Some(a) => {
            state.accounts.lemma_put_get_same(referrer, a.with_affiliate(on_level, affiliate));
            if other != referrer {
                state.accounts.lemma_put_get_other(
                    referrer,
                    a.with_affiliate(on_level, affiliate),
                    other,
                );
            }
        },
        None => {},
    }
}

/// Joining takes no affiliate away from anybody: who had an account
/// before keeps its referrer and, on every level, the affiliates that it
/// had; at most the new account is added at the end.
pub proof fn law_join_only_adds_affiliates(
    state: ContractView,
    account: Name,
    attached_deposit: u128,
    referrer: Option<Name>,
    other: Name,
    level: u8,
)
    requires
        state.accounts.aligned(),
        level < 3,
        state.accounts.get(other) is Some,
        state.accounts.get(other).unwrap().affiliates.len() == 3,
        state.join(account, attached_deposit, referrer) is Ok,
    ensures
        ({
            let after = state.join(account, attached_deposit, referrer).unwrap();
            &&& after.accounts.get(other) is Some
            &&& after.accounts.get(other).unwrap().referrer == state.accounts.get(
                other,
            ).unwrap().referrer
            &&& grown_by_at_most_one(
                state.accounts.get(other).unwrap().level(level),
                after.accounts.get(other).unwrap().level(level),
                account,
            )
        }),
{
    let resolved = state.resolved_referrer(referrer);
    let joined = ContractView {
        accounts: state.accounts.put(account, AccountView::fresh(resolved)),
        ..state
    };
    state.accounts.lemma_put_get_same(account, AccountView::fresh(resolved));
    state.accounts.lemma_put_get_other(account, AccountView::fresh(resolved), other);
    let chain = joined.reward_chain(account);
    let after_1 = if chain.len() >= 1 {
        joined.with_affiliate_on_level(chain[0], 0, account)
    } else {
        joined
    };
    lemma_affiliate_only_adds(joined, chain[0], 0, account, other, level);
    let after_2 = if chain.len() >= 2 {
        after_1.with_affiliate_on_level(chain[1], 1, account)
    } else {
        after_1
    };
    lemma_affiliate_only_adds(after_1, chain[1], 1, account, other, level);
    lemma_affiliate_only_adds(after_2, chain[2], 2, account, other, level);
}

/// A record of the first layout reads as a record of the current layout
/// that has its deposit and nothing claimed, owed or refunded.
pub proof fn law_old_record_reads_as_current(record: SaleAccountOld)
    ensures
        VSaleAccount::First(record).upgraded() == (SaleAccount {
            amount: record.amount,
            claimed: 0,
            refund: 0,
            refunded: 0,
        }),
        VSaleAccount::First(record).upgraded() == VSaleAccount::Current(
            VSaleAccount::First(record).upgraded(),
        ).upgraded(),
{
}

/// A sale of the first layout reads as the sale of the current layout
/// that it is upgraded to: with everything it held, claims closed, no
/// distribution token, no decimals, no supply, no referral rewards, and
/// the first-come policy. What is read of either is the same.
pub proof fn law_old_sale_reads_as_current(old_sale: SaleOld, upgraded: Sale)
    requires
        upgraded@ == old_sale.upgraded(),
    ensures
        VSale::First(old_sale)@ == VSale::Current(upgraded)@,
        VSale::First(old_sale)@.collected_amount == old_sale.collected_amount,
        VSale::First(old_sale)@.account_sales == old_sale.account_sales.model(),
        !VSale::First(old_sale)@.claim_available,
        VSale::First(old_sale)@.distribute_token_id is None,
        VSale::First(old_sale)@.distribute_token_decimals is None,
        VSale::First(old_sale)@.distribute_supply_amount is None,
        VSale::First(old_sale)@.account_affiliate_rewards
            == TableModel::<VAffiliateRewardAccount>::empty(),
        VSale::First(old_sale)@.sale_type == SaleType::ByAmount,
{
}

} // verus!
