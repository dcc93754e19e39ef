//! The path of a deposit from its arrival to its record.
//!
//! A deposit arrives with a message that names the sale. Where the sale
//! asks for a stake, the engine first hands out a question for the balance
//! oracle and records the deposit when the answer comes back; otherwise it
//! records the deposit at once. A deposit in the native currency is wrapped
//! as far as the sale took it, and the rest goes back to the depositor.
//!
//! The engine decides; whoever drives it performs the external calls and
//! reports their results.

use vstd::prelude::*;
use crate::account::contains_id;
use crate::contract::{Contract, ContractView};
use crate::error::Error;
use crate::ident::AccountId;
use crate::sale::{Sale, SaleView, name_of};
use crate::table::{Name, has_item};

verus! {

/// The message that comes with a deposit.
#[derive(Debug)]
pub struct SaleDeposit {
    pub sale_id: u64,
    /// The contract with which the depositor has staked, if the sale asks
    /// for a stake.
    pub staking_contract: Option<AccountId>,
}

/// A question for the balance oracle, with what the engine needs to go on
/// when the answer arrives.
#[derive(Debug)]
pub struct StakeQuery {
    /// The staking contract to ask.
    pub staking_contract: AccountId,
    /// The account whose staked balance is asked for.
    pub account_id: AccountId,
    pub sale_id: u64,
    pub token_id: AccountId,
    pub deposit_amount: u128,
}

/// What the engine did with a deposit that arrived.
#[derive(Debug)]
pub enum DepositStep {
    /// Nothing is recorded yet: the oracle has to be asked first.
    CheckStake(StakeQuery),
    /// The deposit is recorded; this much of it was not taken.
    Recorded(u128),
}

/// How an external call ended.
#[derive(Clone, Copy, Debug, PartialEq, Eq, Structural)]
pub enum PromiseOutcome {
    NotReady,
    Successful,
    Failed,
}

/// How a deposit in the native currency is settled: `wrap_amount` is
/// turned into the wrapped token, `return_amount` goes back to the
/// depositor `return_to`. An amount of zero asks for nothing.
#[derive(Debug)]
pub struct NearSettlement {
    pub wrap_amount: u128,
    pub return_amount: u128,
    pub return_to: AccountId,
}

/// The content of a settlement.
pub ghost struct NearSettlementView {
    pub wrap_amount: u128,
    pub return_amount: u128,
    pub return_to: Name,
}

impl View for NearSettlement {
    type V = NearSettlementView;

    open spec fn view(&self) -> NearSettlementView {
        NearSettlementView {
            wrap_amount: self.wrap_amount,
            return_amount: self.return_amount,
            return_to: self.return_to@,
        }
    }
}

/// What the engine did with a deposit in the native currency.
#[derive(Debug)]
pub enum NearDepositStep {
    /// Nothing is recorded yet: the oracle has to be asked first, and the
    /// deposit is settled when the record is made.
    CheckStake(StakeQuery),
    /// The deposit is recorded and is to be settled so.
    Settle(NearSettlement),
}

/// The content of a deposit message.
pub ghost struct SaleDepositView {
    pub sale_id: u64,
    pub staking_contract: Option<Name>,
}

impl View for SaleDeposit {
    type V = SaleDepositView;

    open spec fn view(&self) -> SaleDepositView {
        SaleDepositView { sale_id: self.sale_id, staking_contract: name_of(self.staking_contract) }
    }
}

/// The content of a question for the oracle.
pub ghost struct StakeQueryView {
    pub staking_contract: Name,
    pub account_id: Name,
    pub sale_id: u64,
    pub token_id: Name,
    pub deposit_amount: u128,
}

impl View for StakeQuery {
    type V = StakeQueryView;

    open spec fn view(&self) -> StakeQueryView {
        StakeQueryView {
            staking_contract: self.staking_contract@,
            account_id: self.account_id@,
            sale_id: self.sale_id,
            token_id: self.token_id@,
            deposit_amount: self.deposit_amount,
        }
    }
}

/// The content of a step.
pub ghost enum DepositStepView {
    CheckStake(StakeQueryView),
    Recorded(u128),
}

impl View for DepositStep {
    type V = DepositStepView;

    open spec fn view(&self) -> DepositStepView {
        match self {
            DepositStep::CheckStake(q) => DepositStepView::CheckStake(q@),
            DepositStep::Recorded(refused) => DepositStepView::Recorded(*refused),
        }
    }
}

/// The content of a step of a deposit in the native currency.
pub ghost enum NearDepositStepView {
    CheckStake(StakeQueryView),
    Settle(NearSettlementView),
}

impl View for NearDepositStep {
    type V = NearDepositStepView;

    open spec fn view(&self) -> NearDepositStepView {
        match self {
            NearDepositStep::CheckStake(q) => NearDepositStepView::CheckStake(q@),
            NearDepositStep::Settle(s) => NearDepositStepView::Settle(s@),
        }
    }
}

/// The account of the token that wraps the native currency.
pub open spec fn wrap_near_name() -> Name {
    "wrap.near"@
}

/// The account of the token that wraps the native currency.
pub fn wrap_near_account() -> (r: AccountId)
    ensures
        r@ == wrap_near_name(),
{
    AccountId::new_unchecked("wrap.near".to_owned())
}

/// Why a sale does not take deposits in `token` at the time `timestamp`,
/// if it does not: the token is another, the sale is full, has not
/// started or is over, or the stake cannot be checked with the contract
/// that the message names.
pub open spec fn transfer_rejection(
    sale: SaleView,
    token: Name,
    timestamp: u64,
    staking_contract: Option<Name>,
) -> Option<Error> {
    if sale.deposit_token_id != token {
        Some(Error::WrongToken)
    } else if sale.hard_max_amount_limit && sale.max_amount is None {
        Some(Error::NoMaxAmount)
    } else if sale.hard_max_amount_limit && sale.collected_amount >= sale.max_amount.unwrap() {
        Some(Error::SaleDone)
    } else if timestamp < sale.start_date {
        Some(Error::SaleNotStarted)
    } else if timestamp > sale.end_date {
        Some(Error::SaleDone)
    } else if sale.staking_contracts.len() > 0 {
        match staking_contract {
            None => Some(Error::MustHaveStakingContract),
            Some(c) => if has_item(sale.staking_contracts, c) {
                None
            } else {
                Some(Error::NotWhitelistedStakingContract)
            },
        }
    } else {
        None
    }
}

/// How a deposit of `deposit_amount` by `sender` in the native currency is
/// settled when `return_amount` of it is to go back.
pub open spec fn near_settlement(return_amount: u128, sender: Name, deposit_amount: u128) -> Result<
    NearSettlementView,
    Error,
> {
    if return_amount > deposit_amount {
        Err(Error::Overflow)
    } else {
        Ok(
            NearSettlementView {
                wrap_amount: (deposit_amount - return_amount) as u128,
                return_amount,
                return_to: sender,
            },
        )
    }
}

/// How a deposit in the native currency is settled once the record of the
/// deposit has ended: as the record says, or, where none was made, by
/// giving all of it back.
pub open spec fn near_deposit_settled(
    invoked_by_self: bool,
    results: Seq<Option<u128>>,
    sender: Name,
    deposit_amount: u128,
) -> Result<NearSettlementView, Error> {
    if !invoked_by_self {
        Err(Error::NotOwner)
    } else {
        match single_answer(results) {
            Err(e) => Err(e),
            Ok(Some(returned)) => near_settlement(returned, sender, deposit_amount),
            Ok(None) => near_settlement(deposit_amount, sender, deposit_amount),
        }
    }
}

/// A settlement neither makes nor loses value: what is wrapped and what
/// goes back are together what was deposited.
pub proof fn law_settlement_conserves_value(
    invoked_by_self: bool,
    results: Seq<Option<u128>>,
    sender: Name,
    deposit_amount: u128,
)
    requires
        near_deposit_settled(invoked_by_self, results, sender, deposit_amount) is Ok,
    ensures
        ({
            let s = near_deposit_settled(
                invoked_by_self,
                results,
                sender,
                deposit_amount,
            ).unwrap();
            &&& s.wrap_amount + s.return_amount == deposit_amount
            &&& s.return_to == sender
            &&& results[0] is None ==> s.wrap_amount == 0
        }),
{
}

/// The answer of a single external call, where exactly one is expected:
/// the amount that it reported, or nothing where the call failed.
pub open spec fn single_answer(results: Seq<Option<u128>>) -> Result<Option<u128>, Error> {
    if results.len() != 1 {
        Err(Error::ExpectedOneResult)
    } else {
        Ok(results[0])
    }
}

/// The result of a single external call, where exactly one is expected.
pub open spec fn single_result(results: Seq<PromiseOutcome>) -> Result<bool, Error> {
    if results.len() != 1 {
        Err(Error::ExpectedOneResult)
    } else {
        Ok(results[0] == PromiseOutcome::Successful)
    }
}

/// Whether the one external call that a continuation waits for has
/// succeeded. Any other number of results is a failure of the host.
pub fn is_promise_success(results: &Vec<PromiseOutcome>) -> (r: Result<bool, Error>)
    ensures
        r == single_result(results@),
{
    if results.len() != 1 {
        return Err(Error::ExpectedOneResult);
    }
    match results[0] {
        PromiseOutcome::Successful => Ok(true),
        _ => Ok(false),
    }
}

/// The answer of the one external call that a continuation waits for.
pub fn single(results: &Vec<Option<u128>>) -> (r: Result<Option<u128>, Error>)
    ensures
        r == single_answer(results@),
{
    if results.len() != 1 {
        return Err(Error::ExpectedOneResult);
    }
    Ok(results[0])
}

/// Before the oracle has answered, nothing is recorded: a deposit that
/// has to wait for the oracle leaves the state as it was.
pub proof fn law_nothing_recorded_before_the_answer(
    state: ContractView,
    token: Name,
    timestamp: u64,
    sender: Name,
    amount: u128,
    message: SaleDepositView,
)
    requires
        state.on_deposit_message(token, timestamp, sender, amount, message) is Ok,
    ensures
        ({
            let (after, step) = state.on_deposit_message(
                token,
                timestamp,
                sender,
                amount,
                message,
            ).unwrap();
            &&& step is CheckStake ==> after == state
            &&& step is CheckStake <==> state.sale(message.sale_id).unwrap().staking_contracts.len()
                > 0
        }),
{
}

impl ContractView {
    /// What the arrival of a deposit with the message `message` does: the
    /// state afterwards and the step taken, or the reason for refusing the
    /// deposit.
    pub open spec fn on_deposit_message(
        self,
        token: Name,
        timestamp: u64,
        sender: Name,
        amount: u128,
        message: SaleDepositView,
    ) -> Result<(ContractView, DepositStepView), Error> {
        if !self.accounts.contains(sender) {
            Err(Error::NotRegisteredAccount)
        } else {
            match self.sale(message.sale_id) {
                None => Err(Error::NoSale),
                Some(sale) => match transfer_rejection(
                    sale,
                    token,
                    timestamp,
                    message.staking_contract,
                ) {
                    Some(e) => Err(e),
                    None => if sale.staking_contracts.len() > 0 {
                        Ok(
                            (
                                self,
                                DepositStepView::CheckStake(
                                    StakeQueryView {
                                        staking_contract: message.staking_contract.unwrap(),
                                        account_id: sender,
                                        sale_id: message.sale_id,
                                        token_id: token,
                                        deposit_amount: amount,
                                    },
                                ),
                            ),
                        )
                    } else {
                        match self.deposit(message.sale_id, token, sender, 0, amount) {
                            Err(e) => Err(e),
                            Ok((after, refused)) => Ok((after, DepositStepView::Recorded(refused))),
                        }
                    },
                },
            }
        }
    }

    /// What the arrival of tokens does, given the message as far as it
    /// could be read.
    pub open spec fn on_transfer(
        self,
        token: Name,
        timestamp: u64,
        sender: Name,
        amount: u128,
        message: Option<SaleDepositView>,
    ) -> Result<(ContractView, DepositStepView), Error> {
        if !self.accounts.contains(sender) {
            Err(Error::NotRegisteredAccount)
        } else {
            match message {
                None => Err(Error::MsgWrongFormat),
                Some(m) => self.on_deposit_message(token, timestamp, sender, amount, m),
            }
        }
    }

    /// What the answer of the oracle does. `results` holds what the
    /// external calls reported that the continuation waited for.
    pub open spec fn on_staked_balance(
        self,
        invoked_by_self: bool,
        results: Seq<Option<u128>>,
        sale_id: u64,
        token: Name,
        sender: Name,
        deposit_amount: u128,
    ) -> Result<(ContractView, u128), Error> {
        if !invoked_by_self {
            Err(Error::NotOwner)
        } else {
            match single_answer(results) {
                Err(e) => Err(e),
                Ok(None) => Err(Error::CallbackFailed),
                Ok(Some(staked)) => self.deposit(sale_id, token, sender, staked, deposit_amount),
            }
        }
    }

    /// What a deposit in the native currency does.
    pub open spec fn on_near_deposit(
        self,
        timestamp: u64,
        sender: Name,
        amount: u128,
        message: SaleDepositView,
    ) -> Result<(ContractView, NearDepositStepView), Error> {
        match self.on_deposit_message(wrap_near_name(), timestamp, sender, amount, message) {
            Err(e) => Err(e),
            Ok((after, step)) => match step {
                DepositStepView::CheckStake(q) => Ok((after, NearDepositStepView::CheckStake(q))),
                DepositStepView::Recorded(refused) => match near_settlement(refused, sender, amount) {
                    Err(e) => Err(e),
                    Ok(s) => Ok((after, NearDepositStepView::Settle(s))),
                },
            },
        }
    }
}

impl Sale {
    /// Checks that the sale takes deposits in `token_id` at `timestamp`,
    /// and that a stake, where the sale asks for one, can be checked with
    /// `staking_contract`.
    pub fn check_transfer(
        &self,
        token_id: &AccountId,
        timestamp: u64,
        staking_contract: &Option<AccountId>,
    ) -> (r: Result<(), Error>)
        ensures
            match r {
                Ok(_) => transfer_rejection(self@, token_id@, timestamp, name_of(*staking_contract))
                    is None,
                Err(e) => transfer_rejection(self@, token_id@, timestamp, name_of(*staking_contract))
                    == Some(e),
            },
    {
        if self.deposit_token_id != *token_id {
            return Err(Error::WrongToken);
        }
        if self.hard_max_amount_limit {
            match self.max_amount {
                None => {
                    return Err(Error::NoMaxAmount);
                },
                Some(max_amount) => {
                    if self.collected_amount >= max_amount {
                        return Err(Error::SaleDone);
                    }
                },
            }
        }
        if timestamp < self.start_date {
            return Err(Error::SaleNotStarted);
        }
        if timestamp > self.end_date {
            return Err(Error::SaleDone);
        }
        if self.staking_contracts.len() > 0 {
            match staking_contract {
                None => {
                    return Err(Error::MustHaveStakingContract);
                },
                Some(c) => {
                    if !contains_id(&self.staking_contracts, c) {
                        return Err(Error::NotWhitelistedStakingContract);
                    }
                },
            }
        }
        Ok(())
    }
}

impl Contract {
    /// Takes in a deposit of `amount` in the token `token_id` by
    /// `sender_id`, made at `timestamp` with the message `message`.
    pub fn internal_ft_on_transfer(
        &mut self,
        token_id: AccountId,
        timestamp: u64,
        sender_id: AccountId,
        amount: u128,
        message: SaleDeposit,
    ) -> (r: Result<DepositStep, Error>)
        ensures
            match r {
                Ok(step) => old(self)@.on_deposit_message(
                    token_id@,
                    timestamp,
                    sender_id@,
                    amount,
                    message@,
                ) == Ok::<(ContractView, DepositStepView), Error>((final(self)@, step@)),
                Err(e) => {
                    &&& old(self)@.on_deposit_message(
                        token_id@,
                        timestamp,
                        sender_id@,
                        amount,
                        message@,
                    ) == Err::<(ContractView, DepositStepView), Error>(e)
                    &&& final(self)@ == old(self)@
                },
            },
            old(self)@.sound() ==> final(self)@.sound(),
    {
        if !self.has_account(&sender_id) {
            return Err(Error::NotRegisteredAccount);
        }
        let sale = match self.take_sale(message.sale_id) {
            Some(sale) => sale,
            None => {
                return Err(Error::NoSale);
            },
        };
        let checked = sale.check_transfer(&token_id, timestamp, &message.staking_contract);
        let asks_for_stake: bool = sale.staking_contracts.len() > 0;
        self.put_sale(message.sale_id, sale);
        proof {
            old(self)@.lemma_put_back(message.sale_id);
            assert(self@.sales =~= old(self)@.sales);
        }
        match checked {
            Err(e) => Err(e),
            Ok(_) => {
                if asks_for_stake {
                    match message.staking_contract {
                        Some(staking_contract) => Ok(
                            DepositStep::CheckStake(
                                StakeQuery {
                                    staking_contract,
                                    account_id: sender_id,
                                    sale_id: message.sale_id,
                                    token_id,
                                    deposit_amount: amount,
                                },
                            ),
                        ),
                        None => Err(Error::MustHaveStakingContract),
                    }
                } else {
                    match self.internal_sale_deposit(message.sale_id, &token_id, &sender_id, 0, amount) {
                        Ok(refused) => Ok(DepositStep::Recorded(refused)),
                        Err(e) => Err(e),
                    }
                }
            },
        }
    }

    /// Takes in tokens that `sender_id` transferred to the engine.
    /// `predecessor_account_id` is the token that reports the transfer;
    /// `message` is the deposit message, or nothing where the text that came
    /// with the transfer is no such message.
    pub fn ft_on_transfer(
        &mut self,
        predecessor_account_id: AccountId,
        timestamp: u64,
        sender_id: AccountId,
        amount: u128,
        message: Option<SaleDeposit>,
    ) -> (r: Result<DepositStep, Error>)
        ensures
            match r {
                Ok(step) => old(self)@.on_transfer(
                    predecessor_account_id@,
                    timestamp,
                    sender_id@,
                    amount,
                    match message {
                        Some(m) => Some(m@),
                        None => None,
                    },
                ) == Ok::<(ContractView, DepositStepView), Error>((final(self)@, step@)),
                Err(e) => {
                    &&& old(self)@.on_transfer(
                        predecessor_account_id@,
                        timestamp,
                        sender_id@,
                        amount,
                        match message {
                            Some(m) => Some(m@),
                            None => None,
                        },
                    ) == Err::<(ContractView, DepositStepView), Error>(e)
                    &&& final(self)@ == old(self)@
                },
            },
            old(self)@.sound() ==> final(self)@.sound(),
    {
        if !self.has_account(&sender_id) {
            return Err(Error::NotRegisteredAccount);
        }
        match message {
            None => Err(Error::MsgWrongFormat),
            Some(m) => self.internal_ft_on_transfer(
                predecessor_account_id,
                timestamp,
                sender_id,
                amount,
                m,
            ),
        }
    }

    /// Goes on with a deposit once the oracle has answered. Only the
    /// engine itself may invoke this. `results` holds, for each external
    /// call that the continuation waited for, the staked balance that it
    /// reported, or nothing where it failed; exactly one is expected.
    pub fn on_get_account_staked_balance(
        &mut self,
        predecessor_account_id: &AccountId,
        current_account_id: &AccountId,
        results: &Vec<Option<u128>>,
        sale_id: u64,
        token_id: AccountId,
        sender_id: AccountId,
        deposit_amount: u128,
    ) -> (r: Result<u128, Error>)
        ensures
            match r {
                Ok(refused) => old(self)@.on_staked_balance(
                    predecessor_account_id@ == current_account_id@,
                    results@,
                    sale_id,
                    token_id@,
                    sender_id@,
                    deposit_amount,
                ) == Ok::<(ContractView, u128), Error>((final(self)@, refused)),
                Err(e) => {
                    &&& old(self)@.on_staked_balance(
                        predecessor_account_id@ == current_account_id@,
                        results@,
                        sale_id,
                        token_id@,
                        sender_id@,
                        deposit_amount,
                    ) == Err::<(ContractView, u128), Error>(e)
                    &&& final(self)@ == old(self)@
                },
            },
            old(self)@.sound() ==> final(self)@.sound(),
    {
        if *predecessor_account_id != *current_account_id {
            return Err(Error::NotOwner);
        }
        match single(results) {
            Err(e) => Err(e),
            Ok(None) => Err(Error::CallbackFailed),
            Ok(Some(staked)) => self.internal_sale_deposit(
                sale_id,
                &token_id,
                &sender_id,
                staked,
                deposit_amount,
            ),
        }
    }

    /// Settles a deposit of `deposit_amount` by `sender_id` in the
    /// native currency, of which `return_amount` was not taken.
    pub fn internal_finalize_near_deposit(
        &self,
        return_amount: u128,
        sender_id: AccountId,
        deposit_amount: u128,
    ) -> (r: Result<NearSettlement, Error>)
        ensures
            match r {
                Ok(s) => near_settlement(return_amount, sender_id@, deposit_amount) == Ok::<
                    NearSettlementView,
                    Error,
                >(s@),
                Err(e) => near_settlement(return_amount, sender_id@, deposit_amount) == Err::<
                    NearSettlementView,
                    Error,
                >(e),
            },
    {
        if return_amount > deposit_amount {
            return Err(Error::Overflow);
        }
        let wrap_amount: u128 = deposit_amount - return_amount;
        Ok(NearSettlement { wrap_amount, return_amount, return_to: sender_id })
    }

    /// Takes in a deposit of `amount` in the native currency by
    /// `sender_id`, made at `timestamp` with the message `sale_deposit`.
    pub fn deposit_near(
        &mut self,
        sender_id: AccountId,
        amount: u128,
        timestamp: u64,
        sale_deposit: SaleDeposit,
    ) -> (r: Result<NearDepositStep, Error>)
        ensures
            match r {
                Ok(step) => old(self)@.on_near_deposit(timestamp, sender_id@, amount, sale_deposit@)
                    == Ok::<(ContractView, NearDepositStepView), Error>((final(self)@, step@)),
                Err(e) => {
                    &&& old(self)@.on_near_deposit(timestamp, sender_id@, amount, sale_deposit@)
                        == Err::<(ContractView, NearDepositStepView), Error>(e)
                    &&& final(self)@ == old(self)@
                },
            },
            old(self)@.sound() ==> final(self)@.sound(),
    {
        let token_id = wrap_near_account();
        let return_to = sender_id.clone();
        match self.internal_ft_on_transfer(token_id, timestamp, sender_id, amount, sale_deposit) {
            Err(e) => Err(e),
            Ok(DepositStep::CheckStake(query)) => Ok(NearDepositStep::CheckStake(query)),
            Ok(DepositStep::Recorded(refused)) => {
                proof {
                    old(self)@.lemma_refused_within(
                        sale_deposit@.sale_id,
                        wrap_near_name(),
                        sender_id@,
                        0,
                        amount,
                    );
                }
                Ok(
                    NearDepositStep::Settle(
                        NearSettlement {
                            wrap_amount: amount - refused,
                            return_amount: refused,
                            return_to,
                        },
                    ),
                )
            },
        }
    }

    /// Settles a deposit of `deposit_amount` by `sender_id` in the
    /// native currency after the oracle was asked. Only the engine itself
    /// may invoke this. `results` holds, for each external call that the
    /// continuation waited for, what the record of the deposit returned,
    /// or nothing where no record was made; exactly one is expected. Where
    /// no record was made, nothing is wrapped and all of the deposit goes
    /// back.
    pub fn after_ft_on_transfer_near_deposit(
        &self,
        predecessor_account_id: &AccountId,
        current_account_id: &AccountId,
        results: &Vec<Option<u128>>,
        sender_id: AccountId,
        deposit_amount: u128,
    ) -> (r: Result<NearSettlement, Error>)
        ensures
            match r {
                Ok(s) => near_deposit_settled(
                    predecessor_account_id@ == current_account_id@,
                    results@,
                    sender_id@,
                    deposit_amount,
                ) == Ok::<NearSettlementView, Error>(s@),
                Err(e) => near_deposit_settled(
                    predecessor_account_id@ == current_account_id@,
                    results@,
                    sender_id@,
                    deposit_amount,
                ) == Err::<NearSettlementView, Error>(e),
            },
    {
        if *predecessor_account_id != *current_account_id {
            return Err(Error::NotOwner);
        }
        match single(results) {
            Err(e) => Err(e),
            Ok(Some(returned)) => self.internal_finalize_near_deposit(
                returned,
                sender_id,
                deposit_amount,
            ),
            Ok(None) => self.internal_finalize_near_deposit(deposit_amount, sender_id, deposit_amount),
        }
    }
}

} // verus!
