//! Setting up and managing sales.
//!
//! A sale is created by the owner. Everything else here may only be
//! invoked by the engine itself.

use vstd::prelude::*;
use crate::contract::{Contract, ContractView};
use crate::error::Error;
use crate::ident::AccountId;
use crate::sale::{Sale, SaleInput, SaleType, SaleView, VSale, sale_of_input};
use crate::table::Name;

verus! {

/// Why a sale cannot be set up as `sale_input` describes it, if it cannot.
pub open spec fn input_rejection(sale_input: SaleInput) -> Option<Error> {
    match sale_input.sale_type {
        SaleType::ByAmount => if sale_input.hard_max_amount_limit && sale_input.max_amount
            is None {
            Some(Error::MustHaveMaxAmount)
        } else {
            None
        },
        SaleType::BySubscription => if sale_input.distribute_supply_amount is None {
            Some(Error::MustHaveSupplyAmount)
        } else {
            None
        },
    }
}

/// The sale with new dates. Dates change only while the sale has room
/// below its maximum amount.
pub open spec fn with_dates(sale: SaleView, start_date: u64, end_date: u64) -> Result<
    SaleView,
    Error,
> {
    if sale.max_amount is None {
        Err(Error::NoMaxAmount)
    } else if sale.collected_amount >= sale.max_amount.unwrap() {
        Err(Error::SaleDone)
    } else {
        Ok(SaleView { start_date, end_date, ..sale })
    }
}

/// The sale with its distribution token, which is set once.
pub open spec fn with_distribute_token_id(sale: SaleView, token: Name) -> Result<SaleView, Error> {
    if sale.distribute_token_id is Some {
        Err(Error::AlreadySet)
    } else {
        Ok(SaleView { distribute_token_id: Some(token), ..sale })
    }
}

/// The sale with the decimals of its distribution token, which are set
/// once.
pub open spec fn with_distribute_token_decimals(sale: SaleView, decimals: u8) -> Result<
    SaleView,
    Error,
> {
    if sale.distribute_token_decimals is Some {
        Err(Error::AlreadySet)
    } else {
        Ok(SaleView { distribute_token_decimals: Some(decimals), ..sale })
    }
}

/// The sale with claims opened or closed. This needs the distribution
/// token and its decimals.
pub open spec fn with_claim_available(sale: SaleView, claim_available: bool) -> Result<
    SaleView,
    Error,
> {
    if sale.distribute_token_id is None || sale.distribute_token_decimals is None {
        Err(Error::NotEnoughData)
    } else {
        Ok(SaleView { claim_available, ..sale })
    }
}

impl ContractView {
    /// What creating a sale does: the state with the new sale and its
    /// identifier, or why the sale is not created.
    pub open spec fn create_sale(self, caller: Name, sale_input: SaleInput) -> Result<
        (ContractView, u64),
        Error,
    > {
        if self.owner_id != caller {
            Err(Error::MustBeOwner)
        } else {
            match input_rejection(sale_input) {
                Some(e) => Err(e),
                None => Ok(
                    (
                        ContractView {
                            sales: self.sales.push(Some(sale_of_input(sale_input))),
                            ..self
                        },
                        self.sales.len() as u64,
                    ),
                ),
            }
        }
    }

    /// What removing a sale does. Only a sale that has collected nothing
    /// can be removed.
    pub open spec fn remove_sale(self, invoked_by_self: bool, sale_id: u64) -> Result<
        ContractView,
        Error,
    > {
        if !invoked_by_self {
            Err(Error::NotOwner)
        } else {
            match self.sale(sale_id) {
                None => Err(Error::NoSale),
                Some(sale) => if sale.collected_amount != 0 {
                    Err(Error::SaleNotEmpty)
                } else {
                    Ok(ContractView { sales: self.sales.update(sale_id as int, None), ..self })
                },
            }
        }
    }

    /// What a new fee schedule does.
    pub open spec fn update_referral_fees(self, invoked_by_self: bool, referral_fees: Seq<u64>) -> Result<
        ContractView,
        Error,
    > {
        if !invoked_by_self {
            Err(Error::NotOwner)
        } else if referral_fees.len() != 3 {
            Err(Error::WrongLength)
        } else {
            Ok(ContractView { referral_fees, ..self })
        }
    }

    /// What a change to the sale `sale_id` does, where `changed` is the
    /// sale after the change or the reason against it.
    pub open spec fn update_sale(
        self,
        invoked_by_self: bool,
        sale_id: u64,
        changed: spec_fn(SaleView) -> Result<SaleView, Error>,
    ) -> Result<ContractView, Error> {
        if !invoked_by_self {
            Err(Error::NotOwner)
        } else {
            match self.sale(sale_id) {
                None => Err(Error::NoSale),
                Some(sale) => match changed(sale) {
                    Err(e) => Err(e),
                    Ok(after) => Ok(self.with_sale(sale_id, after)),
                },
            }
        }
    }
}

impl Sale {
    /// Sets the dates of the sale.
    pub fn set_dates(&mut self, start_date: u64, end_date: u64) -> (r: Result<(), Error>)
        ensures
            match r {
                Ok(_) => with_dates(old(self)@, start_date, end_date) == Ok::<SaleView, Error>(
                    final(self)@,
                ),
                Err(e) => with_dates(old(self)@, start_date, end_date) == Err::<SaleView, Error>(e)
                    && final(self)@ == old(self)@,
            },
    {
        match self.max_amount {
            None => Err(Error::NoMaxAmount),
            Some(max_amount) => {
                if self.collected_amount >= max_amount {
                    return Err(Error::SaleDone);
                }
                self.start_date = start_date;
                self.end_date = end_date;
                Ok(())
            },
        }
    }

    /// Sets the distribution token of the sale.
    pub fn set_distribute_token_id(&mut self, distribute_token_id: AccountId) -> (r: Result<
        (),
        Error,
    >)
        ensures
            match r {
                Ok(_) => with_distribute_token_id(old(self)@, distribute_token_id@) == Ok::<
                    SaleView,
                    Error,
                >(final(self)@),
                Err(e) => with_distribute_token_id(old(self)@, distribute_token_id@) == Err::<
                    SaleView,
                    Error,
                >(e) && final(self)@ == old(self)@,
            },
    {
        if self.distribute_token_id.is_some() {
            return Err(Error::AlreadySet);
        }
        self.distribute_token_id = Some(distribute_token_id);
        Ok(())
    }

    /// Sets the decimals of the distribution token of the sale.
    pub fn set_distribute_token_decimals(&mut self, distribute_token_decimals: u8) -> (r: Result<
        (),
        Error,
    >)
        ensures
            match r {
                Ok(_) => with_distribute_token_decimals(old(self)@, distribute_token_decimals)
                    == Ok::<SaleView, Error>(final(self)@),
                Err(e) => with_distribute_token_decimals(old(self)@, distribute_token_decimals)
                    == Err::<SaleView, Error>(e) && final(self)@ == old(self)@,
            },
    {
        if self.distribute_token_decimals.is_some() {
            return Err(Error::AlreadySet);
        }
        self.distribute_token_decimals = Some(distribute_token_decimals);
        Ok(())
    }

    /// Opens or closes claims.
    pub fn set_claim_available(&mut self, claim_available: bool) -> (r: Result<(), Error>)
        ensures
            match r {
                Ok(_) => with_claim_available(old(self)@, claim_available) == Ok::<SaleView, Error>(
                    final(self)@,
                ),
                Err(e) => with_claim_available(old(self)@, claim_available) == Err::<
                    SaleView,
                    Error,
                >(e) && final(self)@ == old(self)@,
            },
    {
        if self.distribute_token_id.is_none() {
            return Err(Error::NotEnoughData);
        }
        if self.distribute_token_decimals.is_none() {
            return Err(Error::NotEnoughData);
        }
        self.claim_available = claim_available;
        Ok(())
    }
}

/// Checks that a sale can be set up as `sale` describes it.
pub fn check_input(sale: &SaleInput) -> (r: Result<(), Error>)
    ensures
        match r {
            Ok(_) => input_rejection(*sale) is None,
            Err(e) => input_rejection(*sale) == Some(e),
        },
{
    match sale.sale_type {
        SaleType::ByAmount => {
            if sale.hard_max_amount_limit && sale.max_amount.is_none() {
                return Err(Error::MustHaveMaxAmount);
            }
        },
        SaleType::BySubscription => {
            if sale.distribute_supply_amount.is_none() {
                return Err(Error::MustHaveSupplyAmount);
            }
        },
    }
    Ok(())
}

impl Contract {
    /// Creates a sale as `sale` describes it and returns its identifier.
    /// Only the owner may create sales.
    pub fn create_sale(&mut self, predecessor_account_id: &AccountId, sale: SaleInput) -> (r: Result<
        u64,
        Error,
    >)
        ensures
            match r {
                Ok(sale_id) => old(self)@.create_sale(predecessor_account_id@, sale) == Ok::<
                    (ContractView, u64),
                    Error,
                >((final(self)@, sale_id)),
                Err(e) => {
                    &&& old(self)@.create_sale(predecessor_account_id@, sale) == Err::<
                        (ContractView, u64),
                        Error,
                    >(e)
                    &&& final(self)@ == old(self)@
                },
            },
            old(self)@.sound() ==> final(self)@.sound(),
    {
        if self.owner_id != *predecessor_account_id {
            return Err(Error::MustBeOwner);
        }
        match check_input(&sale) {
            Ok(_) => {},
            Err(e) => {
                return Err(e);
            },
        }
        let sale_id: u64 = self.sales.len() as u64;
        let stored = VSale::new(sale_id, sale);
        self.sales.push(Some(stored));
        assert(self@.sales =~= old(self)@.sales.push(Some(sale_of_input(sale))));
        Ok(sale_id)
    }

    /// Removes the sale `sale_id`, which must have collected nothing.
    pub fn remove_sale(
        &mut self,
        predecessor_account_id: &AccountId,
        current_account_id: &AccountId,
        sale_id: u64,
    ) -> (r: Result<(), Error>)
        ensures
            match r {
                Ok(_) => old(self)@.remove_sale(
                    predecessor_account_id@ == current_account_id@,
                    sale_id,
                ) == Ok::<ContractView, Error>(final(self)@),
                Err(e) => {
                    &&& old(self)@.remove_sale(
                        predecessor_account_id@ == current_account_id@,
                        sale_id,
                    ) == Err::<ContractView, Error>(e)
                    &&& final(self)@ == old(self)@
                },
            },
            old(self)@.sound() ==> final(self)@.sound(),
    {
        if *predecessor_account_id != *current_account_id {
            return Err(Error::NotOwner);
        }
        let sale = match self.take_sale(sale_id) {
            Some(sale) => sale,
            None => {
                return Err(Error::NoSale);
            },
        };
        if sale.collected_amount != 0 {
            self.put_sale(sale_id, sale);
            proof {
                old(self)@.lemma_put_back(sale_id);
            }
            return Err(Error::SaleNotEmpty);
        }
        Ok(())
    }

    /// Replaces the fee schedule, which has three entries.
    pub fn update_referral_fees(
        &mut self,
        predecessor_account_id: &AccountId,
        current_account_id: &AccountId,
        referral_fees: Vec<u64>,
    ) -> (r: Result<(), Error>)
        ensures
            match r {
                Ok(_) => old(self)@.update_referral_fees(
                    predecessor_account_id@ == current_account_id@,
                    referral_fees@,
                ) == Ok::<ContractView, Error>(final(self)@),
                Err(e) => {
                    &&& old(self)@.update_referral_fees(
                        predecessor_account_id@ == current_account_id@,
                        referral_fees@,
                    ) == Err::<ContractView, Error>(e)
                    &&& final(self)@ == old(self)@
                },
            },
            old(self)@.sound() ==> final(self)@.sound(),
    {
        if *predecessor_account_id != *current_account_id {
            return Err(Error::NotOwner);
        }
        if referral_fees.len() != 3 {
            return Err(Error::WrongLength);
        }
        self.referral_fees = referral_fees;
        Ok(())
    }

    /// Sets the dates of the sale `sale_id`.
    pub fn update_sale_dates(
        &mut self,
        predecessor_account_id: &AccountId,
        current_account_id: &AccountId,
        sale_id: u64,
        start_date: u64,
        end_date: u64,
    ) -> (r: Result<(), Error>)
        ensures
            match r {
                Ok(_) => old(self)@.update_sale(
                    predecessor_account_id@ == current_account_id@,
                    sale_id,
                    |s: SaleView| with_dates(s, start_date, end_date),
                ) == Ok::<ContractView, Error>(final(self)@),
                Err(e) => {
                    &&& old(self)@.update_sale(
                        predecessor_account_id@ == current_account_id@,
                        sale_id,
                        |s: SaleView| with_dates(s, start_date, end_date),
                    ) == Err::<ContractView, Error>(e)
                    &&& final(self)@ == old(self)@
                },
            },
            old(self)@.sound() ==> final(self)@.sound(),
    {
        if *predecessor_account_id != *current_account_id {
            return Err(Error::NotOwner);
        }
        let mut sale = match self.take_sale(sale_id) {
            Some(sale) => sale,
            None => {
                return Err(Error::NoSale);
            },
        };
        let r = sale.set_dates(start_date, end_date);
        self.put_sale(sale_id, sale);
        proof {
            old(self)@.lemma_put_instead(sale_id, sale@);
            if r.is_err() {
                old(self)@.lemma_put_back(sale_id);
            }
        }
        r
    }

    /// Sets the distribution token of the sale `sale_id`.
    pub fn update_sale_distribute_token_id(
        &mut self,
        predecessor_account_id: &AccountId,
        current_account_id: &AccountId,
        sale_id: u64,
        distribute_token_id: AccountId,
    ) -> (r: Result<(), Error>)
        ensures
            match r {
                Ok(_) => old(self)@.update_sale(
                    predecessor_account_id@ == current_account_id@,
                    sale_id,
                    |s: SaleView| with_distribute_token_id(s, distribute_token_id@),
                ) == Ok::<ContractView, Error>(final(self)@),
                Err(e) => {
                    &&& old(self)@.update_sale(
                        predecessor_account_id@ == current_account_id@,
                        sale_id,
                        |s: SaleView| with_distribute_token_id(s, distribute_token_id@),
                    ) == Err::<ContractView, Error>(e)
                    &&& final(self)@ == old(self)@
                },
            },
            old(self)@.sound() ==> final(self)@.sound(),
    {
        if *predecessor_account_id != *current_account_id {
            return Err(Error::NotOwner);
        }
        let mut sale = match self.take_sale(sale_id) {
            Some(sale) => sale,
            None => {
                return Err(Error::NoSale);
            },
        };
        let r = sale.set_distribute_token_id(distribute_token_id);
        self.put_sale(sale_id, sale);
        proof {
            old(self)@.lemma_put_instead(sale_id, sale@);
            if r.is_err() {
                old(self)@.lemma_put_back(sale_id);
            }
        }
        r
    }

    /// Sets the decimals of the distribution token of the sale `sale_id`.
    pub fn update_sale_distribute_token_decimals(
        &mut self,
        predecessor_account_id: &AccountId,
        current_account_id: &AccountId,
        sale_id: u64,
        distribute_token_decimals: u8,
    ) -> (r: Result<(), Error>)
        ensures
            match r {
                Ok(_) => old(self)@.update_sale(
                    predecessor_account_id@ == current_account_id@,
                    sale_id,
                    |s: SaleView| with_distribute_token_decimals(s, distribute_token_decimals),
                ) == Ok::<ContractView, Error>(final(self)@),
                Err(e) => {
                    &&& old(self)@.update_sale(
                        predecessor_account_id@ == current_account_id@,
                        sale_id,
                        |s: SaleView| with_distribute_token_decimals(s, distribute_token_decimals),
                    ) == Err::<ContractView, Error>(e)
                    &&& final(self)@ == old(self)@
                },
            },
            old(self)@.sound() ==> final(self)@.sound(),
    {
        if *predecessor_account_id != *current_account_id {
            return Err(Error::NotOwner);
        }
        let mut sale = match self.take_sale(sale_id) {
            Some(sale) => sale,
            None => {
                return Err(Error::NoSale);
            },
        };
        let r = sale.set_distribute_token_decimals(distribute_token_decimals);
        self.put_sale(sale_id, sale);
        proof {
            old(self)@.lemma_put_instead(sale_id, sale@);
            if r.is_err() {
                old(self)@.lemma_put_back(sale_id);
            }
        }
        r
    }

    /// Opens or closes the claims of the sale `sale_id`.
    pub fn update_sale_claim_available(
        &mut self,
        predecessor_account_id: &AccountId,
        current_account_id: &AccountId,
        sale_id: u64,
        claim_available: bool,
    ) -> (r: Result<(), Error>)
        ensures
            match r {
                Ok(_) => old(self)@.update_sale(
                    predecessor_account_id@ == current_account_id@,
                    sale_id,
                    |s: SaleView| with_claim_available(s, claim_available),
                ) == Ok::<ContractView, Error>(final(self)@),
                Err(e) => {
                    &&& old(self)@.update_sale(
                        predecessor_account_id@ == current_account_id@,
                        sale_id,
                        |s: SaleView| with_claim_available(s, claim_available),
                    ) == Err::<ContractView, Error>(e)
                    &&& final(self)@ == old(self)@
                },
            },
            old(self)@.sound() ==> final(self)@.sound(),
    {
        if *predecessor_account_id != *current_account_id {
            return Err(Error::NotOwner);
        }
        let mut sale = match self.take_sale(sale_id) {
            Some(sale) => sale,
            None => {
                return Err(Error::NoSale);
            },
        };
        let r = sale.set_claim_available(claim_available);
        self.put_sale(sale_id, sale);
        proof {
            old(self)@.lemma_put_instead(sale_id, sale@);
            if r.is_err() {
                old(self)@.lemma_put_back(sale_id);
            }
        }
        r
    }
}

} // verus!
