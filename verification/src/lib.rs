//! Settlement engine for token sales with a three-level referral program.
//!
//! The engine keeps the accounts of a referral program and any number of
//! sales. Accounts deposit into a sale; the sale takes what its rules and
//! its capacity allow and credits the depositor's referrers. When claims
//! are opened, a deposit is turned into distribution tokens, either one
//! for one at the sale's price or as a share of a fixed supply, and what
//! it did not buy is owed back.
//!
//! The engine does no input or output. Every entry point takes what its
//! caller knows (who calls, what was attached, what time it is, how an
//! external call ended) and returns what is to be done next: a question
//! for the balance oracle, a transfer to make, an amount to wrap. A call
//! that is refused returns an [`error::Error`] and leaves the state as it
//! was.
//!
//! The state is described by mathematical views ([`contract::ContractView`],
//! [`sale::SaleView`]); what each entry point does is a function on these
//! views, and the module [`laws`] proves what holds of them in general.

pub mod account;
pub mod admin;
pub mod claim;
pub mod contract;
pub mod deposit;
pub mod error;
pub mod ident;
pub mod laws;
pub mod links;
pub mod migration;
pub mod onboarding;
pub mod query;
pub mod referral;
pub mod sale;
pub mod settlement;
pub mod table;
pub mod wide;
pub mod withdrawal;

pub use account::{Account, AccountOld, AccountOutput, Affiliates, VAccount};
pub use contract::Contract;
pub use error::Error;
pub use ident::{AccountId, PublicKey};
pub use migration::OldContract;
pub use onboarding::{AccessKeyGrant, AccountCreation};
pub use sale::{
    AffiliateRewardAccount, Sale, SaleAccount, SaleAccountOld, SaleInput, SaleMetadata, SaleOld,
    SaleOutput, SaleType, VAffiliateRewardAccount, VSale, VSaleAccount,
};
pub use settlement::{
    DepositStep, NearDepositStep, NearSettlement, PromiseOutcome, SaleDeposit, StakeQuery,
};
pub use table::{Entry, Table};
pub use wide::U256;
pub use withdrawal::{TransferPurpose, TransferRequest};
