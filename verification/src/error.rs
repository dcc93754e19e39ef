//! The named failures with which the engine rejects a call.

use vstd::prelude::*;

verus! {

/// Why a call was rejected. A rejected call leaves the state as it was.
#[derive(Clone, Copy, Debug, PartialEq, Eq, Structural)]
pub enum Error {
    /// The caller has no account.
    NoAccount,
    /// The access key is already linked.
    DuplicateKey,
    /// The access key is not linked.
    NoLink,
    /// The link belongs to another account.
    NotLinkOwner,
    /// The referrer resolved to the joining account itself.
    SelfReferrer,
    /// The joining account exists already.
    AccountExists,
    /// The attached amount is not the required fee.
    Fee,
    /// The account asked for does not exist.
    AccountDoesntExist,
    /// The access key asked for is not linked.
    NoKey,
    /// The sale does not exist.
    NoSale,
    /// The payment is not in the sale's deposit token.
    WrongToken,
    /// The payment exceeds the limit per transaction.
    LimitPerTx,
    /// The depositor's stake is below the sale's minimum.
    NotEnoughStaked,
    /// A hard capacity is set without a maximum amount.
    MustHaveMaxAmount,
    /// The account's total would leave the allowed range.
    WrongAmount,
    /// A subscription sale has no supply amount.
    MustHaveSupplyAmount,
    /// The distribution token's decimals are not configured.
    NoTokenDecimals,
    /// The account has no record in the sale.
    NoData,
    /// Claims are not open.
    ClaimNotAvailable,
    /// The sale has no price.
    NoSalePrice,
    /// The distribution token is not configured.
    NoTokenId,
    /// The account has deposited nothing.
    NoAllocation,
    /// The claim was settled before.
    AlreadyClaimed,
    /// The refund was settled before.
    AlreadyRefunded,
    /// The claim amounts to nothing.
    NothingToClaim,
    /// No refund is owed.
    NothingToRefund,
    /// The purchase must be claimed before its refund.
    MustClaimBeforeRefund,
    /// Only the owner may do this.
    MustBeOwner,
    /// The sale has collected deposits.
    SaleNotEmpty,
    /// The fee schedule must have three entries.
    WrongLength,
    /// The sale has no maximum amount.
    NoMaxAmount,
    /// The sale is over, by capacity or by date.
    SaleDone,
    /// The value was configured before.
    AlreadySet,
    /// The sale lacks data that this setting depends on.
    NotEnoughData,
    /// The continuation was not invoked by the engine itself.
    NotOwner,
    /// The depositor has no account.
    NotRegisteredAccount,
    /// The deposit message could not be read.
    MsgWrongFormat,
    /// The sale has not started.
    SaleNotStarted,
    /// The sale requires a staking contract and the message names none.
    MustHaveStakingContract,
    /// The named staking contract is not accepted by the sale.
    NotWhitelistedStakingContract,
    /// A continuation did not find exactly one external result.
    ExpectedOneResult,
    /// The external call whose answer a continuation needs has failed.
    CallbackFailed,
    /// The attached amount is not what the call costs.
    WrongDeposit,
    /// An amount left the range of 128-bit integers.
    Overflow,
    /// A ratio has a zero denominator.
    DivisionByZero,
}

impl Error {
    /// The text under which the failure is reported.
    pub open spec fn text(self) -> Seq<char> {
        match self {
            Error::NoAccount => "ERR_NO_ACCOUNT"@,
            Error::DuplicateKey => "ERR_DUPLICATE_KEY"@,
            Error::NoLink => "ERR_NO_LINK"@,
            Error::NotLinkOwner => "ERR_NOT_LINK_OWNER"@,
            Error::SelfReferrer => "SELF_REFERRER"@,
            Error::AccountExists => "ERR_ACCOUNT_EXISTS"@,
            Error::Fee => "ERR_FEE"@,
            Error::AccountDoesntExist => "ERR_ACCOUNT_DOESNT_EXIST"@,
            Error::NoKey => "ERR_NO_KEY"@,
            Error::NoSale => "ERR_NO_SALE"@,
            Error::WrongToken => "ERR_WRONG_TOKEN"@,
            Error::LimitPerTx => "ERR_LIMIT_PER_TX"@,
            Error::NotEnoughStaked => "ERR_NOT_ENOUGH_STAKED"@,
            Error::MustHaveMaxAmount => "ERR_MUST_HAVE_MAX_AMOUNT"@,
            Error::WrongAmount => "ERR_WRONG_AMOUNT"@,
            Error::MustHaveSupplyAmount => "ERR_MUST_HAVE_SUPPLY_AMOUNT"@,
            Error::NoTokenDecimals => "ERR_NO_TOKEN_DECIMALS"@,
            Error::NoData => "ERR_NO_DATA"@,
            Error::ClaimNotAvailable => "ERR_CLAIM_NOT_AVAILABLE"@,
            Error::NoSalePrice => "ERR_NO_SALE_PRICE"@,
            Error::NoTokenId => "ERR_NO_TOKEN_ID"@,
            Error::NoAllocation => "ERR_NO_ALLOCATION"@,
            Error::AlreadyClaimed => "ERR_ALREADY_CLAIMED"@,
            Error::AlreadyRefunded => "ERR_ALREADY_REFUNDED"@,
            Error::NothingToClaim => "ERR_NOTHING_TO_CLAIM"@,
            Error::NothingToRefund => "ERR_NOTHING_TO_REFUND"@,
            Error::MustClaimBeforeRefund => "ERR_MUST_CLAIM_BEFORE_REFUND"@,
            Error::MustBeOwner => "ERR_MUST_BE_OWNER"@,
            Error::SaleNotEmpty => "SALE_NOT_EMPTY"@,
            Error::WrongLength => "WRONG_LENGTH"@,
            Error::NoMaxAmount => "ERR_NO_MAX_AMOUNT"@,
            Error::SaleDone => "ERR_SALE_DONE"@,
            Error::AlreadySet => "ERR_ALREADY_SET"@,
            Error::NotEnoughData => "ERR_NOT_ENOUGH_DATA"@,
            Error::NotOwner => "ERR_NOT_OWNER"@,
            Error::NotRegisteredAccount => "ERR_NOT_REGISTERED_ACCOUNT"@,
            Error::MsgWrongFormat => "ERR_MSG_WRONG_FORMAT"@,
            Error::SaleNotStarted => "ERR_SALE_NOT_STARTED"@,
            Error::MustHaveStakingContract => "ERR_MUST_HAVE_STAKING_CONTRACT"@,
            Error::NotWhitelistedStakingContract => "ERR_NOT_WHITELISTED_STAKING_CONTRACT"@,
            Error::ExpectedOneResult => "Contract expected a result on the callback"@,
            Error::CallbackFailed => "Callback computation 0 was not successful"@,
            Error::WrongDeposit => "ERR_WRONG_DEPOSIT"@,
            Error::Overflow => "arithmetic operation overflow"@,
            Error::DivisionByZero => "division by zero"@,
        }
    }

    /// The text under which the failure is reported.
    pub fn message(&self) -> (r: &'static str)
        ensures
            r@ == self.text(),
    {
        match self {
            Error::NoAccount => "ERR_NO_ACCOUNT",
            Error::DuplicateKey => "ERR_DUPLICATE_KEY",
            Error::NoLink => "ERR_NO_LINK",
            Error::NotLinkOwner => "ERR_NOT_LINK_OWNER",
            Error::SelfReferrer => "SELF_REFERRER",
            Error::AccountExists => "ERR_ACCOUNT_EXISTS",
            Error::Fee => "ERR_FEE",
            Error::AccountDoesntExist => "ERR_ACCOUNT_DOESNT_EXIST",
            Error::NoKey => "ERR_NO_KEY",
            Error::NoSale => "ERR_NO_SALE",
            Error::WrongToken => "ERR_WRONG_TOKEN",
            Error::LimitPerTx => "ERR_LIMIT_PER_TX",
            Error::NotEnoughStaked => "ERR_NOT_ENOUGH_STAKED",
            Error::MustHaveMaxAmount => "ERR_MUST_HAVE_MAX_AMOUNT",
            Error::WrongAmount => "ERR_WRONG_AMOUNT",
            Error::MustHaveSupplyAmount => "ERR_MUST_HAVE_SUPPLY_AMOUNT",
            Error::NoTokenDecimals => "ERR_NO_TOKEN_DECIMALS",
            Error::NoData => "ERR_NO_DATA",
            Error::ClaimNotAvailable => "ERR_CLAIM_NOT_AVAILABLE",
            Error::NoSalePrice => "ERR_NO_SALE_PRICE",
            Error::NoTokenId => "ERR_NO_TOKEN_ID",
            Error::NoAllocation => "ERR_NO_ALLOCATION",
            Error::AlreadyClaimed => "ERR_ALREADY_CLAIMED",
            Error::AlreadyRefunded => "ERR_ALREADY_REFUNDED",
            Error::NothingToClaim => "ERR_NOTHING_TO_CLAIM",
            Error::NothingToRefund => "ERR_NOTHING_TO_REFUND",
            Error::MustClaimBeforeRefund => "ERR_MUST_CLAIM_BEFORE_REFUND",
            Error::MustBeOwner => "ERR_MUST_BE_OWNER",
            Error::SaleNotEmpty => "SALE_NOT_EMPTY",
            Error::WrongLength => "WRONG_LENGTH",
            Error::NoMaxAmount => "ERR_NO_MAX_AMOUNT",
            Error::SaleDone => "ERR_SALE_DONE",
            Error::AlreadySet => "ERR_ALREADY_SET",
            Error::NotEnoughData => "ERR_NOT_ENOUGH_DATA",
            Error::NotOwner => "ERR_NOT_OWNER",
            Error::NotRegisteredAccount => "ERR_NOT_REGISTERED_ACCOUNT",
            Error::MsgWrongFormat => "ERR_MSG_WRONG_FORMAT",
            Error::SaleNotStarted => "ERR_SALE_NOT_STARTED",
            Error::MustHaveStakingContract => "ERR_MUST_HAVE_STAKING_CONTRACT",
            Error::NotWhitelistedStakingContract => "ERR_NOT_WHITELISTED_STAKING_CONTRACT",
            Error::ExpectedOneResult => "Contract expected a result on the callback",
            Error::CallbackFailed => "Callback computation 0 was not successful",
            Error::WrongDeposit => "ERR_WRONG_DEPOSIT",
            Error::Overflow => "arithmetic operation overflow",
            Error::DivisionByZero => "division by zero",
        }
    }
}

} // verus!
