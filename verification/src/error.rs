//! What a request can fail with.

use crate::types::{Coin, Timestamp};
use vstd::prelude::*;

verus! {

/// The arithmetic operation that left the range of its type.
#[derive(Clone, Copy, Debug, PartialEq, Eq, Structural)]
pub enum OverflowOperation {
    Add,
    Sub,
    Mul,
}

/// A failure below the controller's own rules.
#[derive(Debug, PartialEq, Eq)]
pub enum StdFailure {
    /// A value was asked for something it does not have.
    GenericErr { msg: &'static str },
    /// A stored item is absent.
    NotFound { kind: &'static str },
    /// An arithmetic operation left the range of its type.
    Overflow { operation: OverflowOperation, operand1: u128, operand2: u128 },
    /// The words with which the host's query to the factory failed.
    Host(String),
}

/// Why the funds sent with a request are not acceptable.
#[derive(Debug, PartialEq, Eq)]
pub enum PaymentError {
    MissingDenom(String),
    ExtraDenom(String),
    MultipleDenoms,
    NoFunds,
    NonPayable,
}

/// Every way in which a request to the controller fails.
#[allow(inconsistent_fields)]
#[derive(Debug, PartialEq)]
pub enum ContractError {
    Std(StdFailure),
    Payment(PaymentError),
    /// A locator in the metadata is not a well-formed URL.
    Parse(url::ParseError),
    /// The sender lacks the role that the request needs.
    Unauthorized(&'static str),
    UpdateStatus,
    /// A reply carries another token than the one sent with the creation request.
    InvalidReplyID,
    /// The funds sent (first) are not the price (second).
    IncorrectPaymentAmount(Coin, Coin),
    MintingHasNotYetEnded,
    MaxPerAddressLimitExceeded,
    InvalidStartTime(Timestamp, Timestamp),
    InvalidEndTime(Timestamp, Timestamp),
    InvalidStartTradingTime(Timestamp, Timestamp),
    AlreadyStarted,
    BeforeMintStartTime,
    AfterMintEndTime,
    InvalidBaseTokenURI,
    /// The reply to the creation request names no collection.
    InstantiateSg721Error,
    InvalidPerAddressLimit { max: u32, min: u32, got: u32 },
    UpdatedMintPriceTooHigh { allowed: u128, updated: u128 },
    InsufficientMintPrice { expected: u128, got: u128 },
    /// The configured price is not an amount of one denomination.
    IncorrectFungibility,
}

} // verus!
