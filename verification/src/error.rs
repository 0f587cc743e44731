//! The ways in which a call is rejected.

use cosmwasm_std::{StdError, Uint128};
use vstd::prelude::*;

verus! {

#[verifier::external_type_specification]
#[verifier::external_body]
pub struct ExStdError(StdError);

/// The error that `Uint128::checked_sub` gives for a subtrahend that is
/// larger than the minuend, as a `StdError`.
pub uninterp spec fn sub_overflow(minuend: u128, subtrahend: u128) -> StdError;

/// The error that `Uint128::checked_add` gives for a sum beyond `u128`, as a
/// `StdError`.
pub uninterp spec fn add_overflow(left: u128, right: u128) -> StdError;

/// The error that `StdError::not_found` builds for a kind of record.
pub uninterp spec fn not_found(kind: Seq<char>) -> StdError;

/// The error that `StdError::generic_err` builds for a text.
pub uninterp spec fn generic_error(msg: Seq<char>) -> StdError;

/// `StdError::generic_err`: the error without a kind of its own, with the
/// given text. Not proved: that the error depends on the text alone is taken
/// from the source of `cosmwasm_std`.
#[verifier::external_body]
pub(crate) fn generic(msg: String) -> (res: StdError)
    ensures
        res == generic_error(msg@),
{
    StdError::generic_err(msg)
}

/// `Uint128::checked_sub`, with its error turned into a `StdError` by
/// `StdError::from`: the difference where the subtrahend is not larger than
/// the minuend, else the overflow error that names both operands. Not
/// proved: the contract is taken from the source of `cosmwasm_std`.
#[verifier::external_body]
pub(crate) fn checked_sub(minuend: u128, subtrahend: u128) -> (res: Result<u128, StdError>)
    ensures
        match res {
            Ok(difference) => minuend >= subtrahend && difference == minuend - subtrahend,
            Err(error) => minuend < subtrahend && error == sub_overflow(minuend, subtrahend),
        },
{
    Uint128::new(minuend).checked_sub(Uint128::new(subtrahend)).map(|v| v.u128()).map_err(
        StdError::from,
    )
}

/// `Uint128::checked_add`, with its error turned into a `StdError` by
/// `StdError::from`: the sum where it fits in `u128`, else the overflow error
/// that names both operands. Not proved: the contract is taken from the
/// source of `cosmwasm_std`.
#[verifier::external_body]
pub(crate) fn checked_add(left: u128, right: u128) -> (res: Result<u128, StdError>)
    ensures
        match res {
            Ok(sum) => left + right <= u128::MAX && sum == left + right,
            Err(error) => left + right > u128::MAX && error == add_overflow(left, right),
        },
{
    Uint128::new(left).checked_add(Uint128::new(right)).map(|v| v.u128()).map_err(StdError::from)
}

/// `StdError::not_found`: the error for a missing record of the given kind.
/// Not proved: that the error depends on the kind alone is taken from the
/// source of `cosmwasm_std`.
#[verifier::external_body]
pub(crate) fn missing(kind: &str) -> (res: StdError)
    ensures
        res == not_found(kind@),
{
    StdError::not_found(kind)
}

/// The text that `StdError` displays. Nothing is claimed of it.
#[verifier::external_body]
pub(crate) fn std_error_text(error: &StdError) -> (text: String) {
    format!("{}", error)
}

/// Why the ownership handshake rejected a call.
#[derive(Debug, PartialEq)]
pub enum OwnedError {
    /// Only the owner may call.
    OnlyOwner {},
    /// Only the proposed owner may accept.
    MustBeProposed {},
}

/// Why the aggregator rejected a call.
#[derive(Debug, PartialEq)]
pub enum ContractError {
    /// A record is missing or a balance would leave its range.
    Std(StdError),
    /// The ownership handshake rejected the call.
    Owned(OwnedError),
    /// Min cannot be greater than max
    MinGreaterThanMax {},
    /// Max cannot exceed total
    MaxGreaterThanTotal {},
    /// Min must be greater than 0
    MinLessThanZero {},
    /// No data present
    NoData {},
    /// Value under threshold
    UnderMin {},
    /// Value over threshold
    OverMax {},
    /// Only callable by owner
    NotOwner {},
    /// Only callable by admin
    NotAdmin {},
    /// Owner cannot overwrite admin
    OverwritingAdmin {},
    /// Only callable by pending admin
    NotPendingAdmin {},
    /// No pending admin
    PendingAdminMissing {},
    /// Need same oracle and admin count
    OracleAdminCountMismatch {},
    /// Cannot add more oracles
    MaxOraclesAllowed {},
    /// Oracle already enabled
    OracleAlreadyEnabled {},
    /// Oracle not enabled
    OracleNotEnabled {},
    /// Oracle not yet enabled
    OracleNotYetEnabled {},
    /// Oracle no longer allowed
    NoLongerAllowed {},
    /// Insufficient funds for payment
    InsufficientFunds {},
    /// Insufficient withdrawable funds
    InsufficientWithdrawableFunds {},
    /// Insufficient reserve funds
    InsufficientReserveFunds {},
    /// Delay cannot exceed total
    DelayGreaterThanTotal {},
    /// Delay restriction not respected
    DelayNotRespected {},
    /// Cannot report on previous rounds
    ReportingPreviousRound {},
    /// Previous round not supersedable
    NotSupersedable {},
    /// Invalid round to report
    InvalidRound {},
    /// Round not accepting submissions
    NotAcceptingSubmissions {},
    /// NoSubmissions
    NoSubmissions {},
    /// Receive does not expect payload
    UnexpectedReceivePayload {},
    /// Unauthorized requester
    Unauthorized {},
}

impl OwnedError {
    /// The text of each rejection.
    pub open spec fn message(self) -> Seq<char> {
        match self {
            OwnedError::OnlyOwner {  } => "Only callable by owner"@,
            OwnedError::MustBeProposed {  } => "Must be proposed"@,
        }
    }

    /// The text of this rejection.
    pub fn to_string(&self) -> (text: String)
        ensures
            text@ == self.message(),
    {
        match self {
            OwnedError::OnlyOwner {  } => "Only callable by owner".to_string(),
            OwnedError::MustBeProposed {  } => "Must be proposed".to_string(),
        }
    }
}

impl ContractError {
    /// The text of each rejection that the aggregator states itself.
    pub open spec fn message(self) -> Seq<char>
        recommends
            !(self is Std),
    {
        match self {
            ContractError::Std(_) => Seq::empty(),
            ContractError::Owned(e) => e.message(),
            ContractError::MinGreaterThanMax {  } => "Min cannot be greater than max"@,
            ContractError::MaxGreaterThanTotal {  } => "Max cannot exceed total"@,
            ContractError::MinLessThanZero {  } => "Min must be greater than 0"@,
            ContractError::NoData {  } => "No data present"@,
            ContractError::UnderMin {  } => "Value under threshold"@,
            ContractError::OverMax {  } => "Value over threshold"@,
            ContractError::NotOwner {  } => "Only callable by owner"@,
            ContractError::NotAdmin {  } => "Only callable by admin"@,
            ContractError::OverwritingAdmin {  } => "Owner cannot overwrite admin"@,
            ContractError::NotPendingAdmin {  } => "Only callable by pending admin"@,
            ContractError::PendingAdminMissing {  } => "No pending admin"@,
            ContractError::OracleAdminCountMismatch {  } => "Need same oracle and admin count"@,
            ContractError::MaxOraclesAllowed {  } => "Cannot add more oracles"@,
            ContractError::OracleAlreadyEnabled {  } => "Oracle already enabled"@,
            ContractError::OracleNotEnabled {  } => "Oracle not enabled"@,
            ContractError::OracleNotYetEnabled {  } => "Oracle not yet enabled"@,
            ContractError::NoLongerAllowed {  } => "Oracle no longer allowed"@,
            ContractError::InsufficientFunds {  } => "Insufficient funds for payment"@,
            ContractError::InsufficientWithdrawableFunds {  } => "Insufficient withdrawable funds"@,
            ContractError::InsufficientReserveFunds {  } => "Insufficient reserve funds"@,
            ContractError::DelayGreaterThanTotal {  } => "Delay cannot exceed total"@,
            ContractError::DelayNotRespected {  } => "Delay restriction not respected"@,
            ContractError::ReportingPreviousRound {  } => "Cannot report on previous rounds"@,
            ContractError::NotSupersedable {  } => "Previous round not supersedable"@,
            ContractError::InvalidRound {  } => "Invalid round to report"@,
            ContractError::NotAcceptingSubmissions {  } => "Round not accepting submissions"@,
            ContractError::NoSubmissions {  } => "NoSubmissions"@,
            ContractError::UnexpectedReceivePayload {  } => "Receive does not expect payload"@,
            ContractError::Unauthorized {  } => "Unauthorized requester"@,
        }
    }

    /// The text of this rejection. For a `Std` error it is the text that the
    /// error displays, of which nothing is stated.
    pub fn to_string(&self) -> (text: String)
        ensures
            !(self is Std) ==> text@ == self.message(),
    {
        match self {
            ContractError::Std(e) => std_error_text(e),
            ContractError::Owned(e) => e.to_string(),
            ContractError::MinGreaterThanMax {  } => "Min cannot be greater than max".to_string(),
            ContractError::MaxGreaterThanTotal {  } => "Max cannot exceed total".to_string(),
            ContractError::MinLessThanZero {  } => "Min must be greater than 0".to_string(),
            ContractError::NoData {  } => "No data present".to_string(),
            ContractError::UnderMin {  } => "Value under threshold".to_string(),
            ContractError::OverMax {  } => "Value over threshold".to_string(),
            ContractError::NotOwner {  } => "Only callable by owner".to_string(),
            ContractError::NotAdmin {  } => "Only callable by admin".to_string(),
            ContractError::OverwritingAdmin {  } => "Owner cannot overwrite admin".to_string(),
            ContractError::NotPendingAdmin {  } => "Only callable by pending admin".to_string(),
            ContractError::PendingAdminMissing {  } => "No pending admin".to_string(),
            ContractError::OracleAdminCountMismatch {  } => "Need same oracle and admin count".to_string(),
            ContractError::MaxOraclesAllowed {  } => "Cannot add more oracles".to_string(),
            ContractError::OracleAlreadyEnabled {  } => "Oracle already enabled".to_string(),
            ContractError::OracleNotEnabled {  } => "Oracle not enabled".to_string(),
            ContractError::OracleNotYetEnabled {  } => "Oracle not yet enabled".to_string(),
            ContractError::NoLongerAllowed {  } => "Oracle no longer allowed".to_string(),
            ContractError::InsufficientFunds {  } => "Insufficient funds for payment".to_string(),
            ContractError::InsufficientWithdrawableFunds {  } => "Insufficient withdrawable funds".to_string(),
            ContractError::InsufficientReserveFunds {  } => "Insufficient reserve funds".to_string(),
            ContractError::DelayGreaterThanTotal {  } => "Delay cannot exceed total".to_string(),
            ContractError::DelayNotRespected {  } => "Delay restriction not respected".to_string(),
            ContractError::ReportingPreviousRound {  } => "Cannot report on previous rounds".to_string(),
            ContractError::NotSupersedable {  } => "Previous round not supersedable".to_string(),
            ContractError::InvalidRound {  } => "Invalid round to report".to_string(),
            ContractError::NotAcceptingSubmissions {  } => "Round not accepting submissions".to_string(),
            ContractError::NoSubmissions {  } => "NoSubmissions".to_string(),
            ContractError::UnexpectedReceivePayload {  } => "Receive does not expect payload".to_string(),
            ContractError::Unauthorized {  } => "Unauthorized requester".to_string(),
        }
    }
}

} // verus!
