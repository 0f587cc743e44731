//! The errors of the oracle that serves single requests, as the standard
//! error of the platform.

use crate::error::{generic, generic_error};
use cosmwasm_std::StdError;
use vstd::prelude::*;

verus! {

/// Why the request oracle rejected a call.
#[derive(Debug, PartialEq)]
pub enum ContractErr {
    /// Only callable by owner
    NotOwner,
    /// The caller has no access.
    NoAccess,
    /// The callback would go to the token ledger.
    BadCallback,
    /// More was asked for than can be withdrawn.
    NotEnoughFunds,
    /// The id of the request is in use.
    NotUniqueId,
    /// The node may not fulfil requests.
    NotAuthorizedNode,
}

impl ContractErr {
    /// The text of each rejection.
    pub open spec fn message(self) -> Seq<char> {
        match self {
            ContractErr::NotOwner => "Only callable by owner"@,
            ContractErr::NoAccess => "No Access"@,
            ContractErr::BadCallback => "Cannot callback to LINK"@,
            ContractErr::NotEnoughFunds => "Amount requested is greater than withdrawable balance"@,
            ContractErr::NotUniqueId => "Must use a unique ID"@,
            ContractErr::NotAuthorizedNode => "Not an authorized node to fulfill requests"@,
        }
    }

    /// The text of this rejection.
    pub fn to_string(&self) -> (text: String)
        ensures
            text@ == self.message(),
    {
        match self {
            ContractErr::NotOwner => "Only callable by owner".to_string(),
            ContractErr::NoAccess => "No Access".to_string(),
            ContractErr::BadCallback => "Cannot callback to LINK".to_string(),
            ContractErr::NotEnoughFunds => "Amount requested is greater than withdrawable balance".to_string(),
            ContractErr::NotUniqueId => "Must use a unique ID".to_string(),
            ContractErr::NotAuthorizedNode => "Not an authorized node to fulfill requests".to_string(),
        }
    }

    /// This rejection as a standard error: the generic error with the text of
    /// the rejection.
    pub fn to_std(&self) -> (error: StdError)
        ensures
            error == generic_error(self.message()),
    {
        generic(self.to_string())
    }

    /// A failed result with this rejection as a standard error.
    pub fn std_err<T>(&self) -> (res: Result<T, StdError>)
        ensures
            res matches Err(error) && error == generic_error(self.message()),
    {
        Err(self.to_std())
    }
}

} // verus!
