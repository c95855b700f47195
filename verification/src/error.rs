//! The errors with which a command or a reply is turned down.

use vstd::prelude::*;
use vstd::string::StringExecFns;

verus! {

/// Why a command, a query or a reply was rejected.
#[derive(Debug, PartialEq, Eq)]
pub enum ContractError {
    /// A failure reported by the host or by a queried component, with its text.
    Std { msg: String },
    /// The manager was initialised before.
    AlreadyInitialized {},
    /// No stock is registered under this id.
    NotFound { id: u32 },
    /// The switch `enabled` is off.
    Disabled {},
    /// The reply carries an id that is not expected in the current phase.
    InvalidTokenReplyId {},
    /// The caller is neither the owner nor a registered component.
    Unauthorized {},
    /// A transfer of zero tokens was announced.
    InvalidInput {},
    /// The announcing token is neither STKN nor PUSD.
    UnacceptableToken {},
    /// A swap would pay out more STKN than the manager holds.
    InsufficientStkn {},
    /// A transfer asks for more STKN than the manager holds.
    NotEnoughStkn {},
    /// The stocks could not be enumerated.
    Map2ListFailed {},
    /// The stored contract name is that of another contract.
    CannotMigrate { previous_contract: String },
}

impl ContractError {
    /// The text of the error, as a sequence of characters.
    pub open spec fn text(&self) -> Seq<char> {
        match self {
            ContractError::Std { msg } => msg@,
            ContractError::AlreadyInitialized {  } => "AlreadyInitialized"@,
            ContractError::NotFound { id } => "Stock not found"@,
            ContractError::Disabled {  } => "Disabled"@,
            ContractError::InvalidTokenReplyId {  } => "InvalidTokenReplyId"@,
            ContractError::Unauthorized {  } => "Unauthorized"@,
            ContractError::InvalidInput {  } => "InvalidInput"@,
            ContractError::UnacceptableToken {  } => "Not STKN or PUSD"@,
            ContractError::InsufficientStkn {  } => "InsufficientStkn"@,
            ContractError::NotEnoughStkn {  } => "Not enough STKN"@,
            ContractError::Map2ListFailed {  } => "Map2List failed"@,
            ContractError::CannotMigrate { previous_contract } => {
                "Cannot migrate from different contract type: "@ + previous_contract@
            },
        }
    }

    /// The text of the error.
    pub fn message(&self) -> (r: String)
        ensures
            r@ == self.text(),
    {
        match self {
            ContractError::Std { msg } => msg.clone(),
            ContractError::AlreadyInitialized {  } => "AlreadyInitialized".to_owned(),
            ContractError::NotFound { id } => "Stock not found".to_owned(),
            ContractError::Disabled {  } => "Disabled".to_owned(),
            ContractError::InvalidTokenReplyId {  } => "InvalidTokenReplyId".to_owned(),
            ContractError::Unauthorized {  } => "Unauthorized".to_owned(),
            ContractError::InvalidInput {  } => "InvalidInput".to_owned(),
            ContractError::UnacceptableToken {  } => "Not STKN or PUSD".to_owned(),
            ContractError::InsufficientStkn {  } => "InsufficientStkn".to_owned(),
            ContractError::NotEnoughStkn {  } => "Not enough STKN".to_owned(),
            ContractError::Map2ListFailed {  } => "Map2List failed".to_owned(),
            ContractError::CannotMigrate { previous_contract } => {
                "Cannot migrate from different contract type: ".to_owned().concat(
                    previous_contract.as_str(),
                )
            },
        }
    }
}

} // verus!
