//! How a deployment can fail.

use crate::felt::{felt_values, Felt};
use vstd::prelude::*;

verus! {

/// A failure of the harness or of the ledger engine, as opposed to a rejection by a contract.
/// A test cannot go on after one of these.
#[derive(Clone, Copy, Debug, PartialEq, Eq)]
pub enum FatalError {
    /// The class to deploy was never declared.
    ClassNotDeclared,
    /// The nonce of the deployer account could not be read.
    NonceUnavailable,
    /// The engine refused the transaction before running it.
    TransactionRejected,
    /// The deploy call was run, but returned nothing.
    MissingReturnData,
    /// What the deploy call returned first is no contract address.
    InvalidContractAddress,
    /// The execution left neither a call trace nor a revert reason.
    MissingRevertReason,
    /// The revert reason holds no panic data that could be decoded.
    UndecodableRevertReason,
    /// The engine's reply does not answer the request that was made.
    UnexpectedReply,
}

/// Why a cheatcode did not do what it was asked to.
#[derive(Debug, PartialEq, Eq)]
pub enum CheatcodeError {
    /// A contract rejected the operation; the panic data says why.
    Recoverable(Vec<Felt>),
    /// The harness or the engine failed.
    Unrecoverable(FatalError),
}

/// A [`CheatcodeError`] with its panic data as numbers.
pub enum CheatcodeErrorView {
    Recoverable(Seq<nat>),
    Unrecoverable(FatalError),
}

impl View for CheatcodeError {
    type V = CheatcodeErrorView;

    open spec fn view(&self) -> CheatcodeErrorView {
        match *self {
            CheatcodeError::Recoverable(panic_data) => CheatcodeErrorView::Recoverable(
                felt_values(panic_data@),
            ),
            CheatcodeError::Unrecoverable(error) => CheatcodeErrorView::Unrecoverable(error),
        }
    }
}

} // verus!
