//! What passes between a deployment and whoever holds the ledger engine.

use crate::address::{ClassHash, ContractAddress, EntryPointSelector, Nonce, TransactionHash};
use crate::error::{CheatcodeError, CheatcodeErrorView};
use crate::felt::{felt_values, Felt};
use vstd::prelude::*;

verus! {

/// What the engine recorded of the call that a transaction made.
#[derive(Debug, PartialEq, Eq)]
pub struct CallInfo {
    pub retdata: Vec<Felt>,
}

/// What the engine recorded of the execution of a transaction.
#[derive(Debug, PartialEq, Eq)]
pub struct TransactionExecutionInfo {
    /// The trace of the call, where the call was run to its end.
    pub execute_call_info: Option<CallInfo>,
    /// The reason of the revert, where the call was reverted.
    pub revert_error: Option<String>,
}

/// A [`TransactionExecutionInfo`] as numbers and text.
pub struct TransactionExecutionInfoView {
    pub retdata: Option<Seq<nat>>,
    pub revert_error: Option<Seq<char>>,
}

impl View for TransactionExecutionInfo {
    type V = TransactionExecutionInfoView;

    open spec fn view(&self) -> TransactionExecutionInfoView {
        TransactionExecutionInfoView {
            retdata: match self.execute_call_info {
                Some(call_info) => Some(felt_values(call_info.retdata@)),
                None => None,
            },
            revert_error: match self.revert_error {
                Some(reason) => Some(reason@),
                None => None,
            },
        }
    }
}

/// The invoke transaction by which the account deploys.
#[derive(Debug, PartialEq, Eq)]
pub struct InvokeTransaction {
    pub sender_address: ContractAddress,
    pub calldata: Vec<Felt>,
    pub nonce: Nonce,
    pub tx_hash: TransactionHash,
}

/// An [`InvokeTransaction`] as numbers.
pub struct InvokeTransactionView {
    pub sender_address: nat,
    pub calldata: Seq<nat>,
    pub nonce: nat,
    pub tx_hash: nat,
}

impl View for InvokeTransaction {
    type V = InvokeTransactionView;

    open spec fn view(&self) -> InvokeTransactionView {
        InvokeTransactionView {
            sender_address: self.sender_address@,
            calldata: felt_values(self.calldata@),
            nonce: self.nonce@,
            tx_hash: self.tx_hash@,
        }
    }
}

/// What a deployment asks of whoever holds the ledger engine.
#[derive(Debug, PartialEq, Eq)]
pub enum EngineRequest {
    /// Resolve the name of an entry point to its selector.
    SelectorFromName(String),
    /// Look up the compiled class of a class hash.
    GetCompiledClass(ClassHash),
    /// Read the current nonce of an account.
    GetNonce(ContractAddress),
    /// Execute a transaction, with or without charging the fee and validating the signature.
    Execute { transaction: InvokeTransaction, charge_fee: bool, validate: bool },
    /// Decode the panic data out of a revert reason.
    ExtractPanicData(String),
    /// Nothing more: the deployment has ended, with this outcome.
    Finish(Result<ContractAddress, CheatcodeError>),
}

/// An [`EngineRequest`] as numbers and text.
pub enum EngineRequestView {
    SelectorFromName(Seq<char>),
    GetCompiledClass(nat),
    GetNonce(nat),
    Execute { transaction: InvokeTransactionView, charge_fee: bool, validate: bool },
    ExtractPanicData(Seq<char>),
    Finish(Result<nat, CheatcodeErrorView>),
}

/// The outcome of a deployment as numbers.
pub open spec fn outcome_view(outcome: Result<ContractAddress, CheatcodeError>) -> Result<
    nat,
    CheatcodeErrorView,
> {
    match outcome {
        Ok(address) => Ok(address@),
        Err(error) => Err(error@),
    }
}

impl View for EngineRequest {
    type V = EngineRequestView;

    open spec fn view(&self) -> EngineRequestView {
        match *self {
            EngineRequest::SelectorFromName(name) => EngineRequestView::SelectorFromName(name@),
            EngineRequest::GetCompiledClass(class_hash) => EngineRequestView::GetCompiledClass(
                class_hash@,
            ),
            EngineRequest::GetNonce(address) => EngineRequestView::GetNonce(address@),
            EngineRequest::Execute { transaction, charge_fee, validate } => {
                EngineRequestView::Execute { transaction: transaction@, charge_fee, validate }
            },
            EngineRequest::ExtractPanicData(reason) => EngineRequestView::ExtractPanicData(
                reason@,
            ),
            EngineRequest::Finish(outcome) => EngineRequestView::Finish(outcome_view(outcome)),
        }
    }
}

/// What the engine, or the decoder of panic data, answered to a request.
#[derive(Debug, PartialEq, Eq)]
pub enum EngineReply {
    /// The selector of the entry point that was named.
    Selector(EntryPointSelector),
    /// The class is declared; this is the selector of its constructor, if it has one.
    CompiledClass { constructor_selector: Option<EntryPointSelector> },
    /// The class is not declared.
    ClassNotDeclared,
    /// The nonce of the account.
    Nonce(Nonce),
    /// The nonce could not be read.
    NonceUnavailable,
    /// The transaction was executed, to its end or to a revert.
    Executed(TransactionExecutionInfo),
    /// The engine refused the transaction.
    TransactionRejected,
    /// The panic data that the revert reason holds.
    PanicData(Vec<Felt>),
    /// The revert reason holds no panic data that could be decoded.
    UndecodablePanicData,
}

/// An [`EngineReply`] as numbers and text.
pub enum EngineReplyView {
    Selector(nat),
    CompiledClass { constructor_selector: Option<nat> },
    ClassNotDeclared,
    Nonce(nat),
    NonceUnavailable,
    Executed(TransactionExecutionInfoView),
    TransactionRejected,
    PanicData(Seq<nat>),
    UndecodablePanicData,
}

impl View for EngineReply {
    type V = EngineReplyView;

    open spec fn view(&self) -> EngineReplyView {
        match *self {
            EngineReply::Selector(selector) => EngineReplyView::Selector(selector@),
            EngineReply::CompiledClass { constructor_selector } => EngineReplyView::CompiledClass {
                constructor_selector: match constructor_selector {
                    Some(selector) => Some(selector@),
                    None => None,
                },
            },
            EngineReply::ClassNotDeclared => EngineReplyView::ClassNotDeclared,
            EngineReply::Nonce(nonce) => EngineReplyView::Nonce(nonce@),
            EngineReply::NonceUnavailable => EngineReplyView::NonceUnavailable,
            EngineReply::Executed(info) => EngineReplyView::Executed(info@),
            EngineReply::TransactionRejected => EngineReplyView::TransactionRejected,
            EngineReply::PanicData(panic_data) => EngineReplyView::PanicData(
                felt_values(panic_data@),
            ),
            EngineReply::UndecodablePanicData => EngineReplyView::UndecodablePanicData,
        }
    }
}

} // verus!
