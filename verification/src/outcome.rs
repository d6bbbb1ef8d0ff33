//! What the execution of a deploy transaction amounts to.

use crate::address::{contract_address_bound, ContractAddress};
use crate::engine::{TransactionExecutionInfo, TransactionExecutionInfoView};
use crate::error::FatalError;
use crate::felt::felt_values;
use vstd::prelude::*;

verus! {

/// What an execution amounts to.
#[derive(Debug, PartialEq, Eq)]
pub enum Classification {
    /// The contract was deployed at this address.
    Deployed(ContractAddress),
    /// The call was reverted for this reason, which is yet to be decoded.
    Reverted(String),
    /// The engine's record makes no sense.
    Failed(FatalError),
}

/// A [`Classification`] as numbers and text.
pub enum ClassificationView {
    Deployed(nat),
    Reverted(Seq<char>),
    Failed(FatalError),
}

impl View for Classification {
    type V = ClassificationView;

    open spec fn view(&self) -> ClassificationView {
        match *self {
            Classification::Deployed(address) => ClassificationView::Deployed(address@),
            Classification::Reverted(reason) => ClassificationView::Reverted(reason@),
            Classification::Failed(error) => ClassificationView::Failed(error),
        }
    }
}

/// What an execution amounts to. A call trace decides alone: the first felt that the call
/// returned is the address of the new contract, and a trace without one, or with one that is no
/// address, is a failure of the engine. Without a call trace the revert reason decides, and to
/// have neither is a failure of the engine too.
pub open spec fn classify(info: TransactionExecutionInfoView) -> ClassificationView {
    match info.retdata {
        Some(retdata) => {
            if retdata.len() == 0 {
                ClassificationView::Failed(FatalError::MissingReturnData)
            } else if retdata[0] < contract_address_bound() {
                ClassificationView::Deployed(retdata[0])
            } else {
                ClassificationView::Failed(FatalError::InvalidContractAddress)
            }
        },
        None => match info.revert_error {
            Some(reason) => ClassificationView::Reverted(reason),
            None => ClassificationView::Failed(FatalError::MissingRevertReason),
        },
    }
}

/// Resolves what the engine recorded of an execution into a deployed address, a revert reason or
/// a failure.
pub fn classify_execution(info: TransactionExecutionInfo) -> (classification: Classification)
    ensures
        classification@ == classify(info@),
{
    match info.execute_call_info {
        Some(call_info) => {
            if call_info.retdata.len() == 0 {
                Classification::Failed(FatalError::MissingReturnData)
            } else {
                assert(felt_values(call_info.retdata@)[0] == call_info.retdata@[0]@);
                match ContractAddress::try_from(call_info.retdata[0]) {
                    Ok(address) => Classification::Deployed(address),
                    Err(_) => Classification::Failed(FatalError::InvalidContractAddress),
                }
            }
        },
        None => match info.revert_error {
            Some(reason) => Classification::Reverted(reason),
            None => Classification::Failed(FatalError::MissingRevertReason),
        },
    }
}

} // verus!
