//! One deployment, from the first request to the ledger engine to its outcome.
//!
//! A deployment never touches the engine. It says what to ask of the engine next, and takes the
//! reply; whoever holds the engine carries the requests out. A run goes through the stages in
//! order and ends with [`EngineRequest::Finish`].

use crate::address::{
    contract_address_bound, ClassHash, ContractAddress, ContractAddressSalt, EntryPointSelector,
    TransactionHash,
};
use crate::calldata::{create_execute_calldata, execute_calldata};
use crate::engine::{
    outcome_view, EngineReply, EngineReplyView, EngineRequest, EngineRequestView,
    InvokeTransaction, InvokeTransactionView, TransactionExecutionInfoView,
};
use crate::error::{CheatcodeError, CheatcodeErrorView, FatalError};
use crate::felt::{be_value, felt_from_short_string, felt_values, short_string_value, Felt};
use crate::outcome::{classify, classify_execution, Classification, ClassificationView};
use vstd::prelude::*;
use vstd::string::{is_ascii, is_ascii_spec_bytes, StringSliceAdditionalSpecFns};

verus! {

/// The entry point of the account through which classes are deployed.
pub const DEPLOY_ENTRY_POINT: &'static str = "deploy_contract";

/// What a deployment with constructor arguments reports for a class without a constructor.
pub const NO_CONSTRUCTOR_MESSAGE: &'static str = "No constructor in contract";

/// The name of the entry point of the account through which classes are deployed.
pub open spec fn entry_point_name() -> Seq<char> {
    DEPLOY_ENTRY_POINT@
}

/// The panic data of a deployment with constructor arguments of a class without a constructor:
/// one felt, the message as a short string.
pub open spec fn no_constructor_panic_data() -> Seq<nat> {
    seq![short_string_value(NO_CONSTRUCTOR_MESSAGE)]
}

/// How far a deployment has come.
#[derive(Clone, Copy, Debug, PartialEq, Eq)]
pub enum Stage {
    /// The selector of the account's deploy entry point has been asked for.
    ResolvingSelector,
    /// The class has been asked for.
    LoadingClass { entry_point_selector: EntryPointSelector },
    /// The nonce of the account has been asked for.
    ReadingNonce { entry_point_selector: EntryPointSelector },
    /// The transaction has been handed over for execution.
    Executing,
    /// The revert reason has been handed over for decoding.
    DecodingRevert,
    /// The deployment has ended.
    Finished,
}

/// A [`Stage`] as numbers.
pub enum StageView {
    ResolvingSelector,
    LoadingClass { entry_point_selector: nat },
    ReadingNonce { entry_point_selector: nat },
    Executing,
    DecodingRevert,
    Finished,
}

impl View for Stage {
    type V = StageView;

    open spec fn view(&self) -> StageView {
        match *self {
            Stage::ResolvingSelector => StageView::ResolvingSelector,
            Stage::LoadingClass { entry_point_selector } => StageView::LoadingClass {
                entry_point_selector: entry_point_selector@,
            },
            Stage::ReadingNonce { entry_point_selector } => StageView::ReadingNonce {
                entry_point_selector: entry_point_selector@,
            },
            Stage::Executing => StageView::Executing,
            Stage::DecodingRevert => StageView::DecodingRevert,
            Stage::Finished => StageView::Finished,
        }
    }
}

impl StageView {
    /// How many stages lie before this one.
    pub open spec fn rank(self) -> nat {
        match self {
            StageView::ResolvingSelector => 0,
            StageView::LoadingClass { .. } => 1,
            StageView::ReadingNonce { .. } => 2,
            StageView::Executing => 3,
            StageView::DecodingRevert => 4,
            StageView::Finished => 5,
        }
    }
}

/// A deployment under way: what is being deployed, by whom and with which salt, and how far it
/// has come.
#[derive(Debug, PartialEq, Eq)]
pub struct Deployment {
    account_address: ContractAddress,
    class_hash: ClassHash,
    constructor_calldata: Vec<Felt>,
    salt: ContractAddressSalt,
    stage: Stage,
}

/// A [`Deployment`] as numbers.
pub struct DeploymentView {
    pub account_address: nat,
    pub class_hash: nat,
    pub constructor_calldata: Seq<nat>,
    pub salt: nat,
    pub stage: StageView,
}

impl View for Deployment {
    type V = DeploymentView;

    closed spec fn view(&self) -> DeploymentView {
        DeploymentView {
            account_address: self.account_address@,
            class_hash: self.class_hash@,
            constructor_calldata: felt_values(self.constructor_calldata@),
            salt: self.salt@,
            stage: self.stage@,
        }
    }
}

impl DeploymentView {
    /// The same deployment at another stage.
    pub open spec fn at(self, stage: StageView) -> DeploymentView {
        DeploymentView { stage, ..self }
    }

    /// The end of the deployment, with the given outcome.
    pub open spec fn finish(self, outcome: Result<nat, CheatcodeErrorView>) -> (
        DeploymentView,
        EngineRequestView,
    ) {
        (self.at(StageView::Finished), EngineRequestView::Finish(outcome))
    }

    /// The end of the deployment in a failure of the harness or the engine.
    pub open spec fn fail(self, error: FatalError) -> (DeploymentView, EngineRequestView) {
        self.finish(Err(CheatcodeErrorView::Unrecoverable(error)))
    }

    /// The transaction by which the account deploys: sent by the account to itself, at the
    /// account's current nonce, with the calldata of one forwarded deploy call and a zero in
    /// place of the hash.
    pub open spec fn transaction(self, entry_point_selector: nat, nonce: nat)
        -> InvokeTransactionView {
        InvokeTransactionView {
            sender_address: self.account_address,
            calldata: execute_calldata(
                self.constructor_calldata,
                self.class_hash,
                self.account_address,
                entry_point_selector,
                self.salt,
            ),
            nonce,
            tx_hash: 0,
        }
    }

    /// The stage that follows on `reply`, and what to ask next.
    ///
    /// The selector of the deploy entry point comes first, then the class. A class without a
    /// constructor takes no constructor arguments: such a deployment ends here, rejected, and is
    /// never executed. Otherwise the account's nonce is read and the transaction is executed,
    /// charging no fee and validating no signature. A deployed address ends the deployment well;
    /// a revert reason is decoded first and ends it rejected, with the panic data. A reply that
    /// reports a failure, or that does not answer the request of the stage, ends the deployment
    /// in a failure.
    pub open spec fn step(self, reply: EngineReplyView) -> (DeploymentView, EngineRequestView) {
        match (self.stage, reply) {
            (StageView::ResolvingSelector, EngineReplyView::Selector(entry_point_selector)) => (
                self.at(StageView::LoadingClass { entry_point_selector }),
                EngineRequestView::GetCompiledClass(self.class_hash),
            ),
            (
                StageView::LoadingClass { entry_point_selector },
                EngineReplyView::CompiledClass { constructor_selector },
            ) => {
                if constructor_selector is None && self.constructor_calldata.len() > 0 {
                    self.finish(Err(CheatcodeErrorView::Recoverable(no_constructor_panic_data())))
                } else {
                    (
                        self.at(StageView::ReadingNonce { entry_point_selector }),
                        EngineRequestView::GetNonce(self.account_address),
                    )
                }
            },
            (StageView::LoadingClass { .. }, EngineReplyView::ClassNotDeclared) => self.fail(
                FatalError::ClassNotDeclared,
            ),
            (StageView::ReadingNonce { entry_point_selector }, EngineReplyView::Nonce(nonce)) => (
                self.at(StageView::Executing),
                EngineRequestView::Execute {
                    transaction: self.transaction(entry_point_selector, nonce),
                    charge_fee: false,
                    validate: false,
                },
            ),
            (StageView::ReadingNonce { .. }, EngineReplyView::NonceUnavailable) => self.fail(
                FatalError::NonceUnavailable,
            ),
            (StageView::Executing, EngineReplyView::Executed(info)) => match classify(info) {
                ClassificationView::Deployed(address) => self.finish(Ok(address)),
                ClassificationView::Reverted(reason) => (
                    self.at(StageView::DecodingRevert),
                    EngineRequestView::ExtractPanicData(reason),
                ),
                ClassificationView::Failed(error) => self.fail(error),
            },
            (StageView::Executing, EngineReplyView::TransactionRejected) => self.fail(
                FatalError::TransactionRejected,
            ),
            (StageView::DecodingRevert, EngineReplyView::PanicData(panic_data)) => self.finish(
                Err(CheatcodeErrorView::Recoverable(panic_data)),
            ),
            (StageView::DecodingRevert, EngineReplyView::UndecodablePanicData) => self.fail(
                FatalError::UndecodableRevertReason,
            ),
            _ => self.fail(FatalError::UnexpectedReply),
        }
    }
}

impl Deployment {
    /// A deployment at its beginning, and its first request.
    pub(crate) fn start(
        account_address: ContractAddress,
        class_hash: ClassHash,
        calldata: &[Felt],
        salt: ContractAddressSalt,
    ) -> (started: (Deployment, EngineRequest))
        ensures
            started.0@ == (DeploymentView {
                account_address: account_address@,
                class_hash: class_hash@,
                constructor_calldata: felt_values(calldata@),
                salt: salt@,
                stage: StageView::ResolvingSelector,
            }),
            started.1@ == EngineRequestView::SelectorFromName(entry_point_name()),
    {
        let mut constructor_calldata: Vec<Felt> = Vec::new();
        let mut i: usize = 0;
        while i < calldata.len()
            invariant
                i <= calldata.len(),
                constructor_calldata@ == calldata@.subrange(0, i as int),
            decreases calldata.len() - i,
        {
            constructor_calldata.push(calldata[i]);
            i += 1;
        }
        assert(constructor_calldata@ == calldata@);
        let deployment = Deployment {
            account_address,
            class_hash,
            constructor_calldata,
            salt,
            stage: Stage::ResolvingSelector,
        };
        (deployment, EngineRequest::SelectorFromName(DEPLOY_ENTRY_POINT.to_owned()))
    }

    /// Whether the deployment has ended.
    pub fn is_finished(&self) -> (finished: bool)
        ensures
            finished == (self@.stage is Finished),
    {
        match self.stage {
            Stage::Finished => true,
            _ => false,
        }
    }

    fn at(self, stage: Stage) -> (moved: Deployment)
        ensures
            moved@ == self@.at(stage@),
    {
        Deployment {
            account_address: self.account_address,
            class_hash: self.class_hash,
            constructor_calldata: self.constructor_calldata,
            salt: self.salt,
            stage,
        }
    }

    fn finish(self, outcome: Result<ContractAddress, CheatcodeError>) -> (ended: (
        Deployment,
        EngineRequest,
    ))
        ensures
            (ended.0@, ended.1@) == self@.finish(outcome_view(outcome)),
    {
        (self.at(Stage::Finished), EngineRequest::Finish(outcome))
    }

    fn fail(self, error: FatalError) -> (ended: (Deployment, EngineRequest))
        ensures
            (ended.0@, ended.1@) == self@.fail(error),
    {
        self.finish(Err(CheatcodeError::Unrecoverable(error)))
    }

    /// Takes the reply to the request that is under way, and says what to ask next.
    pub fn step(self, reply: EngineReply) -> (next: (Deployment, EngineRequest))
        ensures
            (next.0@, next.1@) == self@.step(reply@),
    {
        match self.stage {
            Stage::ResolvingSelector => match reply {
                EngineReply::Selector(entry_point_selector) => {
                    let class_hash = self.class_hash;
                    (
                        self.at(Stage::LoadingClass { entry_point_selector }),
                        EngineRequest::GetCompiledClass(class_hash),
                    )
                },
                _ => self.fail(FatalError::UnexpectedReply),
            },
            Stage::LoadingClass { entry_point_selector } => match reply {
                EngineReply::CompiledClass { constructor_selector } => {
                    if constructor_selector.is_none() && self.constructor_calldata.len() > 0 {
                        let panic_data = vec![felt_from_short_string(NO_CONSTRUCTOR_MESSAGE)];
                        assert(felt_values(panic_data@) == no_constructor_panic_data());
                        self.finish(Err(CheatcodeError::Recoverable(panic_data)))
                    } else {
                        let account_address = self.account_address;
                        (
                            self.at(Stage::ReadingNonce { entry_point_selector }),
                            EngineRequest::GetNonce(account_address),
                        )
                    }
                },
                EngineReply::ClassNotDeclared => self.fail(FatalError::ClassNotDeclared),
                _ => self.fail(FatalError::UnexpectedReply),
            },
            Stage::ReadingNonce { entry_point_selector } => match reply {
                EngineReply::Nonce(nonce) => {
                    let calldata = create_execute_calldata(
                        self.constructor_calldata.as_slice(),
                        &self.class_hash,
                        &self.account_address,
                        &entry_point_selector,
                        &self.salt,
                    );
                    let transaction = InvokeTransaction {
                        sender_address: self.account_address,
                        calldata,
                        nonce,
                        tx_hash: TransactionHash(Felt::from_u128(0)),
                    };
                    (
                        self.at(Stage::Executing),
                        EngineRequest::Execute { transaction, charge_fee: false, validate: false },
                    )
                },
                EngineReply::NonceUnavailable => self.fail(FatalError::NonceUnavailable),
                _ => self.fail(FatalError::UnexpectedReply),
            },
            Stage::Executing => match reply {
                EngineReply::Executed(info) => match classify_execution(info) {
                    Classification::Deployed(address) => self.finish(Ok(address)),
                    Classification::Reverted(reason) => (
                        self.at(Stage::DecodingRevert),
                        EngineRequest::ExtractPanicData(reason),
                    ),
                    Classification::Failed(error) => self.fail(error),
                },
                EngineReply::TransactionRejected => self.fail(FatalError::TransactionRejected),
                _ => self.fail(FatalError::UnexpectedReply),
            },
            Stage::DecodingRevert => match reply {
                EngineReply::PanicData(panic_data) => self.finish(
                    Err(CheatcodeError::Recoverable(panic_data)),
                ),
                EngineReply::UndecodablePanicData => self.fail(
                    FatalError::UndecodableRevertReason,
                ),
                _ => self.fail(FatalError::UnexpectedReply),
            },
            Stage::Finished => self.fail(FatalError::UnexpectedReply),
        }
    }
}

/// The number that the message about a missing constructor stands for as a short string: its
/// twenty-six characters, one byte each.
pub proof fn lemma_no_constructor_message_value()
    ensures
        short_string_value(NO_CONSTRUCTOR_MESSAGE)
            == 0x4e6f20636f6e7374727563746f7220696e20636f6e7472616374nat,
{
    reveal_strlit("No constructor in contract");
    let text = NO_CONSTRUCTOR_MESSAGE;
    assert(is_ascii(text));
    is_ascii_spec_bytes(text);
    let bytes = text.spec_bytes();
    assert(bytes.len() == 26);
    reveal_with_fuel(be_value, 27);
    assert(be_value(bytes) == 0x4e6f20636f6e7374727563746f7220696e20636f6e7472616374nat);
}

/// A deployment never goes back. Every reply takes it to a later stage, it ends exactly when
/// the request is [`EngineRequest::Finish`], and a deployment that has ended stays so. What is
/// deployed, by whom and with which salt does not change on the way.
pub proof fn lemma_step_advances(deployment: DeploymentView, reply: EngineReplyView)
    ensures
        ({
            let (next, request) = deployment.step(reply);
            &&& next == deployment.at(next.stage)
            &&& request is Finish <==> next.stage is Finished
            &&& deployment.stage is Finished || deployment.stage.rank() < next.stage.rank()
        }),
{
}

/// Where the outcomes come from. A deployment succeeds only on the record of an execution that
/// amounts to a deployed address, and then with that address. It is rejected only by the guard
/// on the constructor, with the message about the missing constructor, or on the panic data
/// that was decoded out of a revert reason, with that panic data.
pub proof fn lemma_step_outcomes(deployment: DeploymentView, reply: EngineReplyView)
    ensures
        ({
            let request = deployment.step(reply).1;
            &&& forall|address: nat|
                request == EngineRequestView::Finish(Ok(address)) <==> {
                    &&& deployment.stage is Executing
                    &&& reply matches EngineReplyView::Executed(info)
                    &&& classify(info) == ClassificationView::Deployed(address)
                }
            &&& forall|panic_data: Seq<nat>|
                request == EngineRequestView::Finish(
                    Err(CheatcodeErrorView::Recoverable(panic_data)),
                ) <==> {
                    ||| {
                        &&& deployment.stage is LoadingClass
                        &&& reply == (EngineReplyView::CompiledClass { constructor_selector: None })
                        &&& deployment.constructor_calldata.len() > 0
                        &&& panic_data == no_constructor_panic_data()
                    }
                    ||| {
                        &&& deployment.stage is DecodingRevert
                        &&& reply == EngineReplyView::PanicData(panic_data)
                    }
                }
        }),
{
}

/// A class without a constructor takes no constructor arguments. Whatever the selector of the
/// deploy entry point is, a deployment with arguments ends on learning that the class has no
/// constructor: it is rejected with the message about the missing constructor as its only panic
/// data, and after the class nothing was asked of the engine.
pub proof fn lemma_no_constructor_guard(deployment: DeploymentView, entry_point_selector: nat)
    requires
        deployment.stage is ResolvingSelector,
        deployment.constructor_calldata.len() > 0,
    ensures
        ({
            let (loading, first) = deployment.step(EngineReplyView::Selector(entry_point_selector));
            let (ended, last) = loading.step(
                EngineReplyView::CompiledClass { constructor_selector: None },
            );
            &&& first == EngineRequestView::GetCompiledClass(deployment.class_hash)
            &&& last == EngineRequestView::Finish(
                Err(CheatcodeErrorView::Recoverable(no_constructor_panic_data())),
            )
            &&& ended.stage is Finished
        }),
{
}

/// The requests of a deployment that is not stopped by the guard on the constructor, up to the
/// execution: the class, the nonce of the account, and the transaction, which is laid out from
/// the deployment's own class, account and salt, is sent at the nonce that was read, and is
/// executed without charging a fee or validating a signature.
pub proof fn lemma_requests_until_execution(
    deployment: DeploymentView,
    entry_point_selector: nat,
    constructor_selector: Option<nat>,
    nonce: nat,
)
    requires
        deployment.stage is ResolvingSelector,
        constructor_selector is Some || deployment.constructor_calldata.len() == 0,
    ensures
        ({
            let (loading, first) = deployment.step(EngineReplyView::Selector(entry_point_selector));
            let (reading, second) = loading.step(
                EngineReplyView::CompiledClass { constructor_selector },
            );
            let (executing, third) = reading.step(EngineReplyView::Nonce(nonce));
            &&& first == EngineRequestView::GetCompiledClass(deployment.class_hash)
            &&& second == EngineRequestView::GetNonce(deployment.account_address)
            &&& third == (EngineRequestView::Execute {
                transaction: deployment.transaction(entry_point_selector, nonce),
                charge_fee: false,
                validate: false,
            })
            &&& executing == deployment.at(StageView::Executing)
        }),
{
}

/// A deployment whose transaction ran to its end is a success exactly when the call returned
/// something and the first felt of it is an address; that address is then the outcome.
pub proof fn lemma_success_path(
    deployment: DeploymentView,
    retdata: Seq<nat>,
    revert_error: Option<Seq<char>>,
)
    requires
        deployment.stage is Executing,
    ensures
        ({
            let info = TransactionExecutionInfoView { retdata: Some(retdata), revert_error };
            let (ended, last) = deployment.step(EngineReplyView::Executed(info));
            &&& ended.stage is Finished
            &&& last is Finish
            &&& last->Finish_0 is Ok <==> {
                &&& retdata.len() > 0
                &&& retdata[0] < contract_address_bound()
            }
            &&& last->Finish_0 matches Ok(address) ==> address == retdata[0]
        }),
{
}

/// A deployment whose transaction was reverted is rejected with the panic data that the revert
/// reason holds: the reason is handed over for decoding as it came, and what the decoder makes
/// of it is the outcome.
pub proof fn lemma_revert_path(
    deployment: DeploymentView,
    revert_error: Seq<char>,
    panic_data: Seq<nat>,
)
    requires
        deployment.stage is Executing,
    ensures
        ({
            let info = TransactionExecutionInfoView {
                retdata: None,
                revert_error: Some(revert_error),
            };
            let (decoding, first) = deployment.step(EngineReplyView::Executed(info));
            let (ended, last) = decoding.step(EngineReplyView::PanicData(panic_data));
            &&& first == EngineRequestView::ExtractPanicData(revert_error)
            &&& last == EngineRequestView::Finish(Err(CheatcodeErrorView::Recoverable(panic_data)))
            &&& ended.stage is Finished
        }),
{
}

} // verus!
