//! The state that a test keeps across its deployments.

use crate::address::{ClassHash, ContractAddress, ContractAddressSalt};
use crate::calldata::{execute_calldata, lemma_execute_calldata_injective};
use crate::deploy::{entry_point_name, Deployment, DeploymentView, StageView};
use crate::engine::{EngineRequest, EngineRequestView};
use crate::felt::{felt_values, Felt};
use vstd::prelude::*;

verus! {

/// The state of one test run: the account that deploys on the test's behalf, and the counter
/// from which deployment salts are taken.
#[derive(Debug, PartialEq, Eq)]
pub struct CheatnetState {
    account_address: ContractAddress,
    deploy_salt_base: u128,
}

impl CheatnetState {
    /// The salt that the next deployment will use.
    pub closed spec fn salt(&self) -> nat {
        self.deploy_salt_base as nat
    }

    /// The address of the account that deploys.
    pub closed spec fn account(&self) -> nat {
        self.account_address@
    }

    /// A fresh state, in which `account_address` deploys and no salt has been used.
    pub fn new(account_address: ContractAddress) -> (state: CheatnetState)
        ensures
            state.salt() == 0,
            state.account() == account_address@,
    {
        CheatnetState { account_address, deploy_salt_base: 0 }
    }

    /// The address of the account that deploys.
    pub fn account_address(&self) -> (address: ContractAddress)
        ensures
            address@ == self.account(),
    {
        self.account_address
    }

    /// The counter behind the salts.
    pub fn deploy_salt_base(&self) -> (base: u128)
        ensures
            base == self.salt(),
    {
        self.deploy_salt_base
    }

    /// The salt that the next deployment will use. Asking does not use it up.
    pub fn get_salt(&self) -> (salt: ContractAddressSalt)
        ensures
            salt@ == self.salt(),
    {
        ContractAddressSalt(Felt::from_u128(self.deploy_salt_base))
    }

    /// Uses up the current salt: the next one is larger by one.
    pub fn increment_deploy_salt_base(&mut self)
        requires
            old(self).salt() < u128::MAX,
        ensures
            final(self).salt() == old(self).salt() + 1,
            final(self).account() == old(self).account(),
    {
        self.deploy_salt_base = self.deploy_salt_base + 1;
    }

    /// Begins the deployment of `class_hash` with the constructor arguments `calldata`.
    ///
    /// The deployment takes the current salt, and the salt is used up whatever becomes of the
    /// deployment. Nothing has been asked of the engine yet: the request that comes back is the
    /// first to carry out, and [`Deployment::step`] takes the engine's reply to it.
    pub fn deploy(&mut self, class_hash: &ClassHash, calldata: &[Felt]) -> (started: (
        Deployment,
        EngineRequest,
    ))
        requires
            old(self).salt() < u128::MAX,
        ensures
            final(self).salt() == old(self).salt() + 1,
            final(self).account() == old(self).account(),
            started.0@ == (DeploymentView {
                account_address: old(self).account(),
                class_hash: class_hash@,
                constructor_calldata: felt_values(calldata@),
                salt: old(self).salt(),
                stage: StageView::ResolvingSelector,
            }),
            started.1@ == EngineRequestView::SelectorFromName(entry_point_name()),
    {
        let salt = self.get_salt();
        self.increment_deploy_salt_base();
        Deployment::start(self.account_address, *class_hash, calldata, salt)
    }
}

/// Whether `history` holds the states of one test run in order: each state but the first is
/// what a deployment, or an increment of the salt base, left of the state before it.
pub open spec fn is_history(history: Seq<CheatnetState>) -> bool {
    forall|i: int|
        0 <= i < history.len() - 1 ==> (#[trigger] history[i + 1]).salt() == history[i].salt() + 1
}

/// Salts strictly increase over a test run: a deployment that begins at a later state of the
/// run takes a larger salt than one that begins at an earlier state, so no salt is used twice.
pub proof fn lemma_salts_strictly_increase(history: Seq<CheatnetState>, earlier: int, later: int)
    requires
        is_history(history),
        0 <= earlier < later < history.len(),
    ensures
        history[earlier].salt() < history[later].salt(),
    decreases later - earlier,
{
    if earlier + 1 < later {
        lemma_salts_strictly_increase(history, earlier, later - 1);
    }
    assert(history[later - 1 + 1].salt() == history[later - 1].salt() + 1);
}

/// No two deployments of one test run hand the same calldata to the account, whatever they
/// deploy: their salts differ, and the calldata holds the salt.
pub proof fn lemma_deployments_differ(
    history: Seq<CheatnetState>,
    earlier: int,
    later: int,
    constructor_calldata: Seq<nat>,
    class_hash: nat,
    entry_point_selector: nat,
    later_constructor_calldata: Seq<nat>,
    later_class_hash: nat,
    later_entry_point_selector: nat,
)
    requires
        is_history(history),
        0 <= earlier < later < history.len(),
    ensures
        execute_calldata(
            constructor_calldata,
            class_hash,
            history[earlier].account(),
            entry_point_selector,
            history[earlier].salt(),
        ) != execute_calldata(
            later_constructor_calldata,
            later_class_hash,
            history[later].account(),
            later_entry_point_selector,
            history[later].salt(),
        ),
{
    lemma_salts_strictly_increase(history, earlier, later);
    if execute_calldata(
        constructor_calldata,
        class_hash,
        history[earlier].account(),
        entry_point_selector,
        history[earlier].salt(),
    ) == execute_calldata(
        later_constructor_calldata,
        later_class_hash,
        history[later].account(),
        later_entry_point_selector,
        history[later].salt(),
    ) {
        lemma_execute_calldata_injective(
            constructor_calldata,
            class_hash,
            history[earlier].account(),
            entry_point_selector,
            history[earlier].salt(),
            later_constructor_calldata,
            later_class_hash,
            history[later].account(),
            later_entry_point_selector,
            history[later].salt(),
        );
    }
}

} // verus!
