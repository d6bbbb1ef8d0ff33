use cheatnet::address::{
    ClassHash, ContractAddress, ContractAddressSalt, EntryPointSelector, Nonce,
};
use cheatnet::engine::{EngineReply, EngineRequest};
use cheatnet::felt::Felt;
use cheatnet::state::CheatnetState;

fn fresh_state() -> CheatnetState {
    CheatnetState::new(ContractAddress::try_from(Felt::from_u128(0x101)).unwrap())
}

fn resolved_selector() -> EngineReply {
    EngineReply::Selector(EntryPointSelector(Felt::from_u128(222)))
}

fn salt_in_transaction(state: &mut CheatnetState) -> Felt {
    let (deployment, _) = state.deploy(&ClassHash(Felt::from_u128(123)), &[]);
    let (deployment, _) = deployment.step(resolved_selector());
    let (deployment, _) =
        deployment.step(EngineReply::CompiledClass { constructor_selector: None });
    let (_, request) = deployment.step(EngineReply::Nonce(Nonce(Felt::from_u128(0))));
    match request {
        EngineRequest::Execute { transaction, .. } => transaction.calldata[4],
        other => panic!("no transaction: {:?}", other),
    }
}

#[test]
fn fresh_state_starts_at_salt_zero() {
    let state = fresh_state();
    assert_eq!(state.get_salt(), ContractAddressSalt(Felt::from_u128(0)));
    assert_eq!(state.deploy_salt_base(), 0);
    assert_eq!(state.account_address().key(), Felt::from_u128(0x101));
}

#[test]
fn get_salt_does_not_advance() {
    let state = fresh_state();
    assert_eq!(state.get_salt(), state.get_salt());
    assert_eq!(state.deploy_salt_base(), 0);
}

#[test]
fn increment_advances_by_one() {
    let mut state = fresh_state();
    state.increment_deploy_salt_base();
    assert_eq!(state.get_salt(), ContractAddressSalt(Felt::from_u128(1)));
    state.increment_deploy_salt_base();
    state.increment_deploy_salt_base();
    assert_eq!(state.get_salt(), ContractAddressSalt(Felt::from_u128(3)));
    assert_eq!(state.account_address().key(), Felt::from_u128(0x101));
}

#[test]
fn salts_strictly_increase() {
    let mut state = fresh_state();
    let mut salts = Vec::new();
    for _ in 0..20 {
        salts.push(state.deploy_salt_base());
        state.deploy(&ClassHash(Felt::from_u128(123)), &[Felt::from_u128(1)]);
    }
    for pair in salts.windows(2) {
        assert!(pair[0] < pair[1]);
        assert_eq!(pair[0] + 1, pair[1]);
    }
}

#[test]
fn deployment_takes_the_salt_before_it_advances() {
    let mut state = fresh_state();
    state.increment_deploy_salt_base();
    state.increment_deploy_salt_base();
    assert_eq!(salt_in_transaction(&mut state), Felt::from_u128(2));
    assert_eq!(state.get_salt(), ContractAddressSalt(Felt::from_u128(3)));
}

#[test]
fn successive_deployments_use_distinct_salts() {
    let mut state = fresh_state();
    let first = salt_in_transaction(&mut state);
    let second = salt_in_transaction(&mut state);
    let third = salt_in_transaction(&mut state);
    assert_eq!(first, Felt::from_u128(0));
    assert_eq!(second, Felt::from_u128(1));
    assert_eq!(third, Felt::from_u128(2));
}

#[test]
fn failed_deployment_uses_up_its_salt() {
    let mut state = fresh_state();
    let (deployment, _) = state.deploy(&ClassHash(Felt::from_u128(123)), &[]);
    let (deployment, _) = deployment.step(resolved_selector());
    let (deployment, request) = deployment.step(EngineReply::ClassNotDeclared);
    assert!(matches!(request, EngineRequest::Finish(Err(_))));
    assert!(deployment.is_finished());
    assert_eq!(state.get_salt(), ContractAddressSalt(Felt::from_u128(1)));
    assert_eq!(salt_in_transaction(&mut state), Felt::from_u128(1));
}
