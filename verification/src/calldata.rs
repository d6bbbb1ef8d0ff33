//! The calldata that makes the test account forward one `deploy_contract` call.

use crate::address::{ClassHash, ContractAddress, ContractAddressSalt, EntryPointSelector};
use crate::felt::{felt_values, lemma_felt_values_injective, Felt};
use vstd::prelude::*;

verus! {

/// What the account's dispatcher receives for one forwarded deploy call: the contract to call
/// and the selector of its entry point, the number of arguments of the forwarded call, and those
/// arguments, which are the class hash, the salt, the number of constructor arguments and the
/// constructor arguments themselves.
///
/// The two counts are not the same thing. The first is what the dispatcher forwards, three fixed
/// fields and the constructor arguments; the second is what the deploy call hands on to the
/// constructor.
pub open spec fn execute_calldata(
    constructor_calldata: Seq<nat>,
    class_hash: nat,
    account_address: nat,
    entry_point_selector: nat,
    salt: nat,
) -> Seq<nat> {
    seq![
        account_address,
        entry_point_selector,
        constructor_calldata.len() + 3,
        class_hash,
        salt,
        constructor_calldata.len(),
    ] + constructor_calldata
}

/// The layout loses nothing: calldata that agree were laid out from the same constructor
/// arguments, class, account, selector and salt.
pub proof fn lemma_execute_calldata_injective(
    constructor_calldata: Seq<nat>,
    class_hash: nat,
    account_address: nat,
    entry_point_selector: nat,
    salt: nat,
    other_constructor_calldata: Seq<nat>,
    other_class_hash: nat,
    other_account_address: nat,
    other_entry_point_selector: nat,
    other_salt: nat,
)
    requires
        execute_calldata(
            constructor_calldata,
            class_hash,
            account_address,
            entry_point_selector,
            salt,
        ) == execute_calldata(
            other_constructor_calldata,
            other_class_hash,
            other_account_address,
            other_entry_point_selector,
            other_salt,
        ),
    ensures
        constructor_calldata == other_constructor_calldata,
        class_hash == other_class_hash,
        account_address == other_account_address,
        entry_point_selector == other_entry_point_selector,
        salt == other_salt,
{
    let laid_out = execute_calldata(
        constructor_calldata,
        class_hash,
        account_address,
        entry_point_selector,
        salt,
    );
    let other_laid_out = execute_calldata(
        other_constructor_calldata,
        other_class_hash,
        other_account_address,
        other_entry_point_selector,
        other_salt,
    );
    assert(laid_out[0] == account_address && other_laid_out[0] == other_account_address);
    assert(laid_out[1] == entry_point_selector && other_laid_out[1]
        == other_entry_point_selector);
    assert(laid_out[3] == class_hash && other_laid_out[3] == other_class_hash);
    assert(laid_out[4] == salt && other_laid_out[4] == other_salt);
    assert(laid_out.len() == constructor_calldata.len() + 6);
    assert(other_laid_out.len() == other_constructor_calldata.len() + 6);
    assert forall|i: int| 0 <= i < constructor_calldata.len() implies constructor_calldata[i]
        == other_constructor_calldata[i] by {
        assert(laid_out[i + 6] == constructor_calldata[i]);
        assert(other_laid_out[i + 6] == other_constructor_calldata[i]);
    }
    assert(constructor_calldata =~= other_constructor_calldata);
}

/// Laying out is a function of its inputs, down to the bytes: whatever is laid out from
/// constructor arguments, class, account, selector and salt of the same values is the same
/// sequence of felts.
pub proof fn lemma_execute_calldata_deterministic(
    laid_out: Seq<Felt>,
    laid_out_again: Seq<Felt>,
    constructor_calldata: Seq<nat>,
    class_hash: nat,
    account_address: nat,
    entry_point_selector: nat,
    salt: nat,
)
    requires
        felt_values(laid_out) == execute_calldata(
            constructor_calldata,
            class_hash,
            account_address,
            entry_point_selector,
            salt,
        ),
        felt_values(laid_out_again) == execute_calldata(
            constructor_calldata,
            class_hash,
            account_address,
            entry_point_selector,
            salt,
        ),
    ensures
        laid_out == laid_out_again,
{
    lemma_felt_values_injective(laid_out, laid_out_again);
}

/// Lays out the calldata of the account's dispatcher for deploying `class_hash` with the
/// constructor arguments `calldata`.
pub fn create_execute_calldata(
    calldata: &[Felt],
    class_hash: &ClassHash,
    account_address: &ContractAddress,
    entry_point_selector: &EntryPointSelector,
    salt: &ContractAddressSalt,
) -> (laid_out: Vec<Felt>)
    ensures
        felt_values(laid_out@) == execute_calldata(
            felt_values(calldata@),
            class_hash@,
            account_address@,
            entry_point_selector@,
            salt@,
        ),
{
    let calldata_len: u128 = calldata.len() as u128;
    let mut laid_out: Vec<Felt> = Vec::new();
    laid_out.push(account_address.key());
    laid_out.push(entry_point_selector.0);
    laid_out.push(Felt::from_u128(calldata_len + 3));
    laid_out.push(class_hash.0);
    laid_out.push(salt.0);
    laid_out.push(Felt::from_u128(calldata_len));
    let ghost header = laid_out@;
    let mut i: usize = 0;
    while i < calldata.len()
        invariant
            i <= calldata.len(),
            laid_out@ == header + calldata@.subrange(0, i as int),
        decreases calldata.len() - i,
    {
        laid_out.push(calldata[i]);
        i += 1;
    }
    assert(calldata@.subrange(0, i as int) == calldata@);
    assert(felt_values(laid_out@) == felt_values(header) + felt_values(calldata@));
    laid_out
}

} // verus!
