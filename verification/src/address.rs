//! Identifiers built on field elements.

use crate::felt::{Felt, OutOfRange};
use starknet_api::hash::StarkFelt;
use vstd::prelude::*;

verus! {

/// Exclusive upper bound of contract addresses: `2^251`.
pub open spec fn contract_address_bound() -> nat {
    0x800000000000000000000000000000000000000000000000000000000000000nat
}

/// The hash that identifies a declared contract class.
#[derive(Clone, Copy, Debug, PartialEq, Eq, Hash)]
pub struct ClassHash(pub Felt);

/// The selector of an entry point.
#[derive(Clone, Copy, Debug, PartialEq, Eq, Hash)]
pub struct EntryPointSelector(pub Felt);

/// The salt that tells apart deployments of one class by one deployer.
#[derive(Clone, Copy, Debug, PartialEq, Eq, Hash)]
pub struct ContractAddressSalt(pub Felt);

/// The nonce of an account.
#[derive(Clone, Copy, Debug, PartialEq, Eq, Hash)]
pub struct Nonce(pub Felt);

/// The hash of a transaction.
#[derive(Clone, Copy, Debug, PartialEq, Eq, Hash)]
pub struct TransactionHash(pub Felt);

/// The address of a contract: a felt below `2^251`.
#[derive(Clone, Copy, Debug, PartialEq, Eq, Hash)]
pub struct ContractAddress {
    key: Felt,
}

impl View for ClassHash {
    type V = nat;

    open spec fn view(&self) -> nat {
        self.0@
    }
}

impl View for EntryPointSelector {
    type V = nat;

    open spec fn view(&self) -> nat {
        self.0@
    }
}

impl View for ContractAddressSalt {
    type V = nat;

    open spec fn view(&self) -> nat {
        self.0@
    }
}

impl View for Nonce {
    type V = nat;

    open spec fn view(&self) -> nat {
        self.0@
    }
}

impl View for TransactionHash {
    type V = nat;

    open spec fn view(&self) -> nat {
        self.0@
    }
}

impl View for ContractAddress {
    type V = nat;

    closed spec fn view(&self) -> nat {
        self.key@
    }
}

impl ContractAddress {
    #[verifier::type_invariant]
    spec fn in_domain(self) -> bool {
        self.key@ < contract_address_bound()
    }

    /// The address that `felt` denotes, unless `felt` is `2^251` or more.
    pub fn try_from(felt: Felt) -> (made: Result<ContractAddress, OutOfRange>)
        ensures
            made is Ok <==> felt@ < contract_address_bound(),
            made matches Ok(address) ==> address@ == felt@,
    {
        match contract_address_key(felt) {
            Ok(key) => Ok(ContractAddress { key }),
            Err(_) => Err(OutOfRange),
        }
    }

    /// The felt of the address.
    pub fn key(&self) -> (key: Felt)
        ensures
            key@ == self@,
            key@ < contract_address_bound(),
    {
        proof {
            use_type_invariant(self);
        }
        self.key
    }
}

/// Trusted: `StarknetApiError` of `starknet_api`, the error of its conversions. Nothing is
/// claimed of what it holds.
#[verifier::external_type_specification]
#[verifier::external_body]
pub struct ExStarknetApiError(starknet_api::StarknetApiError);

/// Trusted: `impl TryFrom<StarkHash> for ContractAddress` of `starknet_api`. It accepts a felt
/// exactly when the felt is below `2^251`, the size of the address domain, and the address it
/// makes holds that felt unchanged.
#[verifier::external_body]
fn contract_address_key(felt: Felt) -> (made: Result<Felt, starknet_api::StarknetApiError>)
    ensures
        made is Ok <==> felt@ < contract_address_bound(),
        made matches Ok(key) ==> key@ == felt@,
{
    let stark_felt = StarkFelt::new(felt.bytes)?;
    let address = starknet_api::core::ContractAddress::try_from(stark_felt)?;
    Ok(Felt { bytes: address.0.key().bytes().try_into().unwrap() })
}

} // verus!
