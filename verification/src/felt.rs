//! Field elements as plain data.

use cairo_felt::Felt252;
use starknet_api::hash::StarkFelt;
use vstd::prelude::*;
use vstd::string::StringSliceAdditionalSpecFns;

verus! {

/// The modulus of the field: `2^251 + 17 * 2^192 + 1`.
pub open spec fn field_prime() -> nat {
    0x800000000000011000000000000000000000000000000000000000000000001nat
}

/// Exclusive upper bound of what a [`Felt`] may hold: `2^252`.
pub open spec fn felt_bound() -> nat {
    0x1000000000000000000000000000000000000000000000000000000000000000nat
}

/// `256^exponent`.
pub open spec fn pow256(exponent: nat) -> nat
    decreases exponent,
{
    if exponent == 0 {
        1
    } else {
        256 * pow256((exponent - 1) as nat)
    }
}

/// The number that `bytes` denote when read most significant byte first.
pub open spec fn be_value(bytes: Seq<u8>) -> nat
    decreases bytes.len(),
{
    if bytes.len() == 0 {
        0
    } else {
        be_value(bytes.drop_last()) * 256 + bytes.last() as nat
    }
}

/// A big-endian number is smaller than `256` to the number of its bytes.
pub proof fn lemma_be_value_bound(bytes: Seq<u8>)
    ensures
        be_value(bytes) < pow256(bytes.len()),
    decreases bytes.len(),
{
    if bytes.len() > 0 {
        lemma_be_value_bound(bytes.drop_last());
    }
}

/// The first byte weighs `256` to the number of bytes that follow it.
pub proof fn lemma_be_value_first(bytes: Seq<u8>)
    requires
        bytes.len() > 0,
    ensures
        be_value(bytes) == bytes[0] as nat * pow256((bytes.len() - 1) as nat) + be_value(
            bytes.drop_first(),
        ),
    decreases bytes.len(),
{
    let tail = bytes.drop_first();
    let front = bytes.drop_last();
    assert(be_value(bytes) == be_value(front) * 256 + bytes.last() as nat);
    if bytes.len() == 1 {
        assert(be_value(front) == 0);
        assert(be_value(tail) == 0);
        assert(bytes.last() == bytes[0]);
        assert(pow256(0) == 1);
        assert(be_value(bytes) == bytes[0] as nat * pow256(0) + be_value(tail));
    } else {
        let weight = pow256((front.len() - 1) as nat);
        let middle = be_value(tail.drop_last());
        assert(be_value(front) == bytes[0] as nat * weight + middle) by {
            lemma_be_value_first(front);
            assert(front.drop_first() == tail.drop_last());
        }
        assert(be_value(tail) == middle * 256 + bytes.last() as nat);
        assert(pow256((bytes.len() - 1) as nat) == 256 * weight);
        assert((bytes[0] as nat * weight + middle) * 256 == bytes[0] as nat * (256 * weight)
            + middle * 256) by (nonlinear_arith);
        assert(be_value(bytes) == bytes[0] as nat * (256 * weight) + be_value(tail));
    }
}

/// Byte strings of one length that denote the same number are the same.
pub proof fn lemma_be_value_injective(bytes: Seq<u8>, other: Seq<u8>)
    requires
        bytes.len() == other.len(),
        be_value(bytes) == be_value(other),
    ensures
        bytes == other,
    decreases bytes.len(),
{
    if bytes.len() > 0 {
        let front = be_value(bytes.drop_last());
        let other_front = be_value(other.drop_last());
        assert(front == other_front && bytes.last() == other.last()) by (nonlinear_arith)
            requires
                front * 256 + bytes.last() as nat == other_front * 256 + other.last() as nat,
                bytes.last() < 256,
                other.last() < 256,
        ;
        lemma_be_value_injective(bytes.drop_last(), other.drop_last());
        assert(bytes == bytes.drop_last().push(bytes.last()));
        assert(other == other.drop_last().push(other.last()));
    } else {
        assert(bytes == other);
    }
}

/// Thirty-two bytes denote less than `2^252` exactly when the upper half of the first is clear.
pub proof fn lemma_felt_bound(bytes: Seq<u8>)
    requires
        bytes.len() == 32,
    ensures
        be_value(bytes) < felt_bound() <==> bytes[0] < 16,
{
    let first = bytes[0] as nat;
    let rest = be_value(bytes.drop_first());
    let weight = pow256(31);
    assert(be_value(bytes) == first * weight + rest) by {
        lemma_be_value_first(bytes);
    }
    assert(rest < weight) by {
        lemma_be_value_bound(bytes.drop_first());
    }
    assert(felt_bound() == 16 * weight) by {
        reveal_with_fuel(pow256, 32);
    }
    assert(first * weight + rest < 16 * weight <==> first < 16) by (nonlinear_arith)
        requires
            rest < weight,
    ;
}

/// A field element, held as its 32 bytes, most significant first.
#[derive(Clone, Copy, Debug, PartialEq, Eq, Hash)]
pub struct Felt {
    pub(crate) bytes: [u8; 32],
}

impl View for Felt {
    type V = nat;

    closed spec fn view(&self) -> nat {
        be_value(self.bytes@)
    }
}

/// The error of a conversion whose input is too large for the target.
#[derive(Clone, Copy, Debug, PartialEq, Eq)]
pub struct OutOfRange;

impl Felt {
    #[verifier::type_invariant]
    spec fn top_nibble_clear(self) -> bool {
        self.bytes@[0] < 16
    }

    /// The felt that the given big-endian bytes denote, unless they denote `2^252` or more.
    pub fn new(bytes: [u8; 32]) -> (made: Result<Felt, OutOfRange>)
        ensures
            made is Ok <==> be_value(bytes@) < felt_bound(),
            made matches Ok(felt) ==> felt@ == be_value(bytes@),
    {
        proof {
            lemma_felt_bound(bytes@);
        }
        if bytes[0] < 16 {
            Ok(Felt { bytes })
        } else {
            Err(OutOfRange)
        }
    }

    /// The felt whose value is `value`.
    pub fn from_u128(value: u128) -> (felt: Felt)
        ensures
            felt@ == value,
    {
        stark_felt_from_u128(value)
    }

    /// The 32 bytes of the felt, most significant first.
    pub fn to_bytes_be(&self) -> (bytes: [u8; 32])
        ensures
            be_value(bytes@) == self@,
            be_value(bytes@) < felt_bound(),
    {
        proof {
            use_type_invariant(self);
            lemma_felt_bound(self.bytes@);
        }
        self.bytes
    }
}

/// A felt is its value: felts of one value are one felt, byte for byte.
pub proof fn lemma_felt_canonical(felt: Felt, other: Felt)
    requires
        felt@ == other@,
    ensures
        felt == other,
{
    lemma_be_value_injective(felt.bytes@, other.bytes@);
    assert(felt.bytes == other.bytes);
}

/// The values of a sequence of felts, in order.
pub open spec fn felt_values(felts: Seq<Felt>) -> Seq<nat> {
    felts.map_values(|felt: Felt| felt@)
}

/// Sequences of felts with the same values are the same, byte for byte.
pub proof fn lemma_felt_values_injective(felts: Seq<Felt>, others: Seq<Felt>)
    requires
        felt_values(felts) == felt_values(others),
    ensures
        felts == others,
{
    assert(felts.len() == felt_values(felts).len());
    assert(others.len() == felt_values(others).len());
    assert forall|i: int| 0 <= i < felts.len() implies felts[i] == others[i] by {
        assert(felt_values(felts)[i] == felts[i]@);
        assert(felt_values(others)[i] == others[i]@);
        lemma_felt_canonical(felts[i], others[i]);
    }
    assert(felts =~= others);
}

/// The number that a short string stands for: its bytes read as one big-endian number, reduced
/// into the field.
pub open spec fn short_string_value(text: &str) -> nat {
    be_value(text.spec_bytes()) % field_prime()
}

/// The felt that encodes `short_str` as a short string.
pub fn felt_from_short_string(short_str: &str) -> (felt: Felt)
    ensures
        felt@ == short_string_value(short_str),
{
    felt252_from_bytes_be(short_str.as_bytes())
}

/// Trusted: `impl From<u128> for StarkFelt` of `starknet_api`. The conversion writes the sixteen
/// big-endian bytes of the number into the lower half of an all-zero felt, so the felt's value is
/// the number itself.
#[verifier::external_body]
fn stark_felt_from_u128(value: u128) -> (felt: Felt)
    ensures
        felt@ == value,
{
    let stark_felt = StarkFelt::from(value);
    Felt { bytes: stark_felt.bytes().try_into().unwrap() }
}

/// Trusted: `Felt252::from_bytes_be` of `cairo_felt`. It reads the bytes as one big-endian number
/// of any length and reduces it modulo the field prime; the result is handed back as its 32
/// big-endian bytes.
#[verifier::external_body]
fn felt252_from_bytes_be(bytes: &[u8]) -> (felt: Felt)
    ensures
        felt@ == be_value(bytes@) % field_prime(),
{
    Felt { bytes: Felt252::from_bytes_be(bytes).to_be_bytes() }
}

} // verus!
