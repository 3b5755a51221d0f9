//! Scalar-field elements of the BN256 curve, as provided by the external
//! arithmetic library, together with the arithmetic the constraint checker
//! needs. The element type is opaque; its mathematical value is exposed
//! through the abstraction function `fr_val`, and every operation is a
//! trusted wrapper whose contract states the result modulo the field's
//! prime order.

use vstd::prelude::*;
use bellman_ce::pairing::bn256::Fr;
use bellman_ce::pairing::bn256::FrRepr;
use bellman_ce::pairing::ff::Field;
use bellman_ce::pairing::ff::PrimeField;

verus! {

/// The BN256 scalar-field element type of the external arithmetic library.
#[verifier::external_type_specification]
#[verifier::external_body]
pub struct ExFr(Fr);

/// The canonical integer a field element represents, in `0 .. fr_modulus()`.
pub uninterp spec fn fr_val(x: Fr) -> nat;

/// The prime order of the BN256 scalar field.
pub open spec fn fr_modulus() -> nat {
    21888242871839275222246405745257275088548364400416034343698204186575808495617nat
}

/// Relies on `Field::zero` of the external library: the additive identity.
#[verifier::external_body]
pub fn fr_zero() -> (r: Fr)
    ensures
        fr_val(r) == 0,
{
    Fr::zero()
}

/// Relies on `PrimeField::from_repr` of the external library: a 64-bit
/// integer is below the modulus, so it decodes to the element with exactly
/// that value.
#[verifier::external_body]
pub fn fr_from_u64(n: u64) -> (r: Fr)
    ensures
        fr_val(r) == n as nat,
{
    Fr::from_repr(FrRepr::from(n)).expect("a 64-bit value is below the field modulus")
}

/// Relies on `Field::add_assign` of the external library: addition in the
/// prime field, that is, addition of the represented values modulo the
/// field's order.
#[verifier::external_body]
pub fn fr_add(a: &Fr, b: &Fr) -> (r: Fr)
    ensures
        fr_val(r) == (fr_val(*a) + fr_val(*b)) % fr_modulus(),
{
    let mut r = *a;
    r.add_assign(b);
    r
}

/// Relies on `Field::mul_assign` of the external library: multiplication in
/// the prime field, that is, multiplication of the represented values modulo
/// the field's order.
#[verifier::external_body]
pub fn fr_mul(a: &Fr, b: &Fr) -> (r: Fr)
    ensures
        fr_val(r) == (fr_val(*a) * fr_val(*b)) % fr_modulus(),
{
    let mut r = *a;
    r.mul_assign(b);
    r
}

/// Relies on `PartialEq` of the external library's field type: elements are
/// kept in a canonical (reduced Montgomery) representation, so structural
/// equality coincides with equality of the represented values.
#[verifier::external_body]
pub fn fr_eq(a: &Fr, b: &Fr) -> (r: bool)
    ensures
        r == (fr_val(*a) == fr_val(*b)),
{
    a == b
}

} // verus!
