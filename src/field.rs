//! Elements of the 128-bit prime field, held as canonical `u128` values.
use vstd::prelude::*;
use winterfell::math::fields::f128::BaseElement;
use winterfell::math::StarkField;

verus! {

/// The field modulus, `2^128 - 45 * 2^40 + 1`.
pub const MODULUS: u128 = 340282366920938463463374557953744961537;

/// A value is a canonical field element when it lies below the modulus.
pub open spec fn is_element(v: u128) -> bool {
    v < MODULUS
}

/// The field element that an arbitrary integer stands for.
pub open spec fn reduce(v: int) -> int {
    v % (MODULUS as int)
}

/// Field addition.
pub open spec fn add_spec(a: int, b: int) -> int {
    reduce(a + b)
}

/// Field subtraction.
pub open spec fn sub_spec(a: int, b: int) -> int {
    reduce(a - b)
}

/// Relies on `BaseElement::new`, which reduces any `u128` modulo the field
/// modulus, and on `as_int`, which hands back that canonical value.
#[verifier::external_body]
pub(crate) fn element(v: u128) -> (r: u128)
    ensures
        r as int == reduce(v as int),
{
    BaseElement::new(v).as_int()
}

/// Relies on `Add for BaseElement`: the sum of two canonical elements modulo
/// the field modulus.
#[verifier::external_body]
pub(crate) fn field_add(a: u128, b: u128) -> (r: u128)
    requires
        is_element(a),
        is_element(b),
    ensures
        r as int == add_spec(a as int, b as int),
{
    (BaseElement::new(a) + BaseElement::new(b)).as_int()
}

/// Relies on `Sub for BaseElement`: the difference of two canonical elements
/// modulo the field modulus.
#[verifier::external_body]
pub(crate) fn field_sub(a: u128, b: u128) -> (r: u128)
    requires
        is_element(a),
        is_element(b),
    ensures
        r as int == sub_spec(a as int, b as int),
{
    (BaseElement::new(a) - BaseElement::new(b)).as_int()
}

/// Every reduced value is a canonical element.
pub proof fn lemma_reduce_is_element(v: int)
    ensures
        0 <= reduce(v) < MODULUS as int,
{
}

} // verus!
