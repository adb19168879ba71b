//! What holds between building a trace, reading its claim, and checking it
//! against the constraints.
use vstd::prelude::*;
use crate::air::{accepts, row_ok, transition_value};
use crate::field::{add_spec, reduce, sub_spec, MODULUS, lemma_reduce_is_element};
use vstd::arithmetic::div_mod::{lemma_small_mod, lemma_mod_add_multiples_vanish};
use crate::trace::{addition_row, built_rows, valid_length};

verus! {

/// The sum that the trace for `(a, b)` computes.
pub open spec fn sum_of(a: u128, b: u128) -> u128 {
    add_spec(reduce(a as int), reduce(b as int)) as u128
}

proof fn lemma_addition_row_ok(a: u128, b: u128)
    ensures
        row_ok(addition_row(a, b)),
        addition_row(a, b)[2] == sum_of(a, b),
        transition_value(addition_row(a, b), addition_row(a, b)) == 0,
{
    lemma_reduce_is_element(a as int);
    lemma_reduce_is_element(b as int);
    lemma_reduce_is_element(reduce(a as int) + reduce(b as int));
    let s = add_spec(reduce(a as int), reduce(b as int));
    assert(sub_spec(s, s) == 0);
}

/// The trace built for any accepted length and any operands meets every
/// constraint of the AIR that claims their sum.
pub proof fn lemma_honest_claim_accepted(length: nat, a: u128, b: u128)
    requires
        valid_length(length),
    ensures
        accepts(length / 2, sum_of(a, b), built_rows(length, a, b)),
{
    lemma_addition_row_ok(a, b);
    let rows = built_rows(length, a, b);
    assert(forall|i: int| 0 <= i < rows.len() ==> #[trigger] rows[i] == addition_row(a, b));
}

/// A claim of the sum plus any nonzero element is rejected for the trace
/// built for any accepted length and any operands.
pub proof fn lemma_tampered_claim_rejected(length: nat, a: u128, b: u128, delta: u128)
    requires
        valid_length(length),
        0 < delta < MODULUS,
    ensures
        !accepts(length / 2, add_spec(sum_of(a, b) as int, delta as int) as u128, built_rows(length, a, b)),
{
    lemma_addition_row_ok(a, b);
    lemma_reduce_is_element(reduce(a as int) + reduce(b as int));
    let s = sum_of(a, b) as int;
    let m = MODULUS as int;
    assert(0 <= s < m);
    if s + delta < m {
        lemma_small_mod((s + delta) as nat, m as nat);
    } else {
        lemma_mod_add_multiples_vanish(s + delta - m, m);
        lemma_small_mod((s + delta - m) as nat, m as nat);
    }
    let rows = built_rows(length, a, b);
    assert(rows[length / 2 - 1] == addition_row(a, b));
}

/// Two traces built from the same length and operands hold the same values.
pub proof fn lemma_build_deterministic(length: nat, a: u128, b: u128, length2: nat, a2: u128, b2: u128)
    requires
        length == length2,
        a == a2,
        b == b2,
    ensures
        built_rows(length, a, b) == built_rows(length2, a2, b2),
{
}

/// The trace for `length` has `length / 2` rows, and among traces of that
/// shape whose transitions hold, the claim is checked at row `length / 2 - 1`
/// alone: a claim is accepted exactly when column 2 of that row holds it.
pub proof fn lemma_boundary_placement(length: nat, a: u128, b: u128, rows: Seq<Seq<u128>>, result: u128)
    requires
        valid_length(length),
        rows.len() == length / 2,
        forall|i: int| 0 <= i < rows.len() ==> row_ok(#[trigger] rows[i]),
        forall|i: int| 0 <= i < rows.len() - 1 ==> transition_value(#[trigger] rows[i], rows[i + 1]) == 0,
    ensures
        built_rows(length, a, b).len() == length / 2,
        accepts(length / 2, result, rows) <==> rows[length / 2 - 1][2] == result,
{
}

} // verus!
