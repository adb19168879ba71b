//! The constraints of the addition: trace shape, transition constraints,
//! the boundary assertion, and the public inputs that it binds.
use vstd::prelude::*;
use crate::field::{field_add, field_sub, is_element, add_spec, sub_spec};
use crate::trace::{ExecutionTrace, TRACE_WIDTH};

verus! {

/// The claim that both prover and verifier know: the sum.
pub struct AirPublicInputs {
    pub result: u128,
}

impl AirPublicInputs {
    /// The public inputs as an ordered sequence of field elements.
    pub fn to_elements(&self) -> (r: Vec<u128>)
        ensures
            r@ == seq![self.result],
    {
        vec![self.result]
    }
}

/// The shape of a trace: its number of columns and of rows.
#[derive(Clone, Copy)]
pub struct TraceInfo {
    pub width: usize,
    pub length: usize,
}

/// A required value at one cell of the trace.
#[derive(Clone, Copy, PartialEq, Eq, Structural, Debug)]
pub struct Assertion {
    pub column: usize,
    pub step: usize,
    pub value: u128,
}

/// The difference of two elements: zero exactly when they are equal.
pub fn are_equal(a: u128, b: u128) -> (r: u128)
    requires
        is_element(a),
        is_element(b),
    ensures
        r as int == sub_spec(a as int, b as int),
{
    field_sub(a, b)
}

/// The value of the transition constraint over two adjacent rows:
/// `next[2] - (current[0] + current[1])`.
pub open spec fn transition_value(current: Seq<u128>, next: Seq<u128>) -> int {
    sub_spec(next[2] as int, add_spec(current[0] as int, current[1] as int))
}

/// A row of three canonical elements.
pub open spec fn row_ok(row: Seq<u128>) -> bool {
    row.len() == TRACE_WIDTH && forall|j: int| 0 <= j < row.len() ==> is_element(#[trigger] row[j])
}

/// Whether `rows` meets the constraints of an AIR for `length` rows whose claimed
/// sum is `result`: the shape, a zero transition value between every pair of
/// adjacent rows, and the claimed sum in column 2 of the last row.
pub open spec fn accepts(length: nat, result: u128, rows: Seq<Seq<u128>>) -> bool {
    &&& length >= 1
    &&& rows.len() == length
    &&& forall|i: int| 0 <= i < rows.len() ==> row_ok(#[trigger] rows[i])
    &&& forall|i: int| 0 <= i < rows.len() - 1 ==> transition_value(#[trigger] rows[i], rows[i + 1]) == 0
    &&& rows[length - 1][2] == result
}

/// The constraint specification of the addition.
pub struct AirAdd {
    pub trace_info: TraceInfo,
    pub pub_inputs: AirPublicInputs,
}

impl AirAdd {
    /// An AIR for a trace of shape `trace_info` that claims `pub_inputs`; the
    /// trace must have exactly three columns.
    pub fn new(trace_info: TraceInfo, pub_inputs: AirPublicInputs) -> (r: AirAdd)
        requires
            trace_info.width == TRACE_WIDTH,
        ensures
            r.trace_info == trace_info,
            r.pub_inputs == pub_inputs,
    {
        AirAdd { trace_info, pub_inputs }
    }

    /// Number of rows of the trace.
    pub fn trace_length(&self) -> (r: usize)
        ensures
            r == self.trace_info.length,
    {
        self.trace_info.length
    }

    /// The degree bound of each transition constraint.
    pub fn transition_constraint_degrees(&self) -> (r: Vec<usize>)
        ensures
            r@ == seq![1usize, 1usize, 1usize],
    {
        vec![1, 1, 1]
    }

    /// Number of boundary assertions.
    pub fn num_assertions(&self) -> (r: usize)
        ensures
            r == 1,
    {
        1
    }

    /// The constraint values over a window of two adjacent rows: the first is
    /// `next[2] - (current[0] + current[1])`, the others are zero.
    pub fn evaluate_transition(&self, current: &[u128], next: &[u128]) -> (r: Vec<u128>)
        requires
            row_ok(current@),
            row_ok(next@),
        ensures
            r@.len() == 3,
            r@[0] as int == transition_value(current@, next@),
            r@[1] == 0,
            r@[2] == 0,
    {
        let s = field_add(current[0], current[1]);
        vec![are_equal(next[2], s), 0, 0]
    }

    /// The one boundary assertion: column 2 of the last row holds the claimed sum.
    pub fn get_assertions(&self) -> (r: Vec<Assertion>)
        requires
            self.trace_info.length >= 1,
        ensures
            r@ == seq![(Assertion {
                column: 2,
                step: (self.trace_info.length - 1) as usize,
                value: self.pub_inputs.result,
            })],
    {
        let last_step = self.trace_length() - 1;
        vec![Assertion { column: 2, step: last_step, value: self.pub_inputs.result }]
    }

    /// Whether `trace` meets every constraint of this AIR.
    pub fn check_trace(&self, trace: &ExecutionTrace) -> (r: bool)
        ensures
            r == accepts(self.trace_info.length as nat, self.pub_inputs.result, trace@),
    {
        let n = trace.length();
        if n != self.trace_info.length || n == 0 {
            return false;
        }
        let mut i: usize = 0;
        while i < n
            invariant
                n == trace@.len(),
                0 <= i <= n,
                forall|k: int| 0 <= k < i ==> row_ok(#[trigger] trace@[k]),
            decreases n - i,
        {
            let row = &trace.rows[i];
            assert(trace@[i as int] == row@);
            if row.len() != TRACE_WIDTH {
                return false;
            }
            let mut j: usize = 0;
            while j < TRACE_WIDTH
                invariant
                    0 <= j <= TRACE_WIDTH,
                    i < n,
                    n == trace@.len(),
                    trace@[i as int] == row@,
                    row@.len() == TRACE_WIDTH,
                    forall|c: int| 0 <= c < j ==> is_element(#[trigger] row@[c]),
                decreases TRACE_WIDTH - j,
            {
                if row[j] >= crate::field::MODULUS {
                    assert(!is_element(row@[j as int]));
                    assert(!row_ok(trace@[i as int]));
                    return false;
                }
                j = j + 1;
            }
            i = i + 1;
        }
        let mut i: usize = 0;
        while i + 1 < n
            invariant
                n == trace@.len(),
                n >= 1,
                0 <= i < n,
                forall|k: int| 0 <= k < n ==> row_ok(#[trigger] trace@[k]),
                forall|k: int| 0 <= k < i ==> transition_value(#[trigger] trace@[k], trace@[k + 1]) == 0,
            decreases n - i,
        {
            let cur = trace.rows[i].as_slice();
            let next = trace.rows[i + 1].as_slice();
            assert(trace@[i as int] == cur@);
            assert(trace@[i + 1] == next@);
            let v = self.evaluate_transition(cur, next);
            if v[0] != 0 {
                return false;
            }
            i = i + 1;
        }
        trace.get(2, n - 1) == self.pub_inputs.result
    }
}

} // verus!
