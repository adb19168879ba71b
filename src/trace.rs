//! The execution trace of the addition and the builder that fills it.
use vstd::prelude::*;
use crate::field::{element, field_add, reduce, add_spec, lemma_reduce_is_element};

verus! {

/// Number of columns of the trace: operand A, operand B, result.
pub const TRACE_WIDTH: usize = 3;

/// A table of field elements, one `Vec` per row.
pub struct ExecutionTrace {
    pub rows: Vec<Vec<u128>>,
}

/// Whether `n` is a power of two.
pub open spec fn is_pow2(n: nat) -> bool
    decreases n,
{
    if n == 1 {
        true
    } else if n == 0 || n % 2 == 1 {
        false
    } else {
        is_pow2(n / 2)
    }
}

/// A length the trace builder accepts: a power of two, at least two.
pub open spec fn valid_length(n: nat) -> bool {
    n >= 2 && is_pow2(n)
}

/// The one row that every row of the trace holds: `[a, b, a + b]`.
pub open spec fn addition_row(a: u128, b: u128) -> Seq<u128> {
    seq![
        reduce(a as int) as u128,
        reduce(b as int) as u128,
        add_spec(reduce(a as int), reduce(b as int)) as u128,
    ]
}

/// The trace built for `(length, a, b)`: `length / 2` copies of the addition row.
pub open spec fn built_rows(length: nat, a: u128, b: u128) -> Seq<Seq<u128>> {
    Seq::new(length / 2, |i: int| addition_row(a, b))
}

impl View for ExecutionTrace {
    type V = Seq<Seq<u128>>;

    open spec fn view(&self) -> Seq<Seq<u128>> {
        self.rows@.map_values(|r: Vec<u128>| r@)
    }
}

impl ExecutionTrace {
    /// Number of rows.
    pub fn length(&self) -> (r: usize)
        ensures
            r == self@.len(),
    {
        self.rows.len()
    }

    /// Number of columns of the first row (zero for an empty table).
    pub fn width(&self) -> (r: usize)
        ensures
            self@.len() == 0 ==> r == 0,
            self@.len() > 0 ==> r == self@[0].len(),
    {
        if self.rows.len() == 0 {
            0
        } else {
            self.rows[0].len()
        }
    }

    /// The value at `column` of `step`.
    pub fn get(&self, column: usize, step: usize) -> (r: u128)
        requires
            step < self@.len(),
            column < self@[step as int].len(),
        ensures
            r == self@[step as int][column as int],
    {
        self.rows[step][column]
    }
}

/// Whether the builder accepts `n` as a trace length.
pub fn is_valid_length(n: usize) -> (r: bool)
    ensures
        r == valid_length(n as nat),
{
    if n < 2 {
        return false;
    }
    let mut m: usize = n;
    while m > 1 && m % 2 == 0
        invariant
            m >= 1,
            is_pow2(m as nat) == is_pow2(n as nat),
        decreases m,
    {
        m = m / 2;
    }
    m == 1
}

/// Builds the trace of `a + b` for a sequence of `length` steps: `length / 2`
/// rows. Row 0 holds `a`, `b` and their sum; every later row copies the one
/// before it.
pub fn build_trace(length: usize, a: u128, b: u128) -> (r: ExecutionTrace)
    requires
        valid_length(length as nat),
    ensures
        r@ == built_rows(length as nat, a, b),
{
    let n: usize = length / 2;
    let mut rows: Vec<Vec<u128>> = Vec::new();
    let ea = element(a);
    let eb = element(b);
    proof {
        lemma_reduce_is_element(a as int);
        lemma_reduce_is_element(b as int);
    }
    let mut first: Vec<u128> = vec![ea, eb, 0];
    first.set(2, field_add(first[0], first[1]));
    assert(first@ =~= addition_row(a, b));
    rows.push(first);
    let mut i: usize = 1;
    while i < n
        invariant
            1 <= i <= n,
            n == length / 2,
            rows@.len() == i,
            forall|k: int| 0 <= k < i ==> (#[trigger] rows@[k])@ == addition_row(a, b),
        decreases n - i,
    {
        let next: Vec<u128> = rows[i - 1].clone();
        assert(next@ == addition_row(a, b));
        rows.push(next);
        i = i + 1;
    }
    let r = ExecutionTrace { rows };
    assert(r@ =~= built_rows(length as nat, a, b));
    r
}

} // verus!
