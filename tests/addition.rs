use stark_add::air::{are_equal, AirAdd, AirPublicInputs, Assertion, TraceInfo};
use stark_add::field::MODULUS;
use stark_add::prover::{build_proof_options, AddExample, AddProver, FieldExtension};
use stark_add::trace::{build_trace, is_valid_length, ExecutionTrace, TRACE_WIDTH};

fn air_for(length: usize, result: u128) -> AirAdd {
    AirAdd::new(TraceInfo { width: TRACE_WIDTH, length }, AirPublicInputs { result })
}

#[test]
fn scenario_ten_plus_fifteen() {
    let prover = AddProver::new(build_proof_options(false));
    let trace = prover.build_trace(16, 10, 15);
    assert_eq!(trace.length(), 8);
    assert_eq!(trace.width(), 3);
    for step in 0..8 {
        assert_eq!(trace.rows[step], vec![10u128, 15, 25]);
    }
    let claim = prover.get_pub_inputs(&trace);
    assert_eq!(claim.result, 25);
    assert!(air_for(8, 25).check_trace(&trace));
    assert!(!air_for(8, 26).check_trace(&trace));
}

#[test]
fn example_claims() {
    let example = AddExample::new(build_proof_options(false), 10, 15);
    assert_eq!(example.result, 25);
    assert_eq!(example.claimed_inputs().result, 25);
    assert_eq!(example.wrong_inputs().result, 26);
}

#[test]
fn length_fifteen_is_refused() {
    assert!(!is_valid_length(15));
    assert!(!is_valid_length(0));
    assert!(!is_valid_length(1));
    assert!(!is_valid_length(6));
    assert!(is_valid_length(2));
    assert!(is_valid_length(16));
    assert!(is_valid_length(1usize << 40));
}

#[test]
fn builds_are_identical() {
    let t1 = build_trace(32, 7, 9);
    let t2 = build_trace(32, 7, 9);
    assert_eq!(t1.rows, t2.rows);
}

#[test]
fn shortest_trace_has_one_row() {
    let trace = build_trace(2, 3, 4);
    assert_eq!(trace.rows, vec![vec![3u128, 4, 7]]);
    assert!(air_for(1, 7).check_trace(&trace));
}

#[test]
fn honest_claim_accepted_for_several_lengths() {
    for length in [2usize, 4, 8, 64] {
        let trace = build_trace(length, 123, 456);
        assert!(air_for(length / 2, 579).check_trace(&trace));
        assert!(!air_for(length / 2, 580).check_trace(&trace));
    }
}

#[test]
fn claim_checked_at_last_row_only() {
    let air = air_for(8, 25);
    let assertions = air.get_assertions();
    assert_eq!(assertions, vec![Assertion { column: 2, step: 7, value: 25 }]);
    assert_eq!(air.num_assertions(), 1);
    assert_eq!(air.transition_constraint_degrees(), vec![1usize, 1, 1]);
    let trace = build_trace(16, 10, 15);
    assert!(!air_for(7, 25).check_trace(&trace));
    assert!(!air_for(9, 25).check_trace(&trace));
}

#[test]
fn operands_wrap_around_the_modulus() {
    assert_eq!(build_trace(2, MODULUS, MODULUS + 5).rows, vec![vec![0u128, 5, 5]]);
    let top = u128::MAX - MODULUS;
    assert_eq!(build_trace(2, u128::MAX, 0).rows, vec![vec![top, 0, top]]);
    let trace = build_trace(4, MODULUS - 1, 2);
    assert_eq!(trace.get(0, 0), MODULUS - 1);
    assert_eq!(trace.get(2, 1), 1);
    let example = AddExample::new(build_proof_options(true), MODULUS - 1, 1);
    assert_eq!(example.result, 0);
    assert_eq!(example.wrong_inputs().result, 1);
}

#[test]
fn difference_of_elements() {
    assert_eq!(are_equal(5, 5), 0);
    assert_eq!(are_equal(9, 4), 5);
    assert_eq!(are_equal(0, 1), MODULUS - 1);
}

#[test]
fn transition_values() {
    let air = air_for(8, 25);
    assert_eq!(air.evaluate_transition(&[10, 15, 25], &[10, 15, 25]), vec![0u128, 0, 0]);
    assert_eq!(air.evaluate_transition(&[10, 15, 25], &[10, 15, 30]), vec![5u128, 0, 0]);
    assert_eq!(air.evaluate_transition(&[1, 2, 0], &[0, 0, 2]), vec![MODULUS - 1, 0, 0]);
}

#[test]
fn tampered_trace_is_rejected() {
    let mut trace = build_trace(16, 10, 15);
    trace.rows[3][2] = 24;
    assert!(!air_for(8, 25).check_trace(&trace));
    let mut trace = build_trace(16, 10, 15);
    trace.rows[0][0] = MODULUS;
    assert!(!air_for(8, 25).check_trace(&trace));
    let narrow = ExecutionTrace { rows: vec![vec![1u128, 2]; 8] };
    assert_eq!(narrow.width(), 2);
    assert!(!air_for(8, 25).check_trace(&narrow));
    let empty = ExecutionTrace { rows: vec![] };
    assert_eq!(empty.width(), 0);
    assert!(!air_for(0, 0).check_trace(&empty));
}

#[test]
fn public_inputs_as_elements() {
    let inputs = AirPublicInputs { result: 42 };
    assert_eq!(inputs.to_elements(), vec![42u128]);
}

#[test]
fn proof_options_are_fixed() {
    let base = build_proof_options(false);
    assert_eq!(base.num_queries, 28);
    assert_eq!(base.blowup_factor, 8);
    assert_eq!(base.grinding_factor, 0);
    assert_eq!(base.field_extension, FieldExtension::Base);
    assert_eq!(base.fri_folding_factor, 4);
    assert_eq!(base.fri_remainder_max_degree, 7);
    let ext = build_proof_options(true);
    assert_eq!(ext.field_extension, FieldExtension::Quadratic);
    let prover = AddProver::new(ext);
    assert_eq!(*prover.options(), ext);
}
