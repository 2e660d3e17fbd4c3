use gmp::mpz::Mpz;
use nock::{atom, cell, nock, simple_eval, tar, tar_fuel, NockError, Noun, Number};

fn a(u: u64) -> Noun {
    atom(u)
}

#[test]
fn canonical_example_distributes_into_two_lookups() {
    let subject = cell(a(19), a(42));
    let formula = cell(cell(a(0), a(3)), cell(a(0), a(2)));
    let r = tar(cell(subject, formula)).unwrap();
    assert!(r.eq_noun(&cell(a(42), a(19))));
}

#[test]
fn simple_eval_runs_the_canonical_example() {
    let r = simple_eval().unwrap();
    assert!(r.eq_noun(&cell(a(42), a(19))));
}

#[test]
fn nock_is_the_evaluation_entry_point() {
    let subject = cell(a(19), a(42));
    let formula = cell(cell(a(0), a(3)), cell(a(0), a(2)));
    let r = nock(cell(subject, formula)).unwrap();
    assert!(r.eq_noun(&cell(a(42), a(19))));
}

#[test]
fn distribution_pairs_the_two_results() {
    let formula = cell(cell(a(1), a(10)), cell(a(1), a(20)));
    let r = tar(cell(a(7), formula)).unwrap();
    assert!(r.eq_noun(&cell(a(10), a(20))));
}

#[test]
fn opcode_zero_is_slot_lookup() {
    let r = tar(cell(cell(a(8), a(9)), cell(a(0), a(2)))).unwrap();
    assert!(r.eq_noun(&a(8)));
}

#[test]
fn opcode_one_quotes_and_ignores_subject() {
    let r = tar(cell(a(5), cell(a(1), cell(a(2), a(3))))).unwrap();
    assert!(r.eq_noun(&cell(a(2), a(3))));
}

#[test]
fn opcode_two_reenters_with_computed_subject_and_formula() {
    let new_subject = cell(a(1), cell(a(42), a(43)));
    let new_formula = cell(a(1), cell(a(0), a(2)));
    let r = tar(cell(a(0), cell(a(2), cell(new_subject, new_formula)))).unwrap();
    assert!(r.eq_noun(&a(42)));
}

#[test]
fn opcode_three_tests_for_a_pair() {
    let on_pair = tar(cell(a(0), cell(a(3), cell(a(1), cell(a(1), a(2)))))).unwrap();
    assert!(on_pair.eq_noun(&a(0)));
    let on_atom = tar(cell(a(0), cell(a(3), cell(a(1), a(5))))).unwrap();
    assert!(on_atom.eq_noun(&a(1)));
}

#[test]
fn opcode_four_increments() {
    let r = tar(cell(a(41), cell(a(4), cell(a(0), a(1))))).unwrap();
    assert!(r.eq_noun(&a(42)));
}

#[test]
fn opcode_five_compares() {
    let eq = tar(cell(a(0), cell(a(5), cell(a(1), cell(a(4), a(4)))))).unwrap();
    assert!(eq.eq_noun(&a(0)));
    let ne = tar(cell(a(0), cell(a(5), cell(a(1), cell(a(4), a(5)))))).unwrap();
    assert!(ne.eq_noun(&a(1)));
}

#[test]
fn opcode_six_takes_the_branch_the_condition_picks() {
    let condition = cell(a(3), cell(a(0), a(1)));
    let then_branch = cell(a(4), cell(a(0), a(2)));
    let else_branch = cell(a(4), cell(a(0), a(3)));
    let formula = cell(a(6), cell(condition, cell(then_branch, else_branch)));
    let r = tar(cell(cell(a(40), a(43)), formula)).unwrap();
    assert!(r.eq_noun(&a(41)));
}

#[test]
fn opcode_seven_composes() {
    let formula = cell(a(7), cell(cell(a(4), cell(a(0), a(1))), cell(a(4), cell(a(0), a(1)))));
    let r = tar(cell(a(40), formula)).unwrap();
    assert!(r.eq_noun(&a(42)));
}

#[test]
fn opcode_eight_pushes_onto_the_subject() {
    let formula = cell(a(8), cell(cell(a(4), cell(a(0), a(1))), cell(a(0), a(1))));
    let r = tar(cell(a(42), formula)).unwrap();
    assert!(r.eq_noun(&cell(a(43), a(42))));
}

#[test]
fn opcode_nine_invokes_a_slot_of_a_core() {
    let core = cell(cell(a(0), a(3)), a(5));
    let formula = cell(a(9), cell(a(2), cell(a(1), core)));
    let r = tar(cell(a(0), formula)).unwrap();
    assert!(r.eq_noun(&a(5)));
}

#[test]
fn opcode_ten_discards_a_static_hint() {
    let r = tar(cell(a(50), cell(a(10), cell(a(3), cell(a(0), a(1)))))).unwrap();
    assert!(r.eq_noun(&a(50)));
}

#[test]
fn opcode_ten_computes_and_discards_a_dynamic_hint() {
    let hint = cell(a(0), cell(a(0), a(1)));
    let formula = cell(a(10), cell(hint, cell(a(4), cell(a(0), a(1)))));
    let r = tar(cell(a(51), formula)).unwrap();
    assert!(r.eq_noun(&a(52)));
}

#[test]
fn opcode_eleven_is_unknown() {
    let r = tar(cell(a(5), cell(a(11), a(0))));
    assert!(matches!(r, Err(NockError::UnknownOpcode)));
}

#[test]
fn wide_representation_opcode_dispatches_like_a_narrow_one() {
    let op = Noun::Atom(Number::Bignum(Mpz::from(4u64)));
    let r = tar(cell(a(10), cell(op, cell(a(0), a(1))))).unwrap();
    assert!(r.eq_noun(&a(11)));
}

#[test]
fn atom_input_is_a_malformed_formula() {
    let r = tar(a(5));
    assert!(matches!(r, Err(NockError::MalformedFormula)));
}

#[test]
fn atom_formula_is_malformed() {
    let r = tar(cell(a(1), a(2)));
    assert!(matches!(r, Err(NockError::MalformedFormula)));
}

#[test]
fn opcode_two_with_atom_operand_is_type_mismatch() {
    let r = tar(cell(a(0), cell(a(2), a(9))));
    assert!(matches!(r, Err(NockError::TypeMismatch)));
}

#[test]
fn opcode_six_with_atom_operand_is_type_mismatch() {
    let r = tar(cell(a(0), cell(a(6), a(9))));
    assert!(matches!(r, Err(NockError::TypeMismatch)));
}

#[test]
fn failure_deep_in_a_distribution_propagates() {
    let bad = cell(a(11), a(0));
    let formula = cell(cell(a(1), a(10)), bad);
    let r = tar(cell(a(7), formula));
    assert!(matches!(r, Err(NockError::UnknownOpcode)));
}

#[test]
fn fuel_bounded_evaluation_reports_exhaustion_as_none() {
    let subject = cell(a(19), a(42));
    let formula = cell(cell(a(0), a(3)), cell(a(0), a(2)));
    let n = cell(subject, formula);
    let r = tar_fuel(n, 1);
    assert!(r.is_none());
    let subject2 = cell(a(19), a(42));
    let formula2 = cell(cell(a(0), a(3)), cell(a(0), a(2)));
    let r2 = tar_fuel(cell(subject2, formula2), 2).unwrap().unwrap();
    assert!(r2.eq_noun(&cell(a(42), a(19))));
}
