use gmp::mpz::Mpz;
use nock::{atom, cell, fas, lus, tis, wut, NockError, Noun, Number};

fn a(u: u64) -> Noun {
    atom(u)
}

fn big(m: Mpz) -> Noun {
    Noun::Atom(Number::Bignum(m))
}

#[test]
fn wut_on_pair_is_yes() {
    let r = wut(cell(a(1), a(2)));
    assert!(r.eq_noun(&a(0)));
}

#[test]
fn wut_on_atom_is_no() {
    let r = wut(a(57));
    assert!(r.eq_noun(&a(1)));
}

#[test]
fn lus_increments_small_atom() {
    let r = lus(a(5)).unwrap();
    assert!(r.eq_noun(&a(6)));
    assert!(!r.eq_noun(&a(5)));
}

#[test]
fn lus_widens_at_the_boundary() {
    let max = lus(a(u64::MAX - 1)).unwrap();
    assert!(max.eq_noun(&a(u64::MAX)));
    let over = lus(max).unwrap();
    let expected = big(Mpz::from(u64::MAX) + 1u64);
    assert!(over.eq_noun(&expected));
    assert!(!over.eq_noun(&a(u64::MAX)));
}

#[test]
fn lus_on_wide_representation_of_small_value() {
    let r = lus(big(Mpz::from(5u64))).unwrap();
    assert!(r.eq_noun(&a(6)));
}

#[test]
fn lus_on_pair_is_type_mismatch() {
    let r = lus(cell(a(1), a(2)));
    assert!(matches!(r, Err(NockError::TypeMismatch)));
}

#[test]
fn tis_equal_sides_is_yes() {
    let x = cell(a(1), cell(a(2), a(3)));
    let y = cell(a(1), cell(a(2), a(3)));
    let r = tis(cell(x, y)).unwrap();
    assert!(r.eq_noun(&a(0)));
}

#[test]
fn tis_distinct_sides_is_no() {
    let r = tis(cell(a(1), a(2))).unwrap();
    assert!(r.eq_noun(&a(1)));
}

#[test]
fn tis_ignores_number_representation() {
    let r = tis(cell(a(7), big(Mpz::from(7u64)))).unwrap();
    assert!(r.eq_noun(&a(0)));
}

#[test]
fn tis_on_atom_is_type_mismatch() {
    let r = tis(a(9));
    assert!(matches!(r, Err(NockError::TypeMismatch)));
}

#[test]
fn fas_slot_one_is_whole_subject() {
    let subj = cell(a(4), cell(a(5), a(6)));
    let r = fas(cell(a(1), subj)).unwrap();
    assert!(r.eq_noun(&cell(a(4), cell(a(5), a(6)))));
}

#[test]
fn fas_slot_two_and_three_are_children() {
    let left = fas(cell(a(2), cell(a(8), a(9)))).unwrap();
    assert!(left.eq_noun(&a(8)));
    let right = fas(cell(a(3), cell(a(8), a(9)))).unwrap();
    assert!(right.eq_noun(&a(9)));
}

#[test]
fn fas_deep_slots_follow_binary_path() {
    let subj = cell(cell(a(10), a(11)), cell(a(12), a(13)));
    let slots: [(u64, u64); 4] = [(4, 10), (5, 11), (6, 12), (7, 13)];
    for (k, want) in slots {
        let subj2 = cell(cell(a(10), a(11)), cell(a(12), a(13)));
        let r = fas(cell(a(k), subj2)).unwrap();
        assert!(r.eq_noun(&a(want)));
    }
    let r = fas(cell(a(1), subj)).unwrap();
    assert!(!r.eq_noun(&a(10)));
}

#[test]
fn fas_wide_representation_index() {
    let subj = cell(cell(a(10), a(11)), cell(a(12), a(13)));
    let idx = big(Mpz::from(6u64));
    let r = fas(cell(idx, subj)).unwrap();
    assert!(r.eq_noun(&a(12)));
}

#[test]
fn fas_slot_zero_is_malformed() {
    let r = fas(cell(a(0), a(7)));
    assert!(matches!(r, Err(NockError::MalformedAddress)));
}

#[test]
fn fas_descending_into_atom_is_malformed() {
    let r = fas(cell(a(2), a(7)));
    assert!(matches!(r, Err(NockError::MalformedAddress)));
}

#[test]
fn fas_pair_index_is_malformed() {
    let r = fas(cell(cell(a(1), a(2)), a(7)));
    assert!(matches!(r, Err(NockError::MalformedAddress)));
}

#[test]
fn fas_on_atom_is_malformed() {
    let r = fas(a(3));
    assert!(matches!(r, Err(NockError::MalformedAddress)));
}

#[test]
fn dup_copies_wide_atoms_by_value() {
    let n = big(Mpz::from(3u64) + u64::MAX);
    let copy = n.dup();
    assert!(copy.eq_noun(&n));
}

#[test]
fn eq_val_across_representations() {
    let narrow = Number::from_u64(12);
    let wide = Number::Bignum(Mpz::from(12u64));
    assert!(narrow.eq_val(&wide));
    assert!(wide.eq_val(&narrow));
    assert!(!wide.eq_val(&Number::from_u64(13)));
}
