use vstd::prelude::*;
use crate::noun::{NounV, v_atom, v_cell};
use crate::eval::{
    NockError, tar_spec, fas_spec, slot_spec, expand_if, expand_compose, expand_push,
    expand_invoke, expand_hint,
};

verus! {

/// More fuel never changes an answer that was already reached: the step
/// relation is monotone in its budget, so the budget is a resource limit
/// and not part of the meaning of a program.
pub proof fn lemma_tar_mono(n: NounV, f1: nat, f2: nat)
    requires
        f1 <= f2,
        tar_spec(n, f1) is Some,
    ensures
        tar_spec(n, f2) == tar_spec(n, f1),
    decreases f1,
{
    if f1 == 0 {
        assert(false);
    } else {
        let g1 = (f1 - 1) as nat;
        let g2 = (f2 - 1) as nat;
        match n {
            NounV::Atom(_) => {},
            NounV::Cell(subj0, formula0) => {
                let subj = *subj0;
                match *formula0 {
                    NounV::Atom(_) => {},
                    NounV::Cell(op0, rest0) => {
                        let rest = *rest0;
                        match *op0 {
                            NounV::Cell(b, c) => {
                                let p1 = v_cell(subj, v_cell(*b, *c));
                                let p2 = v_cell(subj, rest);
                                assert(tar_spec(p1, g1) is Some);
                                lemma_tar_mono(p1, g1, g2);
                                if let Some(Ok(_)) = tar_spec(p1, g1) {
                                    assert(tar_spec(p2, g1) is Some);
                                    lemma_tar_mono(p2, g1, g2);
                                }
                            },
                            NounV::Atom(k) => {
                                if k == 2 {
                                    if let NounV::Cell(bb, cc) = rest {
                                        let pb = v_cell(subj, *bb);
                                        assert(tar_spec(pb, g1) is Some);
                                        lemma_tar_mono(pb, g1, g2);
                                        if let Some(Ok(x)) = tar_spec(pb, g1) {
                                            let pc = v_cell(subj, *cc);
                                            assert(tar_spec(pc, g1) is Some);
                                            lemma_tar_mono(pc, g1, g2);
                                            if let Some(Ok(y)) = tar_spec(pc, g1) {
                                                let pxy = v_cell(x, y);
                                                assert(tar_spec(pxy, g1) is Some);
                                                lemma_tar_mono(pxy, g1, g2);
                                            }
                                        }
                                    }
                                } else if k == 3 || k == 4 || k == 5 {
                                    let pb = v_cell(subj, rest);
                                    assert(tar_spec(pb, g1) is Some);
                                    lemma_tar_mono(pb, g1, g2);
                                } else if k == 6 {
                                    if let NounV::Cell(bb, e) = rest {
                                        if let NounV::Cell(cc, dd) = *e {
                                            let pb = v_cell(subj, expand_if(*bb, *cc, *dd));
                                            assert(tar_spec(pb, g1) is Some);
                                            lemma_tar_mono(pb, g1, g2);
                                        }
                                    }
                                } else if k == 7 {
                                    if let NounV::Cell(bb, cc) = rest {
                                        let pb = v_cell(subj, expand_compose(*bb, *cc));
                                        assert(tar_spec(pb, g1) is Some);
                                        lemma_tar_mono(pb, g1, g2);
                                    }
                                } else if k == 8 {
                                    if let NounV::Cell(bb, cc) = rest {
                                        let pb = v_cell(subj, expand_push(*bb, *cc));
                                        assert(tar_spec(pb, g1) is Some);
                                        lemma_tar_mono(pb, g1, g2);
                                    }
                                } else if k == 9 {
                                    if let NounV::Cell(bb, cc) = rest {
                                        let pb = v_cell(subj, expand_invoke(*bb, *cc));
                                        assert(tar_spec(pb, g1) is Some);
                                        lemma_tar_mono(pb, g1, g2);
                                    }
                                } else if k == 10 {
                                    if let NounV::Cell(e, dd) = rest {
                                        match *e {
                                            NounV::Cell(_, cc) => {
                                                let pb = v_cell(subj, expand_hint(*cc, *dd));
                                                assert(tar_spec(pb, g1) is Some);
                                                lemma_tar_mono(pb, g1, g2);
                                            },
                                            NounV::Atom(_) => {
                                                let pb = v_cell(subj, *dd);
                                                assert(tar_spec(pb, g1) is Some);
                                                lemma_tar_mono(pb, g1, g2);
                                            },
                                        }
                                    }
                                }
                            },
                        }
                    },
                }
            },
        }
    }
}

/// Distribution law: a formula whose head is itself a pair reduces its
/// two sub-formulas against the same subject independently, and the
/// results are recombined into a pair.
pub proof fn lemma_distribution(
    subj: NounV,
    b: NounV,
    c: NounV,
    d: NounV,
    f1: nat,
    f2: nat,
    r1: NounV,
    r2: NounV,
)
    requires
        tar_spec(v_cell(subj, v_cell(b, c)), f1) == Some(Ok::<NounV, NockError>(r1)),
        tar_spec(v_cell(subj, d), f2) == Some(Ok::<NounV, NockError>(r2)),
    ensures
        tar_spec(
            v_cell(subj, v_cell(v_cell(b, c), d)),
            ((if f1 <= f2 {
                f2
            } else {
                f1
            }) + 1) as nat,
        ) == Some(Ok::<NounV, NockError>(v_cell(r1, r2))),
{
    let g = if f1 <= f2 {
        f2
    } else {
        f1
    };
    lemma_tar_mono(v_cell(subj, v_cell(b, c)), f1, g);
    lemma_tar_mono(v_cell(subj, d), f2, g);
}

/// The converse direction of the distribution law: a successful reduction
/// of a pair-headed formula can only have come from successful reductions
/// of both sub-formulas, and its result is exactly their pair.
pub proof fn lemma_distribution_inv(subj: NounV, b: NounV, c: NounV, d: NounV, f: nat)
    ensures
        tar_spec(v_cell(subj, v_cell(v_cell(b, c), d)), f) matches Some(Ok(r)) ==> ({
            &&& 1 <= f
            &&& tar_spec(v_cell(subj, v_cell(b, c)), (f - 1) as nat) matches Some(Ok(r1))
            &&& tar_spec(v_cell(subj, d), (f - 1) as nat) matches Some(Ok(r2))
            &&& r == v_cell(r1, r2)
        }),
{
}

/// Opcode 0 is slot lookup: `[subj [0 b]]` reduces to addressing slot `b`
/// of the subject, for every operand `b`.
pub proof fn lemma_opcode_zero(subj: NounV, b: NounV, fuel: nat)
    requires
        1 <= fuel,
    ensures
        tar_spec(v_cell(subj, v_cell(v_atom(0), b)), fuel) == Some(fas_spec(v_cell(b, subj))),
{
}

/// Opcode 1 is quotation: `[subj [1 b]]` reduces to `b` itself, with the
/// subject ignored entirely.
pub proof fn lemma_opcode_one(subj: NounV, b: NounV, fuel: nat)
    requires
        1 <= fuel,
    ensures
        tar_spec(v_cell(subj, v_cell(v_atom(1), b)), fuel) == Some(Ok::<NounV, NockError>(b)),
{
}

/// Slot 1 of any tree is the whole tree.
pub proof fn lemma_address_whole(a: NounV)
    ensures
        fas_spec(v_cell(v_atom(1), a)) == Ok::<NounV, NockError>(a),
{
}

/// Slot 2 of a pair is its left child and slot 3 its right child.
pub proof fn lemma_address_children(b: NounV, c: NounV)
    ensures
        fas_spec(v_cell(v_atom(2), v_cell(b, c))) == Ok::<NounV, NockError>(b),
        fas_spec(v_cell(v_atom(3), v_cell(b, c))) == Ok::<NounV, NockError>(c),
{
}

/// The canonical demonstration: against the subject `[19 42]`, the
/// formula `[[0 3] [0 2]]` distributes into two slot lookups and yields
/// `[42 19]`.
pub proof fn lemma_canonical_example()
    ensures
        tar_spec(
            v_cell(
                v_cell(v_atom(19), v_atom(42)),
                v_cell(v_cell(v_atom(0), v_atom(3)), v_cell(v_atom(0), v_atom(2))),
            ),
            u64::MAX as nat,
        ) == Some(Ok::<NounV, NockError>(v_cell(v_atom(42), v_atom(19)))),
{
    let s = v_cell(v_atom(19), v_atom(42));
    let fa = v_cell(v_atom(0), v_atom(3));
    let fb = v_cell(v_atom(0), v_atom(2));
    let n = v_cell(s, v_cell(fa, fb));
    assert(slot_spec(3, s) == Ok::<NounV, NockError>(v_atom(42)));
    assert(slot_spec(2, s) == Ok::<NounV, NockError>(v_atom(19)));
    lemma_opcode_zero(s, v_atom(3), 1);
    lemma_opcode_zero(s, v_atom(2), 1);
    assert(tar_spec(v_cell(s, fa), 1) == Some(Ok::<NounV, NockError>(v_atom(42))));
    assert(tar_spec(v_cell(s, fb), 1) == Some(Ok::<NounV, NockError>(v_atom(19))));
    lemma_distribution(s, v_atom(0), v_atom(3), fb, 1, 1, v_atom(42), v_atom(19));
    lemma_tar_mono(n, 2, u64::MAX as nat);
}

} // verus!
