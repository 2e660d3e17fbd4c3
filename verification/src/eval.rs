use vstd::prelude::*;
use vstd::pervasive::unreached;
use crate::number::Number;
use crate::noun::{Noun, NounV, v_atom, v_cell, yes_v, no_v, atom, cell};

verus! {

/// Why an evaluation failed. Every failure is fatal to the enclosing
/// evaluation and propagates out of the whole recursive call chain.
#[derive(Clone, Copy, Debug, PartialEq, Eq, Structural)]
pub enum NockError {
    /// An address of 0, an address that is not an atom, or a path that
    /// descends into something that is not a pair.
    MalformedAddress,
    /// An operand of the wrong shape for the operator applied to it.
    TypeMismatch,
    /// An opcode atom outside 0..=10.
    UnknownOpcode,
    /// An input to the engine that is not a pair of subject and formula.
    MalformedFormula,
}

/// The model of an evaluation result.
pub open spec fn res_view(r: Result<Noun, NockError>) -> Result<NounV, NockError> {
    match r {
        Ok(v) => Ok(v@),
        Err(e) => Err(e),
    }
}

/// The model of a fuel-bounded evaluation result; `None` is fuel running out.
pub open spec fn opt_res_view(r: Option<Result<Noun, NockError>>) -> Option<
    Result<NounV, NockError>,
> {
    match r {
        Some(x) => Some(res_view(x)),
        None => None,
    }
}

/// What the pair test returns: 0 for a cell, 1 for an atom. Total.
pub open spec fn wut_spec(n: NounV) -> NounV {
    match n {
        NounV::Cell(_, _) => yes_v(),
        NounV::Atom(_) => no_v(),
    }
}

/// What increment returns: the successor of an atom; a pair is a type error.
pub open spec fn lus_spec(n: NounV) -> Result<NounV, NockError> {
    match n {
        NounV::Atom(a) => Ok(v_atom((a + 1) as nat)),
        NounV::Cell(_, _) => Err(NockError::TypeMismatch),
    }
}

/// What the equality test returns: 0 when the two sides of a pair are
/// structurally equal, 1 otherwise; an atom is a type error.
pub open spec fn tis_spec(n: NounV) -> Result<NounV, NockError> {
    match n {
        NounV::Cell(a, b) => Ok(if *a == *b {
            yes_v()
        } else {
            no_v()
        }),
        NounV::Atom(_) => Err(NockError::TypeMismatch),
    }
}

/// Tree addressing by slot number: slot 1 is the whole subject, slot 2 the
/// left child, slot 3 the right child, and slot `k >= 4` first resolves
/// slot `k / 2` and then takes the left or right child by the parity of `k`.
pub open spec fn slot_spec(k: nat, s: NounV) -> Result<NounV, NockError>
    decreases k,
{
    if k == 0 {
        Err(NockError::MalformedAddress)
    } else if k == 1 {
        Ok(s)
    } else if k == 2 {
        match s {
            NounV::Cell(a, _) => Ok(*a),
            NounV::Atom(_) => Err(NockError::MalformedAddress),
        }
    } else if k == 3 {
        match s {
            NounV::Cell(_, b) => Ok(*b),
            NounV::Atom(_) => Err(NockError::MalformedAddress),
        }
    } else {
        match slot_spec(k / 2, s) {
            Ok(t) => if k % 2 == 0 {
                match t {
                    NounV::Cell(a, _) => Ok(*a),
                    NounV::Atom(_) => Err(NockError::MalformedAddress),
                }
            } else {
                match t {
                    NounV::Cell(_, b) => Ok(*b),
                    NounV::Atom(_) => Err(NockError::MalformedAddress),
                }
            },
            Err(e) => Err(e),
        }
    }
}

/// What the addressing operator returns on `[index subject]`.
pub open spec fn fas_spec(n: NounV) -> Result<NounV, NockError> {
    match n {
        NounV::Cell(idx, s) => match *idx {
            NounV::Atom(k) => slot_spec(k, *s),
            NounV::Cell(_, _) => Err(NockError::MalformedAddress),
        },
        NounV::Atom(_) => Err(NockError::MalformedAddress),
    }
}

/// Is `t` a pair? Returns 0 for a cell, 1 for an atom. Total, no failure.
pub fn wut(n: Noun) -> (r: Noun)
    ensures
        r@ == wut_spec(n@),
        n@ is Cell ==> r@ == yes_v(),
        n@ is Atom ==> r@ == no_v(),
        r.wf(),
{
    match n {
        Noun::Cell(_, _) => atom(0),
        Noun::Atom(_) => atom(1),
    }
}

/// Increment an atom, widening the representation transparently when the
/// compact range is exceeded. A pair cannot be incremented.
pub fn lus(n: Noun) -> (r: Result<Noun, NockError>)
    requires
        n.wf(),
    ensures
        res_view(r) == lus_spec(n@),
        n@ matches NounV::Atom(v) ==> r matches Ok(m) && m@ == v_atom((v + 1) as nat),
        n@ is Cell ==> r == Err::<Noun, NockError>(NockError::TypeMismatch),
        r matches Ok(v) ==> v.wf(),
{
    match n {
        Noun::Atom(a) => Ok(Noun::Atom(a.succ())),
        Noun::Cell(_, _) => Err(NockError::TypeMismatch),
    }
}

/// Test the two sides of a pair for structural equality: 0 when equal,
/// 1 when distinct. An atom has no two operands to compare.
pub fn tis(n: Noun) -> (r: Result<Noun, NockError>)
    requires
        n.wf(),
    ensures
        res_view(r) == tis_spec(n@),
        n@ matches NounV::Cell(a, b) && *a == *b ==> (r matches Ok(v) && v@ == yes_v()),
        n@ matches NounV::Cell(a, b) && *a != *b ==> (r matches Ok(v) && v@ == no_v()),
        n@ is Atom ==> r == Err::<Noun, NockError>(NockError::TypeMismatch),
        r matches Ok(v) ==> v.wf(),
{
    match n {
        Noun::Cell(a, b) => if a.eq_noun(&b) {
            Ok(atom(0))
        } else {
            Ok(atom(1))
        },
        Noun::Atom(_) => Err(NockError::TypeMismatch),
    }
}

/// Resolve slot `num` of `subj`.
fn slot(num: &Number, subj: &Noun) -> (r: Result<Noun, NockError>)
    requires
        num.wf(),
        subj.wf(),
    ensures
        res_view(r) == slot_spec(num.val(), subj@),
        r matches Ok(v) ==> v.wf(),
    decreases num.val(),
{
    if num.equiv(0) {
        Err(NockError::MalformedAddress)
    } else if num.equiv(1) {
        Ok(subj.dup())
    } else if num.equiv(2) {
        match subj {
            Noun::Cell(a, _) => Ok(a.dup()),
            Noun::Atom(_) => Err(NockError::MalformedAddress),
        }
    } else if num.equiv(3) {
        match subj {
            Noun::Cell(_, b) => Ok(b.dup()),
            Noun::Atom(_) => Err(NockError::MalformedAddress),
        }
    } else {
        let even = num.is_even();
        match slot(&num.half(), subj) {
            Ok(t) => if even {
                match t {
                    Noun::Cell(a, _) => Ok(*a),
                    Noun::Atom(_) => Err(NockError::MalformedAddress),
                }
            } else {
                match t {
                    Noun::Cell(_, b) => Ok(*b),
                    Noun::Atom(_) => Err(NockError::MalformedAddress),
                }
            },
            Err(e) => Err(e),
        }
    }
}

/// Look a numbered slot up inside a tree: the input is `[index subject]`,
/// and the binary digits of `index` after its leading one bit spell the
/// left/right path from the root of `subject`.
pub fn fas(n: Noun) -> (r: Result<Noun, NockError>)
    requires
        n.wf(),
    ensures
        res_view(r) == fas_spec(n@),
        r matches Ok(v) ==> v.wf(),
{
    match n {
        Noun::Cell(idx, subj) => {
            proof {
                assert(idx.wf() && subj.wf());
                assert(n@ == v_cell(idx@, subj@));
            }
            match *idx {
                Noun::Atom(num) => {
                    proof {
                        assert(num.wf());
                        assert(idx@ == NounV::Atom(num.val()));
                    }
                    slot(&num, &subj)
                },
                Noun::Cell(_, _) => Err(NockError::MalformedAddress),
            }
        },
        Noun::Atom(_) => Err(NockError::MalformedAddress),
    }
}

/// The if/then/else formula that opcode 6 expands into:
/// `[2 [0 1] 2 [1 c d] [1 0] 2 [1 2 3] [1 0] 4 4 b]`.
pub open spec fn expand_if(b: NounV, c: NounV, d: NounV) -> NounV {
    v_cell(
        v_atom(2),
        v_cell(
            v_cell(v_atom(0), v_atom(1)),
            v_cell(
                v_atom(2),
                v_cell(
                    v_cell(v_atom(1), v_cell(c, d)),
                    v_cell(
                        v_cell(v_atom(1), v_atom(0)),
                        v_cell(
                            v_atom(2),
                            v_cell(
                                v_cell(v_atom(1), v_cell(v_atom(2), v_atom(3))),
                                v_cell(
                                    v_cell(v_atom(1), v_atom(0)),
                                    v_cell(v_atom(4), v_cell(v_atom(4), b)),
                                ),
                            ),
                        ),
                    ),
                ),
            ),
        ),
    )
}

/// The composition formula that opcode 7 expands into: `[2 b 1 c]`.
pub open spec fn expand_compose(b: NounV, c: NounV) -> NounV {
    v_cell(v_atom(2), v_cell(b, v_cell(v_atom(1), c)))
}

/// The push formula that opcode 8 expands into: `[7 [[7 [0 1] b] 0 1] c]`.
pub open spec fn expand_push(b: NounV, c: NounV) -> NounV {
    v_cell(
        v_atom(7),
        v_cell(
            v_cell(
                v_cell(v_atom(7), v_cell(v_cell(v_atom(0), v_atom(1)), b)),
                v_cell(v_atom(0), v_atom(1)),
            ),
            c,
        ),
    )
}

/// The invocation formula that opcode 9 expands into: `[7 c 2 [0 1] 0 b]`.
pub open spec fn expand_invoke(b: NounV, c: NounV) -> NounV {
    v_cell(
        v_atom(7),
        v_cell(
            c,
            v_cell(v_atom(2), v_cell(v_cell(v_atom(0), v_atom(1)), v_cell(v_atom(0), b))),
        ),
    )
}

/// The formula that opcode 10 with a computed hint expands into:
/// `[8 c 7 [0 3] d]`.
pub open spec fn expand_hint(c: NounV, d: NounV) -> NounV {
    v_cell(
        v_atom(8),
        v_cell(c, v_cell(v_atom(7), v_cell(v_cell(v_atom(0), v_atom(3)), d))),
    )
}

/// One fuel-indexed step relation for the main engine: what reducing
/// `[subject formula]` yields, with `None` meaning the step budget ran out
/// (the rule set is Turing-complete, so no bound-free total function
/// exists). Every recursive re-entry spends one unit of fuel.
pub open spec fn tar_spec(n: NounV, fuel: nat) -> Option<Result<NounV, NockError>>
    decreases fuel,
{
    if fuel == 0 {
        None
    } else {
        let f = (fuel - 1) as nat;
        match n {
            NounV::Atom(_) => Some(Err(NockError::MalformedFormula)),
            NounV::Cell(subj0, formula0) => {
                let subj = *subj0;
                match *formula0 {
                    NounV::Atom(_) => Some(Err(NockError::MalformedFormula)),
                    NounV::Cell(op0, rest0) => {
                        let rest = *rest0;
                        match *op0 {
                            NounV::Cell(b, c) => {
                                // Distribution: a formula whose head is itself
                                // a pair splits into two evaluations.
                                match tar_spec(v_cell(subj, v_cell(*b, *c)), f) {
                                    None => None,
                                    Some(Err(e)) => Some(Err(e)),
                                    Some(Ok(x)) => match tar_spec(v_cell(subj, rest), f) {
                                        None => None,
                                        Some(Err(e)) => Some(Err(e)),
                                        Some(Ok(y)) => Some(Ok(v_cell(x, y))),
                                    },
                                }
                            },
                            NounV::Atom(k) => {
                                if k == 0 {
                                    Some(fas_spec(v_cell(rest, subj)))
                                } else if k == 1 {
                                    Some(Ok(rest))
                                } else if k == 2 {
                                    match rest {
                                        NounV::Cell(b, c) => {
                                            match tar_spec(v_cell(subj, *b), f) {
                                                None => None,
                                                Some(Err(e)) => Some(Err(e)),
                                                Some(Ok(x)) => match tar_spec(
                                                    v_cell(subj, *c),
                                                    f,
                                                ) {
                                                    None => None,
                                                    Some(Err(e)) => Some(Err(e)),
                                                    Some(Ok(y)) => tar_spec(v_cell(x, y), f),
                                                },
                                            }
                                        },
                                        NounV::Atom(_) => Some(Err(NockError::TypeMismatch)),
                                    }
                                } else if k == 3 {
                                    match tar_spec(v_cell(subj, rest), f) {
                                        None => None,
                                        Some(Err(e)) => Some(Err(e)),
                                        Some(Ok(x)) => Some(Ok(wut_spec(x))),
                                    }
                                } else if k == 4 {
                                    match tar_spec(v_cell(subj, rest), f) {
                                        None => None,
                                        Some(Err(e)) => Some(Err(e)),
                                        Some(Ok(x)) => Some(lus_spec(x)),
                                    }
                                } else if k == 5 {
                                    match tar_spec(v_cell(subj, rest), f) {
                                        None => None,
                                        Some(Err(e)) => Some(Err(e)),
                                        Some(Ok(x)) => Some(tis_spec(x)),
                                    }
                                } else if k == 6 {
                                    match rest {
                                        NounV::Cell(b, e) => match *e {
                                            NounV::Cell(c, d) => tar_spec(
                                                v_cell(subj, expand_if(*b, *c, *d)),
                                                f,
                                            ),
                                            NounV::Atom(_) => Some(Err(NockError::TypeMismatch)),
                                        },
                                        NounV::Atom(_) => Some(Err(NockError::TypeMismatch)),
                                    }
                                } else if k == 7 {
                                    match rest {
                                        NounV::Cell(b, c) => tar_spec(
                                            v_cell(subj, expand_compose(*b, *c)),
                                            f,
                                        ),
                                        NounV::Atom(_) => Some(Err(NockError::TypeMismatch)),
                                    }
                                } else if k == 8 {
                                    match rest {
                                        NounV::Cell(b, c) => tar_spec(
                                            v_cell(subj, expand_push(*b, *c)),
                                            f,
                                        ),
                                        NounV::Atom(_) => Some(Err(NockError::TypeMismatch)),
                                    }
                                } else if k == 9 {
                                    match rest {
                                        NounV::Cell(b, c) => tar_spec(
                                            v_cell(subj, expand_invoke(*b, *c)),
                                            f,
                                        ),
                                        NounV::Atom(_) => Some(Err(NockError::TypeMismatch)),
                                    }
                                } else if k == 10 {
                                    match rest {
                                        NounV::Cell(e, d) => match *e {
                                            NounV::Cell(_, c) => tar_spec(
                                                v_cell(subj, expand_hint(*c, *d)),
                                                f,
                                            ),
                                            // A static hint is discarded.
                                            NounV::Atom(_) => tar_spec(v_cell(subj, *d), f),
                                        },
                                        NounV::Atom(_) => Some(Err(NockError::TypeMismatch)),
                                    }
                                } else {
                                    Some(Err(NockError::UnknownOpcode))
                                }
                            },
                        }
                    },
                }
            },
        }
    }
}

fn build_if(b: Noun, c: Noun, d: Noun) -> (r: Noun)
    requires
        b.wf(),
        c.wf(),
        d.wf(),
    ensures
        r.wf(),
        r@ == expand_if(b@, c@, d@),
{
    cell(
        atom(2),
        cell(
            cell(atom(0), atom(1)),
            cell(
                atom(2),
                cell(
                    cell(atom(1), cell(c, d)),
                    cell(
                        cell(atom(1), atom(0)),
                        cell(
                            atom(2),
                            cell(
                                cell(atom(1), cell(atom(2), atom(3))),
                                cell(cell(atom(1), atom(0)), cell(atom(4), cell(atom(4), b))),
                            ),
                        ),
                    ),
                ),
            ),
        ),
    )
}

fn build_compose(b: Noun, c: Noun) -> (r: Noun)
    requires
        b.wf(),
        c.wf(),
    ensures
        r.wf(),
        r@ == expand_compose(b@, c@),
{
    cell(atom(2), cell(b, cell(atom(1), c)))
}

fn build_push(b: Noun, c: Noun) -> (r: Noun)
    requires
        b.wf(),
        c.wf(),
    ensures
        r.wf(),
        r@ == expand_push(b@, c@),
{
    cell(
        atom(7),
        cell(cell(cell(atom(7), cell(cell(atom(0), atom(1)), b)), cell(atom(0), atom(1))), c),
    )
}

fn build_invoke(b: Noun, c: Noun) -> (r: Noun)
    requires
        b.wf(),
        c.wf(),
    ensures
        r.wf(),
        r@ == expand_invoke(b@, c@),
{
    cell(
        atom(7),
        cell(c, cell(atom(2), cell(cell(atom(0), atom(1)), cell(atom(0), b)))),
    )
}

fn build_hint(c: Noun, d: Noun) -> (r: Noun)
    requires
        c.wf(),
        d.wf(),
    ensures
        r.wf(),
        r@ == expand_hint(c@, d@),
{
    cell(atom(8), cell(c, cell(atom(7), cell(cell(atom(0), atom(3)), d))))
}

/// Reduce `[subject formula]`, spending at most `fuel` re-entries; `None`
/// is the budget running out, never an answer about the program itself.
pub fn tar_fuel(n: Noun, fuel: u64) -> (r: Option<Result<Noun, NockError>>)
    requires
        n.wf(),
    ensures
        opt_res_view(r) == tar_spec(n@, fuel as nat),
        r matches Some(Ok(v)) ==> v.wf(),
    decreases fuel,
{
    if fuel == 0 {
        return None;
    }
    let f: u64 = fuel - 1;
    match n {
        Noun::Atom(_) => Some(Err(NockError::MalformedFormula)),
        Noun::Cell(subj, formula) => {
            proof {
                assert(subj.wf() && formula.wf());
                assert(n@ == v_cell(subj@, formula@));
            }
            match *formula {
                Noun::Atom(_) => Some(Err(NockError::MalformedFormula)),
                Noun::Cell(op, rest) => {
                    proof {
                        assert(op.wf() && rest.wf());
                        assert(formula@ == v_cell(op@, rest@));
                    }
                    match *op {
                        Noun::Cell(b, c) => {
                            proof {
                                assert(b.wf() && c.wf());
                                assert(op@ == v_cell(b@, c@));
                            }
                            let head = Noun::Cell(b, c);
                            let p1 = Noun::Cell(Box::new(subj.dup()), Box::new(head));
                            proof {
                                assert(p1.wf());
                                assert(p1@ == v_cell(subj@, v_cell(b@, c@)));
                            }
                            match tar_fuel(p1, f) {
                                None => None,
                                Some(Err(e)) => Some(Err(e)),
                                Some(Ok(x)) => {
                                    let p2 = Noun::Cell(subj, rest);
                                    proof {
                                        assert(p2.wf());
                                        assert(p2@ == v_cell(subj@, rest@));
                                    }
                                    match tar_fuel(p2, f) {
                                        None => None,
                                        Some(Err(e)) => Some(Err(e)),
                                        Some(Ok(y)) => Some(
                                            Ok(Noun::Cell(Box::new(x), Box::new(y))),
                                        ),
                                    }
                                },
                            }
                        },
                        Noun::Atom(num) => {
                            proof {
                                assert(num.wf());
                                assert(op@ == NounV::Atom(num.val()));
                            }
                            if num.equiv(0) {
                                let arg = Noun::Cell(rest, subj);
                                proof {
                                    assert(arg.wf());
                                    assert(arg@ == v_cell(rest@, subj@));
                                }
                                Some(fas(arg))
                            } else if num.equiv(1) {
                                Some(Ok(*rest))
                            } else if num.equiv(2) {
                                match *rest {
                                    Noun::Cell(b, c) => {
                                        proof {
                                            assert(b.wf() && c.wf());
                                            assert(rest@ == v_cell(b@, c@));
                                        }
                                        let p1 = Noun::Cell(Box::new(subj.dup()), b);
                                        proof {
                                            assert(p1.wf());
                                            assert(p1@ == v_cell(subj@, b@));
                                        }
                                        match tar_fuel(p1, f) {
                                            None => None,
                                            Some(Err(e)) => Some(Err(e)),
                                            Some(Ok(x)) => {
                                                let p2 = Noun::Cell(subj, c);
                                                proof {
                                                    assert(p2.wf());
                                                    assert(p2@ == v_cell(subj@, c@));
                                                }
                                                match tar_fuel(p2, f) {
                                                    None => None,
                                                    Some(Err(e)) => Some(Err(e)),
                                                    Some(Ok(y)) => {
                                                        let p3 = Noun::Cell(
                                                            Box::new(x),
                                                            Box::new(y),
                                                        );
                                                        proof {
                                                            assert(p3.wf());
                                                            assert(p3@ == v_cell(x@, y@));
                                                        }
                                                        tar_fuel(p3, f)
                                                    },
                                                }
                                            },
                                        }
                                    },
                                    Noun::Atom(_) => Some(Err(NockError::TypeMismatch)),
                                }
                            } else if num.equiv(3) {
                                let p = Noun::Cell(subj, rest);
                                proof {
                                    assert(p.wf());
                                    assert(p@ == v_cell(subj@, rest@));
                                }
                                match tar_fuel(p, f) {
                                    None => None,
                                    Some(Err(e)) => Some(Err(e)),
                                    Some(Ok(x)) => Some(Ok(wut(x))),
                                }
                            } else if num.equiv(4) {
                                let p = Noun::Cell(subj, rest);
                                proof {
                                    assert(p.wf());
                                    assert(p@ == v_cell(subj@, rest@));
                                }
                                match tar_fuel(p, f) {
                                    None => None,
                                    Some(Err(e)) => Some(Err(e)),
                                    Some(Ok(x)) => Some(lus(x)),
                                }
                            } else if num.equiv(5) {
                                let p = Noun::Cell(subj, rest);
                                proof {
                                    assert(p.wf());
                                    assert(p@ == v_cell(subj@, rest@));
                                }
                                match tar_fuel(p, f) {
                                    None => None,
                                    Some(Err(e)) => Some(Err(e)),
                                    Some(Ok(x)) => Some(tis(x)),
                                }
                            } else if num.equiv(6) {
                                match *rest {
                                    Noun::Cell(b, e) => {
                                        proof {
                                            assert(b.wf() && e.wf());
                                            assert(rest@ == v_cell(b@, e@));
                                        }
                                        match *e {
                                            Noun::Cell(c, d) => {
                                                proof {
                                                    assert(c.wf() && d.wf());
                                                    assert(e@ == v_cell(c@, d@));
                                                }
                                                let fx = build_if(*b, *c, *d);
                                                let arg = Noun::Cell(subj, Box::new(fx));
                                                proof {
                                                    assert(arg.wf());
                                                    assert(arg@ == v_cell(subj@, fx@));
                                                }
                                                tar_fuel(arg, f)
                                            },
                                            Noun::Atom(_) => Some(Err(NockError::TypeMismatch)),
                                        }
                                    },
                                    Noun::Atom(_) => Some(Err(NockError::TypeMismatch)),
                                }
                            } else if num.equiv(7) {
                                match *rest {
                                    Noun::Cell(b, c) => {
                                        proof {
                                            assert(b.wf() && c.wf());
                                            assert(rest@ == v_cell(b@, c@));
                                        }
                                        let fx = build_compose(*b, *c);
                                        let arg = Noun::Cell(subj, Box::new(fx));
                                        proof {
                                            assert(arg.wf());
                                            assert(arg@ == v_cell(subj@, fx@));
                                        }
                                        tar_fuel(arg, f)
                                    },
                                    Noun::Atom(_) => Some(Err(NockError::TypeMismatch)),
                                }
                            } else if num.equiv(8) {
                                match *rest {
                                    Noun::Cell(b, c) => {
                                        proof {
                                            assert(b.wf() && c.wf());
                                            assert(rest@ == v_cell(b@, c@));
                                        }
                                        let fx = build_push(*b, *c);
                                        let arg = Noun::Cell(subj, Box::new(fx));
                                        proof {
                                            assert(arg.wf());
                                            assert(arg@ == v_cell(subj@, fx@));
                                        }
                                        tar_fuel(arg, f)
                                    },
                                    Noun::Atom(_) => Some(Err(NockError::TypeMismatch)),
                                }
                            } else if num.equiv(9) {
                                match *rest {
                                    Noun::Cell(b, c) => {
                                        proof {
                                            assert(b.wf() && c.wf());
                                            assert(rest@ == v_cell(b@, c@));
                                        }
                                        let fx = build_invoke(*b, *c);
                                        let arg = Noun::Cell(subj, Box::new(fx));
                                        proof {
                                            assert(arg.wf());
                                            assert(arg@ == v_cell(subj@, fx@));
                                        }
                                        tar_fuel(arg, f)
                                    },
                                    Noun::Atom(_) => Some(Err(NockError::TypeMismatch)),
                                }
                            } else if num.equiv(10) {
                                match *rest {
                                    Noun::Cell(e, d) => {
                                        proof {
                                            assert(e.wf() && d.wf());
                                            assert(rest@ == v_cell(e@, d@));
                                        }
                                        match *e {
                                            Noun::Cell(_, c) => {
                                                proof {
                                                    assert(c.wf());
                                                }
                                                let fx = build_hint(*c, *d);
                                                let arg = Noun::Cell(subj, Box::new(fx));
                                                proof {
                                                    assert(arg.wf());
                                                    assert(arg@ == v_cell(subj@, fx@));
                                                }
                                                tar_fuel(arg, f)
                                            },
                                            Noun::Atom(_) => {
                                                let arg = Noun::Cell(subj, d);
                                                proof {
                                                    assert(arg.wf());
                                                    assert(arg@ == v_cell(subj@, d@));
                                                }
                                                tar_fuel(arg, f)
                                            },
                                        }
                                    },
                                    Noun::Atom(_) => Some(Err(NockError::TypeMismatch)),
                                }
                            } else {
                                Some(Err(NockError::UnknownOpcode))
                            }
                        },
                    }
                },
            }
        },
    }
}

/// Reduce a `[subject formula]` pair to its result tree. The rule set is
/// Turing-complete, so an answer is only owed when the evaluation reaches
/// one within the engine's step budget of `u64::MAX` re-entries; that is
/// the second precondition, and by `lemma_tar_mono` the budget has no
/// other effect on the answer. An evaluation that needs more steps than
/// that does not finish on this machine either way.
pub fn tar(n: Noun) -> (r: Result<Noun, NockError>)
    requires
        n.wf(),
        tar_spec(n@, u64::MAX as nat) is Some,
    ensures
        Some(res_view(r)) == tar_spec(n@, u64::MAX as nat),
        r matches Ok(v) ==> v.wf(),
{
    match tar_fuel(n, u64::MAX) {
        Some(r) => r,
        None => unreached(),
    }
}

/// The evaluation entry point: reduce one `[subject formula]` tree.
pub fn nock(n: Noun) -> (r: Result<Noun, NockError>)
    requires
        n.wf(),
        tar_spec(n@, u64::MAX as nat) is Some,
    ensures
        Some(res_view(r)) == tar_spec(n@, u64::MAX as nat),
        r matches Ok(v) ==> v.wf(),
{
    tar(n)
}

/// The canonical demonstration: against the subject `[19 42]`, the
/// formula `[[0 3] [0 2]]` distributes into two slot lookups, slot 3
/// giving 42 and slot 2 giving 19, so the result is `[42 19]`.
pub fn simple_eval() -> (r: Result<Noun, NockError>)
    ensures
        r matches Ok(v) && v@ == v_cell(v_atom(42), v_atom(19)),
        r matches Ok(v) ==> v.wf(),
{
    let subject = cell(atom(19), atom(42));
    let formula = cell(cell(atom(0), atom(3)), cell(atom(0), atom(2)));
    let n = cell(subject, formula);
    proof {
        crate::laws::lemma_canonical_example();
    }
    tar(n)
}

} // verus!
