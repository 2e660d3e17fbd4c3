use vstd::prelude::*;
use crate::number::Number;

verus! {

/// A noun: an atom holding a natural number, or an ordered pair of nouns.
/// Immutable and acyclic; every operator is a pure function on nouns.
#[derive(Debug)]
pub enum Noun {
    Atom(Number),
    Cell(Box<Noun>, Box<Noun>),
}

/// The mathematical shape of a noun: a binary tree of naturals. This is
/// the model that every contract speaks of; which representation a number
/// is held in is invisible here.
pub enum NounV {
    Atom(nat),
    Cell(Box<NounV>, Box<NounV>),
}

/// An atom of the model.
pub open spec fn v_atom(k: nat) -> NounV {
    NounV::Atom(k)
}

/// A cell of the model.
pub open spec fn v_cell(a: NounV, b: NounV) -> NounV {
    NounV::Cell(Box::new(a), Box::new(b))
}

/// The affirmative result: 0.
pub open spec fn yes_v() -> NounV {
    v_atom(0)
}

/// The negative result: 1.
pub open spec fn no_v() -> NounV {
    v_atom(1)
}

pub open spec fn noun_view(n: Noun) -> NounV
    decreases n,
{
    match n {
        Noun::Atom(a) => NounV::Atom(a.val()),
        Noun::Cell(p, q) => NounV::Cell(Box::new(noun_view(*p)), Box::new(noun_view(*q))),
    }
}

impl View for Noun {
    type V = NounV;

    open spec fn view(&self) -> NounV {
        noun_view(*self)
    }
}

impl Noun {
    /// Every number inside is valid.
    pub open spec fn wf(&self) -> bool
        decreases self,
    {
        match self {
            Noun::Atom(a) => a.wf(),
            Noun::Cell(p, q) => p.wf() && q.wf(),
        }
    }

    /// A structurally equal copy.
    pub fn dup(&self) -> (r: Noun)
        requires
            self.wf(),
        ensures
            r.wf(),
            r@ == self@,
        decreases self,
    {
        match self {
            Noun::Atom(a) => Noun::Atom(a.dup()),
            Noun::Cell(p, q) => Noun::Cell(Box::new(p.dup()), Box::new(q.dup())),
        }
    }

    /// Structural equality, comparing atoms by value so that the two
    /// internal number representations are never observable.
    pub fn eq_noun(&self, other: &Noun) -> (r: bool)
        requires
            self.wf(),
            other.wf(),
        ensures
            r == (self@ == other@),
        decreases self,
    {
        match (self, other) {
            (Noun::Atom(a), Noun::Atom(b)) => a.eq_val(b),
            (Noun::Cell(p1, q1), Noun::Cell(p2, q2)) => p1.eq_noun(p2) && q1.eq_noun(q2),
            _ => false,
        }
    }
}

/// Build an atom from a machine word.
pub fn atom(u: u64) -> (r: Noun)
    ensures
        r.wf(),
        r@ == v_atom(u as nat),
{
    Noun::Atom(Number::from_u64(u))
}

/// Build a cell of two nouns.
pub fn cell(a: Noun, b: Noun) -> (r: Noun)
    ensures
        a.wf() && b.wf() ==> r.wf(),
        r@ == v_cell(a@, b@),
{
    Noun::Cell(Box::new(a), Box::new(b))
}

} // verus!
