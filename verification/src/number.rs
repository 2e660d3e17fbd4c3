use vstd::prelude::*;
use gmp::mpz::Mpz;

verus! {

// The arbitrary-precision backend. `Mpz` is opaque to the verifier; the
// wrappers below state, over the two names `mpz_nat` and `mpz_is_nat`,
// exactly what each call is relied upon for.

#[verifier::external_type_specification]
#[verifier::external_body]
pub struct ExMpz(Mpz);

/// The natural number that a non-negative `Mpz` denotes.
pub uninterp spec fn mpz_nat(m: Mpz) -> nat;

/// Whether an `Mpz` holds a natural number, with `mpz_nat` giving its value.
pub uninterp spec fn mpz_is_nat(m: Mpz) -> bool;

/// Relies on `From<u64> for Mpz`: the imported value is exactly `u`.
#[verifier::external_body]
fn mpz_from_u64(u: u64) -> (r: Mpz)
    ensures
        mpz_is_nat(r),
        mpz_nat(r) == u as nat,
{
    Mpz::from(u)
}

/// Relies on `Add<u64> for &Mpz` (gmp's `add_ui`): the sum of the two values.
#[verifier::external_body]
fn mpz_add_u64(m: &Mpz, u: u64) -> (r: Mpz)
    requires
        mpz_is_nat(*m),
    ensures
        mpz_is_nat(r),
        mpz_nat(r) == mpz_nat(*m) + u as nat,
{
    m + u
}

/// Relies on `PartialEq for Mpz` (gmp's `cmp`): equal exactly when the
/// denoted values are equal.
#[verifier::external_body]
fn mpz_eq(a: &Mpz, b: &Mpz) -> (r: bool)
    requires
        mpz_is_nat(*a),
        mpz_is_nat(*b),
    ensures
        r == (mpz_nat(*a) == mpz_nat(*b)),
{
    a == b
}

/// Relies on `Mpz::tstbit`: bit 0 of a non-negative value is its parity.
#[verifier::external_body]
fn mpz_is_odd(m: &Mpz) -> (r: bool)
    requires
        mpz_is_nat(*m),
    ensures
        r == (mpz_nat(*m) % 2 == 1),
{
    m.tstbit(0)
}

/// Relies on `Shr<usize> for &Mpz` (gmp's `fdiv_q_2exp`): floor division
/// of a non-negative value by two.
#[verifier::external_body]
fn mpz_half(m: &Mpz) -> (r: Mpz)
    requires
        mpz_is_nat(*m),
    ensures
        mpz_is_nat(r),
        mpz_nat(r) == mpz_nat(*m) / 2,
{
    m >> 1usize
}

/// Relies on `Clone for Mpz`: a copy with the same value.
#[verifier::external_body]
fn mpz_clone(m: &Mpz) -> (r: Mpz)
    requires
        mpz_is_nat(*m),
    ensures
        mpz_is_nat(r),
        mpz_nat(r) == mpz_nat(*m),
{
    m.clone()
}

/// A natural number, held compactly in a machine word when it was built
/// from one, and as an arbitrary-precision integer otherwise. The two
/// representations denote the same mathematical values; every operation
/// below compares and computes by value, never by representation.
#[derive(Debug)]
pub enum Number {
    Native(u64),
    Bignum(Mpz),
}

impl Number {
    /// The mathematical value of this number.
    pub open spec fn val(&self) -> nat {
        match self {
            Number::Native(u) => *u as nat,
            Number::Bignum(m) => mpz_nat(*m),
        }
    }

    /// A valid number: an arbitrary-precision atom holds a natural.
    pub open spec fn wf(&self) -> bool {
        match self {
            Number::Native(_) => true,
            Number::Bignum(m) => mpz_is_nat(*m),
        }
    }

    /// Build a number from a machine word.
    pub fn from_u64(u: u64) -> (r: Number)
        ensures
            r.wf(),
            r.val() == u as nat,
    {
        Number::Native(u)
    }

    /// An equal copy.
    pub fn dup(&self) -> (r: Number)
        requires
            self.wf(),
        ensures
            r.wf(),
            r.val() == self.val(),
    {
        match self {
            Number::Native(u) => Number::Native(*u),
            Number::Bignum(m) => Number::Bignum(mpz_clone(m)),
        }
    }

    /// Does the value equal the small constant `u`? Used for opcode and
    /// address dispatch, independent of the representation in use.
    pub fn equiv(&self, u: u64) -> (r: bool)
        requires
            self.wf(),
        ensures
            r == (self.val() == u as nat),
    {
        match self {
            Number::Native(n) => *n == u,
            Number::Bignum(m) => {
                let mu = mpz_from_u64(u);
                mpz_eq(m, &mu)
            },
        }
    }

    /// Value equality, across either representation.
    pub fn eq_val(&self, other: &Number) -> (r: bool)
        requires
            self.wf(),
            other.wf(),
        ensures
            r == (self.val() == other.val()),
    {
        match (self, other) {
            (Number::Native(a), Number::Native(b)) => *a == *b,
            (Number::Native(a), Number::Bignum(m)) => {
                let ma = mpz_from_u64(*a);
                mpz_eq(&ma, m)
            },
            (Number::Bignum(m), Number::Native(b)) => {
                let mb = mpz_from_u64(*b);
                mpz_eq(m, &mb)
            },
            (Number::Bignum(x), Number::Bignum(y)) => mpz_eq(x, y),
        }
    }

    /// The successor, widening transparently at the top of the machine range.
    pub fn succ(&self) -> (r: Number)
        requires
            self.wf(),
        ensures
            r.wf(),
            r.val() == self.val() + 1,
    {
        match self {
            Number::Native(u) => {
                if *u < u64::MAX {
                    Number::Native(*u + 1)
                } else {
                    let m = mpz_from_u64(u64::MAX);
                    Number::Bignum(mpz_add_u64(&m, 1))
                }
            },
            Number::Bignum(m) => Number::Bignum(mpz_add_u64(m, 1)),
        }
    }

    /// Is the value even?
    pub fn is_even(&self) -> (r: bool)
        requires
            self.wf(),
        ensures
            r == (self.val() % 2 == 0),
    {
        match self {
            Number::Native(u) => *u % 2 == 0,
            Number::Bignum(m) => !mpz_is_odd(m),
        }
    }

    /// Half the value, rounded down.
    pub fn half(&self) -> (r: Number)
        requires
            self.wf(),
        ensures
            r.wf(),
            r.val() == self.val() / 2,
    {
        match self {
            Number::Native(u) => Number::Native(*u / 2),
            Number::Bignum(m) => Number::Bignum(mpz_half(m)),
        }
    }
}

} // verus!
