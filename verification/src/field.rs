//! Arithmetic in the prime field of order `Q`.
//!
//! Every element is held as its canonical residue in `0..Q`; there is no
//! centered representation. The spec functions `field_add`, `field_sub`,
//! `field_neg` and `field_mul` define the operations on mathematical
//! integers, and the methods of [`FieldElement`] compute them.

use vstd::prelude::*;
use vstd::arithmetic::div_mod::*;
use vstd::arithmetic::mul::*;
use crate::params::Q;
use crate::error::InputShapeError;

verus! {

/// Whether `x` is a canonical residue.
pub open spec fn is_residue(x: int) -> bool {
    0 <= x < Q as int
}

/// Sum of two integers in the field.
pub open spec fn field_add(a: int, b: int) -> int {
    (a + b) % (Q as int)
}

/// Difference of two integers in the field.
pub open spec fn field_sub(a: int, b: int) -> int {
    (a - b) % (Q as int)
}

/// Additive inverse of an integer in the field.
pub open spec fn field_neg(a: int) -> int {
    (-a) % (Q as int)
}

/// Product of two integers in the field.
pub open spec fn field_mul(a: int, b: int) -> int {
    (a * b) % (Q as int)
}

/// An element of the field, held as its canonical residue.
#[derive(Clone, Copy, Debug, PartialEq, Eq, Structural)]
pub struct FieldElement {
    value: u32,
}

impl View for FieldElement {
    type V = int;

    closed spec fn view(&self) -> int {
        self.value as int
    }
}

impl FieldElement {
    #[verifier::type_invariant]
    spec fn canonical(self) -> bool {
        self.value < Q
    }

    /// The additive identity.
    pub fn zero() -> (r: FieldElement)
        ensures
            r@ == 0,
    {
        FieldElement { value: 0 }
    }

    /// The multiplicative identity.
    pub fn one() -> (r: FieldElement)
        ensures
            r@ == 1,
    {
        FieldElement { value: 1 }
    }

    /// Converts a raw magnitude to a field element. A magnitude that is not
    /// below `Q` is an input error; it is never reduced.
    pub fn from_magnitude(magnitude: u32) -> (r: Result<FieldElement, InputShapeError>)
        ensures
            magnitude < Q ==> r.is_ok() && r.unwrap()@ == magnitude,
            magnitude >= Q ==> r == Err::<FieldElement, InputShapeError>(
                InputShapeError::OutOfRange { index: 0, magnitude },
            ),
    {
        if magnitude < Q {
            Ok(FieldElement { value: magnitude })
        } else {
            Err(InputShapeError::OutOfRange { index: 0, magnitude })
        }
    }

    /// Wraps a magnitude already known to be a canonical residue.
    pub(crate) fn from_residue(residue: u32) -> (r: FieldElement)
        requires
            residue < Q,
        ensures
            r@ == residue,
    {
        FieldElement { value: residue }
    }

    /// The canonical residue of this element.
    pub fn to_magnitude(&self) -> (m: u32)
        ensures
            m == self@,
            m < Q,
    {
        proof {
            use_type_invariant(self);
        }
        self.value
    }

    /// `self + rhs` in the field.
    pub fn add(&self, rhs: &FieldElement) -> (r: FieldElement)
        ensures
            r@ == field_add(self@, rhs@),
    {
        proof {
            use_type_invariant(self);
            use_type_invariant(rhs);
        }
        let sum: u32 = self.value + rhs.value;
        let value: u32 = if sum >= Q { sum - Q } else { sum };
        FieldElement { value }
    }

    /// `self - rhs` in the field.
    pub fn sub(&self, rhs: &FieldElement) -> (r: FieldElement)
        ensures
            r@ == field_sub(self@, rhs@),
    {
        proof {
            use_type_invariant(self);
            use_type_invariant(rhs);
        }
        let value: u32 = if self.value >= rhs.value {
            self.value - rhs.value
        } else {
            self.value + (Q - rhs.value)
        };
        FieldElement { value }
    }

    /// `-self` in the field.
    pub fn neg(&self) -> (r: FieldElement)
        ensures
            r@ == field_neg(self@),
    {
        proof {
            use_type_invariant(self);
        }
        let value: u32 = if self.value == 0 { 0 } else { Q - self.value };
        FieldElement { value }
    }

    /// `self * rhs` in the field.
    pub fn mul(&self, rhs: &FieldElement) -> (r: FieldElement)
        ensures
            r@ == field_mul(self@, rhs@),
    {
        proof {
            use_type_invariant(self);
            use_type_invariant(rhs);
            assert(0 <= self.value * rhs.value <= 8_380_416 * 8_380_416) by (nonlinear_arith)
                requires
                    self.value <= 8_380_416,
                    rhs.value <= 8_380_416,
            ;
        }
        let wide: u64 = (self.value as u64) * (rhs.value as u64);
        let value: u32 = (wide % (Q as u64)) as u32;
        FieldElement { value }
    }
}

/// Every operation of the field yields a canonical residue, whatever
/// integers it is given.
pub proof fn lemma_results_are_residues(a: int, b: int)
    ensures
        is_residue(field_add(a, b)),
        is_residue(field_sub(a, b)),
        is_residue(field_neg(a)),
        is_residue(field_mul(a, b)),
{
    lemma_mod_bound(a + b, Q as int);
    lemma_mod_bound(a - b, Q as int);
    lemma_mod_bound(-a, Q as int);
    lemma_mod_bound(a * b, Q as int);
}

/// Addition is commutative and associative, and zero is its identity.
pub proof fn lemma_add_laws(a: int, b: int, c: int)
    requires
        is_residue(a),
    ensures
        field_add(a, b) == field_add(b, a),
        field_add(field_add(a, b), c) == field_add(a, field_add(b, c)),
        field_add(a, 0) == a,
{
    lemma_add_mod_noop(a + b, c, Q as int);
    lemma_add_mod_noop(a, b + c, Q as int);
    lemma_mod_twice(a + b, Q as int);
    lemma_mod_twice(b + c, Q as int);
    lemma_add_mod_noop((a + b) % (Q as int), c, Q as int);
    lemma_add_mod_noop(a, (b + c) % (Q as int), Q as int);
    lemma_small_mod(a as nat, Q as nat);
}

/// The negative of an element is its additive inverse, and subtracting is
/// adding the negative.
pub proof fn lemma_neg_laws(a: int, b: int)
    ensures
        field_add(a, field_neg(a)) == 0,
        field_sub(a, b) == field_add(a, field_neg(b)),
        field_neg(field_neg(a)) == a % (Q as int),
{
    lemma_add_mod_noop_right(a, -a, Q as int);
    lemma_add_mod_noop_right(a, -b, Q as int);
    lemma_sub_mod_noop_right(0, -a, Q as int);
    assert(0 - (-a) == a);
    assert(-((-a) % (Q as int)) == 0 - ((-a) % (Q as int)));
}

/// Multiplication is commutative and associative, one is its identity, and
/// it distributes over addition.
pub proof fn lemma_mul_laws(a: int, b: int, c: int)
    requires
        is_residue(a),
    ensures
        field_mul(a, b) == field_mul(b, a),
        field_mul(field_mul(a, b), c) == field_mul(a, field_mul(b, c)),
        field_mul(a, 1) == a,
        field_mul(a, field_add(b, c)) == field_add(field_mul(a, b), field_mul(a, c)),
{
    let q = Q as int;
    lemma_mul_is_commutative(a, b);
    lemma_mul_is_associative(a, b, c);
    lemma_mul_mod_noop_left(a * b, c, q);
    lemma_mul_mod_noop_right(a, b * c, q);
    lemma_mul_basics(a);
    lemma_small_mod(a as nat, Q as nat);
    lemma_mul_mod_noop_right(a, b + c, q);
    lemma_mul_is_distributive_add(a, b, c);
    lemma_add_mod_noop(a * b, a * c, q);
}

} // verus!
