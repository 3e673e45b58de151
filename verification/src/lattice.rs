//! Module vectors: `K` ring elements of `N` field coefficients each.
//!
//! A module vector is read from, and written to, one flat sequence of
//! `K * N` magnitudes in which ring element `i` occupies positions
//! `i * N .. (i + 1) * N`. All operations act coefficient by coefficient.

use vstd::prelude::*;
use crate::params::{K, MODULE_COEFFS, N, Q};
use crate::error::InputShapeError;
use crate::field::{field_add, field_mul, field_neg, field_sub, is_residue, FieldElement};
use crate::shape::{all_residues, check_shape, shape_error};

verus! {

/// The module vector laid out in `flat`, ring element after ring element.
pub open spec fn module_of(flat: Seq<u32>) -> Seq<Seq<int>> {
    Seq::new(K as nat, |i: int| Seq::new(N as nat, |j: int| flat[i * N + j] as int))
}

/// `v` has `K` ring elements of `N` canonical residues each.
pub open spec fn is_module(v: Seq<Seq<int>>) -> bool {
    &&& v.len() == K
    &&& forall|i: int| 0 <= i < K ==> (#[trigger] v[i]).len() == N
    &&& forall|i: int, j: int| 0 <= i < K && 0 <= j < N ==> is_residue(#[trigger] v[i][j])
}

/// A binary operation of the field.
#[derive(Clone, Copy, Debug, PartialEq, Eq, Structural)]
pub enum FieldOp {
    Add,
    Sub,
    Mul,
}

/// The result of `op` on two integers.
pub open spec fn apply_op(op: FieldOp, a: int, b: int) -> int {
    match op {
        FieldOp::Add => field_add(a, b),
        FieldOp::Sub => field_sub(a, b),
        FieldOp::Mul => field_mul(a, b),
    }
}

/// `op` applied to `a` and `b` coefficient by coefficient.
pub open spec fn coefficient_wise(op: FieldOp, a: Seq<Seq<int>>, b: Seq<Seq<int>>) -> Seq<Seq<int>> {
    Seq::new(K as nat, |i: int| Seq::new(N as nat, |j: int| apply_op(op, a[i][j], b[i][j])))
}

/// The coefficient-wise additive inverse of `a`.
pub open spec fn module_neg(a: Seq<Seq<int>>) -> Seq<Seq<int>> {
    Seq::new(K as nat, |i: int| Seq::new(N as nat, |j: int| field_neg(a[i][j])))
}

impl FieldOp {
    /// Applies the operation to two field elements.
    pub fn apply(self, a: &FieldElement, b: &FieldElement) -> (r: FieldElement)
        ensures
            r@ == apply_op(self, a@, b@),
    {
        match self {
            FieldOp::Add => a.add(b),
            FieldOp::Sub => a.sub(b),
            FieldOp::Mul => a.mul(b),
        }
    }
}

/// A vector of `K` ring elements, each of `N` coefficients in canonical form.
#[derive(Debug, PartialEq, Eq)]
pub struct ModuleVector {
    coeffs: Vec<u32>,
}

impl View for ModuleVector {
    type V = Seq<Seq<int>>;

    closed spec fn view(&self) -> Seq<Seq<int>> {
        module_of(self.coeffs@)
    }
}

impl Clone for ModuleVector {
    fn clone(&self) -> (r: ModuleVector)
        ensures
            r@ == self@,
    {
        proof {
            use_type_invariant(self);
        }
        ModuleVector { coeffs: vstd::slice::slice_to_vec(self.coeffs.as_slice()) }
    }
}

impl ModuleVector {
    #[verifier::type_invariant]
    spec fn well_formed(self) -> bool {
        &&& self.coeffs@.len() == MODULE_COEFFS
        &&& all_residues(self.coeffs@)
    }

    /// Reads a module vector from `K * N` magnitudes. Coefficient `j` of ring
    /// element `i` is taken from position `i * N + j`.
    pub fn from_magnitudes(flat: &[u32]) -> (r: Result<ModuleVector, InputShapeError>)
        ensures
            match shape_error(flat@, MODULE_COEFFS) {
                Some(e) => r == Err::<ModuleVector, InputShapeError>(e),
                None => r.is_ok() && r.unwrap()@ == module_of(flat@) && is_module(r.unwrap()@),
            },
    {
        match check_shape(flat, MODULE_COEFFS) {
            Err(e) => Err(e),
            Ok(()) => {
                let coeffs: Vec<u32> = vstd::slice::slice_to_vec(flat);
                Ok(ModuleVector { coeffs })
            },
        }
    }

    /// The coefficients as one flat sequence, ring element after ring element.
    pub fn to_magnitudes(&self) -> (flat: Vec<u32>)
        ensures
            shape_error(flat@, MODULE_COEFFS) is None,
            module_of(flat@) == self@,
    {
        proof {
            use_type_invariant(self);
        }
        vstd::slice::slice_to_vec(self.coeffs.as_slice())
    }

    /// Coefficient `j` of ring element `i`, where both are in range.
    pub fn coefficient(&self, i: usize, j: usize) -> (r: Option<FieldElement>)
        ensures
            i < K && j < N ==> r.is_some() && r.unwrap()@ == self@[i as int][j as int],
            !(i < K && j < N) ==> r.is_none(),
    {
        proof {
            use_type_invariant(self);
        }
        if i < K && j < N {
            Some(FieldElement::from_residue(self.coeffs[i * N + j]))
        } else {
            None
        }
    }

    /// Combines two module vectors coefficient by coefficient.
    pub fn combine(&self, rhs: &ModuleVector, op: FieldOp) -> (r: ModuleVector)
        ensures
            r@ == coefficient_wise(op, self@, rhs@),
            is_module(r@),
    {
        proof {
            use_type_invariant(self);
            use_type_invariant(rhs);
        }
        let mut coeffs: Vec<u32> = Vec::new();
        let mut idx: usize = 0;
        while idx < MODULE_COEFFS
            invariant
                0 <= idx <= MODULE_COEFFS,
                coeffs@.len() == idx,
                self.coeffs@.len() == MODULE_COEFFS,
                rhs.coeffs@.len() == MODULE_COEFFS,
                all_residues(self.coeffs@),
                all_residues(rhs.coeffs@),
                forall|t: int|
                    0 <= t < idx ==> (#[trigger] coeffs@[t]) as int == apply_op(
                        op,
                        self.coeffs@[t] as int,
                        rhs.coeffs@[t] as int,
                    ),
                forall|t: int| 0 <= t < idx ==> (#[trigger] coeffs@[t]) < Q,
            decreases MODULE_COEFFS - idx,
        {
            let a: FieldElement = FieldElement::from_residue(self.coeffs[idx]);
            let b: FieldElement = FieldElement::from_residue(rhs.coeffs[idx]);
            let c: FieldElement = op.apply(&a, &b);
            coeffs.push(c.to_magnitude());
            idx += 1;
        }
        assert(module_of(coeffs@) =~~= coefficient_wise(
            op,
            module_of(self.coeffs@),
            module_of(rhs.coeffs@),
        ));
        ModuleVector { coeffs }
    }

    /// `self + rhs`, coefficient by coefficient.
    pub fn add(&self, rhs: &ModuleVector) -> (r: ModuleVector)
        ensures
            r@ == coefficient_wise(FieldOp::Add, self@, rhs@),
            is_module(r@),
    {
        self.combine(rhs, FieldOp::Add)
    }

    /// `self - rhs`, coefficient by coefficient.
    pub fn sub(&self, rhs: &ModuleVector) -> (r: ModuleVector)
        ensures
            r@ == coefficient_wise(FieldOp::Sub, self@, rhs@),
            is_module(r@),
    {
        self.combine(rhs, FieldOp::Sub)
    }

    /// The product of `self` and `rhs`, coefficient by coefficient.
    pub fn mul(&self, rhs: &ModuleVector) -> (r: ModuleVector)
        ensures
            r@ == coefficient_wise(FieldOp::Mul, self@, rhs@),
            is_module(r@),
    {
        self.combine(rhs, FieldOp::Mul)
    }

    /// `-self`, coefficient by coefficient.
    pub fn neg(&self) -> (r: ModuleVector)
        ensures
            r@ == module_neg(self@),
            is_module(r@),
    {
        proof {
            use_type_invariant(self);
        }
        let mut coeffs: Vec<u32> = Vec::new();
        let mut idx: usize = 0;
        while idx < MODULE_COEFFS
            invariant
                0 <= idx <= MODULE_COEFFS,
                coeffs@.len() == idx,
                self.coeffs@.len() == MODULE_COEFFS,
                all_residues(self.coeffs@),
                forall|t: int|
                    0 <= t < idx ==> (#[trigger] coeffs@[t]) as int == field_neg(
                        self.coeffs@[t] as int,
                    ),
                forall|t: int| 0 <= t < idx ==> (#[trigger] coeffs@[t]) < Q,
            decreases MODULE_COEFFS - idx,
        {
            let a: FieldElement = FieldElement::from_residue(self.coeffs[idx]);
            coeffs.push(a.neg().to_magnitude());
            idx += 1;
        }
        assert(module_of(coeffs@) =~~= module_neg(module_of(self.coeffs@)));
        ModuleVector { coeffs }
    }
}

/// The flat layout of a module vector is determined by the vector: two
/// sequences of `K * N` magnitudes that give the same module vector are the
/// same sequence.
pub proof fn lemma_module_determines_magnitudes(a: Seq<u32>, b: Seq<u32>)
    requires
        a.len() == MODULE_COEFFS,
        b.len() == MODULE_COEFFS,
        module_of(a) == module_of(b),
    ensures
        a == b,
{
    assert forall|t: int| 0 <= t < a.len() implies a[t] == b[t] by {
        let i = t / (N as int);
        let j = t % (N as int);
        assert(t == i * N + j);
        assert(module_of(a)[i][j] == a[i * N + j] as int);
        assert(module_of(b)[i][j] == b[i * N + j] as int);
    }
    assert(a =~= b);
}

/// A sequence of `K * N` canonical residues lays out a module vector.
pub proof fn lemma_module_of_is_module(flat: Seq<u32>)
    requires
        flat.len() == MODULE_COEFFS,
        all_residues(flat),
    ensures
        is_module(module_of(flat)),
{
}

/// Subtracting is adding the negative, and a vector plus its negative is
/// zero in every coefficient.
pub proof fn lemma_module_neg_laws(a: Seq<Seq<int>>, b: Seq<Seq<int>>)
    ensures
        coefficient_wise(FieldOp::Sub, a, b) == coefficient_wise(FieldOp::Add, a, module_neg(b)),
        forall|i: int, j: int|
            0 <= i < K && 0 <= j < N ==> #[trigger] coefficient_wise(
                FieldOp::Add,
                a,
                module_neg(a),
            )[i][j] == 0,
{
    assert forall|i: int, j: int| 0 <= i < K && 0 <= j < N implies field_sub(a[i][j], b[i][j])
        == field_add(a[i][j], field_neg(b[i][j])) && field_add(a[i][j], field_neg(a[i][j]))
        == 0 by {
        crate::field::lemma_neg_laws(a[i][j], b[i][j]);
        crate::field::lemma_neg_laws(a[i][j], a[i][j]);
    }
    assert(coefficient_wise(FieldOp::Sub, a, b) =~~= coefficient_wise(
        FieldOp::Add,
        a,
        module_neg(b),
    ));
}

} // verus!
