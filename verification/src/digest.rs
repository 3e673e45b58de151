//! Fixed-width sequences of field elements: digests, commitments and
//! message or nonce blocks.
//!
//! A digest is the output of the hash permutation. A commitment is the
//! concatenation of two digests: the first half binds a value derived from
//! the witness, the second half binds the nonce. A block is the field-native
//! encoding of a short byte string, padded with zeros.

use vstd::prelude::*;
use crate::params::{BLOCK_WIDTH, COMMITMENT_WIDTH, D};
use crate::error::InputShapeError;
use crate::field::{is_residue, FieldElement};
use crate::shape::{all_residues, check_shape, residues, shape_error};

verus! {

/// `v` holds exactly `width` canonical residues.
pub open spec fn is_block(v: Seq<int>, width: usize) -> bool {
    &&& v.len() == width
    &&& forall|i: int| 0 <= i < v.len() ==> is_residue(#[trigger] v[i])
}

/// Copies `values` where they are `width` canonical residues.
fn checked_copy(values: &[u32], width: usize) -> (r: Result<Vec<u32>, InputShapeError>)
    ensures
        match shape_error(values@, width) {
            Some(e) => r == Err::<Vec<u32>, InputShapeError>(e),
            None => r.is_ok() && r.unwrap()@ == values@,
        },
{
    match check_shape(values, width) {
        Err(e) => Err(e),
        Ok(()) => Ok(vstd::slice::slice_to_vec(values)),
    }
}

/// Element `i` of a sequence of residues, where `i` is in range.
fn element_at(elems: &Vec<u32>, i: usize) -> (r: Option<FieldElement>)
    requires
        all_residues(elems@),
    ensures
        i < elems@.len() ==> r.is_some() && r.unwrap()@ == elems@[i as int],
        i >= elems@.len() ==> r.is_none(),
{
    if i < elems.len() {
        Some(FieldElement::from_residue(elems[i]))
    } else {
        None
    }
}

/// An output of the hash permutation: `D` field elements.
#[derive(Debug, PartialEq, Eq)]
pub struct Digest {
    elems: Vec<u32>,
}

impl View for Digest {
    type V = Seq<int>;

    closed spec fn view(&self) -> Seq<int> {
        residues(self.elems@)
    }
}

impl Clone for Digest {
    fn clone(&self) -> (r: Digest)
        ensures
            r@ == self@,
    {
        proof {
            use_type_invariant(self);
        }
        Digest { elems: vstd::slice::slice_to_vec(self.elems.as_slice()) }
    }
}

impl Digest {
    #[verifier::type_invariant]
    spec fn well_formed(self) -> bool {
        &&& self.elems@.len() == D
        &&& all_residues(self.elems@)
    }

    /// Reads a digest from `D` magnitudes.
    pub fn from_magnitudes(values: &[u32]) -> (r: Result<Digest, InputShapeError>)
        ensures
            match shape_error(values@, D) {
                Some(e) => r == Err::<Digest, InputShapeError>(e),
                None => r.is_ok() && r.unwrap()@ == residues(values@) && is_block(r.unwrap()@, D),
            },
    {
        match checked_copy(values, D) {
            Err(e) => Err(e),
            Ok(elems) => Ok(Digest { elems }),
        }
    }

    /// The elements as magnitudes.
    pub fn to_magnitudes(&self) -> (values: Vec<u32>)
        ensures
            shape_error(values@, D) is None,
            residues(values@) == self@,
    {
        proof {
            use_type_invariant(self);
        }
        vstd::slice::slice_to_vec(self.elems.as_slice())
    }

    /// Element `i`, where `i < D`.
    pub fn element(&self, i: usize) -> (r: Option<FieldElement>)
        ensures
            i < D ==> r.is_some() && r.unwrap()@ == self@[i as int],
            i >= D ==> r.is_none(),
    {
        proof {
            use_type_invariant(self);
        }
        element_at(&self.elems, i)
    }
}

/// A message or nonce block: `BLOCK_WIDTH` field elements.
#[derive(Debug, PartialEq, Eq)]
pub struct MessageBlock {
    elems: Vec<u32>,
}

impl View for MessageBlock {
    type V = Seq<int>;

    closed spec fn view(&self) -> Seq<int> {
        residues(self.elems@)
    }
}

impl Clone for MessageBlock {
    fn clone(&self) -> (r: MessageBlock)
        ensures
            r@ == self@,
    {
        proof {
            use_type_invariant(self);
        }
        MessageBlock { elems: vstd::slice::slice_to_vec(self.elems.as_slice()) }
    }
}

impl MessageBlock {
    #[verifier::type_invariant]
    spec fn well_formed(self) -> bool {
        &&& self.elems@.len() == BLOCK_WIDTH
        &&& all_residues(self.elems@)
    }

    /// Reads a block from `BLOCK_WIDTH` magnitudes.
    pub fn from_magnitudes(values: &[u32]) -> (r: Result<MessageBlock, InputShapeError>)
        ensures
            match shape_error(values@, BLOCK_WIDTH) {
                Some(e) => r == Err::<MessageBlock, InputShapeError>(e),
                None => r.is_ok() && r.unwrap()@ == residues(values@) && is_block(
                    r.unwrap()@,
                    BLOCK_WIDTH,
                ),
            },
    {
        match checked_copy(values, BLOCK_WIDTH) {
            Err(e) => Err(e),
            Ok(elems) => Ok(MessageBlock { elems }),
        }
    }

    /// The elements as magnitudes.
    pub fn to_magnitudes(&self) -> (values: Vec<u32>)
        ensures
            shape_error(values@, BLOCK_WIDTH) is None,
            residues(values@) == self@,
    {
        proof {
            use_type_invariant(self);
        }
        vstd::slice::slice_to_vec(self.elems.as_slice())
    }

    /// Element `i`, where `i < BLOCK_WIDTH`.
    pub fn element(&self, i: usize) -> (r: Option<FieldElement>)
        ensures
            i < BLOCK_WIDTH ==> r.is_some() && r.unwrap()@ == self@[i as int],
            i >= BLOCK_WIDTH ==> r.is_none(),
    {
        proof {
            use_type_invariant(self);
        }
        element_at(&self.elems, i)
    }
}

/// A commitment: two digests, one after the other.
#[derive(Debug, PartialEq, Eq)]
pub struct Commitment {
    elems: Vec<u32>,
}

impl View for Commitment {
    type V = Seq<int>;

    closed spec fn view(&self) -> Seq<int> {
        residues(self.elems@)
    }
}

impl Clone for Commitment {
    fn clone(&self) -> (r: Commitment)
        ensures
            r@ == self@,
    {
        proof {
            use_type_invariant(self);
        }
        Commitment { elems: vstd::slice::slice_to_vec(self.elems.as_slice()) }
    }
}

impl Commitment {
    #[verifier::type_invariant]
    spec fn well_formed(self) -> bool {
        &&& self.elems@.len() == COMMITMENT_WIDTH
        &&& all_residues(self.elems@)
    }

    /// Reads a commitment from `COMMITMENT_WIDTH` magnitudes.
    pub fn from_magnitudes(values: &[u32]) -> (r: Result<Commitment, InputShapeError>)
        ensures
            match shape_error(values@, COMMITMENT_WIDTH) {
                Some(e) => r == Err::<Commitment, InputShapeError>(e),
                None => r.is_ok() && r.unwrap()@ == residues(values@) && is_block(
                    r.unwrap()@,
                    COMMITMENT_WIDTH,
                ),
            },
    {
        match checked_copy(values, COMMITMENT_WIDTH) {
            Err(e) => Err(e),
            Ok(elems) => Ok(Commitment { elems }),
        }
    }

    /// The elements as magnitudes.
    pub fn to_magnitudes(&self) -> (values: Vec<u32>)
        ensures
            shape_error(values@, COMMITMENT_WIDTH) is None,
            residues(values@) == self@,
    {
        proof {
            use_type_invariant(self);
        }
        vstd::slice::slice_to_vec(self.elems.as_slice())
    }

    /// Element `i`, where `i < COMMITMENT_WIDTH`.
    pub fn element(&self, i: usize) -> (r: Option<FieldElement>)
        ensures
            i < COMMITMENT_WIDTH ==> r.is_some() && r.unwrap()@ == self@[i as int],
            i >= COMMITMENT_WIDTH ==> r.is_none(),
    {
        proof {
            use_type_invariant(self);
        }
        element_at(&self.elems, i)
    }

    /// Joins two digests into a commitment.
    pub fn from_halves(first: &Digest, second: &Digest) -> (r: Commitment)
        ensures
            r@ == first@ + second@,
            is_block(r@, COMMITMENT_WIDTH),
    {
        proof {
            use_type_invariant(first);
            use_type_invariant(second);
        }
        let mut elems: Vec<u32> = vstd::slice::slice_to_vec(first.elems.as_slice());
        elems.extend_from_slice(second.elems.as_slice());
        assert(residues(elems@) =~= residues(first.elems@) + residues(second.elems@));
        Commitment { elems }
    }

    /// The first digest: the half bound to the witness.
    pub fn first_half(&self) -> (r: Digest)
        ensures
            r@ == self@.subrange(0, D as int),
            is_block(r@, D),
    {
        proof {
            use_type_invariant(self);
        }
        let part: &[u32] = vstd::slice::slice_subrange(self.elems.as_slice(), 0, D);
        let elems: Vec<u32> = vstd::slice::slice_to_vec(part);
        assert(residues(elems@) =~= residues(self.elems@).subrange(0, D as int));
        Digest { elems }
    }

    /// The second digest: the half bound to the nonce.
    pub fn second_half(&self) -> (r: Digest)
        ensures
            r@ == self@.subrange(D as int, COMMITMENT_WIDTH as int),
            is_block(r@, D),
    {
        proof {
            use_type_invariant(self);
        }
        let part: &[u32] = vstd::slice::slice_subrange(
            self.elems.as_slice(),
            D,
            COMMITMENT_WIDTH,
        );
        let elems: Vec<u32> = vstd::slice::slice_to_vec(part);
        assert(residues(elems@) =~= residues(self.elems@).subrange(
            D as int,
            COMMITMENT_WIDTH as int,
        ));
        Digest { elems }
    }
}

/// A commitment is its two halves, one after the other: splitting loses
/// nothing and joining adds nothing.
pub proof fn lemma_commitment_is_its_halves(c: Seq<int>)
    requires
        c.len() == COMMITMENT_WIDTH,
    ensures
        c.subrange(0, D as int) + c.subrange(D as int, COMMITMENT_WIDTH as int) == c,
        c.subrange(0, D as int).len() == D,
        c.subrange(D as int, COMMITMENT_WIDTH as int).len() == D,
{
    assert(c.subrange(0, D as int) + c.subrange(D as int, COMMITMENT_WIDTH as int) =~= c);
}

/// Two digests are recovered unchanged from their concatenation.
pub proof fn lemma_halves_of_joined(a: Seq<int>, b: Seq<int>)
    requires
        a.len() == D,
        b.len() == D,
    ensures
        (a + b).len() == COMMITMENT_WIDTH,
        (a + b).subrange(0, D as int) == a,
        (a + b).subrange(D as int, COMMITMENT_WIDTH as int) == b,
{
    assert((a + b).subrange(0, D as int) =~= a);
    assert((a + b).subrange(D as int, COMMITMENT_WIDTH as int) =~= b);
}

} // verus!
