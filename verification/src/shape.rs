//! Shape and range checks on sequences of raw magnitudes.
//!
//! Inputs arrive as plain `u32` sequences. Each kind of input has one fixed
//! length, and every magnitude must already be a canonical residue. Nothing
//! is truncated, padded or reduced here: an input either has the right shape
//! or is refused with the reason.

use vstd::prelude::*;
use crate::params::Q;
use crate::error::InputShapeError;

verus! {

/// Every magnitude of `s` is below the field modulus.
pub open spec fn all_residues(s: Seq<u32>) -> bool {
    forall|i: int| 0 <= i < s.len() ==> s[i] < Q
}

/// `i` is the first position of `s` whose magnitude is not below the field
/// modulus.
pub open spec fn is_first_non_residue(s: Seq<u32>, i: int) -> bool {
    &&& 0 <= i < s.len()
    &&& s[i] >= Q
    &&& forall|j: int| 0 <= j < i ==> s[j] < Q
}

/// The first position of `s` whose magnitude is not below the field modulus,
/// where there is one.
pub open spec fn first_non_residue(s: Seq<u32>) -> int {
    choose|i: int| is_first_non_residue(s, i)
}

/// What is wrong with `s` as an input of `expected` magnitudes, if anything.
/// A wrong length is reported before any magnitude is looked at.
pub open spec fn shape_error(s: Seq<u32>, expected: usize) -> Option<InputShapeError> {
    if s.len() != expected {
        Some(InputShapeError::WrongLength { expected, found: s.len() as usize })
    } else if all_residues(s) {
        None
    } else {
        let i = first_non_residue(s);
        Some(InputShapeError::OutOfRange { index: i as usize, magnitude: s[i] })
    }
}

/// The magnitudes of `s` as mathematical integers.
pub open spec fn residues(s: Seq<u32>) -> Seq<int> {
    Seq::new(s.len(), |i: int| s[i] as int)
}

/// A sequence has at most one first offending position, so
/// `first_non_residue` is that position wherever one is known.
pub proof fn lemma_first_non_residue_is(s: Seq<u32>, i: int)
    requires
        is_first_non_residue(s, i),
    ensures
        first_non_residue(s) == i,
        !all_residues(s),
{
    let k = first_non_residue(s);
    assert(is_first_non_residue(s, k));
    if k < i {
        assert(s[k] < Q);
    } else if i < k {
        assert(s[i] < Q);
    }
}

/// Checks that `values` holds exactly `expected` canonical residues.
pub fn check_shape(values: &[u32], expected: usize) -> (r: Result<(), InputShapeError>)
    ensures
        r == match shape_error(values@, expected) {
            None => Ok::<(), InputShapeError>(()),
            Some(e) => Err::<(), InputShapeError>(e),
        },
{
    let len: usize = values.len();
    if len != expected {
        return Err(InputShapeError::WrongLength { expected, found: len });
    }
    let mut i: usize = 0;
    while i < len
        invariant
            len == values@.len(),
            len == expected,
            0 <= i <= len,
            forall|j: int| 0 <= j < i ==> values@[j] < Q,
        decreases len - i,
    {
        let magnitude: u32 = values[i];
        if magnitude >= Q {
            proof {
                lemma_first_non_residue_is(values@, i as int);
            }
            return Err(InputShapeError::OutOfRange { index: i, magnitude });
        }
        i += 1;
    }
    Ok(())
}

/// Two sequences of magnitudes with the same residues are the same
/// sequence: reading an input loses nothing.
pub proof fn lemma_residues_determine_magnitudes(a: Seq<u32>, b: Seq<u32>)
    requires
        residues(a) == residues(b),
    ensures
        a == b,
{
    assert(a.len() == residues(a).len());
    assert(b.len() == residues(b).len());
    assert forall|i: int| 0 <= i < a.len() implies a[i] == b[i] by {
        assert(residues(a)[i] == a[i] as int);
        assert(residues(b)[i] == b[i] as int);
    }
    assert(a =~= b);
}

/// A sequence is either well shaped or has exactly the fault that
/// `shape_error` names: the length where it is wrong, and otherwise the
/// first magnitude that is out of range.
pub proof fn lemma_shape_error_is_exact(s: Seq<u32>, expected: usize)
    ensures
        shape_error(s, expected) is None <==> s.len() == expected && all_residues(s),
        shape_error(s, expected) matches Some(InputShapeError::WrongLength { expected: e, found })
            ==> s.len() != expected && e == expected,
        shape_error(s, expected) matches Some(InputShapeError::OutOfRange { index, magnitude })
            ==> s.len() == expected && is_first_non_residue(s, index as int) && s[index as int]
            == magnitude,
{
    if s.len() == expected && !all_residues(s) {
        let k = choose|k: int| 0 <= k < s.len() && s[k] >= Q;
        lemma_some_first_non_residue(s, k);
        let i = first_non_residue(s);
        assert(is_first_non_residue(s, i));
    }
}

/// Where some magnitude up to position `k` is out of range, there is a
/// first one.
proof fn lemma_some_first_non_residue(s: Seq<u32>, k: int)
    requires
        0 <= k < s.len(),
        s[k] >= Q,
    ensures
        exists|i: int| is_first_non_residue(s, i),
    decreases k,
{
    if forall|j: int| 0 <= j < k ==> s[j] < Q {
        assert(is_first_non_residue(s, k));
    } else {
        let j = choose|j: int| 0 <= j < k && s[j] >= Q;
        lemma_some_first_non_residue(s, j);
    }
}

} // verus!
