//! Errors reported before any cryptographic work starts.

use vstd::prelude::*;

verus! {

/// Why a sequence of raw magnitudes is not an input of the expected kind.
#[derive(Clone, Copy, Debug, PartialEq, Eq, Structural)]
pub enum InputShapeError {
    /// The sequence does not have the fixed length of its kind.
    WrongLength { expected: usize, found: usize },
    /// The magnitude at `index` is not below the field modulus. `index` is
    /// the first such position.
    OutOfRange { index: usize, magnitude: u32 },
}

/// The inputs of a proving or verifying call, in the order in which they
/// are checked.
#[derive(Clone, Copy, Debug, PartialEq, Eq, Structural)]
pub enum InputName {
    /// The secret response vector.
    Z,
    /// The public-side product vector.
    W,
    /// The quotient vector.
    Qw,
    /// The challenge digest.
    Ctilde,
    /// The message block.
    M,
    /// The digest of the commitment randomness.
    ComR,
    /// The commitment.
    Comm,
    /// The nonce block.
    Nonce,
}

/// An input that does not have the shape of its kind.
#[derive(Clone, Copy, Debug, PartialEq, Eq, Structural)]
pub struct MalformedInput {
    /// Which input it is.
    pub input: InputName,
    /// What is wrong with it.
    pub cause: InputShapeError,
}

/// Why a proving call produced no proof.
#[derive(Clone, Copy, Debug, PartialEq, Eq, Structural)]
pub enum ProveError {
    /// An input has the wrong length or holds a magnitude that is not a
    /// canonical residue. Nothing was handed to the backend.
    MalformedWitness(MalformedInput),
    /// The backend could not prove the statement from this witness: the
    /// witness does not satisfy the constraints. No partial proof exists.
    WitnessInconsistent,
}

} // verus!
