//! Fixed configuration shared by prover and verifier.

use vstd::prelude::*;

verus! {

/// The prime modulus of the base field: 2^23 - 2^13 + 1.
pub const Q: u32 = 8_380_417;

/// Number of coefficients of one ring element.
pub const N: usize = 256;

/// Number of ring elements of one module vector.
pub const K: usize = 4;

/// Number of field elements of one digest.
pub const D: usize = 12;

/// Number of coefficients of one module vector, `K * N`.
pub const MODULE_COEFFS: usize = 1024;

/// Number of field elements of one commitment: two digests.
pub const COMMITMENT_WIDTH: usize = 24;

/// Number of field elements of one message or nonce block.
pub const BLOCK_WIDTH: usize = 12;

} // verus!
