//! Public-input binding and field layer for zero-knowledge proofs of knowledge
//! of a Dilithium-style lattice signature.
//!
//! The crate validates and types everything that crosses the boundary of the
//! proof system: the secret witness, the public statement and the serialized
//! proof. The succinct-proof engine itself is a collaborator that the caller
//! drives; this crate decides what is handed to it and what its answer means.

pub mod params;
pub mod error;
pub mod field;
pub mod shape;
pub mod lattice;
pub mod digest;
pub mod proof_bytes;
pub mod binder;
