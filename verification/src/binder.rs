//! The public-input binder: what a proving or verifying call hands to the
//! proof backend, and what the backend's answer means.
//!
//! The backend is driven by the caller. A call therefore has two halves.
//! [`prove`] and [`verify`] check everything that can be checked without
//! cryptographic work and say what, if anything, the backend is to be asked.
//! [`finish_prove`] and [`finish_verify`] turn the backend's answer into the
//! call's result.
//!
//! The verifier's statement is the pair of commitment and nonce and nothing
//! else. The challenge digest, the message and the commitment randomness
//! belong to the witness; no verifying call sees them.

use vstd::prelude::*;
use winterfell::ProverError;
use winterfell::StarkProof;
use winterfell::VerifierError;
use crate::params::{BLOCK_WIDTH, COMMITMENT_WIDTH, D, MODULE_COEFFS};
use crate::error::{InputName, InputShapeError, MalformedInput, ProveError};
use crate::digest::{Commitment, Digest, MessageBlock};
use crate::lattice::{module_of, ModuleVector};
use crate::proof_bytes::{proof_admissible, read_proof};
use crate::shape::{residues, shape_error};

verus! {

/// Declares `winterfell::ProverError`, the backend's reason for producing
/// no proof. It is never looked into.
#[verifier::external_type_specification]
#[verifier::external_body]
pub struct ExProverError(winterfell::ProverError);

/// Declares `winterfell::VerifierError`, the backend's reason for refusing
/// a proof. It is never looked into.
#[verifier::external_type_specification]
#[verifier::external_body]
pub struct ExVerifierError(winterfell::VerifierError);

/// The secret side of a statement.
#[derive(Debug, Clone, PartialEq, Eq)]
pub struct Witness {
    /// The response vector of the signature.
    pub z: ModuleVector,
    /// The public-side product.
    pub w: ModuleVector,
    /// The quotient that makes the relation linear.
    pub qw: ModuleVector,
    /// The challenge digest.
    pub ctilde: Digest,
    /// The message block.
    pub m: MessageBlock,
    /// The digest of the commitment randomness.
    pub com_r: Digest,
}

/// The public side of a statement: all that a verifier needs.
#[derive(Debug, Clone, PartialEq, Eq)]
pub struct Statement {
    /// The commitment.
    pub comm: Commitment,
    /// The nonce block.
    pub nonce: MessageBlock,
}

/// A validated request to the backend to generate a proof.
#[derive(Debug, Clone, PartialEq, Eq)]
pub struct ProvingJob {
    /// What the trace is built from.
    pub witness: Witness,
    /// The public inputs of the proof.
    pub statement: Statement,
}

/// What a verifying call does next.
#[derive(Debug)]
pub enum VerifyStep {
    /// The submission is rejected. The backend is not consulted, and the
    /// caller is not told which check failed.
    Reject,
    /// The backend is to check `proof` against `statement`.
    AskBackend { proof: StarkProof, statement: Statement },
}

/// `cause`, where there is one, as the fault of the input `input`.
pub open spec fn blame(input: InputName, cause: Option<InputShapeError>) -> Option<
    MalformedInput,
> {
    match cause {
        Some(e) => Some(MalformedInput { input, cause: e }),
        None => None,
    }
}

/// `first`, where it is a fault, and `second` otherwise.
pub open spec fn or_else(first: Option<MalformedInput>, second: Option<MalformedInput>) -> Option<
    MalformedInput,
> {
    match first {
        Some(e) => Some(e),
        None => second,
    }
}

/// The first malformed input among the six of a witness, taken in the order
/// `z`, `w`, `qw`, `ctilde`, `m`, `com_r`.
pub open spec fn witness_error(
    z: Seq<u32>,
    w: Seq<u32>,
    qw: Seq<u32>,
    ctilde: Seq<u32>,
    m: Seq<u32>,
    com_r: Seq<u32>,
) -> Option<MalformedInput> {
    or_else(
        blame(InputName::Z, shape_error(z, MODULE_COEFFS)),
        or_else(
            blame(InputName::W, shape_error(w, MODULE_COEFFS)),
            or_else(
                blame(InputName::Qw, shape_error(qw, MODULE_COEFFS)),
                or_else(
                    blame(InputName::Ctilde, shape_error(ctilde, D)),
                    or_else(
                        blame(InputName::M, shape_error(m, BLOCK_WIDTH)),
                        blame(InputName::ComR, shape_error(com_r, D)),
                    ),
                ),
            ),
        ),
    )
}

/// The first malformed input among the two of a statement, taken in the
/// order `comm`, `nonce`.
pub open spec fn statement_error(comm: Seq<u32>, nonce: Seq<u32>) -> Option<MalformedInput> {
    or_else(
        blame(InputName::Comm, shape_error(comm, COMMITMENT_WIDTH)),
        blame(InputName::Nonce, shape_error(nonce, BLOCK_WIDTH)),
    )
}

/// The witness `t` holds exactly the given inputs.
pub open spec fn witness_holds(
    t: Witness,
    z: Seq<u32>,
    w: Seq<u32>,
    qw: Seq<u32>,
    ctilde: Seq<u32>,
    m: Seq<u32>,
    com_r: Seq<u32>,
) -> bool {
    &&& t.z@ == module_of(z)
    &&& t.w@ == module_of(w)
    &&& t.qw@ == module_of(qw)
    &&& t.ctilde@ == residues(ctilde)
    &&& t.m@ == residues(m)
    &&& t.com_r@ == residues(com_r)
}

/// The statement `s` holds exactly the given inputs.
pub open spec fn statement_holds(s: Statement, comm: Seq<u32>, nonce: Seq<u32>) -> bool {
    &&& s.comm@ == residues(comm)
    &&& s.nonce@ == residues(nonce)
}

/// The step `step` is the answer of [`verify`] to the given submission.
pub open spec fn is_verify_step(
    step: VerifyStep,
    proof_bytes: Seq<u8>,
    comm: Seq<u32>,
    nonce: Seq<u32>,
) -> bool {
    if statement_error(comm, nonce) is None && proof_admissible(proof_bytes) {
        step matches VerifyStep::AskBackend { statement, .. } && statement_holds(
            statement,
            comm,
            nonce,
        )
    } else {
        step is Reject
    }
}

impl Witness {
    /// Reads a witness from raw magnitudes. The inputs are checked in the
    /// order of the parameters, and the first malformed one is reported.
    pub fn from_magnitudes(
        z: &[u32],
        w: &[u32],
        qw: &[u32],
        ctilde: &[u32],
        m: &[u32],
        com_r: &[u32],
    ) -> (r: Result<Witness, MalformedInput>)
        ensures
            match witness_error(z@, w@, qw@, ctilde@, m@, com_r@) {
                Some(e) => r == Err::<Witness, MalformedInput>(e),
                None => r.is_ok() && witness_holds(r.unwrap(), z@, w@, qw@, ctilde@, m@, com_r@),
            },
    {
        let z: ModuleVector = match ModuleVector::from_magnitudes(z) {
            Ok(v) => v,
            Err(cause) => { return Err(MalformedInput { input: InputName::Z, cause }); },
        };
        let w: ModuleVector = match ModuleVector::from_magnitudes(w) {
            Ok(v) => v,
            Err(cause) => { return Err(MalformedInput { input: InputName::W, cause }); },
        };
        let qw: ModuleVector = match ModuleVector::from_magnitudes(qw) {
            Ok(v) => v,
            Err(cause) => { return Err(MalformedInput { input: InputName::Qw, cause }); },
        };
        let ctilde: Digest = match Digest::from_magnitudes(ctilde) {
            Ok(v) => v,
            Err(cause) => { return Err(MalformedInput { input: InputName::Ctilde, cause }); },
        };
        let m: MessageBlock = match MessageBlock::from_magnitudes(m) {
            Ok(v) => v,
            Err(cause) => { return Err(MalformedInput { input: InputName::M, cause }); },
        };
        let com_r: Digest = match Digest::from_magnitudes(com_r) {
            Ok(v) => v,
            Err(cause) => { return Err(MalformedInput { input: InputName::ComR, cause }); },
        };
        Ok(Witness { z, w, qw, ctilde, m, com_r })
    }
}

impl Statement {
    /// Reads a statement from raw magnitudes. The commitment is checked
    /// before the nonce.
    pub fn from_magnitudes(comm: &[u32], nonce: &[u32]) -> (r: Result<Statement, MalformedInput>)
        ensures
            match statement_error(comm@, nonce@) {
                Some(e) => r == Err::<Statement, MalformedInput>(e),
                None => r.is_ok() && statement_holds(r.unwrap(), comm@, nonce@),
            },
    {
        let comm: Commitment = match Commitment::from_magnitudes(comm) {
            Ok(v) => v,
            Err(cause) => { return Err(MalformedInput { input: InputName::Comm, cause }); },
        };
        let nonce: MessageBlock = match MessageBlock::from_magnitudes(nonce) {
            Ok(v) => v,
            Err(cause) => { return Err(MalformedInput { input: InputName::Nonce, cause }); },
        };
        Ok(Statement { comm, nonce })
    }
}

/// Starts a proving call: validates all eight inputs and, where they are
/// well formed, returns the job for the backend. The six witness inputs are
/// checked first, then the commitment and the nonce.
pub fn prove(
    z: &[u32],
    w: &[u32],
    qw: &[u32],
    ctilde: &[u32],
    m: &[u32],
    comm: &[u32],
    com_r: &[u32],
    nonce: &[u32],
) -> (r: Result<ProvingJob, ProveError>)
    ensures
        match or_else(
            witness_error(z@, w@, qw@, ctilde@, m@, com_r@),
            statement_error(comm@, nonce@),
        ) {
            Some(e) => r == Err::<ProvingJob, ProveError>(ProveError::MalformedWitness(e)),
            None => r.is_ok() && witness_holds(
                r.unwrap().witness,
                z@,
                w@,
                qw@,
                ctilde@,
                m@,
                com_r@,
            ) && statement_holds(r.unwrap().statement, comm@, nonce@),
        },
{
    let witness: Witness = match Witness::from_magnitudes(z, w, qw, ctilde, m, com_r) {
        Ok(t) => t,
        Err(e) => { return Err(ProveError::MalformedWitness(e)); },
    };
    let statement: Statement = match Statement::from_magnitudes(comm, nonce) {
        Ok(s) => s,
        Err(e) => { return Err(ProveError::MalformedWitness(e)); },
    };
    Ok(ProvingJob { witness, statement })
}

/// Ends a proving call. `outcome` is what the backend made of the job: the
/// serialized proof, or its reason for not producing one.
pub fn finish_prove(outcome: Result<Vec<u8>, ProverError>) -> (r: Result<Vec<u8>, ProveError>)
    ensures
        match outcome {
            Ok(bytes) => r == Ok::<Vec<u8>, ProveError>(bytes),
            Err(_) => r == Err::<Vec<u8>, ProveError>(ProveError::WitnessInconsistent),
        },
{
    match outcome {
        Ok(bytes) => Ok(bytes),
        Err(_) => Err(ProveError::WitnessInconsistent),
    }
}

/// Starts a verifying call: validates the statement, screens and reads the
/// proof, and says whether the backend is to be asked. A malformed
/// statement and a malformed proof are rejected alike.
pub fn verify(proof_bytes: &[u8], comm: &[u32], nonce: &[u32]) -> (step: VerifyStep)
    ensures
        is_verify_step(step, proof_bytes@, comm@, nonce@),
{
    let statement: Statement = match Statement::from_magnitudes(comm, nonce) {
        Ok(s) => s,
        Err(_) => { return VerifyStep::Reject; },
    };
    match read_proof(proof_bytes) {
        Some(proof) => VerifyStep::AskBackend { proof, statement },
        None => VerifyStep::Reject,
    }
}

/// Ends a verifying call. `outcome` is the backend's answer to the step
/// [`VerifyStep::AskBackend`]. The proof is accepted exactly when the backend
/// accepted it; why it refused is not passed on.
pub fn finish_verify(outcome: Result<(), VerifierError>) -> (accepted: bool)
    ensures
        accepted == outcome.is_ok(),
{
    match outcome {
        Ok(_) => true,
        Err(_) => false,
    }
}

/// Verifying is repeatable: any two answers of [`verify`] to the same
/// submission agree on whether the backend is asked and on the statement it
/// is asked about, so with the same answer from the backend the two calls
/// end alike.
pub proof fn lemma_verify_is_repeatable(
    first: VerifyStep,
    second: VerifyStep,
    proof_bytes: Seq<u8>,
    comm: Seq<u32>,
    nonce: Seq<u32>,
)
    requires
        is_verify_step(first, proof_bytes, comm, nonce),
        is_verify_step(second, proof_bytes, comm, nonce),
    ensures
        first is Reject <==> second is Reject,
        first is AskBackend ==> second is AskBackend && first->statement.comm@
            == second->statement.comm@ && first->statement.nonce@ == second->statement.nonce@,
{
}

/// The statement handed to the backend is the submitted one: two
/// well-formed submissions that differ in any element of the commitment or
/// of the nonce are never checked against the same statement.
pub proof fn lemma_statement_binds_public_inputs(
    first: Statement,
    second: Statement,
    comm: Seq<u32>,
    nonce: Seq<u32>,
    other_comm: Seq<u32>,
    other_nonce: Seq<u32>,
)
    requires
        statement_holds(first, comm, nonce),
        statement_holds(second, other_comm, other_nonce),
        comm != other_comm || nonce != other_nonce,
    ensures
        first.comm@ != second.comm@ || first.nonce@ != second.nonce@,
{
    if first.comm@ == second.comm@ && first.nonce@ == second.nonce@ {
        crate::shape::lemma_residues_determine_magnitudes(comm, other_comm);
        crate::shape::lemma_residues_determine_magnitudes(nonce, other_nonce);
    }
}

/// A submission whose proof is not admissible, or whose statement is
/// malformed, is rejected whatever the backend would have said.
pub proof fn lemma_inadmissible_is_rejected(
    step: VerifyStep,
    proof_bytes: Seq<u8>,
    comm: Seq<u32>,
    nonce: Seq<u32>,
)
    requires
        is_verify_step(step, proof_bytes, comm, nonce),
        !proof_admissible(proof_bytes) || statement_error(comm, nonce) is Some,
    ensures
        step is Reject,
{
}

} // verus!
