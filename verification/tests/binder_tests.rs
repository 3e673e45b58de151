use winterfell::{ProverError, StarkProof, VerifierError};
use zkdilithium_proof::binder::{
    finish_prove, finish_verify, prove, verify, Statement, VerifyStep, Witness,
};
use zkdilithium_proof::error::{InputName, InputShapeError, MalformedInput, ProveError};
use zkdilithium_proof::params::Q;
use zkdilithium_proof::proof_bytes::{read_proof, screen_header};

/// The shortest buffer the backend reads as a proof: a header with one
/// modulus byte and no metadata, followed by empty sections.
fn minimal_proof() -> Vec<u8> {
    let mut b: Vec<u8> = Vec::new();
    b.extend_from_slice(&[1, 0, 0]); // trace layout
    b.push(3); // trace length 2^3
    b.extend_from_slice(&[0, 0]); // no metadata
    b.extend_from_slice(&[1, 0xFF]); // one modulus byte
    b.extend_from_slice(&[1, 2, 0, 1, 2, 0]); // options
    b.extend_from_slice(&[0, 0]); // commitments
    b.extend_from_slice(&[0, 0, 0, 0, 0, 0, 0, 0]); // trace queries
    b.extend_from_slice(&[0, 0, 0, 0, 0, 0, 0, 0]); // constraint queries
    b.extend_from_slice(&[0, 0, 0, 0]); // out-of-domain frame
    b.extend_from_slice(&[0, 0, 0, 1]); // low-degree proof
    b.extend_from_slice(&[0; 8]); // proof-of-work nonce
    b
}

fn zeros(n: usize) -> Vec<u32> {
    vec![0; n]
}

#[test]
fn minimal_proof_is_read_by_the_backend_itself() {
    let bytes = minimal_proof();
    let proof = StarkProof::from_bytes(&bytes).unwrap();
    assert_eq!(proof.to_bytes(), bytes);
}

#[test]
fn read_proof_returns_what_the_backend_decodes() {
    let bytes = minimal_proof();
    assert!(screen_header(&bytes));
    let proof = read_proof(&bytes).unwrap();
    assert_eq!(proof, StarkProof::from_bytes(&bytes).unwrap());
    assert_eq!(proof.trace_length(), 8);
    assert_eq!(proof.options().num_queries(), 1);
}

#[test]
fn truncated_proofs_are_refused() {
    let bytes = minimal_proof();
    for cut in 0..bytes.len() {
        assert!(read_proof(&bytes[..cut]).is_none(), "cut at {}", cut);
    }
}

#[test]
fn trailing_bytes_are_refused() {
    let mut bytes = minimal_proof();
    bytes.push(0);
    assert!(screen_header(&bytes));
    assert!(read_proof(&bytes).is_none());
}

#[test]
fn headers_that_would_abort_the_backend_are_screened_out() {
    let good = minimal_proof();
    // (position, value): each makes one header field inadmissible.
    let faults: [(usize, u8); 17] = [
        (0, 0),    // empty main segment
        (1, 254),  // too many columns
        (1, 5),    // auxiliary columns without random elements
        (2, 5),    // random elements without auxiliary columns
        (3, 2),    // trace too short
        (3, 64),   // trace length exceeds a machine word
        (3, 255),
        (6, 0),    // empty modulus
        (8, 0),    // no queries
        (9, 1),    // blowup factor too small
        (9, 3),    // blowup factor not a power of two
        (10, 33),  // grinding factor too large
        (11, 0),   // unknown field extension
        (11, 4),
        (12, 32),  // folding factor too large
        (12, 6),   // folding factor not a power of two
        (13, 2),   // remainder degree not one less than a power of two
    ];
    for (at, value) in faults {
        let mut bytes = good.clone();
        bytes[at] = value;
        assert!(!screen_header(&bytes), "byte {} = {}", at, value);
        assert!(read_proof(&bytes).is_none(), "byte {} = {}", at, value);
    }
}

#[test]
fn every_admissible_option_value_passes_the_screen() {
    let good = minimal_proof();
    let admissible: [(usize, &[u8]); 6] = [
        (8, &[1, 27, 255]),
        (9, &[2, 4, 8, 16, 32, 64, 128]),
        (10, &[0, 16, 32]),
        (11, &[1, 2, 3]),
        (12, &[2, 4, 8, 16]),
        (13, &[0, 1, 3, 7, 15, 31, 63, 127, 255]),
    ];
    for (at, values) in admissible {
        for &value in values {
            let mut bytes = good.clone();
            bytes[at] = value;
            assert!(screen_header(&bytes), "byte {} = {}", at, value);
            assert!(read_proof(&bytes).is_some(), "byte {} = {}", at, value);
        }
    }
}

#[test]
fn header_with_metadata_and_long_modulus() {
    let mut b: Vec<u8> = vec![20, 9, 12, 10, 3, 0, 0xAA, 0xBB, 0xCC, 4, 1, 0x20, 0x7F, 0];
    b.extend_from_slice(&[30, 8, 20, 2, 8, 127]);
    assert!(screen_header(&b));
    assert!(read_proof(&b).is_none());
    // Two trace segments: the auxiliary one has its own queries.
    b.extend_from_slice(&[0, 0]);
    b.extend_from_slice(&[0; 8]);
    b.extend_from_slice(&[0; 8]);
    b.extend_from_slice(&[0; 8]);
    b.extend_from_slice(&[0, 0, 0, 0]);
    b.extend_from_slice(&[0, 0, 0, 1]);
    b.extend_from_slice(&[0; 8]);
    let proof = read_proof(&b).unwrap();
    assert_eq!(proof.trace_length(), 1024);
    assert_eq!(proof.to_bytes(), b);
}

#[test]
fn verify_asks_the_backend_about_the_submitted_statement() {
    let comm: Vec<u32> = (0..24).map(|i| 1000 + i).collect();
    let nonce: Vec<u32> = (0..12).map(|i| 77 * i).collect();
    match verify(&minimal_proof(), &comm, &nonce) {
        VerifyStep::AskBackend { proof, statement } => {
            assert_eq!(proof, StarkProof::from_bytes(&minimal_proof()).unwrap());
            assert_eq!(statement.comm.to_magnitudes(), comm);
            assert_eq!(statement.nonce.to_magnitudes(), nonce);
        }
        VerifyStep::Reject => panic!("a well-formed submission was rejected"),
    }
}

#[test]
fn verify_is_repeatable() {
    let comm: Vec<u32> = (0..24).collect();
    let nonce: Vec<u32> = (0..12).collect();
    let first = format!("{:?}", verify(&minimal_proof(), &comm, &nonce));
    let second = format!("{:?}", verify(&minimal_proof(), &comm, &nonce));
    assert_eq!(first, second);
    let first = format!("{:?}", verify(&[1, 2, 3], &comm, &nonce));
    let second = format!("{:?}", verify(&[1, 2, 3], &comm, &nonce));
    assert_eq!(first, second);
}

#[test]
fn changing_one_public_element_changes_the_statement() {
    let comm: Vec<u32> = (0..24).collect();
    let nonce: Vec<u32> = (0..12).collect();
    let base = Statement::from_magnitudes(&comm, &nonce).unwrap();
    for i in 0..24 {
        let mut other = comm.clone();
        other[i] += 1;
        assert_ne!(Statement::from_magnitudes(&other, &nonce).unwrap(), base);
    }
    for i in 0..12 {
        let mut other = nonce.clone();
        other[i] += 1;
        assert_ne!(Statement::from_magnitudes(&comm, &other).unwrap(), base);
    }
}

#[test]
fn verify_rejects_malformed_statements() {
    let proof = minimal_proof();
    assert!(matches!(verify(&proof, &zeros(23), &zeros(12)), VerifyStep::Reject));
    assert!(matches!(verify(&proof, &zeros(24), &zeros(11)), VerifyStep::Reject));
    let mut comm = zeros(24);
    comm[0] = Q;
    assert!(matches!(verify(&proof, &comm, &zeros(12)), VerifyStep::Reject));
    let mut nonce = zeros(12);
    nonce[11] = Q;
    assert!(matches!(verify(&proof, &zeros(24), &nonce), VerifyStep::Reject));
}

#[test]
fn verify_rejects_malformed_proofs() {
    let comm = zeros(24);
    let nonce = zeros(12);
    assert!(matches!(verify(&[], &comm, &nonce), VerifyStep::Reject));
    assert!(matches!(verify(&[0xFF; 64], &comm, &nonce), VerifyStep::Reject));
    let good = minimal_proof();
    for at in 0..good.len() {
        for bit in 0..8 {
            let mut bytes = good.clone();
            bytes[at] ^= 1 << bit;
            // Never a crash; a flipped bit either fails to decode or goes to
            // the backend for the cryptographic checks.
            let _ = verify(&bytes, &comm, &nonce);
        }
    }
}

#[test]
fn finish_verify_accepts_only_what_the_backend_accepted() {
    assert!(finish_verify(Ok(())));
    assert!(!finish_verify(Err(VerifierError::InconsistentBaseField)));
    assert!(!finish_verify(Err(VerifierError::TraceQueryDoesNotMatchCommitment)));
    assert!(!finish_verify(Err(VerifierError::ProofDeserializationError("x".to_string()))));
    assert!(!finish_verify(Err(VerifierError::InconsistentOodConstraintEvaluations)));
}

#[test]
fn finish_prove_passes_the_proof_on() {
    assert_eq!(finish_prove(Ok(vec![1, 2, 3])), Ok(vec![1, 2, 3]));
    assert_eq!(finish_prove(Ok(minimal_proof())), Ok(minimal_proof()));
}

#[test]
fn finish_prove_reports_an_inconsistent_witness() {
    assert_eq!(
        finish_prove(Err(ProverError::UnsatisfiedTransitionConstraintError(5))),
        Err(ProveError::WitnessInconsistent)
    );
    assert_eq!(
        finish_prove(Err(ProverError::MismatchedConstraintPolynomialDegree(8, 9))),
        Err(ProveError::WitnessInconsistent)
    );
}

#[test]
fn all_zero_inputs_are_well_formed() {
    let job = prove(
        &zeros(1024), &zeros(1024), &zeros(1024), &zeros(12), &zeros(12), &zeros(24),
        &zeros(12), &zeros(12),
    )
    .unwrap();
    assert_eq!(job.witness.z.to_magnitudes(), zeros(1024));
    assert_eq!(job.statement.comm.to_magnitudes(), zeros(24));
    // Validation does not refuse them, and no proof comes with them:
    assert!(matches!(verify(&[], &zeros(24), &zeros(12)), VerifyStep::Reject));
}

fn malformed(input: InputName, cause: InputShapeError) -> ProveError {
    ProveError::MalformedWitness(MalformedInput { input, cause })
}

#[test]
fn prove_names_the_first_malformed_input() {
    let big = zeros(1024);
    let d = zeros(12);
    let c = zeros(24);
    let short = InputShapeError::WrongLength { expected: 1024, found: 3 };
    let r = |z: &[u32], w: &[u32], qw: &[u32], ct: &[u32], m: &[u32], comm: &[u32], cr: &[u32], n: &[u32]| {
        prove(z, w, qw, ct, m, comm, cr, n).map(|_| ())
    };
    assert_eq!(r(&[0; 3], &[0; 3], &big, &d, &d, &c, &d, &d), Err(malformed(InputName::Z, short)));
    assert_eq!(r(&big, &[0; 3], &[0; 3], &d, &d, &c, &d, &d), Err(malformed(InputName::W, short)));
    assert_eq!(r(&big, &big, &[0; 3], &[], &d, &c, &d, &d), Err(malformed(InputName::Qw, short)));
    assert_eq!(
        r(&big, &big, &big, &[], &[], &c, &d, &d),
        Err(malformed(InputName::Ctilde, InputShapeError::WrongLength { expected: 12, found: 0 }))
    );
    assert_eq!(
        r(&big, &big, &big, &d, &[Q; 12], &c, &[], &d),
        Err(malformed(InputName::M, InputShapeError::OutOfRange { index: 0, magnitude: Q }))
    );
    assert_eq!(
        r(&big, &big, &big, &d, &d, &[], &[0; 13], &d),
        Err(malformed(InputName::ComR, InputShapeError::WrongLength { expected: 12, found: 13 }))
    );
    assert_eq!(
        r(&big, &big, &big, &d, &d, &[0; 25], &d, &[]),
        Err(malformed(InputName::Comm, InputShapeError::WrongLength { expected: 24, found: 25 }))
    );
    let mut nonce = zeros(12);
    nonce[7] = u32::MAX;
    assert_eq!(
        r(&big, &big, &big, &d, &d, &c, &d, &nonce),
        Err(malformed(InputName::Nonce, InputShapeError::OutOfRange { index: 7, magnitude: u32::MAX }))
    );
    assert_eq!(r(&big, &big, &big, &d, &d, &c, &d, &d), Ok(()));
}

#[test]
fn witness_and_statement_read_alone() {
    let big = zeros(1024);
    let d = zeros(12);
    let w = Witness::from_magnitudes(&big, &big, &big, &d, &d, &d).unwrap();
    assert_eq!(w.clone(), w);
    assert_eq!(
        Witness::from_magnitudes(&big, &big, &big, &d, &d, &[1]),
        Err(MalformedInput {
            input: InputName::ComR,
            cause: InputShapeError::WrongLength { expected: 12, found: 1 },
        })
    );
    assert_eq!(
        Statement::from_magnitudes(&zeros(24), &[Q; 12]),
        Err(MalformedInput {
            input: InputName::Nonce,
            cause: InputShapeError::OutOfRange { index: 0, magnitude: Q },
        })
    );
}
