use fog_of_chess::board::Square;
use fog_of_chess::circuit::{MoveClaim, eval_circuit};
use fog_of_chess::commitment::commit;
use fog_of_chess::prover::{
    BackendOutcome, ModeOverride, ProveError, ProveStep, ProverConfig, ProvingMode,
    artifact_to_response, complete_sound_proof, prove_mock, prove_move, select_mode,
};
use sha2::Digest;

const IMAGE_ID: [u8; 32] = [0xaa; 32];

fn knight_claim() -> MoveClaim {
    let start = Square::new(3, 4);
    MoveClaim {
        start,
        end: Square::new(5, 5),
        piece_code: 1,
        salt: 7,
        commitment: commit(start, 7),
    }
}

#[test]
fn eval_circuit_reveals_only_the_destination() {
    let journal = eval_circuit(&knight_claim()).expect("valid claim");
    assert_eq!(journal, [5, 5]);
}

#[test]
fn eval_circuit_rejects_bad_commitment() {
    let mut claim = knight_claim();
    claim.commitment[0] ^= 1;
    assert_eq!(eval_circuit(&claim), None);
}

#[test]
fn eval_circuit_rejects_illegal_move() {
    let mut claim = knight_claim();
    claim.end = Square::new(6, 6);
    assert_eq!(eval_circuit(&claim), None);
}

#[test]
fn mock_proofs_are_deterministic_and_flagged() {
    let claim = knight_claim();
    let a1 = prove_mock(&claim, &IMAGE_ID).expect("valid claim");
    let a2 = prove_mock(&claim, &IMAGE_ID).expect("valid claim");
    assert_eq!(a1.journal, a2.journal);
    assert!(a1.is_mock);
    assert!(a2.is_mock);
}

#[test]
fn mock_artifact_has_the_wire_shape() {
    let a = prove_mock(&knight_claim(), &IMAGE_ID).expect("valid claim");
    assert_eq!(a.journal, vec![5u8, 5]);
    // Selector tag, then the journal padded with zeros to the fixed
    // seal length.
    assert_eq!(a.seal.len(), 4 + 256);
    assert_eq!(&a.seal[0..4], &[0x73, 0xc4, 0x57, 0xba]);
    assert_eq!(&a.seal[4..6], &[5, 5]);
    assert!(a.seal[6..].iter().all(|b| *b == 0));
    let expected_digest: [u8; 32] = sha2::Sha256::digest([5u8, 5]).into();
    assert_eq!(a.journal_sha256, expected_digest);
    assert_eq!(a.image_id, IMAGE_ID);
}

#[test]
fn proving_an_invalid_claim_never_yields_an_artifact() {
    let mut claim = knight_claim();
    claim.end = Square::new(6, 6);
    match prove_mock(&claim, &IMAGE_ID) {
        Err(ProveError::ProvingFailed) => {}
        other => panic!("expected ProvingFailed, got {:?}", other.map(|a| a.is_mock)),
    }
}

#[test]
fn prove_move_mock_end_to_end() {
    let start = Square::new(3, 4);
    let commitment_hex = hex::encode(commit(start, 7));
    let step = prove_move(
        start,
        Square::new(5, 5),
        1,
        7,
        &commitment_hex,
        ProvingMode::Mock,
        &IMAGE_ID,
    )
    .expect("valid request");
    let artifact = match step {
        ProveStep::Artifact(a) => a,
        ProveStep::NeedsBackend(_) => panic!("mock mode finishes without a backend"),
    };
    assert_eq!(artifact.journal, vec![5u8, 5]);
    assert!(artifact.is_mock);
    let response = artifact_to_response(&artifact);
    assert_eq!(response.journal, "0505");
    assert!(response.seal.starts_with("73c457ba"));
    assert_eq!(response.journal_sha256, hex::encode(sha2::Sha256::digest([5u8, 5])));
    assert_eq!(response.image_id, hex::encode(IMAGE_ID));
    assert!(response.is_mock);
}

#[test]
fn prove_move_rejects_illegal_destination() {
    // Knight from (3,4) to (6,6): deltas (3,2), no rule matches.
    let start = Square::new(3, 4);
    let commitment_hex = hex::encode(commit(start, 7));
    let r = prove_move(
        start,
        Square::new(6, 6),
        1,
        7,
        &commitment_hex,
        ProvingMode::Mock,
        &IMAGE_ID,
    );
    match r {
        Err(ProveError::ProvingFailed) => {}
        _ => panic!("expected ProvingFailed"),
    }
}

#[test]
fn prove_move_rejects_malformed_commitment_first() {
    let r = prove_move(
        Square::new(3, 4),
        Square::new(5, 5),
        1,
        7,
        "not hex at all",
        ProvingMode::Mock,
        &IMAGE_ID,
    );
    match r {
        Err(ProveError::MalformedCommitment) => {}
        _ => panic!("expected MalformedCommitment"),
    }
}

#[test]
fn prove_move_sound_hands_the_claim_to_the_backend() {
    let start = Square::new(3, 4);
    let commitment = commit(start, 7);
    let commitment_hex = hex::encode(commitment);
    let step = prove_move(
        start,
        Square::new(5, 5),
        1,
        7,
        &commitment_hex,
        ProvingMode::Sound,
        &IMAGE_ID,
    )
    .expect("well-formed request");
    match step {
        ProveStep::NeedsBackend(claim) => {
            assert_eq!(claim.start, start);
            assert_eq!(claim.end, Square::new(5, 5));
            assert_eq!(claim.piece_code, 1);
            assert_eq!(claim.salt, 7);
            assert_eq!(claim.commitment, commitment);
        }
        ProveStep::Artifact(_) => panic!("sound mode needs the backend"),
    }
}

#[test]
fn complete_sound_proof_formats_the_receipt() {
    let journal = vec![5u8, 5];
    let seal = vec![1u8, 2, 3, 4, 5];
    let outcome = BackendOutcome::Proved { journal: journal.clone(), seal };
    let a = complete_sound_proof(outcome, &IMAGE_ID).expect("a receipt");
    assert_eq!(a.journal, journal);
    assert_eq!(a.seal, vec![0x73, 0xc4, 0x57, 0xba, 1, 2, 3, 4, 5]);
    let expected_digest: [u8; 32] = sha2::Sha256::digest([5u8, 5]).into();
    assert_eq!(a.journal_sha256, expected_digest);
    assert!(!a.is_mock);
}

#[test]
fn complete_sound_proof_keeps_failures_distinct() {
    assert!(matches!(
        complete_sound_proof(BackendOutcome::Rejected, &IMAGE_ID),
        Err(ProveError::ProvingFailed)
    ));
    assert!(matches!(
        complete_sound_proof(BackendOutcome::Failed, &IMAGE_ID),
        Err(ProveError::BackendFailure)
    ));
    assert!(matches!(
        complete_sound_proof(BackendOutcome::NotGroth16, &IMAGE_ID),
        Err(ProveError::MalformedReceipt)
    ));
}

#[test]
fn mode_selection_follows_override_then_credential() {
    let cases = [
        (ModeOverride::ForceSound, false, ProvingMode::Sound),
        (ModeOverride::ForceSound, true, ProvingMode::Sound),
        (ModeOverride::ForceMock, false, ProvingMode::Mock),
        (ModeOverride::ForceMock, true, ProvingMode::Mock),
        (ModeOverride::Unset, true, ProvingMode::Sound),
        (ModeOverride::Unset, false, ProvingMode::Mock),
    ];
    for (mode_override, has_cloud_credential, expected) in cases {
        let cfg = ProverConfig { has_cloud_credential, mode_override };
        assert_eq!(select_mode(&cfg), expected);
    }
}
