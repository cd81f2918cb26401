//! The proving orchestrator: claim construction, proving-mode
//! selection, and artifact formatting.
//!
//! The cryptographic proving backend itself is a black-box
//! collaborator. The mock path needs no backend: it evaluates the
//! circuit directly and synthesizes a seal of the right shape, flagged
//! `is_mock` so nobody mistakes it for a sound proof. The sound path
//! prepares the claim for the backend and formats whatever receipt the
//! backend hands back.

use vstd::prelude::*;
use crate::board::Square;
use crate::circuit::{MoveClaim, claim_valid, journal_of, eval_circuit};
use crate::commitment::commit_spec;
use crate::board::legal_code_spec;
use crate::hexcodec::{hex_of, valid_hex, unhex_of, hex_encode, hex_decode};
use crate::sha::{sha256, sha256_of};

verus! {

/// How a proof is produced: cryptographically sound, or a fast mock
/// for development.
#[derive(Clone, Copy, PartialEq, Eq, Structural, Debug)]
pub enum ProvingMode {
    Sound,
    Mock,
}

/// An explicit mode override a deployment may set.
#[derive(Clone, Copy, PartialEq, Eq, Structural, Debug)]
pub enum ModeOverride {
    ForceSound,
    ForceMock,
    Unset,
}

/// The orchestrator's configuration, read once at startup.
#[derive(Clone, Copy, PartialEq, Eq, Structural, Debug)]
pub struct ProverConfig {
    /// Whether a cloud-proving credential pair is configured.
    pub has_cloud_credential: bool,
    pub mode_override: ModeOverride,
}

/// Mode selection: an explicit override wins; otherwise sound proving
/// is used exactly when a cloud credential is present.
pub open spec fn select_mode_spec(cfg: ProverConfig) -> ProvingMode {
    match cfg.mode_override {
        ModeOverride::ForceSound => ProvingMode::Sound,
        ModeOverride::ForceMock => ProvingMode::Mock,
        ModeOverride::Unset => if cfg.has_cloud_credential {
            ProvingMode::Sound
        } else {
            ProvingMode::Mock
        },
    }
}

pub fn select_mode(cfg: &ProverConfig) -> (r: ProvingMode)
    ensures
        r == select_mode_spec(*cfg),
{
    match cfg.mode_override {
        ModeOverride::ForceSound => ProvingMode::Sound,
        ModeOverride::ForceMock => ProvingMode::Mock,
        ModeOverride::Unset => if cfg.has_cloud_credential {
            ProvingMode::Sound
        } else {
            ProvingMode::Mock
        },
    }
}

/// The distinct, fatal-to-the-request failures of one proof request.
#[derive(Clone, Copy, PartialEq, Eq, Structural, Debug)]
pub enum ProveError {
    /// The commitment was not the hex string of 32 bytes.
    MalformedCommitment,
    /// The proving run was rejected: some circuit constraint failed.
    /// Which one is deliberately not said, so nothing leaks about the
    /// hidden state.
    ProvingFailed,
    /// The proving backend could not do its work at all.
    BackendFailure,
    /// The backend's receipt did not carry a proof of the expected
    /// system.
    MalformedReceipt,
}

/// A finished proof artifact, ready for on-chain consumption.
pub struct ProofArtifact {
    /// Selector tag followed by the proof bytes.
    pub seal: Vec<u8>,
    /// The circuit's public output: the revealed destination square.
    pub journal: Vec<u8>,
    /// SHA-256 of the journal: what the on-chain verifier checks.
    pub journal_sha256: [u8; 32],
    /// Identifies exactly one compiled circuit version.
    pub image_id: [u8; 32],
    /// Never silently false for a synthesized seal.
    pub is_mock: bool,
}

/// The fixed 4-byte selector naming the verifier contract's expected
/// proof system; it prefixes every seal.
pub open spec fn selector_spec() -> Seq<u8> {
    seq![0x73u8, 0xc4u8, 0x57u8, 0xbau8]
}

/// A mock seal body: the journal padded with zeros to the fixed seal
/// length (or cut to it, were the journal ever longer).
pub open spec fn mock_seal_body_spec(journal: Seq<u8>) -> Seq<u8> {
    if journal.len() <= 256 {
        journal + Seq::new((256 - journal.len()) as nat, |i: int| 0u8)
    } else {
        journal.take(256)
    }
}

/// What every artifact seal looks like: selector, then body.
pub open spec fn sealed_spec(body: Seq<u8>) -> Seq<u8> {
    selector_spec() + body
}

fn selector_bytes() -> (r: Vec<u8>)
    ensures
        r@ == selector_spec(),
{
    let mut v: Vec<u8> = Vec::new();
    v.push(0x73);
    v.push(0xc4);
    v.push(0x57);
    v.push(0xba);
    proof {
        assert(v@ =~= selector_spec());
    }
    v
}

/// Prefix a proof body with the verifier selector.
pub fn prepend_selector(body: &Vec<u8>) -> (r: Vec<u8>)
    ensures
        r@ == sealed_spec(body@),
{
    let mut v = selector_bytes();
    let n = body.len();
    let mut i: usize = 0;
    while i < n
        invariant
            0 <= i <= n,
            n == body@.len(),
            v@ == selector_spec() + body@.subrange(0, i as int),
        decreases n - i,
    {
        v.push(body[i]);
        proof {
            assert(v@ =~= selector_spec() + body@.subrange(0, i + 1));
        }
        i = i + 1;
    }
    proof {
        assert(body@.subrange(0, n as int) =~= body@);
    }
    v
}

fn build_mock_seal(journal: &Vec<u8>) -> (r: Vec<u8>)
    ensures
        r@ == sealed_spec(mock_seal_body_spec(journal@)),
{
    let mut body: Vec<u8> = Vec::new();
    let n = if journal.len() <= 256 {
        journal.len()
    } else {
        256
    };
    let mut i: usize = 0;
    while i < n
        invariant
            0 <= i <= n,
            n <= journal@.len(),
            body@.len() == i,
            forall|j: int| 0 <= j < i ==> body@[j] == journal@[j],
        decreases n - i,
    {
        body.push(journal[i]);
        i = i + 1;
    }
    while body.len() < 256
        invariant
            n <= body@.len() <= 256,
            forall|j: int| 0 <= j < n ==> body@[j] == journal@[j],
            forall|j: int| n <= j < body@.len() ==> body@[j] == 0u8,
        decreases 256 - body.len(),
    {
        body.push(0);
    }
    proof {
        assert(body@ =~= mock_seal_body_spec(journal@));
    }
    prepend_selector(&body)
}

/// Whether an artifact is exactly what the mock path produces for a
/// claim.
pub open spec fn mock_artifact_ok(c: MoveClaim, image_id: Seq<u8>, a: ProofArtifact) -> bool {
    &&& a.journal@ == journal_of(c)
    &&& a.journal_sha256@ == sha256_of(journal_of(c))
    &&& a.seal@ == sealed_spec(mock_seal_body_spec(journal_of(c)))
    &&& a.image_id@ == image_id
    &&& a.is_mock == true
}

/// Prove a claim in mock mode: evaluate the circuit directly and
/// synthesize an artifact of the sound shape, flagged as mock.
pub fn prove_mock(claim: &MoveClaim, image_id: &[u8; 32]) -> (r: Result<ProofArtifact, ProveError>)
    ensures
        r is Ok <==> claim_valid(*claim),
        r matches Ok(a) ==> mock_artifact_ok(*claim, image_id@, a),
        r matches Err(e) ==> e == ProveError::ProvingFailed,
{
    match eval_circuit(claim) {
        None => Err(ProveError::ProvingFailed),
        Some(j) => {
            let mut journal: Vec<u8> = Vec::new();
            journal.push(j[0]);
            journal.push(j[1]);
            proof {
                assert(journal@ =~= j@);
            }
            let journal_sha256 = sha256(journal.as_slice());
            let seal = build_mock_seal(&journal);
            Ok(
                ProofArtifact {
                    seal,
                    journal,
                    journal_sha256,
                    image_id: *image_id,
                    is_mock: true,
                },
            )
        },
    }
}

/// Mock proving is deterministic at the artifact level: any two mock
/// artifacts for the same claim carry byte-identical journals, and
/// both are flagged as mock.
pub proof fn lemma_mock_proofs_deterministic(
    c: MoveClaim,
    image_id: Seq<u8>,
    a1: ProofArtifact,
    a2: ProofArtifact,
)
    requires
        mock_artifact_ok(c, image_id, a1),
        mock_artifact_ok(c, image_id, a2),
    ensures
        a1.journal@ == a2.journal@,
        a1.is_mock,
        a2.is_mock,
{
}

/// What the external proving backend reported for one sound request.
pub enum BackendOutcome {
    /// A receipt of the expected proof system: its public journal and
    /// its proof bytes.
    Proved { journal: Vec<u8>, seal: Vec<u8> },
    /// The proving run was rejected (a circuit constraint failed).
    Rejected,
    /// The backend was unreachable or failed for its own reasons.
    Failed,
    /// A receipt came back, but not of the expected proof system.
    NotGroth16,
}

/// Whether an artifact is exactly the sound formatting of a backend
/// receipt.
pub open spec fn sound_artifact_ok(
    journal: Seq<u8>,
    seal_body: Seq<u8>,
    image_id: Seq<u8>,
    a: ProofArtifact,
) -> bool {
    &&& a.journal@ == journal
    &&& a.journal_sha256@ == sha256_of(journal)
    &&& a.seal@ == sealed_spec(seal_body)
    &&& a.image_id@ == image_id
    &&& a.is_mock == false
}

/// Turn a backend outcome into an artifact or the distinct error it
/// calls for; nothing is ever downgraded to a success.
pub fn complete_sound_proof(outcome: BackendOutcome, image_id: &[u8; 32]) -> (r: Result<
    ProofArtifact,
    ProveError,
>)
    ensures
        (outcome matches BackendOutcome::Proved { journal, seal } ==> (r matches Ok(a)
            && sound_artifact_ok(journal@, seal@, image_id@, a))),
        (outcome is Rejected ==> (r matches Err(e) && e == ProveError::ProvingFailed)),
        (outcome is Failed ==> (r matches Err(e) && e == ProveError::BackendFailure)),
        (outcome is NotGroth16 ==> (r matches Err(e) && e == ProveError::MalformedReceipt)),
{
    match outcome {
        BackendOutcome::Proved { journal, seal } => {
            let journal_sha256 = sha256(journal.as_slice());
            let full_seal = prepend_selector(&seal);
            Ok(
                ProofArtifact {
                    seal: full_seal,
                    journal,
                    journal_sha256,
                    image_id: *image_id,
                    is_mock: false,
                },
            )
        },
        BackendOutcome::Rejected => Err(ProveError::ProvingFailed),
        BackendOutcome::Failed => Err(ProveError::BackendFailure),
        BackendOutcome::NotGroth16 => Err(ProveError::MalformedReceipt),
    }
}

/// Parse the request's commitment: the hex string of exactly 32 bytes.
pub fn parse_commitment(s: &str) -> (r: Result<[u8; 32], ProveError>)
    ensures
        r is Ok <==> (valid_hex(s@) && s@.len() == 64),
        r matches Ok(b) ==> b@ == unhex_of(s@),
        r matches Err(e) ==> e == ProveError::MalformedCommitment,
{
    match hex_decode(s) {
        None => Err(ProveError::MalformedCommitment),
        Some(v) => {
            if v.len() != 32 {
                return Err(ProveError::MalformedCommitment);
            }
            let mut b: [u8; 32] = [0; 32];
            let mut i: usize = 0;
            while i < 32
                invariant
                    0 <= i <= 32,
                    v@.len() == 32,
                    forall|j: int| 0 <= j < i ==> b@[j] == v@[j],
                decreases 32 - i,
            {
                b[i] = v[i];
                i = i + 1;
            }
            proof {
                assert(b@ =~= v@);
            }
            Ok(b)
        },
    }
}

/// The claim a request's fields stand for.
pub open spec fn request_claim(
    c: MoveClaim,
    start: Square,
    end: Square,
    piece_code: u32,
    salt: u32,
    commitment_hex: Seq<char>,
) -> bool {
    &&& c.start == start
    &&& c.end == end
    &&& c.piece_code == piece_code
    &&& c.salt == salt
    &&& c.commitment@ == unhex_of(commitment_hex)
}

/// A well-formed commitment field: the hex string of 32 bytes.
pub open spec fn commitment_hex_ok(commitment_hex: Seq<char>) -> bool {
    valid_hex(commitment_hex) && commitment_hex.len() == 64
}

/// A fully valid request: parsable commitment that opens to the start
/// square and salt, and a legal move.
pub open spec fn request_valid(
    start: Square,
    end: Square,
    piece_code: u32,
    salt: u32,
    commitment_hex: Seq<char>,
) -> bool {
    &&& commitment_hex_ok(commitment_hex)
    &&& unhex_of(commitment_hex) == commit_spec(start, salt)
    &&& legal_code_spec(piece_code, start, end)
}

/// Package a request's fields as the circuit's claim.
pub fn build_claim(
    start: Square,
    end: Square,
    piece_code: u32,
    salt: u32,
    commitment_hex: &str,
) -> (r: Result<MoveClaim, ProveError>)
    ensures
        r is Ok <==> commitment_hex_ok(commitment_hex@),
        r matches Ok(c) ==> request_claim(c, start, end, piece_code, salt, commitment_hex@),
        r matches Err(e) ==> e == ProveError::MalformedCommitment,
{
    let commitment = match parse_commitment(commitment_hex) {
        Ok(b) => b,
        Err(e) => {
            return Err(e);
        },
    };
    Ok(MoveClaim { start, end, piece_code, salt, commitment })
}

/// What one proving step produced: a finished artifact (mock mode), or
/// a claim the external backend must prove (sound mode).
pub enum ProveStep {
    Artifact(ProofArtifact),
    NeedsBackend(MoveClaim),
}

/// Serve one move-proving request up to the backend boundary.
///
/// The commitment is parsed first; a malformed one fails the request
/// before any proving work. In mock mode the artifact is finished
/// here, and exists exactly when the claim satisfies the circuit. In
/// sound mode the validated claim is handed back for the external
/// backend; `complete_sound_proof` formats its receipt.
pub fn prove_move(
    start: Square,
    end: Square,
    piece_code: u32,
    salt: u32,
    commitment_hex: &str,
    mode: ProvingMode,
    image_id: &[u8; 32],
) -> (r: Result<ProveStep, ProveError>)
    ensures
        !commitment_hex_ok(commitment_hex@) <==> (r matches Err(e) && e
            == ProveError::MalformedCommitment),
        mode == ProvingMode::Sound && commitment_hex_ok(commitment_hex@) ==> (r matches Ok(s) && s
            matches ProveStep::NeedsBackend(c) && request_claim(
            c,
            start,
            end,
            piece_code,
            salt,
            commitment_hex@,
        )),
        mode == ProvingMode::Mock && commitment_hex_ok(commitment_hex@) ==> (r is Ok
            <==> request_valid(start, end, piece_code, salt, commitment_hex@)),
        mode == ProvingMode::Mock && commitment_hex_ok(commitment_hex@) ==> (r matches Err(e) ==> e
            == ProveError::ProvingFailed),
        mode == ProvingMode::Mock ==> (r matches Ok(s) ==> (s matches ProveStep::Artifact(a) && {
            &&& a.journal@ == seq![end.row, end.col]
            &&& a.journal_sha256@ == sha256_of(seq![end.row, end.col])
            &&& a.seal@ == sealed_spec(mock_seal_body_spec(seq![end.row, end.col]))
            &&& a.image_id@ == image_id@
            &&& a.is_mock == true
        })),
{
    let claim = match build_claim(start, end, piece_code, salt, commitment_hex) {
        Ok(c) => c,
        Err(e) => {
            return Err(e);
        },
    };
    match mode {
        ProvingMode::Sound => Ok(ProveStep::NeedsBackend(claim)),
        ProvingMode::Mock => {
            match prove_mock(&claim, image_id) {
                Ok(a) => {
                    proof {
                        assert(journal_of(claim) =~= seq![end.row, end.col]);
                    }
                    Ok(ProveStep::Artifact(a))
                },
                Err(e) => Err(e),
            }
        },
    }
}

/// The hex response the wire format asks for, one field per artifact
/// field.
pub struct ProveResponse {
    pub seal: String,
    pub journal: String,
    pub journal_sha256: String,
    pub image_id: String,
    pub is_mock: bool,
}

/// Whether a response is the hex rendering of an artifact.
pub open spec fn response_matches(a: ProofArtifact, r: ProveResponse) -> bool {
    &&& r.seal@ == hex_of(a.seal@)
    &&& r.journal@ == hex_of(a.journal@)
    &&& r.journal_sha256@ == hex_of(a.journal_sha256@)
    &&& r.image_id@ == hex_of(a.image_id@)
    &&& r.is_mock == a.is_mock
}

/// Render an artifact for the wire: every byte field hex-encoded, the
/// mock flag carried through.
pub fn artifact_to_response(a: &ProofArtifact) -> (r: ProveResponse)
    ensures
        response_matches(*a, r),
{
    ProveResponse {
        seal: hex_encode(a.seal.as_slice()),
        journal: hex_encode(a.journal.as_slice()),
        journal_sha256: hex_encode(a.journal_sha256.as_slice()),
        image_id: hex_encode(a.image_id.as_slice()),
        is_mock: a.is_mock,
    }
}

} // verus!
