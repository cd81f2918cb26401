//! The on-chain verifying contract and session state machine.
//!
//! The chain runtime serializes calls and makes each atomic, so the
//! contract is modeled as one owned state value: per-player commitments
//! set once, sessions created by `start_game` and closed by
//! `end_game`, and `verify_move` checking an artifact's linkage before
//! anything is handed to the external proof verifier. Callers are
//! plain identities; the runtime's authentication of them, and the
//! actual calls to the verifier and game-hub collaborators, happen
//! outside — the contract returns exactly the call to make. Every failure
//! leaves the state unchanged.

use vstd::prelude::*;
use crate::bytes::{bytes32_eq, copy_bytes};
use crate::store::{
    assoc_lookup, keys_unique, lemma_lookup_skip_step, lemma_lookup_at_index, lemma_lookup_push,
    lemma_push_fresh_unique, lemma_lookup_update,
};

verus! {

/// The on-chain validation errors, one per violated precondition.
#[derive(Clone, Copy, PartialEq, Eq, Structural, Debug)]
pub enum Error {
    AlreadyCommitted,
    NoCommitment,
    InvalidProof,
    InvalidProofFormat,
    NotInitialized,
    SessionExists,
    SessionNotFound,
    NotAuthorized,
    VerificationFailed,
}

/// One game session: created active, closed once with a winner.
#[derive(Clone, Copy, PartialEq, Eq, Structural, Debug)]
pub struct GameSession {
    pub session_id: u32,
    pub player1: u64,
    pub player2: u64,
    pub player1_won: bool,
    pub active: bool,
}

/// A proof artifact as submitted to the contract.
pub struct ZKProof {
    /// Selector tag followed by the proof bytes.
    pub seal: Vec<u8>,
    /// SHA-256 of the circuit's journal.
    pub journal_sha256: [u8; 32],
    /// The circuit identity the prover claims.
    pub image_id: [u8; 32],
    /// Extra public inputs; entry 0 is the board commitment.
    pub public_inputs: Vec<[u8; 32]>,
}

/// The call the contract asks the external proof verifier to make. The
/// verifier accepts or aborts the whole transaction; it holds no state
/// of ours.
pub struct VerifierCall {
    pub journal_sha256: [u8; 32],
    pub image_id: [u8; 32],
    pub seal: Vec<u8>,
}

/// The call the contract asks the game-hub collaborator to make when a
/// session starts.
#[derive(Clone, Copy, PartialEq, Eq, Structural, Debug)]
pub struct HubStartCall {
    pub session_id: u32,
    pub player1: u64,
    pub player2: u64,
    pub stake1: i128,
    pub stake2: i128,
}

/// The call the contract asks the game-hub collaborator to make when a
/// session ends.
#[derive(Clone, Copy, PartialEq, Eq, Structural, Debug)]
pub struct HubEndCall {
    pub session_id: u32,
    pub player1_won: bool,
}

/// The contract's whole persistent state.
pub struct FogOfChessContract {
    pub admin: Option<u64>,
    pub game_hub: Option<u64>,
    /// The registered circuit identity proofs must match.
    pub image_id: Option<[u8; 32]>,
    /// Per-player board commitments, set once each.
    pub commitments: Vec<(u64, [u8; 32])>,
    /// Sessions by id, never deleted.
    pub sessions: Vec<(u32, GameSession)>,
}

impl FogOfChessContract {
    /// Both stores are honestly key-addressed: no key twice.
    pub open spec fn wf(self) -> bool {
        keys_unique(self.commitments@) && keys_unique(self.sessions@)
    }

    /// The stored commitment of a player.
    pub open spec fn commitment_of(self, player: u64) -> Option<[u8; 32]> {
        assoc_lookup(self.commitments@, player)
    }

    /// The stored session of an id.
    pub open spec fn session_of(self, session_id: u32) -> Option<GameSession> {
        assoc_lookup(self.sessions@, session_id)
    }

    /// The configuration fields are as in `other`.
    pub open spec fn same_config(self, other: Self) -> bool {
        self.admin == other.admin && self.game_hub == other.game_hub && self.image_id
            == other.image_id
    }

    /// A fresh, uninitialized contract: nothing stored.
    pub fn new() -> (r: Self)
        ensures
            r.wf(),
            r.admin is None,
            r.game_hub is None,
            r.image_id is None,
            r.commitments@ =~= Seq::<(u64, [u8; 32])>::empty(),
            r.sessions@ =~= Seq::<(u32, GameSession)>::empty(),
    {
        FogOfChessContract {
            admin: None,
            game_hub: None,
            image_id: None,
            commitments: Vec::new(),
            sessions: Vec::new(),
        }
    }

    /// Register the administrator, the game-hub collaborator and the
    /// circuit identity. The authenticated admin is the caller.
    pub fn init(&mut self, admin: u64, game_hub: u64, image_id: [u8; 32])
        requires
            old(self).wf(),
        ensures
            final(self).wf(),
            final(self).admin == Some(admin),
            final(self).game_hub == Some(game_hub),
            final(self).image_id == Some(image_id),
            final(self).commitments == old(self).commitments,
            final(self).sessions == old(self).sessions,
    {
        self.admin = Some(admin);
        self.game_hub = Some(game_hub);
        self.image_id = Some(image_id);
    }

    fn find_commitment_index(&self, player: u64) -> (r: Option<usize>)
        ensures
            r matches Some(i) ==> i < self.commitments@.len() && self.commitments@[i as int].0
                == player && self.commitment_of(player) == Some(self.commitments@[i as int].1),
            r is None ==> self.commitment_of(player) is None,
    {
        let n = self.commitments.len();
        let mut i: usize = 0;
        proof {
            assert(self.commitments@.skip(0) =~= self.commitments@);
        }
        while i < n
            invariant
                0 <= i <= n,
                n == self.commitments@.len(),
                assoc_lookup(self.commitments@, player) == assoc_lookup(
                    self.commitments@.skip(i as int),
                    player,
                ),
            decreases n - i,
        {
            let (key, _) = self.commitments[i];
            if key == player {
                proof {
                    assert(self.commitments@.skip(i as int)[0] == self.commitments@[i as int]);
                }
                return Some(i);
            }
            proof {
                lemma_lookup_skip_step(self.commitments@, i as int, player);
            }
            i = i + 1;
        }
        proof {
            assert(self.commitments@.skip(n as int) =~= Seq::<(u64, [u8; 32])>::empty());
        }
        None
    }

    fn find_session_index(&self, session_id: u32) -> (r: Option<usize>)
        ensures
            r matches Some(i) ==> i < self.sessions@.len() && self.sessions@[i as int].0
                == session_id && self.session_of(session_id) == Some(
                self.sessions@[i as int].1,
            ),
            r is None ==> self.session_of(session_id) is None,
    {
        let n = self.sessions.len();
        let mut i: usize = 0;
        proof {
            assert(self.sessions@.skip(0) =~= self.sessions@);
        }
        while i < n
            invariant
                0 <= i <= n,
                n == self.sessions@.len(),
                assoc_lookup(self.sessions@, session_id) == assoc_lookup(
                    self.sessions@.skip(i as int),
                    session_id,
                ),
            decreases n - i,
        {
            let (key, _) = self.sessions[i];
            if key == session_id {
                proof {
                    assert(self.sessions@.skip(i as int)[0] == self.sessions@[i as int]);
                }
                return Some(i);
            }
            proof {
                lemma_lookup_skip_step(self.sessions@, i as int, session_id);
            }
            i = i + 1;
        }
        proof {
            assert(self.sessions@.skip(n as int) =~= Seq::<(u32, GameSession)>::empty());
        }
        None
    }

    /// Store a player's board commitment; a second commit for the same
    /// player fails and changes nothing.
    pub fn commit_board(&mut self, player: u64, commitment: [u8; 32]) -> (r: Result<(), Error>)
        requires
            old(self).wf(),
        ensures
            final(self).wf(),
            r is Ok <==> old(self).commitment_of(player) is None,
            r matches Err(e) ==> e == Error::AlreadyCommitted && *final(self) == *old(self),
            r is Ok ==> {
                &&& final(self).commitment_of(player) == Some(commitment)
                &&& forall|q: u64|
                    q != player ==> final(self).commitment_of(q) == old(self).commitment_of(q)
                &&& final(self).sessions == old(self).sessions
                &&& final(self).same_config(*old(self))
            },
    {
        match self.find_commitment_index(player) {
            Some(_) => Err(Error::AlreadyCommitted),
            None => {
                proof {
                    lemma_push_fresh_unique(self.commitments@, player, commitment);
                    assert forall|q: u64| true implies #[trigger] assoc_lookup(
                        self.commitments@.push((player, commitment)),
                        q,
                    ) == (if q == player {
                        Some(commitment)
                    } else {
                        assoc_lookup(self.commitments@, q)
                    }) by {
                        lemma_lookup_push(self.commitments@, player, commitment, q);
                    }
                }
                self.commitments.push((player, commitment));
                Ok(())
            },
        }
    }

    /// What `start_game` does: reject an existing session id with no
    /// state change and no hub call; otherwise record the new active
    /// session and return the hub call to make, with the fixed stakes.
    pub open spec fn start_game_post(
        pre: Self,
        post: Self,
        session_id: u32,
        player1: u64,
        player2: u64,
        r: Result<HubStartCall, Error>,
    ) -> bool {
        if pre.session_of(session_id) is Some {
            r == Err::<HubStartCall, Error>(Error::SessionExists) && post == pre
        } else if pre.game_hub is None {
            r == Err::<HubStartCall, Error>(Error::NotInitialized) && post == pre
        } else {
            &&& r == Ok::<HubStartCall, Error>(
                HubStartCall { session_id, player1, player2, stake1: 1000, stake2: 1000 },
            )
            &&& post.session_of(session_id) == Some(
                GameSession { session_id, player1, player2, player1_won: false, active: true },
            )
            &&& forall|q: u32| q != session_id ==> post.session_of(q) == pre.session_of(q)
            &&& post.commitments == pre.commitments
            &&& post.same_config(pre)
        }
    }

    /// Open a session. The authenticated first player is the caller;
    /// the returned hub call registers the stakes with the game hub.
    pub fn start_game(&mut self, session_id: u32, player1: u64, player2: u64) -> (r: Result<
        HubStartCall,
        Error,
    >)
        requires
            old(self).wf(),
        ensures
            final(self).wf(),
            Self::start_game_post(*old(self), *final(self), session_id, player1, player2, r),
    {
        if let Some(_) = self.find_session_index(session_id) {
            return Err(Error::SessionExists);
        }
        if self.game_hub.is_none() {
            return Err(Error::NotInitialized);
        }
        let session = GameSession { session_id, player1, player2, player1_won: false, active: true };
        proof {
            lemma_push_fresh_unique(self.sessions@, session_id, session);
            assert forall|q: u32| true implies #[trigger] assoc_lookup(
                self.sessions@.push((session_id, session)),
                q,
            ) == (if q == session_id {
                Some(session)
            } else {
                assoc_lookup(self.sessions@, q)
            }) by {
                lemma_lookup_push(self.sessions@, session_id, session, q);
            }
        }
        self.sessions.push((session_id, session));
        Ok(HubStartCall { session_id, player1, player2, stake1: 1000, stake2: 1000 })
    }

    /// Opening a session is not repeatable: after a successful
    /// `start_game`, a second call with the same session id fails with
    /// `SessionExists`, changes nothing, and makes no hub call.
    pub proof fn lemma_start_game_replay_rejected(
        s0: Self,
        s1: Self,
        s2: Self,
        session_id: u32,
        player1: u64,
        player2: u64,
        again1: u64,
        again2: u64,
        r1: Result<HubStartCall, Error>,
        r2: Result<HubStartCall, Error>,
    )
        requires
            Self::start_game_post(s0, s1, session_id, player1, player2, r1),
            r1 is Ok,
            Self::start_game_post(s1, s2, session_id, again1, again2, r2),
        ensures
            r2 == Err::<HubStartCall, Error>(Error::SessionExists),
            s2 == s1,
    {
    }

    /// What `verify_move` checks, in order: a stored commitment for
    /// the caller, a non-empty public-input list, the supplied board
    /// commitment equal to the stored one, a registered circuit
    /// identity, and the artifact pinned to that identity; then the
    /// verifier call it asks for. It mutates nothing itself.
    pub open spec fn verify_move_post(
        self,
        player: u64,
        proof_artifact: ZKProof,
        r: Result<VerifierCall, Error>,
    ) -> bool {
        match self.commitment_of(player) {
            None => r == Err::<VerifierCall, Error>(Error::NoCommitment),
            Some(stored) => {
                if proof_artifact.public_inputs@.len() == 0 {
                    r == Err::<VerifierCall, Error>(Error::InvalidProofFormat)
                } else if proof_artifact.public_inputs@[0]@ != stored@ {
                    r == Err::<VerifierCall, Error>(Error::InvalidProof)
                } else {
                    match self.image_id {
                        None => r == Err::<VerifierCall, Error>(Error::NotInitialized),
                        Some(registered) => {
                            if proof_artifact.image_id@ != registered@ {
                                r == Err::<VerifierCall, Error>(Error::InvalidProof)
                            } else {
                                r matches Ok(call) && {
                                    &&& call.journal_sha256 == proof_artifact.journal_sha256
                                    &&& call.image_id == registered
                                    &&& call.seal@ == proof_artifact.seal@
                                }
                            }
                        },
                    }
                }
            },
        }
    }

    /// Validate a move proof's linkage and produce the call for the
    /// external verifier. Any rejection happens before the verifier is
    /// involved: a mismatched commitment is `InvalidProof` whatever
    /// the seal says. No state changes here.
    pub fn verify_move(&self, player: u64, proof_artifact: &ZKProof) -> (r: Result<
        VerifierCall,
        Error,
    >)
        ensures
            self.verify_move_post(player, *proof_artifact, r),
    {
        let stored = match self.find_commitment_index(player) {
            None => {
                return Err(Error::NoCommitment);
            },
            Some(i) => self.commitments[i].1,
        };
        if proof_artifact.public_inputs.len() == 0 {
            return Err(Error::InvalidProofFormat);
        }
        if !bytes32_eq(&proof_artifact.public_inputs[0], &stored) {
            return Err(Error::InvalidProof);
        }
        let registered = match self.image_id {
            None => {
                return Err(Error::NotInitialized);
            },
            Some(id) => id,
        };
        if !bytes32_eq(&proof_artifact.image_id, &registered) {
            return Err(Error::InvalidProof);
        }
        Ok(
            VerifierCall {
                journal_sha256: proof_artifact.journal_sha256,
                image_id: registered,
                seal: copy_bytes(&proof_artifact.seal),
            },
        )
    }

    /// The external verifier's verdict, applied: acceptance completes
    /// the call with success; rejection aborts it, and nothing of the
    /// contract's state ever changed.
    pub fn apply_verifier_verdict(accepted: bool) -> (r: Result<bool, Error>)
        ensures
            accepted ==> r == Ok::<bool, Error>(true),
            !accepted ==> r == Err::<bool, Error>(Error::VerificationFailed),
    {
        if accepted {
            Ok(true)
        } else {
            Err(Error::VerificationFailed)
        }
    }

    /// What `end_game` does: reject an unknown session, a caller who
    /// is not a participant, or a missing hub, all with no state
    /// change and no hub call; otherwise close the session, record the
    /// winner, and return the hub call to make.
    pub open spec fn end_game_post(
        pre: Self,
        post: Self,
        caller: u64,
        session_id: u32,
        player1_won: bool,
        r: Result<HubEndCall, Error>,
    ) -> bool {
        match pre.session_of(session_id) {
            None => r == Err::<HubEndCall, Error>(Error::SessionNotFound) && post == pre,
            Some(session) => {
                if caller != session.player1 && caller != session.player2 {
                    r == Err::<HubEndCall, Error>(Error::NotAuthorized) && post == pre
                } else if pre.game_hub is None {
                    r == Err::<HubEndCall, Error>(Error::NotInitialized) && post == pre
                } else {
                    &&& r == Ok::<HubEndCall, Error>(HubEndCall { session_id, player1_won })
                    &&& post.session_of(session_id) == Some(
                        GameSession { player1_won, active: false, ..session },
                    )
                    &&& forall|q: u32| q != session_id ==> post.session_of(q) == pre.session_of(q)
                    &&& post.commitments == pre.commitments
                    &&& post.same_config(pre)
                }
            },
        }
    }

    /// Close a session. The authenticated caller must be one of its
    /// two players; the returned hub call settles the stakes.
    pub fn end_game(&mut self, caller: u64, session_id: u32, player1_won: bool) -> (r: Result<
        HubEndCall,
        Error,
    >)
        requires
            old(self).wf(),
        ensures
            final(self).wf(),
            Self::end_game_post(
                *old(self),
                *final(self),
                caller,
                session_id,
                player1_won,
                r,
            ),
    {
        let i = match self.find_session_index(session_id) {
            None => {
                return Err(Error::SessionNotFound);
            },
            Some(i) => i,
        };
        let session = self.sessions[i].1;
        if caller != session.player1 && caller != session.player2 {
            return Err(Error::NotAuthorized);
        }
        if self.game_hub.is_none() {
            return Err(Error::NotInitialized);
        }
        let closed = GameSession { player1_won, active: false, ..session };
        proof {
            lemma_lookup_at_index(self.sessions@, session_id, i as int);
            assert forall|q: u32| true implies #[trigger] assoc_lookup(
                self.sessions@.update(i as int, (session_id, closed)),
                q,
            ) == (if q == session_id {
                Some(closed)
            } else {
                assoc_lookup(self.sessions@, q)
            }) by {
                lemma_lookup_update(self.sessions@, i as int, session_id, closed, q);
            }
            lemma_lookup_update(self.sessions@, i as int, session_id, closed, session_id);
        }
        self.sessions.set(i, (session_id, closed));
        Ok(HubEndCall { session_id, player1_won })
    }

    /// The stored commitment of a player, if any.
    pub fn get_commitment(&self, player: u64) -> (r: Option<[u8; 32]>)
        ensures
            r == self.commitment_of(player),
    {
        match self.find_commitment_index(player) {
            None => None,
            Some(i) => Some(self.commitments[i].1),
        }
    }

    /// The stored session of an id, if any.
    pub fn get_session(&self, session_id: u32) -> (r: Option<GameSession>)
        ensures
            r == self.session_of(session_id),
    {
        match self.find_session_index(session_id) {
            None => None,
            Some(i) => Some(self.sessions[i].1),
        }
    }
}

} // verus!
