//! The proof circuit's statement: what a move proof asserts.
//!
//! The circuit checks that the claimed start square and salt open the
//! supplied commitment, and that the move is geometrically legal; on
//! success it reveals exactly the destination square as its public
//! journal. Inside the proving backend this runs as the guest program;
//! here the same statement is an ordinary verified function, so the
//! mock proving path and the tests evaluate it directly.

use vstd::prelude::*;
use crate::board::{Square, legal_code_spec, is_legal_move_code};
use crate::commitment::{verify, verify_spec};

verus! {

/// One move proof request: the hidden start square, the destination to
/// reveal, the piece's wire code, and the commitment opening. Exists
/// only for the duration of one proof request.
#[derive(Clone, Copy, Debug)]
pub struct MoveClaim {
    pub start: Square,
    pub end: Square,
    pub piece_code: u32,
    pub salt: u32,
    pub commitment: [u8; 32],
}

/// The circuit's constraint: the commitment opens to the start square
/// and salt, and the move is legal for the claimed piece.
pub open spec fn claim_valid(c: MoveClaim) -> bool {
    &&& verify_spec(c.start, c.salt, c.commitment@)
    &&& legal_code_spec(c.piece_code, c.start, c.end)
}

/// The public journal a successful proof reveals: the destination
/// square's two coordinate bytes, nothing else.
pub open spec fn journal_of(c: MoveClaim) -> Seq<u8> {
    seq![c.end.row, c.end.col]
}

/// Evaluate the circuit on a claim: `Some` journal exactly when every
/// constraint holds, `None` otherwise.
pub fn eval_circuit(claim: &MoveClaim) -> (r: Option<[u8; 2]>)
    ensures
        r is Some <==> claim_valid(*claim),
        r matches Some(j) ==> j@ == journal_of(*claim),
{
    if !verify(claim.start, claim.salt, &claim.commitment) {
        return None;
    }
    if !is_legal_move_code(claim.piece_code, claim.start, claim.end) {
        return None;
    }
    let journal = [claim.end.row, claim.end.col];
    proof {
        assert(journal@ =~= journal_of(*claim));
    }
    Some(journal)
}

} // verus!
