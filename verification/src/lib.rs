//! Move authentication for fog-of-war chess.
//!
//! Players commit to hidden piece positions with a salted hash; a
//! zero-knowledge circuit proves that a revealed move is legal and
//! consistent with the commitment without exposing the hidden square;
//! an on-chain contract accepts only proofs tied to the registered circuit
//! identity and the stored commitment, and tracks game sessions.

pub mod board;
pub mod bytes;
pub mod circuit;
pub mod commitment;
pub mod contract;
pub mod hexcodec;
pub mod prover;
pub mod sha;
pub mod store;
