//! Board squares and the geometric move-legality predicate.
//!
//! Legality is deliberately geometry-only: it looks at the piece kind,
//! the absolute row/column deltas, and the start row (for the pawn
//! double step). Occupancy, turn order and capture targets are out of
//! scope.

use vstd::prelude::*;

verus! {

/// A board coordinate. Valid squares have `row` and `col` in `0..8`.
#[derive(Clone, Copy, PartialEq, Eq, Structural, Debug)]
pub struct Square {
    pub row: u8,
    pub col: u8,
}

impl Square {
    pub fn new(row: u8, col: u8) -> (r: Square)
        ensures
            r == (Square { row, col }),
    {
        Square { row, col }
    }
}

/// The piece kinds the legality predicate knows.
#[derive(Clone, Copy, PartialEq, Eq, Structural, Debug)]
pub enum PieceKind {
    Knight,
    Rook,
    Bishop,
    Pawn,
    Queen,
    King,
}

impl PieceKind {
    /// The wire code of each kind, as the proving circuit reads it.
    pub open spec fn code_spec(self) -> u32 {
        match self {
            PieceKind::Knight => 1,
            PieceKind::Rook => 2,
            PieceKind::Bishop => 3,
            PieceKind::Pawn => 4,
            PieceKind::Queen => 5,
            PieceKind::King => 6,
        }
    }

    pub fn code(self) -> (r: u32)
        ensures
            r == self.code_spec(),
    {
        match self {
            PieceKind::Knight => 1,
            PieceKind::Rook => 2,
            PieceKind::Bishop => 3,
            PieceKind::Pawn => 4,
            PieceKind::Queen => 5,
            PieceKind::King => 6,
        }
    }

    /// The kind a wire code stands for; codes outside `1..=6` stand for
    /// no kind at all.
    pub open spec fn from_code_spec(code: u32) -> Option<PieceKind> {
        if code == 1 {
            Some(PieceKind::Knight)
        } else if code == 2 {
            Some(PieceKind::Rook)
        } else if code == 3 {
            Some(PieceKind::Bishop)
        } else if code == 4 {
            Some(PieceKind::Pawn)
        } else if code == 5 {
            Some(PieceKind::Queen)
        } else if code == 6 {
            Some(PieceKind::King)
        } else {
            None
        }
    }

    pub fn from_code(code: u32) -> (r: Option<PieceKind>)
        ensures
            r == PieceKind::from_code_spec(code),
    {
        if code == 1 {
            Some(PieceKind::Knight)
        } else if code == 2 {
            Some(PieceKind::Rook)
        } else if code == 3 {
            Some(PieceKind::Bishop)
        } else if code == 4 {
            Some(PieceKind::Pawn)
        } else if code == 5 {
            Some(PieceKind::Queen)
        } else if code == 6 {
            Some(PieceKind::King)
        } else {
            None
        }
    }
}

/// Absolute difference of two coordinates.
pub open spec fn delta(a: u8, b: u8) -> int {
    if a >= b {
        a - b
    } else {
        b - a
    }
}

/// The per-piece geometric legality rules. A zero move (both deltas 0)
/// is illegal for every kind.
pub open spec fn legal_move_spec(kind: PieceKind, start: Square, end: Square) -> bool {
    let dr = delta(start.row, end.row);
    let dc = delta(start.col, end.col);
    match kind {
        PieceKind::Knight => (dr == 2 && dc == 1) || (dr == 1 && dc == 2),
        PieceKind::Rook => (dr == 0 || dc == 0) && dr + dc > 0,
        PieceKind::Bishop => dr == dc && dr > 0,
        PieceKind::Pawn => {
            if dc == 0 {
                dr == 1 || (dr == 2 && (start.row == 1 || start.row == 6))
            } else if dc == 1 {
                dr == 1
            } else {
                false
            }
        },
        PieceKind::Queen => (dr == 0 || dc == 0 || dr == dc) && dr + dc > 0,
        PieceKind::King => dr <= 1 && dc <= 1 && dr + dc > 0,
    }
}

/// Legality as the circuit sees it: by wire code, with unknown codes
/// illegal.
pub open spec fn legal_code_spec(code: u32, start: Square, end: Square) -> bool {
    match PieceKind::from_code_spec(code) {
        Some(kind) => legal_move_spec(kind, start, end),
        None => false,
    }
}

fn abs_diff(a: u8, b: u8) -> (r: u8)
    ensures
        r == delta(a, b),
{
    if a >= b {
        a - b
    } else {
        b - a
    }
}

/// Whether `kind` may move from `start` to `end` under the geometric
/// rules alone.
pub fn is_legal_move(kind: PieceKind, start: Square, end: Square) -> (r: bool)
    ensures
        r == legal_move_spec(kind, start, end),
{
    let dr = abs_diff(start.row, end.row);
    let dc = abs_diff(start.col, end.col);
    match kind {
        PieceKind::Knight => (dr == 2 && dc == 1) || (dr == 1 && dc == 2),
        PieceKind::Rook => (dr == 0 || dc == 0) && dr as u16 + dc as u16 > 0,
        PieceKind::Bishop => dr == dc && dr > 0,
        PieceKind::Pawn => {
            if dc == 0 {
                dr == 1 || (dr == 2 && (start.row == 1 || start.row == 6))
            } else if dc == 1 {
                dr == 1
            } else {
                false
            }
        },
        PieceKind::Queen => (dr == 0 || dc == 0 || dr == dc) && dr as u16 + dc as u16 > 0,
        PieceKind::King => dr <= 1 && dc <= 1 && dr as u16 + dc as u16 > 0,
    }
}

/// Legality by wire code, as the circuit applies it.
pub fn is_legal_move_code(code: u32, start: Square, end: Square) -> (r: bool)
    ensures
        r == legal_code_spec(code, start, end),
{
    match PieceKind::from_code(code) {
        Some(kind) => is_legal_move(kind, start, end),
        None => false,
    }
}

/// Standing still is illegal for every piece kind: whenever start and
/// end coincide, no rule of the table matches.
pub proof fn lemma_zero_delta_illegal(kind: PieceKind, start: Square, end: Square)
    requires
        start.row == end.row,
        start.col == end.col,
    ensures
        !legal_move_spec(kind, start, end),
{
}

} // verus!
