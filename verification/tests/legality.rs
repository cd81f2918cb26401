use fog_of_chess::board::{PieceKind, Square, is_legal_move, is_legal_move_code};

/// The legality table, written out independently: for each piece kind,
/// the condition over the absolute deltas and the start row. A zero
/// move is illegal for every kind.
fn table(kind: PieceKind, start: Square, end: Square) -> bool {
    let dr = if start.row >= end.row { start.row - end.row } else { end.row - start.row } as u32;
    let dc = if start.col >= end.col { start.col - end.col } else { end.col - start.col } as u32;
    if dr == 0 && dc == 0 {
        return false;
    }
    match kind {
        PieceKind::Knight => (dr == 2 && dc == 1) || (dr == 1 && dc == 2),
        PieceKind::Rook => dr == 0 || dc == 0,
        PieceKind::Bishop => dr == dc,
        PieceKind::Pawn => {
            (dc == 0 && (dr == 1 || (dr == 2 && (start.row == 1 || start.row == 6))))
                || (dc == 1 && dr == 1)
        }
        PieceKind::Queen => dr == 0 || dc == 0 || dr == dc,
        PieceKind::King => dr <= 1 && dc <= 1,
    }
}

#[test]
fn legality_matches_table_exhaustively() {
    let kinds = [
        PieceKind::Knight,
        PieceKind::Rook,
        PieceKind::Bishop,
        PieceKind::Pawn,
        PieceKind::Queen,
        PieceKind::King,
    ];
    for kind in kinds {
        for sr in 0..8u8 {
            for sc in 0..8u8 {
                for er in 0..8u8 {
                    for ec in 0..8u8 {
                        let start = Square::new(sr, sc);
                        let end = Square::new(er, ec);
                        assert_eq!(
                            is_legal_move(kind, start, end),
                            table(kind, start, end),
                            "kind {:?} from ({},{}) to ({},{})",
                            kind,
                            sr,
                            sc,
                            er,
                            ec
                        );
                    }
                }
            }
        }
    }
}

#[test]
fn zero_move_is_illegal_for_every_kind() {
    let kinds = [
        PieceKind::Knight,
        PieceKind::Rook,
        PieceKind::Bishop,
        PieceKind::Pawn,
        PieceKind::Queen,
        PieceKind::King,
    ];
    for kind in kinds {
        for r in 0..8u8 {
            for c in 0..8u8 {
                let sq = Square::new(r, c);
                assert!(!is_legal_move(kind, sq, sq));
            }
        }
    }
}

#[test]
fn wire_codes_map_to_kinds() {
    let start = Square::new(3, 4);
    let end = Square::new(5, 5);
    assert_eq!(is_legal_move_code(1, start, end), is_legal_move(PieceKind::Knight, start, end));
    assert!(is_legal_move_code(1, start, end));
    // A rook move by code.
    assert!(is_legal_move_code(2, Square::new(0, 0), Square::new(0, 7)));
}

#[test]
fn unknown_wire_codes_are_illegal() {
    let start = Square::new(0, 0);
    let end = Square::new(0, 1);
    assert!(!is_legal_move_code(0, start, end));
    assert!(!is_legal_move_code(7, start, end));
    assert!(!is_legal_move_code(u32::MAX, start, end));
}

#[test]
fn piece_code_roundtrip() {
    let kinds = [
        PieceKind::Knight,
        PieceKind::Rook,
        PieceKind::Bishop,
        PieceKind::Pawn,
        PieceKind::Queen,
        PieceKind::King,
    ];
    for kind in kinds {
        assert_eq!(PieceKind::from_code(kind.code()), Some(kind));
    }
    assert_eq!(PieceKind::from_code(0), None);
    assert_eq!(PieceKind::from_code(7), None);
}
