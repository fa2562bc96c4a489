use vstd::prelude::*;
use crate::model::{Move, PieceKind, SessionError, Square, BOARD_SIZE};

verus! {

/// Wire code of a promotion to a queen.
pub const PROMOTE_QUEEN: i32 = 0;
/// Wire code of a promotion to a rook.
pub const PROMOTE_ROOK: i32 = 1;
/// Wire code of a promotion to a bishop.
pub const PROMOTE_BISHOP: i32 = 2;
/// Wire code of a promotion to a knight.
pub const PROMOTE_KNIGHT: i32 = 3;

/// A coordinate pair as it travels on the wire.
#[derive(Clone, Copy, Debug, PartialEq, Eq, Structural)]
pub struct Position {
    pub file: u32,
    pub rank: u32,
}

/// A move as it travels on the wire, in both directions.
#[derive(Clone, Copy, Debug, PartialEq, Eq, Structural)]
pub struct MoveMessage {
    pub source: Option<Position>,
    pub destination: Option<Position>,
    pub promotion: Option<i32>,
}

/// The piece kind a wire promotion code names, if any.
pub open spec fn kind_of_code(c: i32) -> Option<PieceKind> {
    if c == PROMOTE_QUEEN {
        Some(PieceKind::Queen)
    } else if c == PROMOTE_ROOK {
        Some(PieceKind::Rook)
    } else if c == PROMOTE_BISHOP {
        Some(PieceKind::Bishop)
    } else if c == PROMOTE_KNIGHT {
        Some(PieceKind::Knight)
    } else {
        None
    }
}

/// The wire code of a kind, for the kinds a pawn may become.
pub open spec fn code_of_kind(k: PieceKind) -> Option<i32> {
    match k {
        PieceKind::Queen => Some(PROMOTE_QUEEN),
        PieceKind::Rook => Some(PROMOTE_ROOK),
        PieceKind::Bishop => Some(PROMOTE_BISHOP),
        PieceKind::Knight => Some(PROMOTE_KNIGHT),
        _ => None,
    }
}

pub open spec fn position_in_range(p: Position) -> bool {
    p.file < BOARD_SIZE && p.rank < BOARD_SIZE
}

pub open spec fn square_at(p: Position) -> Square {
    Square { file: p.file as u8, rank: p.rank as u8 }
}

/// What a wire move decodes to: both coordinate pairs must be present and on the
/// board; an unknown promotion code counts as no promotion.
pub open spec fn decode_spec(w: MoveMessage) -> Result<Move, SessionError> {
    match (w.source, w.destination) {
        (Some(s), Some(d)) => if position_in_range(s) && position_in_range(d) {
            Ok(Move {
                source: square_at(s),
                dest: square_at(d),
                promotion: match w.promotion {
                    Some(c) => kind_of_code(c),
                    None => None,
                },
            })
        } else {
            Err(SessionError::MalformedMove)
        },
        _ => Err(SessionError::MalformedMove),
    }
}

pub open spec fn position_of(s: Square) -> Position {
    Position { file: s.file as u32, rank: s.rank as u32 }
}

/// The wire form of a move.
pub open spec fn encode_spec(m: Move) -> MoveMessage {
    MoveMessage {
        source: Some(position_of(m.source)),
        destination: Some(position_of(m.dest)),
        promotion: match m.promotion {
            Some(k) => code_of_kind(k),
            None => None,
        },
    }
}

/// The piece kind that a wire promotion code names; unknown codes name none.
pub fn promote_piece_to_piece(p: Option<i32>) -> (r: Option<PieceKind>)
    ensures
        r == (match p {
            Some(c) => kind_of_code(c),
            None => None,
        }),
{
    match p {
        None => None,
        Some(c) => if c == PROMOTE_QUEEN {
            Some(PieceKind::Queen)
        } else if c == PROMOTE_ROOK {
            Some(PieceKind::Rook)
        } else if c == PROMOTE_BISHOP {
            Some(PieceKind::Bishop)
        } else if c == PROMOTE_KNIGHT {
            Some(PieceKind::Knight)
        } else {
            None
        },
    }
}

/// The wire code of a promotion kind; kinds a pawn cannot become have none.
pub fn piece_to_promote_piece(k: PieceKind) -> (r: Option<i32>)
    ensures
        r == code_of_kind(k),
{
    match k {
        PieceKind::Queen => Some(PROMOTE_QUEEN),
        PieceKind::Rook => Some(PROMOTE_ROOK),
        PieceKind::Bishop => Some(PROMOTE_BISHOP),
        PieceKind::Knight => Some(PROMOTE_KNIGHT),
        _ => None,
    }
}

/// Decodes a wire move; fails with `MalformedMove` exactly when a coordinate pair
/// is missing or off the board.
pub fn decode(w: &MoveMessage) -> (r: Result<Move, SessionError>)
    ensures
        r == decode_spec(*w),
        r matches Ok(m) ==> m.wf(),
{
    match (w.source, w.destination) {
        (Some(s), Some(d)) => {
            match (Square::new(s.file, s.rank), Square::new(d.file, d.rank)) {
                (Some(source), Some(dest)) => {
                    let promotion = promote_piece_to_piece(w.promotion);
                    Ok(Move { source, dest, promotion })
                },
                _ => Err(SessionError::MalformedMove),
            }
        },
        _ => Err(SessionError::MalformedMove),
    }
}

/// Encodes a move for the wire.
pub fn encode(m: &Move) -> (r: MoveMessage)
    ensures
        r == encode_spec(*m),
{
    let promotion = match m.promotion {
        Some(k) => piece_to_promote_piece(k),
        None => None,
    };
    MoveMessage {
        source: Some(Position { file: m.source.file as u32, rank: m.source.rank as u32 }),
        destination: Some(Position { file: m.dest.file as u32, rank: m.dest.rank as u32 }),
        promotion,
    }
}

/// Decoding the wire form of a well-formed move gives the move back.
pub proof fn lemma_decode_encode(m: Move)
    requires
        m.wf(),
    ensures
        decode_spec(encode_spec(m)) == Ok::<Move, SessionError>(m),
{
}

} // verus!
