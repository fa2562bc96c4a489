use vstd::prelude::*;

verus! {

/// Width and height of the board.
pub const BOARD_SIZE: u8 = 8;

/// One of the two participants; `First` moves first (white).
#[derive(Clone, Copy, Debug, PartialEq, Eq, Structural)]
pub enum Side {
    First,
    Second,
}

impl Side {
    pub open spec fn opposite_spec(self) -> Side {
        match self {
            Side::First => Side::Second,
            Side::Second => Side::First,
        }
    }

    /// The other participant.
    pub fn opposite(self) -> (r: Side)
        ensures
            r == self.opposite_spec(),
    {
        match self {
            Side::First => Side::Second,
            Side::Second => Side::First,
        }
    }
}

/// The kinds of movable units.
#[derive(Clone, Copy, Debug, PartialEq, Eq, Structural)]
pub enum PieceKind {
    Pawn,
    Knight,
    Bishop,
    Rook,
    Queen,
    King,
}

impl PieceKind {
    /// Position in the order Pawn, Knight, Bishop, Rook, Queen, King.
    pub open spec fn index_spec(self) -> nat {
        match self {
            PieceKind::Pawn => 0,
            PieceKind::Knight => 1,
            PieceKind::Bishop => 2,
            PieceKind::Rook => 3,
            PieceKind::Queen => 4,
            PieceKind::King => 5,
        }
    }

    pub fn index(self) -> (r: usize)
        ensures
            r == self.index_spec(),
            r < 6,
    {
        match self {
            PieceKind::Pawn => 0,
            PieceKind::Knight => 1,
            PieceKind::Bishop => 2,
            PieceKind::Rook => 3,
            PieceKind::Queen => 4,
            PieceKind::King => 5,
        }
    }

    /// The kind at position `i` of the order of `index`.
    pub fn from_index(i: usize) -> (r: PieceKind)
        requires
            i < 6,
        ensures
            r.index_spec() == i,
    {
        if i == 0 {
            PieceKind::Pawn
        } else if i == 1 {
            PieceKind::Knight
        } else if i == 2 {
            PieceKind::Bishop
        } else if i == 3 {
            PieceKind::Rook
        } else if i == 4 {
            PieceKind::Queen
        } else {
            PieceKind::King
        }
    }

    /// The kinds a pawn may be promoted to.
    pub open spec fn is_promotable(self) -> bool {
        match self {
            PieceKind::Queen | PieceKind::Rook | PieceKind::Bishop | PieceKind::Knight => true,
            _ => false,
        }
    }
}

/// A board coordinate; well formed when both indices are below `BOARD_SIZE`.
#[derive(Clone, Copy, Debug, PartialEq, Eq, Structural)]
pub struct Square {
    pub file: u8,
    pub rank: u8,
}

impl Square {
    pub open spec fn wf(self) -> bool {
        self.file < BOARD_SIZE && self.rank < BOARD_SIZE
    }

    /// The square at `file`, `rank`, or `None` when either lies outside the board.
    pub fn new(file: u32, rank: u32) -> (r: Option<Square>)
        ensures
            r is Some <==> file < BOARD_SIZE && rank < BOARD_SIZE,
            r matches Some(s) ==> s.wf() && s.file == file && s.rank == rank,
    {
        if file < BOARD_SIZE as u32 && rank < BOARD_SIZE as u32 {
            Some(Square { file: file as u8, rank: rank as u8 })
        } else {
            None
        }
    }
}

/// A move: the square left, the square reached, and the kind a promoted pawn becomes.
#[derive(Clone, Copy, Debug, PartialEq, Eq, Structural)]
pub struct Move {
    pub source: Square,
    pub dest: Square,
    pub promotion: Option<PieceKind>,
}

impl Move {
    pub open spec fn wf(self) -> bool {
        &&& self.source.wf()
        &&& self.dest.wf()
        &&& self.promotion matches Some(k) ==> k.is_promotable()
    }

    /// The same move with a queen as its promotion.
    pub open spec fn with_queen(self) -> Move {
        Move { promotion: Some(PieceKind::Queen), ..self }
    }
}

/// Why a session ends in failure.
#[derive(Clone, Copy, Debug, PartialEq, Eq, Structural)]
pub enum SessionError {
    /// A coordinate pair is missing or lies outside the board.
    MalformedMove,
    /// The move is not among the legal moves of the current board.
    IllegalMove,
    /// A message came out of sequence: a move before the start, or a second start.
    ProtocolViolation,
}

} // verus!
