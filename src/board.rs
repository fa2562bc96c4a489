use vstd::prelude::*;
use crate::model::{Move, PieceKind, Side, Square};

verus! {

#[verifier::external_type_specification]
#[verifier::external_body]
pub struct ExBoard(chess::Board);

/// The legal moves of a board, in the order in which the generator yields them.
pub uninterp spec fn legal_of(b: chess::Board) -> Seq<Move>;

/// The side to move on a board.
pub uninterp spec fn side_of(b: chess::Board) -> Side;

/// The board that playing a legal move leads to.
pub uninterp spec fn after(b: chess::Board, m: Move) -> chess::Board;

/// Relies on chess::Board::default: the standard starting position, white to move.
#[verifier::external_body]
pub(crate) fn start_board() -> (r: chess::Board)
    ensures
        side_of(r) == Side::First,
{
    chess::Board::default()
}

/// Relies on chess::Board::side_to_move, read as a side (white moves first).
#[verifier::external_body]
pub(crate) fn side_to_move(b: &chess::Board) -> (r: Side)
    ensures
        r == side_of(*b),
{
    match b.side_to_move() {
        chess::Color::White => Side::First,
        chess::Color::Black => Side::Second,
    }
}

/// Relies on chess::MoveGen::new_legal: the legal moves of the board, each square
/// given by its file and rank indices (0 to 7), each promotion being to a queen,
/// a knight, a rook or a bishop.
#[verifier::external_body]
pub(crate) fn generate_legal(b: &chess::Board) -> (r: Vec<Move>)
    ensures
        r@ == legal_of(*b),
        forall|i: int| 0 <= i < r@.len() ==> (#[trigger] r@[i]).wf(),
{
    let sq = |s: chess::Square|
        Square { file: s.get_file().to_index() as u8, rank: s.get_rank().to_index() as u8 };
    let mut v: Vec<Move> = Vec::new();
    for cm in chess::MoveGen::new_legal(b) {
        let promotion = cm.get_promotion().map(|p| PieceKind::from_index(p.to_index()));
        v.push(Move { source: sq(cm.get_source()), dest: sq(cm.get_dest()), promotion });
    }
    v
}

/// Relies on chess::Board::make_move_new: the board after a legal move, with the
/// turn handed to the other side.
#[verifier::external_body]
pub(crate) fn play(b: &chess::Board, m: &Move) -> (r: chess::Board)
    requires
        legal_of(*b).contains(*m),
    ensures
        r == after(*b, *m),
        side_of(r) == side_of(*b).opposite_spec(),
{
    let sq = |s: Square|
        chess::Square::make_square(chess::Rank::from_index(s.rank as usize), chess::File::from_index(s.file as usize));
    let promotion = m.promotion.map(|k| chess::ALL_PIECES[k.index()]);
    b.make_move_new(chess::ChessMove::new(sq(m.source), sq(m.dest), promotion))
}

} // verus!
