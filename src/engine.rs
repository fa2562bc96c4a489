use vstd::prelude::*;
use crate::board::{after, generate_legal, legal_of, play, side_of, side_to_move, start_board};
use crate::model::{Move, PieceKind, SessionError, Side};

verus! {

/// What the move policy picks from a sequence of legal moves: the first one.
pub open spec fn first_of(s: Seq<Move>) -> Option<Move> {
    if s.len() == 0 {
        None
    } else {
        Some(s[0])
    }
}

/// The move that is played when `m` is asked for on `b`: `m` itself when it is
/// legal, else, for a move that names no promotion, the same move promoting to a
/// queen when that one is legal; none otherwise.
pub open spec fn resolve(b: chess::Board, m: Move) -> Option<Move> {
    if legal_of(b).contains(m) {
        Some(m)
    } else if m.promotion is None && legal_of(b).contains(m.with_queen()) {
        Some(m.with_queen())
    } else {
        None
    }
}

/// Whether `m` occurs in `moves`.
pub fn contains_move(moves: &Vec<Move>, m: &Move) -> (r: bool)
    ensures
        r == moves@.contains(*m),
{
    let mut i: usize = 0;
    while i < moves.len()
        invariant
            i <= moves@.len(),
            forall|j: int| 0 <= j < i ==> moves@[j] != *m,
        decreases moves@.len() - i,
    {
        if moves[i] == *m {
            return true;
        }
        i = i + 1;
    }
    false
}

/// The reference move policy: the first of the legal moves, or `None` exactly
/// when there is no legal move.
pub fn select_first(legal: &Vec<Move>) -> (r: Option<Move>)
    ensures
        r == first_of(legal@),
        r is None <==> legal@.len() == 0,
        r matches Some(m) ==> legal@.contains(m),
{
    if legal.len() == 0 {
        None
    } else {
        Some(legal[0])
    }
}

/// The automated participant: the board of its game and the side it plays.
#[derive(Clone, Copy)]
pub struct Engine {
    pub board: chess::Board,
    pub my_color: Side,
}

impl Default for Engine {
    /// The starting position, with the engine playing the second side.
    fn default() -> (r: Self)
        ensures
            side_of(r.board) == Side::First,
            r.my_color == Side::Second,
    {
        Engine { board: start_board(), my_color: Side::Second }
    }
}

impl Engine {
    /// The legal moves of the current board; the board is left as it is.
    pub fn legal_moves(&self) -> (r: Vec<Move>)
        ensures
            r@ == legal_of(self.board),
            forall|i: int| 0 <= i < r@.len() ==> (#[trigger] r@[i]).wf(),
    {
        generate_legal(&self.board)
    }

    /// The side to move on the current board.
    pub fn side_to_move(&self) -> (r: Side)
        ensures
            r == side_of(self.board),
    {
        side_to_move(&self.board)
    }

    /// The move the policy picks on the current board, or `None` exactly when the
    /// side to move has no legal move.
    pub fn choose_move(&self) -> (r: Option<Move>)
        ensures
            r == first_of(legal_of(self.board)),
            r is None <==> legal_of(self.board).len() == 0,
            r matches Some(m) ==> legal_of(self.board).contains(m) && m.wf(),
    {
        let legal = generate_legal(&self.board);
        select_first(&legal)
    }

    /// Plays a legal move: the board becomes its successor and the turn passes.
    pub fn take_move(&mut self, m: Move)
        requires
            legal_of(old(self).board).contains(m),
        ensures
            final(self).board == after(old(self).board, m),
            side_of(final(self).board) == side_of(old(self).board).opposite_spec(),
            final(self).my_color == old(self).my_color,
    {
        self.board = play(&self.board, &m);
    }

    /// Plays `m` if it is legal, or the queen promotion it stands for; fails with
    /// `IllegalMove`, leaving the board as it is, when neither is legal.
    pub fn apply(&mut self, m: Move) -> (r: Result<Move, SessionError>)
        ensures
            r is Ok <==> resolve(old(self).board, m) is Some,
            r matches Ok(played) ==> {
                &&& Some(played) == resolve(old(self).board, m)
                &&& final(self).board == after(old(self).board, played)
                &&& side_of(final(self).board) == side_of(old(self).board).opposite_spec()
            },
            r matches Err(e) ==> e == SessionError::IllegalMove,
            r is Err ==> final(self).board == old(self).board,
            final(self).my_color == old(self).my_color,
    {
        let legal = generate_legal(&self.board);
        if contains_move(&legal, &m) {
            self.take_move(m);
            Ok(m)
        } else if m.promotion.is_none() {
            let queen = Move { promotion: Some(PieceKind::Queen), ..m };
            if contains_move(&legal, &queen) {
                self.take_move(queen);
                Ok(queen)
            } else {
                Err(SessionError::IllegalMove)
            }
        } else {
            Err(SessionError::IllegalMove)
        }
    }
}

/// Every legal move of a board is accepted as it stands.
pub proof fn lemma_legal_move_accepted(b: chess::Board, m: Move)
    requires
        legal_of(b).contains(m),
    ensures
        resolve(b, m) == Some(m),
{
}

/// Generating the legal moves of one board twice gives the same set of moves.
pub proof fn lemma_generation_repeatable(b: chess::Board, first: Seq<Move>, second: Seq<Move>)
    requires
        first == legal_of(b),
        second == legal_of(b),
    ensures
        first.to_set() == second.to_set(),
{
}

} // verus!
