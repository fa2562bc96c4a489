use vstd::prelude::*;
use crate::board::{after, legal_of, side_of};
use crate::codec::{decode, decode_spec, encode, encode_spec, MoveMessage};
use crate::engine::{first_of, resolve, Engine};
use crate::model::{SessionError, Side};

verus! {

/// Where a session stands between two messages.
#[derive(Clone, Copy, Debug, PartialEq, Eq, Structural)]
pub enum Phase {
    /// No start message has come yet.
    AwaitingStart,
    /// The remote participant is to move.
    AwaitingOpponentMove,
    /// The game is over; nothing more is read or sent.
    Terminated,
}

/// What the stream hands to a session.
#[derive(Clone, Copy, Debug, PartialEq, Eq, Structural)]
pub enum Event {
    /// The start message, naming the side the remote participant plays.
    Start(Side),
    /// A move of the remote participant.
    Move(MoveMessage),
    /// The peer closed the stream.
    Closed,
    /// A message of a kind the session does not know.
    Other,
}

/// What a session asks of the stream after an event.
#[derive(Clone, Copy, Debug, PartialEq, Eq, Structural)]
pub enum Action {
    /// Send this move to the remote participant and read on.
    Send(MoveMessage),
    /// Send nothing and read on.
    Wait,
    /// Close the stream without an error: the game is over.
    Close,
    /// Close the stream with this error.
    Fail(SessionError),
}

/// The automated side moves on `b`: its phase, board and action afterwards.
pub open spec fn reply(b: chess::Board) -> (Phase, chess::Board, Action) {
    match first_of(legal_of(b)) {
        None => (Phase::Terminated, b, Action::Close),
        Some(m) => (Phase::AwaitingOpponentMove, after(b, m), Action::Send(encode_spec(m))),
    }
}

/// One step of the protocol: from phase, board and automated side, on an event,
/// to the next phase, board and automated side, and the action to take.
/// Out-of-sequence messages (a move before the start, a second start) fail the
/// session; messages of an unknown kind are ignored.
pub open spec fn transition(phase: Phase, b: chess::Board, me: Side, e: Event) -> (
    Phase,
    chess::Board,
    Side,
    Action,
) {
    if phase == Phase::Terminated {
        (Phase::Terminated, b, me, Action::Close)
    } else {
        match e {
            Event::Closed => (Phase::Terminated, b, me, Action::Close),
            Event::Other => (phase, b, me, Action::Wait),
            Event::Start(remote) => if phase == Phase::AwaitingStart {
                if remote == Side::Second {
                    (reply(b).0, reply(b).1, Side::First, reply(b).2)
                } else {
                    (Phase::AwaitingOpponentMove, b, Side::Second, Action::Wait)
                }
            } else {
                (Phase::Terminated, b, me, Action::Fail(SessionError::ProtocolViolation))
            },
            Event::Move(w) => if phase == Phase::AwaitingStart {
                (Phase::Terminated, b, me, Action::Fail(SessionError::ProtocolViolation))
            } else {
                match decode_spec(w) {
                    Err(err) => (Phase::Terminated, b, me, Action::Fail(err)),
                    Ok(m) => match resolve(b, m) {
                        None => (Phase::Terminated, b, me, Action::Fail(SessionError::IllegalMove)),
                        Some(p) => {
                            let next = reply(after(b, p));
                            (next.0, next.1, me, next.2)
                        },
                    },
                }
            },
        }
    }
}

/// One game, bound to one stream.
pub struct Session {
    pub engine: Engine,
    pub phase: Phase,
}

impl Session {
    /// Turn ownership: before the start the first side is to move, and while
    /// waiting for the remote participant it is the remote side that is to move.
    pub open spec fn wf(self) -> bool {
        &&& self.phase == Phase::AwaitingStart ==> side_of(self.engine.board) == Side::First
        &&& self.phase == Phase::AwaitingOpponentMove ==> side_of(self.engine.board)
            == self.engine.my_color.opposite_spec()
    }

    /// A session on the starting position, waiting for the start message.
    pub fn new() -> (r: Session)
        ensures
            r.wf(),
            r.phase == Phase::AwaitingStart,
    {
        Session { engine: Engine::default(), phase: Phase::AwaitingStart }
    }

    /// The automated side moves, or the game ends when it has no legal move.
    fn respond(&mut self) -> (r: Action)
        requires
            side_of(old(self).engine.board) == old(self).engine.my_color,
        ensures
            (final(self).phase, final(self).engine.board, r) == reply(old(self).engine.board),
            final(self).engine.my_color == old(self).engine.my_color,
            final(self).wf(),
    {
        match self.engine.choose_move() {
            Some(m) => {
                self.engine.take_move(m);
                self.phase = Phase::AwaitingOpponentMove;
                Action::Send(encode(&m))
            },
            None => {
                self.phase = Phase::Terminated;
                Action::Close
            },
        }
    }

    /// Handles one event and says what to do with the stream.
    pub fn step(&mut self, e: Event) -> (r: Action)
        requires
            old(self).wf(),
        ensures
            final(self).wf(),
            (final(self).phase, final(self).engine.board, final(self).engine.my_color, r)
                == transition(old(self).phase, old(self).engine.board, old(self).engine.my_color, e),
    {
        if self.phase == Phase::Terminated {
            return Action::Close;
        }
        match e {
            Event::Closed => {
                self.phase = Phase::Terminated;
                Action::Close
            },
            Event::Other => Action::Wait,
            Event::Start(remote) => {
                if self.phase != Phase::AwaitingStart {
                    self.phase = Phase::Terminated;
                    return Action::Fail(SessionError::ProtocolViolation);
                }
                self.engine.my_color = remote.opposite();
                if remote == Side::Second {
                    self.respond()
                } else {
                    self.phase = Phase::AwaitingOpponentMove;
                    Action::Wait
                }
            },
            Event::Move(w) => {
                if self.phase == Phase::AwaitingStart {
                    self.phase = Phase::Terminated;
                    return Action::Fail(SessionError::ProtocolViolation);
                }
                match decode(&w) {
                    Err(err) => {
                        self.phase = Phase::Terminated;
                        Action::Fail(err)
                    },
                    Ok(m) => match self.engine.apply(m) {
                        Err(err) => {
                            self.phase = Phase::Terminated;
                            Action::Fail(err)
                        },
                        Ok(_) => self.respond(),
                    },
                }
            },
        }
    }

    /// Whether the session is over.
    pub fn is_terminated(&self) -> (r: bool)
        ensures
            r == (self.phase == Phase::Terminated),
    {
        self.phase == Phase::Terminated
    }
}

/// The service: each stream it is given plays one game.
#[derive(Debug, Default)]
pub struct ChessEngine {}

impl ChessEngine {
    /// A fresh session for a newly opened stream.
    pub fn game(&self) -> (r: Session)
        ensures
            r.wf(),
            r.phase == Phase::AwaitingStart,
    {
        Session::new()
    }
}

} // verus!
