use rustchess::codec::{decode, MoveMessage, Position};
use rustchess::engine::Engine;
use rustchess::model::{Move, SessionError, Side, Square};
use rustchess::session::{Action, ChessEngine, Event, Phase, Session};

fn wire(sf: u32, sr: u32, df: u32, dr: u32) -> MoveMessage {
    MoveMessage {
        source: Some(Position { file: sf, rank: sr }),
        destination: Some(Position { file: df, rank: dr }),
        promotion: None,
    }
}

fn mv(sf: u8, sr: u8, df: u8, dr: u8) -> Move {
    Move {
        source: Square { file: sf, rank: sr },
        dest: Square { file: df, rank: dr },
        promotion: None,
    }
}

#[test]
fn remote_first_waits_then_answers_with_a_legal_move() {
    let mut session = ChessEngine::default().game();
    assert_eq!(session.phase, Phase::AwaitingStart);
    assert_eq!(session.step(Event::Start(Side::First)), Action::Wait);
    assert_eq!(session.engine.my_color, Side::Second);
    let mut expected = session.engine;
    assert_eq!(expected.apply(mv(4, 1, 4, 3)), Ok(mv(4, 1, 4, 3)));
    match session.step(Event::Move(wire(4, 1, 4, 3))) {
        Action::Send(reply) => {
            let m = decode(&reply).unwrap();
            assert!(m.source.file < 8 && m.source.rank < 8);
            assert!(m.dest.file < 8 && m.dest.rank < 8);
            assert!(expected.legal_moves().contains(&m));
        }
        other => panic!("expected a reply, got {:?}", other),
    }
    assert_eq!(session.phase, Phase::AwaitingOpponentMove);
    assert_eq!(session.engine.side_to_move(), Side::First);
}

#[test]
fn remote_second_gets_an_opening_move_at_once() {
    let mut session = Session::new();
    match session.step(Event::Start(Side::Second)) {
        Action::Send(reply) => {
            let m = decode(&reply).unwrap();
            assert!(Engine::default().legal_moves().contains(&m));
        }
        other => panic!("expected an opening move, got {:?}", other),
    }
    assert_eq!(session.engine.my_color, Side::First);
    assert_eq!(session.engine.side_to_move(), Side::Second);
    assert_eq!(session.phase, Phase::AwaitingOpponentMove);
}

#[test]
fn move_joining_unconnected_squares_is_illegal() {
    let mut session = Session::new();
    session.step(Event::Start(Side::First));
    assert_eq!(
        session.step(Event::Move(wire(0, 0, 0, 5))),
        Action::Fail(SessionError::IllegalMove)
    );
    assert!(session.is_terminated());
    assert_eq!(session.step(Event::Move(wire(4, 1, 4, 3))), Action::Close);
}

#[test]
fn destination_off_board_is_malformed() {
    let mut session = Session::new();
    session.step(Event::Start(Side::First));
    assert_eq!(
        session.step(Event::Move(wire(4, 1, 4, 9))),
        Action::Fail(SessionError::MalformedMove)
    );
    assert!(session.is_terminated());
}

#[test]
fn automated_side_without_a_move_closes_the_stream() {
    let mut engine = Engine::default();
    for m in [mv(5, 1, 5, 2), mv(4, 6, 4, 4), mv(6, 1, 6, 3)] {
        assert_eq!(engine.apply(m), Ok(m));
    }
    engine.my_color = Side::First;
    let mut session = Session { engine, phase: Phase::AwaitingOpponentMove };
    assert_eq!(session.step(Event::Move(wire(3, 7, 7, 3))), Action::Close);
    assert!(session.is_terminated());
    assert_eq!(session.engine.choose_move(), None);
}

#[test]
fn move_before_start_is_a_protocol_violation() {
    let mut session = Session::new();
    assert_eq!(
        session.step(Event::Move(wire(4, 1, 4, 3))),
        Action::Fail(SessionError::ProtocolViolation)
    );
    assert!(session.is_terminated());
}

#[test]
fn second_start_is_a_protocol_violation() {
    let mut session = Session::new();
    session.step(Event::Start(Side::First));
    assert_eq!(
        session.step(Event::Start(Side::First)),
        Action::Fail(SessionError::ProtocolViolation)
    );
}

#[test]
fn unknown_messages_are_ignored_and_close_ends() {
    let mut session = Session::new();
    assert_eq!(session.step(Event::Other), Action::Wait);
    assert_eq!(session.phase, Phase::AwaitingStart);
    session.step(Event::Start(Side::First));
    assert_eq!(session.step(Event::Other), Action::Wait);
    assert_eq!(session.phase, Phase::AwaitingOpponentMove);
    assert_eq!(session.step(Event::Closed), Action::Close);
    assert!(session.is_terminated());
}

#[test]
fn promoting_move_without_a_kind_is_accepted_by_the_session() {
    let mut engine = Engine::default();
    for m in [
        mv(7, 1, 7, 3),
        mv(6, 6, 6, 4),
        mv(7, 3, 6, 4),
        mv(7, 6, 7, 5),
        mv(6, 4, 7, 5),
        mv(5, 7, 6, 6),
        mv(7, 5, 6, 6),
        mv(0, 6, 0, 5),
    ] {
        assert_eq!(engine.apply(m), Ok(m));
    }
    engine.my_color = Side::Second;
    let mut session = Session { engine, phase: Phase::AwaitingOpponentMove };
    assert!(matches!(session.step(Event::Move(wire(6, 6, 7, 7))), Action::Send(_)));
    assert_eq!(session.phase, Phase::AwaitingOpponentMove);
}
