use chess_diagram::chess::{Color, Move, Position};
use chess_diagram::game::{BoardMode, GameState, Session};
use chess_diagram::move_index::MoveIndex;
use chess_diagram::openings::{OpeningLine, Openings};
use chess_diagram::proxy::{EngineCommand, EngineMessage, Score, WorkerState};

const AFTER_E4: &str = "rnbqkbnr/pppppppp/8/8/4P3/8/PPPP1PPP/RNBQKBNR b KQkq - 0 1";
const AFTER_D4: &str = "rnbqkbnr/pppppppp/8/8/3P4/8/PPP1PPPP/RNBQKBNR b KQkq - 0 1";

fn moves_of(ucis: &[&str]) -> Vec<Move> {
    let mut position = Position::new();
    let mut moves = Vec::new();
    for uci in ucis {
        let m = position.uci_to_move(uci).unwrap();
        position = position.play(&m).unwrap();
        moves.push(m);
    }
    moves
}

fn book() -> Openings {
    Openings::new(vec![OpeningLine {
        code: String::from("C20"),
        name: String::from("King's Pawn Game"),
        moves: moves_of(&["e2e4", "e7e5", "g1f3"]),
    }])
}

fn session_with(openings: Openings) -> Session {
    Session::new(GameState::new(Color::Black, openings), 300_000, 290_000)
}

fn search_of(command: Option<EngineCommand>) -> (String, i64, i64) {
    match command {
        Some(EngineCommand::Go { fen, white_time, black_time }) => (fen, white_time, black_time),
        other => panic!("no search: {other:?}"),
    }
}

#[test]
fn a_new_game_state_is_empty() {
    let state = GameState::new(Color::White, Openings::new(Vec::new()));
    assert_eq!(state.engine_color, Color::White);
    assert_eq!(state.tree.current(), None);
    assert!(state.opening.is_none());
    assert!(matches!(state.score, Score::Unknown));
    assert_eq!(state.game().fen(), Position::new().fen());
}

#[test]
fn the_game_state_plays_and_navigates() {
    let mut state = GameState::new(Color::Black, Openings::new(Vec::new()));
    let moves = moves_of(&["e2e4", "e7e5"]);
    state.make_move(moves[0]);
    state.make_move(moves[1]);
    assert_eq!(state.tree.current(), Some(MoveIndex::new(0, 1)));
    state.at(MoveIndex::root());
    assert_eq!(state.tree.current(), Some(MoveIndex::root()));
    assert_eq!(state.game().fen().as_str(), AFTER_E4);
    state.at(MoveIndex::new(4, 4));
    assert_eq!(state.tree.current(), Some(MoveIndex::root()));
}

#[test]
fn the_score_is_set_and_cleared() {
    let mut state = GameState::new(Color::Black, Openings::new(Vec::new()));
    state.set_score(Score::Mate { moves: 2 });
    assert!(matches!(state.score, Score::Mate { moves: 2 }));
    state.set_score(Score::CentiPawns { score: 31, pv: vec![String::from("e2e4")] });
    assert!(matches!(state.score, Score::CentiPawns { score: 31, .. }));
    state.clear_score();
    assert!(matches!(state.score, Score::Unknown));
}

#[test]
fn a_new_session_plays_with_an_idle_engine() {
    let mut session = session_with(Openings::new(Vec::new()));
    assert_eq!(session.board_mode, BoardMode::Play);
    assert_eq!(session.engine.state(), WorkerState::Idle);
    assert_eq!(session.engine.pending(), 0);
    assert!(session.engine.next_command().is_none());
    assert!(!session.engine_offline());
}

#[test]
fn a_move_outside_the_book_asks_the_engine_in_play_mode() {
    let mut session = session_with(book());
    session.game.set_score(Score::Mate { moves: 1 });
    session.play_move(moves_of(&["d2d4"])[0]);
    assert!(matches!(session.game.score, Score::Unknown));
    assert_eq!(session.game.tree.current(), Some(MoveIndex::root()));
    assert!(session.game.opening.is_none());
    assert_eq!(session.engine.pending(), 1);
    let (fen, white, black) = search_of(session.engine.next_command());
    assert_eq!(fen, AFTER_D4);
    assert_eq!(white, 300_000);
    assert_eq!(black, 290_000);
}

#[test]
fn a_move_outside_the_book_asks_nobody_in_setup_mode() {
    let mut session = session_with(book());
    session.set_board_mode(BoardMode::Setup);
    session.play_move(moves_of(&["d2d4"])[0]);
    assert_eq!(session.game.tree.current(), Some(MoveIndex::root()));
    assert_eq!(session.engine.pending(), 0);
}

#[test]
fn the_book_answers_before_the_engine() {
    let mut session = session_with(book());
    let line = moves_of(&["e2e4", "e7e5", "g1f3"]);
    session.play_move(line[0]);
    assert_eq!(session.game.tree.current(), Some(MoveIndex::new(0, 1)));
    assert_eq!(session.game.tree.moves(), vec![line[0], line[1]]);
    assert_eq!(session.game.opening, Some(String::from("King's Pawn Game")));
    assert_eq!(session.engine.pending(), 0);
    session.play_move(line[2]);
    assert_eq!(session.game.tree.current(), Some(MoveIndex::new(0, 2)));
    assert_eq!(session.game.opening, Some(String::from("King's Pawn Game")));
    assert_eq!(session.engine.pending(), 1);
}

#[test]
fn the_book_answers_in_setup_mode_too() {
    let mut session = session_with(book());
    session.set_board_mode(BoardMode::Setup);
    session.play_move(moves_of(&["e2e4"])[0]);
    assert_eq!(session.game.tree.current(), Some(MoveIndex::new(0, 1)));
    assert_eq!(session.engine.pending(), 0);
}

#[test]
fn respond_plays_the_book_move_it_is_given() {
    let mut session = session_with(Openings::new(Vec::new()));
    let line = moves_of(&["e2e4", "c7c5"]);
    session.game.make_move(line[0]);
    session.respond(Some((line[1], String::from("Sicilian Defense"))));
    assert_eq!(session.game.tree.moves(), line);
    assert_eq!(session.game.opening, Some(String::from("Sicilian Defense")));
    assert_eq!(session.engine.pending(), 0);
    session.respond(None);
    assert_eq!(session.game.tree.moves(), line);
    assert_eq!(session.game.opening, Some(String::from("Sicilian Defense")));
    assert_eq!(session.engine.pending(), 1);
    session.set_board_mode(BoardMode::Setup);
    session.respond(None);
    assert_eq!(session.engine.pending(), 1);
}

#[test]
fn going_to_play_mode_asks_for_the_current_position() {
    let mut session = session_with(Openings::new(Vec::new()));
    session.set_board_mode(BoardMode::Setup);
    assert_eq!(session.board_mode, BoardMode::Setup);
    assert_eq!(session.engine.pending(), 0);
    session.play_move(moves_of(&["e2e4"])[0]);
    assert_eq!(session.engine.pending(), 0);
    session.set_board_mode(BoardMode::Play);
    assert_eq!(session.board_mode, BoardMode::Play);
    let (fen, white, black) = search_of(session.engine.next_command());
    assert_eq!(fen, AFTER_E4);
    assert_eq!((white, black), (300_000, 290_000));
}

#[test]
fn going_to_play_mode_on_an_empty_board_asks_for_the_start() {
    let mut session = session_with(Openings::new(Vec::new()));
    session.set_board_mode(BoardMode::Play);
    let (fen, _, _) = search_of(session.engine.next_command());
    assert_eq!(&fen, Position::new().fen());
}

#[test]
fn a_new_game_empties_the_history_and_tells_the_engine() {
    let mut session = session_with(Openings::new(Vec::new()));
    session.play_move(moves_of(&["e2e4"])[0]);
    assert_eq!(session.engine.pending(), 1);
    session.new_game();
    assert_eq!(session.game.tree.current(), None);
    assert!(session.game.tree.moves().is_empty());
    assert_eq!(session.engine.pending(), 2);
    assert!(matches!(session.engine.next_command(), Some(EngineCommand::Go { .. })));
    assert!(session.engine.best_move());
    assert!(matches!(session.engine.next_command(), Some(EngineCommand::NewGame)));
    assert_eq!(session.board_mode, BoardMode::Play);
}

#[test]
fn engine_ordering_scenario() {
    let mut session = session_with(Openings::new(Vec::new()));
    let line = moves_of(&["e2e4", "e7e5"]);
    session.play_move(line[0]);
    let (position_x, _, _) = search_of(session.engine.next_command());
    assert_eq!(position_x, AFTER_E4);
    assert_eq!(session.engine.state(), WorkerState::Searching);
    session.engine.stop();
    assert!(session.engine.next_command().is_none());
    assert_eq!(session.game.game().fen().as_str(), AFTER_E4);
    let reply = EngineMessage::BestMove { move_: line[1], score: Score::CentiPawns { score: 12, pv: Vec::new() } };
    let repaint = session.engine_reply(reply);
    assert!(repaint);
    let expected = Position::from_fen(position_x).play(&line[1]).unwrap();
    assert_eq!(session.game.game().fen(), expected.fen());
    assert_eq!(session.game.tree.moves(), line);
    assert!(matches!(session.game.score, Score::CentiPawns { score: 12, .. }));
    assert_eq!(session.engine.state(), WorkerState::Idle);
    assert!(matches!(session.engine.next_command(), Some(EngineCommand::Stop)));
}

#[test]
fn an_answer_that_nobody_waits_for_changes_nothing() {
    let mut session = session_with(Openings::new(Vec::new()));
    let line = moves_of(&["e2e4", "e7e5"]);
    session.play_move(line[0]);
    let reply = EngineMessage::BestMove { move_: line[1], score: Score::Mate { moves: 4 } };
    assert!(!session.engine_reply(reply));
    assert_eq!(session.game.tree.moves(), vec![line[0]]);
    assert!(matches!(session.game.score, Score::Unknown));
    assert_eq!(session.engine.pending(), 1);
}

#[test]
fn an_engine_that_is_gone_is_reported() {
    let mut session = session_with(Openings::new(Vec::new()));
    let line = moves_of(&["e2e4", "e7e5"]);
    session.play_move(line[0]);
    assert!(session.engine.next_command().is_some());
    session.engine_closed();
    assert!(session.engine_offline());
    let reply = EngineMessage::BestMove { move_: line[1], score: Score::Unknown };
    assert!(!session.engine_reply(reply));
    session.play_move(line[1]);
    assert_eq!(session.game.tree.moves(), line);
    assert!(session.engine.next_command().is_none());
    assert!(session.engine_offline());
}
