//! The game that is played: its history, its opening book and the last
//! word of the engine; and the session that answers the player's moves.

use crate::chess::{canonical_of, Color, Move, Position};
use crate::move_index::MoveIndex;
use crate::openings::{candidates, EntryView, Openings};
use crate::proxy::{CommandView, EngineMessage, Proxy, ProxyView, Score, WorkerState};
use crate::variation::{TreeView, VariationTree};
use vstd::prelude::*;

verus! {

/// The state of a game, as the board and the engine's worker share it.
pub struct GameState {
    pub tree: VariationTree,
    pub engine_color: Color,
    pub openings: Openings,
    /// The label of the book line that answered last.
    pub opening: Option<String>,
    pub score: Score,
}

impl GameState {
    /// A game without a move, with the book that is used for it.
    pub fn new(color: Color, openings: Openings) -> (r: GameState)
        ensures
            r.tree@ == TreeView::empty(),
            r.engine_color == color,
            r.openings == openings,
            r.opening is None,
            r.score is Unknown,
    {
        GameState {
            engine_color: color,
            tree: VariationTree::new(),
            openings,
            opening: None,
            score: Score::Unknown,
        }
    }

    /// The position at the cursor.
    pub fn game(&self) -> (r: Position)
        ensures
            r@ == self.tree@.current_position(),
    {
        self.tree.game()
    }

    /// Plays a move at the cursor.
    pub fn make_move(&mut self, move_: Move)
        ensures
            final(self).tree@ == old(self).tree@.push(move_),
            final(self).engine_color == old(self).engine_color,
            final(self).openings == old(self).openings,
            final(self).opening == old(self).opening,
            final(self).score == old(self).score,
    {
        self.tree.push_move(move_);
    }

    /// Puts the cursor on a move of the history. An address at which there
    /// is no move changes nothing.
    pub fn at(&mut self, at: MoveIndex)
        ensures
            final(self).tree@ == if old(self).tree@.has(at) {
                old(self).tree@.with_cursor(at)
            } else {
                old(self).tree@
            },
            final(self).engine_color == old(self).engine_color,
            final(self).openings == old(self).openings,
            final(self).opening == old(self).opening,
            final(self).score == old(self).score,
    {
        self.tree.set_current(at);
    }

    pub fn clear_score(&mut self)
        ensures
            final(self).score is Unknown,
            final(self).tree == old(self).tree,
            final(self).engine_color == old(self).engine_color,
            final(self).openings == old(self).openings,
            final(self).opening == old(self).opening,
    {
        self.score = Score::Unknown;
    }

    pub fn set_score(&mut self, score: Score)
        ensures
            final(self).score == score,
            final(self).tree == old(self).tree,
            final(self).engine_color == old(self).engine_color,
            final(self).openings == old(self).openings,
            final(self).opening == old(self).opening,
    {
        self.score = score;
    }
}

/// Whether the engine plays along.
#[derive(Debug, Clone, Copy, PartialEq, Eq, Structural)]
pub enum BoardMode {
    /// The engine is asked for an answer to each move that the book does
    /// not answer.
    Play,
    /// The board is set up freely and the engine is not asked.
    Setup,
}

/// The continuations that a book knows for a position.
pub open spec fn book_answers(book: Seq<EntryView>, position: Seq<char>) -> Seq<EntryView> {
    match canonical_of(position) {
        Some(key) => candidates(book, key),
        None => Seq::empty(),
    }
}

/// A session: one game, one line to the engine, and the mode of the board.
pub struct Session {
    pub game: GameState,
    pub engine: Proxy,
    pub board_mode: BoardMode,
    /// What is left on White's clock, in milliseconds, as the engine is told.
    pub white_time: i64,
    /// What is left on Black's clock, in milliseconds, as the engine is told.
    pub black_time: i64,
}

impl Session {
    /// The search of the position at the cursor, as it is submitted.
    pub open spec fn request(&self) -> CommandView {
        CommandView::Go {
            fen: self.game.tree@.current_position(),
            white_time: self.white_time,
            black_time: self.black_time,
        }
    }

    /// Nothing but the history, the book's label and the line to the engine
    /// differs between two sessions.
    pub open spec fn same_setting(&self, other: &Session) -> bool {
        &&& self.game.engine_color == other.game.engine_color
        &&& self.game.openings == other.game.openings
        &&& self.board_mode == other.board_mode
        &&& self.white_time == other.white_time
        &&& self.black_time == other.black_time
    }

    /// A session in play mode, with an idle engine.
    pub fn new(game: GameState, white_time: i64, black_time: i64) -> (r: Session)
        ensures
            r.game == game,
            r.engine@ == (ProxyView { pending: Seq::empty(), state: WorkerState::Idle }),
            r.board_mode == BoardMode::Play,
            r.white_time == white_time,
            r.black_time == black_time,
    {
        Session { game, engine: Proxy::new(), board_mode: BoardMode::Play, white_time, black_time }
    }

    /// Starts a new game: the history is emptied and the engine is told.
    pub fn new_game(&mut self)
        ensures
            final(self).game.tree@ == TreeView::empty(),
            final(self).engine@ == old(self).engine@.submit(CommandView::NewGame),
            final(self).same_setting(old(self)),
            final(self).game.opening == old(self).game.opening,
            final(self).game.score == old(self).game.score,
    {
        self.game.tree = VariationTree::new();
        self.engine.new_game();
    }

    /// Submits a search of the position at the cursor.
    fn request_move(&mut self)
        ensures
            final(self).game == old(self).game,
            final(self).engine@ == old(self).engine@.submit(old(self).request()),
            final(self).same_setting(old(self)),
    {
        let position = self.game.game();
        self.engine.play(position.fen().clone(), self.white_time, self.black_time);
    }

    /// Sets the mode of the board. Going to play mode asks the engine at
    /// once for a move in the position at the cursor; going to setup mode
    /// asks for nothing.
    pub fn set_board_mode(&mut self, mode: BoardMode)
        ensures
            final(self).board_mode == mode,
            final(self).game == old(self).game,
            final(self).white_time == old(self).white_time,
            final(self).black_time == old(self).black_time,
            final(self).engine@ == match mode {
                BoardMode::Play => old(self).engine@.submit(old(self).request()),
                BoardMode::Setup => old(self).engine@,
            },
    {
        match mode {
            BoardMode::Setup => {
                self.board_mode = BoardMode::Setup;
            },
            BoardMode::Play => {
                self.board_mode = BoardMode::Play;
                self.request_move();
            },
        }
    }

    /// Answers the move that was played last, given what the book has drawn
    /// for the position. A book move is played at once and its label is
    /// kept. Without one, the engine is asked in play mode, and nothing
    /// happens in setup mode.
    pub fn respond(&mut self, book: Option<(Move, String)>)
        ensures
            final(self).same_setting(old(self)),
            final(self).game.score == old(self).game.score,
            book matches Some((m, label)) ==> {
                &&& final(self).game.tree@ == old(self).game.tree@.push(m)
                &&& final(self).game.opening == Some(label)
                &&& final(self).engine@ == old(self).engine@
            },
            book is None ==> {
                &&& final(self).game.tree@ == old(self).game.tree@
                &&& final(self).game.opening == old(self).game.opening
                &&& final(self).engine@ == if old(self).board_mode == BoardMode::Play {
                    old(self).engine@.submit(old(self).request())
                } else {
                    old(self).engine@
                }
            },
    {
        match book {
            Some((move_, label)) => {
                self.game.make_move(move_);
                self.game.opening = Some(label);
            },
            None => {
                if self.board_mode == BoardMode::Play {
                    self.request_move();
                }
            },
        }
    }

    /// The player's move. The last word of the engine is forgotten and the
    /// move is played at the cursor. Then the book is asked: where it knows
    /// the position, one of its continuations is played at once; where it
    /// does not, the engine is asked in play mode.
    pub fn play_move(&mut self, move_: Move)
        ensures
            final(self).same_setting(old(self)),
            final(self).game.score is Unknown,
            ({
                let played = old(self).game.tree@.push(move_);
                let answers = book_answers(old(self).game.openings@, played.current_position());
                if answers.len() == 0 {
                    &&& final(self).game.tree@ == played
                    &&& final(self).game.opening == old(self).game.opening
                    &&& final(self).engine@ == if old(self).board_mode == BoardMode::Play {
                        old(self).engine@.submit(
                            CommandView::Go {
                                fen: played.current_position(),
                                white_time: old(self).white_time,
                                black_time: old(self).black_time,
                            },
                        )
                    } else {
                        old(self).engine@
                    }
                } else {
                    &&& final(self).engine@ == old(self).engine@
                    &&& exists|n: int|
                        {
                            let entry = #[trigger] answers[n];
                            &&& 0 <= n < answers.len()
                            &&& entry.continuation.len() > 0
                            &&& final(self).game.tree@ == played.push(entry.continuation[0])
                            &&& final(self).game.opening matches Some(label)
                            &&& label@ == entry.label
                        }
                }
            }),
    {
        self.game.clear_score();
        self.game.make_move(move_);
        let position = self.game.game();
        let book = self.game.openings.find_move(&position);
        self.respond(book);
    }

    /// The engine's answer to a search. Where a search was out, the move is
    /// played at the cursor and the evaluation is kept; the result then asks
    /// for the board to be drawn again, after the history has changed. An
    /// answer that nobody waits for changes nothing.
    pub fn engine_reply(&mut self, message: EngineMessage) -> (repaint: bool)
        ensures
            final(self).same_setting(old(self)),
            final(self).game.opening == old(self).game.opening,
            final(self).engine@.pending == old(self).engine@.pending,
            repaint == (old(self).engine@.state == WorkerState::Searching),
            repaint ==> {
                &&& final(self).engine@.state == WorkerState::Idle
                &&& final(self).game.tree@ == old(self).game.tree@.push(message->move_)
                &&& final(self).game.score == message->score
            },
            !repaint ==> {
                &&& final(self).engine@ == old(self).engine@
                &&& final(self).game == old(self).game
            },
    {
        if self.engine.best_move() {
            match message {
                EngineMessage::BestMove { move_, score } => {
                    self.game.make_move(move_);
                    self.game.set_score(score);
                },
            }
            true
        } else {
            false
        }
    }

    /// The engine is gone: the line to it serves no command any more.
    pub fn engine_closed(&mut self)
        ensures
            final(self).game == old(self).game,
            final(self).same_setting(old(self)),
            final(self).engine@ == (ProxyView { state: WorkerState::Offline, ..old(self).engine@ }),
    {
        self.engine.closed();
    }

    /// Whether the engine is gone.
    pub fn engine_offline(&self) -> (r: bool)
        ensures
            r == (self.engine@.state == WorkerState::Offline),
    {
        self.engine.state() == WorkerState::Offline
    }
}

} // verus!
