//! The line to the engine: the commands that wait for its single worker, in
//! the order in which they were submitted, and what the worker is doing.
//!
//! Submitting never waits. The worker takes one command at a time, and takes
//! none while a search is out: whatever was submitted behind a search is seen
//! only after the engine has answered it.

use crate::chess::Move;
use crate::text::{clone_texts, texts};
use std::collections::VecDeque;
use vstd::prelude::*;

verus! {

/// What the engine thinks of a position.
#[derive(Debug)]
pub enum Score {
    /// The engine said nothing.
    Unknown,
    /// An evaluation in hundredths of a pawn, with the line that the engine
    /// expects, in coordinate notation.
    CentiPawns { score: i32, pv: Vec<String> },
    /// A forced mate in this many moves.
    Mate { moves: i32 },
}

impl Clone for Score {
    fn clone(&self) -> (r: Score)
        ensures
            match *self {
                Score::Unknown => r is Unknown,
                Score::CentiPawns { score, pv } => r is CentiPawns && r->score == score && texts(
                    r->pv@,
                ) == texts(pv@),
                Score::Mate { moves } => r is Mate && r->moves == moves,
            },
    {
        match self {
            Score::Unknown => Score::Unknown,
            Score::CentiPawns { score, pv } => Score::CentiPawns {
                score: *score,
                pv: clone_texts(pv),
            },
            Score::Mate { moves } => Score::Mate { moves: *moves },
        }
    }
}

/// A command for the engine.
#[derive(Debug)]
pub enum EngineCommand {
    /// Forget the game that was played.
    NewGame,
    /// Answer the search that is out with the best move found so far.
    Stop,
    /// Search the position with this notation; the times are what is left on
    /// each side's clock, in milliseconds.
    Go { fen: String, white_time: i64, black_time: i64 },
}

/// What a command is to the contracts of this module.
pub enum CommandView {
    NewGame,
    Stop,
    Go { fen: Seq<char>, white_time: i64, black_time: i64 },
}

impl View for EngineCommand {
    type V = CommandView;

    open spec fn view(&self) -> CommandView {
        match *self {
            EngineCommand::NewGame => CommandView::NewGame,
            EngineCommand::Stop => CommandView::Stop,
            EngineCommand::Go { fen, white_time, black_time } => CommandView::Go {
                fen: fen@,
                white_time,
                black_time,
            },
        }
    }
}

/// What the engine answers to a search.
#[derive(Debug)]
pub enum EngineMessage {
    BestMove { move_: Move, score: Score },
}

/// What the worker is doing.
#[derive(Debug, Clone, Copy, PartialEq, Eq, Structural)]
pub enum WorkerState {
    /// It waits for a command.
    Idle,
    /// It has sent a search to the engine and waits for the answer.
    Searching,
    /// The engine is gone: no command is served any more.
    Offline,
}

/// What a proxy is to the contracts of this module.
pub struct ProxyView {
    /// The commands that were submitted and not yet taken, oldest first.
    pub pending: Seq<CommandView>,
    pub state: WorkerState,
}

impl ProxyView {
    /// The proxy with one command more at the end of the line.
    pub open spec fn submit(self, command: CommandView) -> ProxyView {
        ProxyView { pending: self.pending.push(command), ..self }
    }

    /// The worker can take a command.
    pub open spec fn ready(self) -> bool {
        self.state == WorkerState::Idle && self.pending.len() > 0
    }

    /// The proxy after the worker has taken the oldest command: a search
    /// keeps the worker busy until the engine answers.
    pub open spec fn take(self) -> ProxyView {
        ProxyView {
            pending: self.pending.skip(1),
            state: if self.pending[0] is Go {
                WorkerState::Searching
            } else {
                WorkerState::Idle
            },
        }
    }

    /// There is one search at a time: while a search is out, the worker
    /// takes no command, whatever is submitted meanwhile.
    pub proof fn lemma_one_search(self, command: CommandView)
        requires
            self.ready(),
            self.pending[0] is Go,
        ensures
            self.take().state == WorkerState::Searching,
            !self.take().ready(),
            !self.take().submit(command).ready(),
    {
    }

    /// Commands leave the line in the order in which they entered it: what
    /// is submitted while others wait is taken after them.
    pub proof fn lemma_in_order(self, command: CommandView)
        requires
            self.pending.len() > 0,
            self.state == WorkerState::Idle,
        ensures
            self.submit(command).ready(),
            self.submit(command).take().pending == self.take().pending.push(command),
            self.submit(command).take().state == self.take().state,
    {
        assert(self.submit(command).pending.skip(1) =~= self.pending.skip(1).push(command));
    }
}

/// The line to the engine.
#[derive(Debug)]
pub struct Proxy {
    queue: VecDeque<EngineCommand>,
    state: WorkerState,
}

impl View for Proxy {
    type V = ProxyView;

    closed spec fn view(&self) -> ProxyView {
        ProxyView {
            pending: Seq::new(self.queue@.len(), |i: int| self.queue@[i]@),
            state: self.state,
        }
    }
}

impl Proxy {
    /// A line on which nothing waits, with an idle worker.
    pub fn new() -> (r: Proxy)
        ensures
            r@ == (ProxyView { pending: Seq::empty(), state: WorkerState::Idle }),
    {
        let r = Proxy { queue: VecDeque::new(), state: WorkerState::Idle };
        assert(r@.pending =~= Seq::empty());
        r
    }

    fn send(&mut self, command: EngineCommand)
        ensures
            final(self)@ == old(self)@.submit(command@),
    {
        self.queue.push_back(command);
        assert(self@.pending =~= old(self)@.pending.push(command@));
    }

    /// Submits the command to start a new game.
    pub fn new_game(&mut self)
        ensures
            final(self)@ == old(self)@.submit(CommandView::NewGame),
    {
        self.send(EngineCommand::NewGame);
    }

    /// Submits the command to stop the search. It waits in line like any
    /// other: behind a search that was not taken yet, it is seen only after
    /// that search was answered.
    pub fn stop(&mut self)
        ensures
            final(self)@ == old(self)@.submit(CommandView::Stop),
    {
        self.send(EngineCommand::Stop);
    }

    /// Submits the command to search a position.
    pub fn play(&mut self, fen: String, white_time: i64, black_time: i64)
        ensures
            final(self)@ == old(self)@.submit(
                CommandView::Go { fen: fen@, white_time, black_time },
            ),
    {
        self.send(EngineCommand::Go { fen, white_time, black_time });
    }

    pub fn state(&self) -> (r: WorkerState)
        ensures
            r == self@.state,
    {
        self.state
    }

    /// The number of commands that wait.
    pub fn pending(&self) -> (r: usize)
        ensures
            r == self@.pending.len(),
    {
        self.queue.len()
    }

    /// The worker's step: the oldest command that waits, for the worker to
    /// hand to the engine. There is none while a search is out, none once
    /// the engine is gone, and none when nothing waits.
    pub fn next_command(&mut self) -> (r: Option<EngineCommand>)
        ensures
            r is Some <==> old(self)@.ready(),
            r matches Some(c) ==> c@ == old(self)@.pending[0] && final(self)@ == old(self)@.take(),
            r is None ==> final(self)@ == old(self)@,
    {
        match self.state {
            WorkerState::Idle => {
                let taken = self.queue.pop_front();
                match taken {
                    Some(command) => {
                        if let EngineCommand::Go { .. } = command {
                            self.state = WorkerState::Searching;
                        }
                        assert(self@.pending =~= old(self)@.pending.skip(1));
                        Some(command)
                    },
                    None => {
                        assert(self@.pending =~= old(self)@.pending);
                        None
                    },
                }
            },
            _ => None,
        }
    }

    /// The engine has answered. Whether a search was out: only then is the
    /// answer to be used, and the worker is idle again.
    pub fn best_move(&mut self) -> (r: bool)
        ensures
            r == (old(self)@.state == WorkerState::Searching),
            final(self)@.pending == old(self)@.pending,
            final(self)@.state == if r {
                WorkerState::Idle
            } else {
                old(self)@.state
            },
    {
        match self.state {
            WorkerState::Searching => {
                self.state = WorkerState::Idle;
                true
            },
            _ => false,
        }
    }

    /// The engine did not start, or its answers have ended: from now on no
    /// command is served.
    pub fn closed(&mut self)
        ensures
            final(self)@ == (ProxyView { state: WorkerState::Offline, ..old(self)@ }),
    {
        self.state = WorkerState::Offline;
    }
}

} // verus!
