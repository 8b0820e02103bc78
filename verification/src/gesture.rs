//! The player's hand on the board: a piece is picked up on a square, carried
//! and put down on another, and a pawn that reaches the last rank waits for
//! the choice of its promotion.

use crate::chess::{
    legal_moves_of, piece_at_of, turn_of, Move, Piece, Position, Rank, Role, Square,
};
use crate::oddity::{classic_target, move_classic_to};
use vstd::prelude::*;

verus! {

/// A place of the pointer on the screen, in whole pixels.
#[derive(Debug, Clone, Copy, PartialEq, Eq, Structural)]
pub struct Point {
    pub x: i32,
    pub y: i32,
}

/// A piece was picked up.
#[derive(Debug, Clone, Copy, PartialEq, Eq, Structural)]
pub struct StateStart {
    pub from: Square,
    pub piece: Piece,
}

impl StateStart {
    pub fn new(from: Square, piece: Piece) -> (r: StateStart)
        ensures
            r == (StateStart { from, piece }),
    {
        StateStart { from, piece }
    }
}

/// A piece is carried.
#[derive(Debug, Clone, Copy, PartialEq, Eq, Structural)]
pub struct StateMoving {
    pub position: Point,
    pub from: Square,
    pub piece: Piece,
}

impl StateMoving {
    pub fn from_start(position: Point, start: StateStart) -> (r: StateMoving)
        ensures
            r == (StateMoving { position, from: start.from, piece: start.piece }),
    {
        StateMoving { position, from: start.from, piece: start.piece }
    }

    pub fn new_pos(self, position: Point) -> (r: StateMoving)
        ensures
            r == (StateMoving { position, ..self }),
    {
        StateMoving { position, from: self.from, piece: self.piece }
    }

    pub fn position(&self) -> (r: Point)
        ensures
            r == self.position,
    {
        self.position
    }

    pub fn from(&self) -> (r: Square)
        ensures
            r == self.from,
    {
        self.from
    }

    pub fn piece(&self) -> (r: Piece)
        ensures
            r == self.piece,
    {
        self.piece
    }
}

/// What a gesture says of the promotion of its move.
#[derive(Debug, Clone, Copy, PartialEq, Eq, Structural)]
pub enum Promotion {
    /// The move is not one of a pawn to the last rank.
    NotApplicable,
    /// The pawn reaches the last rank and the choice is still to be made.
    Pending,
    /// The pawn is promoted to this role.
    Role(Role),
}

impl Promotion {
    /// Whether a move with the given promotion can be the move of the
    /// gesture.
    pub open spec fn admits(self, promotion: Option<Role>) -> bool {
        match (self, promotion) {
            (Promotion::NotApplicable, _) => true,
            (Promotion::Pending, None) => true,
            (Promotion::Pending, Some(_)) => false,
            (Promotion::Role(_), None) => false,
            (Promotion::Role(own), Some(role)) => own == role,
        }
    }

    pub fn comp_move(&self, opt_role: Option<Role>) -> (r: bool)
        ensures
            r == self.admits(opt_role),
    {
        match (*self, opt_role) {
            (Promotion::NotApplicable, _) => true,
            (Promotion::Pending, None) => true,
            (Promotion::Pending, Some(_)) => false,
            (Promotion::Role(_), None) => false,
            (Promotion::Role(own), Some(role)) => own == role,
        }
    }
}

/// A piece was put down.
#[derive(Debug, Clone, Copy, PartialEq, Eq, Structural)]
pub struct StateEnd {
    pub from: Square,
    pub piece: Piece,
    pub to: Square,
    pub promotion: Promotion,
}

impl StateEnd {
    pub fn from_moving(to: Square, moving: StateMoving, promotion: Promotion) -> (r: StateEnd)
        ensures
            r == (StateEnd { from: moving.from, piece: moving.piece, to, promotion }),
    {
        StateEnd { from: moving.from, piece: moving.piece, to, promotion }
    }

    pub fn piece(&self) -> (r: Piece)
        ensures
            r == self.piece,
    {
        self.piece
    }

    pub fn from(&self) -> (r: Square)
        ensures
            r == self.from,
    {
        self.from
    }

    pub fn to(&self) -> (r: Square)
        ensures
            r == self.to,
    {
        self.to
    }

    pub fn promotion(&self) -> (r: Promotion)
        ensures
            r == self.promotion,
    {
        self.promotion
    }

    pub fn promote(&mut self, role: Role)
        ensures
            *final(self) == (StateEnd { promotion: Promotion::Role(role), ..*old(self) }),
    {
        self.promotion = Promotion::Role(role);
    }

    /// Whether a move is one that the gesture shows: it starts where the
    /// piece was picked up, is shown to arrive where the piece was put down,
    /// and promotes as the gesture says.
    pub open spec fn shows(self, m: Move) -> bool {
        classic_target(m) == self.to && m.origin() == Some(self.from) && self.promotion.admits(
            m.promoted(),
        )
    }

    /// The moves among the given ones that the gesture shows, in their
    /// order.
    pub open spec fn shown_among(self, moves: Seq<Move>) -> Seq<Move> {
        moves.filter(|m: Move| self.shows(m))
    }

    /// The first of the given moves that the gesture shows.
    pub fn find_move(&self, moves: &Vec<Move>) -> (r: Option<Move>)
        ensures
            r is Some <==> self.shown_among(moves@).len() > 0,
            r matches Some(m) ==> m == self.shown_among(moves@)[0],
    {
        let ghost pred = |m: Move| self.shows(m);
        let mut i: usize = 0;
        proof {
            reveal(Seq::filter);
            assert(moves@.take(0).filter(pred) =~= Seq::<Move>::empty());
        }
        while i < moves.len()
            invariant
                i <= moves@.len(),
                pred == |m: Move| self.shows(m),
                moves@.take(i as int).filter(pred).len() == 0,
            decreases moves.len() - i,
        {
            let m = moves[i];
            let shown = move_classic_to(&m) == self.to && m.from() == Some(self.from)
                && self.promotion.comp_move(m.promotion());
            proof {
                reveal(Seq::filter);
                assert(moves@.take(i + 1).drop_last() =~= moves@.take(i as int));
                assert(moves@.take(i + 1).last() == m);
            }
            if shown {
                proof {
                    assert(moves@ =~= moves@.take(i + 1) + moves@.skip(i + 1));
                    Seq::filter_distributes_over_add(
                        moves@.take(i + 1),
                        moves@.skip(i + 1),
                        pred,
                    );
                    assert(moves@.take(i + 1).filter(pred) =~= seq![m]);
                }
                return Some(m);
            }
            i += 1;
        }
        proof {
            assert(moves@.take(i as int) =~= moves@);
        }
        None
    }
}

/// What the player's hand is doing.
#[derive(Debug, Clone, Copy, PartialEq, Eq, Structural)]
pub enum Gesture {
    /// Nothing.
    Idle,
    Start(StateStart),
    Moving(StateMoving),
    End(StateEnd),
}

impl Gesture {
    /// The gesture after the pointer has moved: a piece that was picked up
    /// or is carried is carried to the new place.
    pub open spec fn moved(self, position: Point) -> Gesture {
        match self {
            Gesture::Start(state) => Gesture::Moving(
                StateMoving { position, from: state.from, piece: state.piece },
            ),
            Gesture::Moving(state) => Gesture::Moving(StateMoving { position, ..state }),
            _ => self,
        }
    }

    /// The gesture after the piece was put down: a piece that is carried
    /// arrives, and a pawn that arrives on the first or the eighth rank waits
    /// for the choice of its promotion.
    pub open spec fn ended(self, to: Square) -> Gesture {
        match self {
            Gesture::Moving(state) => Gesture::End(
                StateEnd {
                    from: state.from,
                    piece: state.piece,
                    to,
                    promotion: if state.piece.role == Role::Pawn && (to.rank_of() == Rank::First
                        || to.rank_of() == Rank::Eighth) {
                        Promotion::Pending
                    } else {
                        Promotion::NotApplicable
                    },
                },
            ),
            _ => self,
        }
    }

    /// The gesture with the promotion chosen, where a piece was put down.
    pub open spec fn promoted(self, role: Role) -> Gesture {
        match self {
            Gesture::End(state) => Gesture::End(
                StateEnd { promotion: Promotion::Role(role), ..state },
            ),
            _ => self,
        }
    }

    /// The choice of a promotion is awaited.
    pub open spec fn awaits_promotion(self) -> bool {
        self matches Gesture::End(state) && state.promotion == Promotion::Pending
    }

    pub fn new() -> (r: Gesture)
        ensures
            r == Gesture::Idle,
    {
        Gesture::Idle
    }

    pub fn start(&self, from: Square, piece: Piece) -> (r: Gesture)
        ensures
            r == Gesture::Start(StateStart { from, piece }),
    {
        Gesture::Start(StateStart::new(from, piece))
    }

    pub fn moving(&self, position: Point) -> (r: Gesture)
        ensures
            r == self.moved(position),
    {
        match *self {
            Gesture::Start(state) => Gesture::Moving(StateMoving::from_start(position, state)),
            Gesture::Moving(state) => Gesture::Moving(state.new_pos(position)),
            _ => *self,
        }
    }

    pub fn end(&self, to: Square) -> (r: Gesture)
        ensures
            r == self.ended(to),
    {
        match *self {
            Gesture::Moving(state) => {
                if state.piece().role == Role::Pawn && (to.rank() == Rank::First || to.rank()
                    == Rank::Eighth) {
                    Gesture::End(StateEnd::from_moving(to, state, Promotion::Pending))
                } else {
                    Gesture::End(StateEnd::from_moving(to, state, Promotion::NotApplicable))
                }
            },
            _ => *self,
        }
    }

    pub fn promote(&mut self, role: Role)
        ensures
            *final(self) == old(self).promoted(role),
    {
        if let Gesture::End(state) = *self {
            *self = Gesture::End(
                StateEnd {
                    from: state.from,
                    piece: state.piece,
                    to: state.to,
                    promotion: Promotion::Role(role),
                },
            );
        }
    }

    pub fn need_promotion(&self) -> (r: bool)
        ensures
            r == self.awaits_promotion(),
    {
        if let Gesture::End(state) = *self {
            state.promotion == Promotion::Pending
        } else {
            false
        }
    }
}

/// How the pointer moves pieces.
#[derive(Debug, Clone, Copy, PartialEq, Eq, Structural)]
pub enum PointerMode {
    /// A piece is dragged from its square to another.
    Drag,
    /// A click picks a piece up and a second click puts it down.
    Click,
}

/// The pointer: its mode and the gesture that it is making.
#[derive(Debug, Clone, Copy, PartialEq, Eq, Structural)]
pub struct Pointer {
    pub gesture: Gesture,
    pub pointer_mode: PointerMode,
}

impl Pointer {
    /// The gesture after a piece was asked for on a square: it is picked up
    /// where one stands there, and only from an idle hand.
    pub open spec fn picked(self, game: Seq<char>, square: Option<Square>) -> Gesture {
        match (self.gesture, square) {
            (Gesture::Idle, Some(from)) => match piece_at_of(game, from) {
                Some(piece) => Gesture::Start(StateStart { from, piece }),
                None => Gesture::Idle,
            },
            _ => self.gesture,
        }
    }

    /// The gesture after a click in click mode. On an idle hand it picks up
    /// the piece on the square. With a piece picked up it puts the piece
    /// down on another square, and lets it go on its own square; a click
    /// outside the board changes nothing then.
    pub open spec fn clicked(
        self,
        game: Seq<char>,
        square: Option<Square>,
        position: Point,
    ) -> Gesture {
        match self.gesture {
            Gesture::Idle => self.picked(game, square),
            Gesture::Start(state) => match square {
                Some(to) => if state.from != to {
                    self.gesture.moved(position).ended(to)
                } else {
                    Gesture::Idle
                },
                None => self.gesture,
            },
            _ => self.gesture,
        }
    }

    /// The move that a finished gesture stands for in a position: the first
    /// legal move that the gesture shows. There is none while the gesture is
    /// not finished, while a promotion is to be chosen, and for a piece of
    /// the side that is not to move.
    pub open spec fn shown_move(self, game: Seq<char>) -> Option<Move> {
        match self.gesture {
            Gesture::End(state) => if !self.gesture.awaits_promotion() && turn_of(game) == Some(
                state.piece.color,
            ) && state.shown_among(legal_moves_of(game)).len() > 0 {
                Some(state.shown_among(legal_moves_of(game))[0])
            } else {
                None
            },
            _ => None,
        }
    }

    /// The gesture after a finished gesture was looked at: it is over once
    /// it was the turn of the piece's side, whether or not a move was found.
    pub open spec fn settled(self, game: Seq<char>) -> Gesture {
        match self.gesture {
            Gesture::End(state) => if !self.gesture.awaits_promotion() && turn_of(game) == Some(
                state.piece.color,
            ) {
                Gesture::Idle
            } else {
                self.gesture
            },
            _ => self.gesture,
        }
    }

    /// A pointer that drags, with an idle hand.
    pub fn new() -> (r: Pointer)
        ensures
            r == (Pointer { gesture: Gesture::Idle, pointer_mode: PointerMode::Drag }),
    {
        Pointer { gesture: Gesture::new(), pointer_mode: PointerMode::Drag }
    }

    /// Goes from dragging to clicking or back, and lets go of what the hand
    /// holds.
    pub fn toggle_pointer_mode(&mut self)
        ensures
            final(self).gesture == Gesture::Idle,
            final(self).pointer_mode == match old(self).pointer_mode {
                PointerMode::Drag => PointerMode::Click,
                PointerMode::Click => PointerMode::Drag,
            },
    {
        self.gesture = Gesture::Idle;
        match self.pointer_mode {
            PointerMode::Drag => {
                self.pointer_mode = PointerMode::Click;
            },
            PointerMode::Click => {
                self.pointer_mode = PointerMode::Drag;
            },
        }
    }

    fn pick(&mut self, game: &Position, square: Option<Square>)
        ensures
            final(self).gesture == old(self).picked(game@, square),
            final(self).pointer_mode == old(self).pointer_mode,
    {
        if let Gesture::Idle = self.gesture {
            if let Some(from) = square {
                if let Some(piece) = game.piece_at(from) {
                    self.gesture = self.gesture.start(from, piece);
                }
            }
        }
    }

    /// The button was clicked over `square`, or outside the board. This
    /// counts in click mode only.
    pub fn clicked_at(&mut self, game: &Position, square: Option<Square>, position: Point)
        ensures
            final(self).pointer_mode == old(self).pointer_mode,
            final(self).gesture == if old(self).pointer_mode == PointerMode::Click {
                old(self).clicked(game@, square, position)
            } else {
                old(self).gesture
            },
    {
        if self.pointer_mode == PointerMode::Click {
            match self.gesture {
                Gesture::Idle => {
                    self.pick(game, square);
                },
                Gesture::Start(state) => {
                    if let Some(to) = square {
                        if state.from != to {
                            self.gesture = self.gesture.moving(position).end(to);
                        } else {
                            self.gesture = Gesture::Idle;
                        }
                    }
                },
                _ => {},
            }
        }
    }

    /// The button went down over `square`, or outside the board. This
    /// counts in drag mode only.
    pub fn pressed_at(&mut self, game: &Position, square: Option<Square>)
        ensures
            final(self).pointer_mode == old(self).pointer_mode,
            final(self).gesture == if old(self).pointer_mode == PointerMode::Drag {
                old(self).picked(game@, square)
            } else {
                old(self).gesture
            },
    {
        if self.pointer_mode == PointerMode::Drag {
            self.pick(game, square);
        }
    }

    /// The pointer moved with the button down. This counts in drag mode
    /// only.
    pub fn dragged_to(&mut self, position: Point)
        ensures
            final(self).pointer_mode == old(self).pointer_mode,
            final(self).gesture == if old(self).pointer_mode == PointerMode::Drag {
                old(self).gesture.moved(position)
            } else {
                old(self).gesture
            },
    {
        if self.pointer_mode == PointerMode::Drag {
            self.gesture = self.gesture.moving(position);
        }
    }

    /// The button was released over `square`, or outside the board. This
    /// counts in drag mode only, and only over the board.
    pub fn released_at(&mut self, square: Option<Square>)
        ensures
            final(self).pointer_mode == old(self).pointer_mode,
            final(self).gesture == match square {
                Some(to) => if old(self).pointer_mode == PointerMode::Drag {
                    old(self).gesture.ended(to)
                } else {
                    old(self).gesture
                },
                None => old(self).gesture,
            },
    {
        if self.pointer_mode == PointerMode::Drag {
            if let Some(to) = square {
                self.gesture = self.gesture.end(to);
            }
        }
    }

    /// Looks at the gesture once it is finished, and hands out the move
    /// that it stands for in the position.
    pub fn take_move(&mut self, game: &Position) -> (r: Option<Move>)
        ensures
            r == old(self).shown_move(game@),
            final(self).gesture == old(self).settled(game@),
            final(self).pointer_mode == old(self).pointer_mode,
    {
        if self.gesture.need_promotion() {
            return None;
        }
        match self.gesture {
            Gesture::End(state) => {
                let on_turn = match game.turn() {
                    Some(turn) => turn == state.piece().color,
                    None => false,
                };
                if on_turn {
                    let moves = game.legal_moves();
                    let found = state.find_move(&moves);
                    self.gesture = Gesture::new();
                    found
                } else {
                    None
                }
            },
            _ => None,
        }
    }
}

} // verus!
