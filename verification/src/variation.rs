//! The branching history of a game: variations of moves, each but the first
//! starting from a move of an earlier one, and a cursor on the move that
//! was played last.

use crate::chess::{
    check_uci, lemma_replay_concat, replay, uci_move_in, uci_well_formed, Move, ParseUciMoveError,
    Position,
};
use crate::move_index::MoveIndex;
use vstd::prelude::*;

verus! {

/// What a variation is to the contracts of this module.
pub struct VariationView {
    /// The move after which the variation starts; the root has none.
    pub from: Option<MoveIndex>,
    /// The address of the variation's first move.
    pub index: MoveIndex,
    pub moves: Seq<Move>,
    /// The notation of the position before the variation's first move.
    pub base: Seq<char>,
}

/// A run of moves that starts after a move of an earlier variation, or, for
/// the root, from the starting position.
#[derive(Debug)]
pub struct Variation {
    pub from: Option<MoveIndex>,
    pub index: MoveIndex,
    pub moves: Vec<Move>,
    /// The position before the first move.
    pub position: Position,
}

impl View for Variation {
    type V = VariationView;

    open spec fn view(&self) -> VariationView {
        VariationView {
            from: self.from,
            index: self.index,
            moves: self.moves@,
            base: self.position@,
        }
    }
}

impl VariationView {
    /// The position after the move at `move_index`; after the last move,
    /// where the variation has fewer moves.
    pub open spec fn position_after(self, move_index: int) -> Seq<char> {
        if move_index + 1 <= self.moves.len() {
            replay(self.base, self.moves.take(move_index + 1))
        } else {
            replay(self.base, self.moves)
        }
    }
}

impl Clone for Variation {
    fn clone(&self) -> (r: Variation)
        ensures
            r@ == self@,
    {
        Variation {
            from: self.from,
            index: self.index,
            moves: self.moves.clone(),
            position: self.position.clone(),
        }
    }
}

impl Variation {
    fn new(from: MoveIndex, var_index: usize, move_: Move, starting_position: Position) -> (r:
        Variation)
        ensures
            r@ == (VariationView {
                from: Some(from),
                index: MoveIndex { var_index, move_index: 0 },
                moves: seq![move_],
                base: starting_position@,
            }),
    {
        let moves: Vec<Move> = vec![move_];
        assert(moves@ =~= seq![move_]);
        Variation {
            from: Some(from),
            index: MoveIndex::new(var_index, 0),
            moves,
            position: starting_position,
        }
    }

    pub fn is_root(&self) -> (r: bool)
        ensures
            r == (self@.from is None),
    {
        self.from.is_none()
    }

    pub fn starting_position(&self) -> (r: Position)
        ensures
            r@ == self@.base,
    {
        self.position.clone()
    }

    /// The position after the move at `move_index`.
    pub fn game(&self, move_index: usize) -> (r: Position)
        ensures
            r@ == self@.position_after(move_index as int),
    {
        let mut game = self.position.clone();
        let mut index: usize = 0;
        while index < self.moves.len() && index <= move_index
            invariant
                index <= self.moves.len(),
                index <= move_index + 1,
                game@ == replay(self@.base, self@.moves.take(index as int)),
            decreases self.moves.len() - index,
        {
            let ghost before = self@.moves.take(index as int);
            game = game.play_or_stay(&self.moves[index]);
            proof {
                assert(self@.moves.take(index + 1).drop_last() =~= before);
            }
            index += 1;
        }
        proof {
            assert(self@.moves.take(self@.moves.len() as int) =~= self@.moves);
        }
        game
    }
}

/// The number of branch points between a move and the root from which the
/// way back to the root is no longer walked.
pub const MAX_HOPS: usize = 1200;

/// A step in the life of a tree: a move is played at the cursor, or the
/// cursor is put on an address.
pub enum TreeOp {
    Push(Move),
    SetCursor(MoveIndex),
}

/// What a tree is to the contracts of this module: its variations in the
/// order in which they were made, and its cursor.
pub struct TreeView {
    pub variations: Seq<VariationView>,
    pub cursor: Option<MoveIndex>,
}

impl TreeView {
    /// The tree without a move.
    pub open spec fn empty() -> TreeView {
        TreeView { variations: Seq::empty(), cursor: None }
    }

    /// The tree holds a move at the address.
    pub open spec fn has(self, a: MoveIndex) -> bool {
        a.var_index < self.variations.len() && a.move_index
            < self.variations[a.var_index as int].moves.len()
    }

    /// The position after the move at the address, replayed from the base
    /// position of its variation.
    pub open spec fn position_at(self, a: MoveIndex) -> Seq<char> {
        self.variations[a.var_index as int].position_after(a.move_index as int)
    }

    /// What holds of the variation at `i`: it has a move, knows its own
    /// place, and starts where it says it starts. The root starts from the
    /// starting position; any other variation starts after a move of an
    /// earlier one, from the position after that move.
    pub open spec fn line_wf(self, i: int) -> bool {
        let v = self.variations[i];
        &&& v.moves.len() >= 1
        &&& v.index == MoveIndex { var_index: i as usize, move_index: 0 }
        &&& i == 0 ==> v.from is None && v.base == Position::initial()
        &&& i > 0 ==> (v.from matches Some(p) && p.var_index < i && self.has(p) && v.base
            == self.position_at(p))
    }

    /// The tree has at most `n` variations of at most `n` moves each.
    pub open spec fn within(self, n: nat) -> bool {
        &&& self.variations.len() <= n
        &&& forall|i: int|
            0 <= i < self.variations.len() ==> (#[trigger] self.variations[i]).moves.len() <= n
    }

    /// The invariant of a tree: every variation is as `line_wf` says, the
    /// cursor is on a move of the tree, or absent where there is none, and
    /// the numbers of variations and of moves are numbers of the machine.
    pub open spec fn wf(self) -> bool {
        &&& forall|i: int| 0 <= i < self.variations.len() ==> #[trigger] self.line_wf(i)
        &&& self.cursor matches Some(c) ==> self.has(c)
        &&& self.cursor is None <==> self.variations.len() == 0
        &&& self.within(usize::MAX as nat)
    }

    /// The number of branch points between a variation and the root: how
    /// often one goes from a variation to the one it starts from, until the
    /// root is reached.
    pub open spec fn hops(self, var_index: int) -> nat
        decreases var_index,
    {
        if 0 <= var_index < self.variations.len() {
            match self.variations[var_index].from {
                Some(p) => if p.var_index < var_index {
                    1 + self.hops(p.var_index as int)
                } else {
                    0
                },
                None => 0,
            }
        } else {
            0
        }
    }

    /// The number of branch points between the cursor and the root.
    pub open spec fn depth(self) -> nat {
        match self.cursor {
            Some(c) => self.hops(c.var_index as int),
            None => 0,
        }
    }

    /// There are no more branch points below a variation than variations
    /// before it.
    pub proof fn lemma_hops_bound(self, var_index: int)
        requires
            0 <= var_index,
        ensures
            self.hops(var_index) <= var_index,
        decreases var_index,
    {
        if 0 <= var_index < self.variations.len() {
            match self.variations[var_index].from {
                Some(p) => {
                    if p.var_index < var_index {
                        self.lemma_hops_bound(p.var_index as int);
                    }
                },
                None => {},
            }
        }
    }

    /// The cursor is on the last move of its variation.
    pub open spec fn at_tip(self) -> bool {
        self.cursor matches Some(c) && c.move_index + 1
            == self.variations[c.var_index as int].moves.len()
    }

    /// The cursor is before the last move of its variation, and the move
    /// after the cursor is `m`.
    pub open spec fn follows(self, m: Move) -> bool {
        self.cursor matches Some(c) && c.move_index + 1
            < self.variations[c.var_index as int].moves.len()
            && self.variations[c.var_index as int].moves[c.move_index + 1] == m
    }

    /// The tree with the cursor on another address.
    pub open spec fn with_cursor(self, a: MoveIndex) -> TreeView {
        TreeView { cursor: Some(a), ..self }
    }

    /// The tree with a new variation of one move, that starts after the move
    /// at `start`, and the cursor on that move.
    pub open spec fn branch(self, start: MoveIndex, m: Move) -> TreeView {
        let index = MoveIndex { var_index: self.variations.len() as usize, move_index: 0 };
        TreeView {
            variations: self.variations.push(
                VariationView {
                    from: Some(start),
                    index,
                    moves: seq![m],
                    base: self.position_at(start),
                },
            ),
            cursor: Some(index),
        }
    }

    /// The tree with one move more at the end of the cursor's variation, and
    /// the cursor on it.
    pub open spec fn append(self, m: Move) -> TreeView {
        let c = self.cursor->0;
        let v = self.variations[c.var_index as int];
        TreeView {
            variations: self.variations.update(
                c.var_index as int,
                VariationView { moves: v.moves.push(m), ..v },
            ),
            cursor: Some(
                MoveIndex { var_index: c.var_index, move_index: (c.move_index + 1) as usize },
            ),
        }
    }

    /// The tree after a move is played at the cursor.
    pub open spec fn push(self, m: Move) -> TreeView {
        match self.cursor {
            None => TreeView {
                variations: seq![
                    VariationView {
                        from: None,
                        index: MoveIndex { var_index: 0, move_index: 0 },
                        moves: seq![m],
                        base: Position::initial(),
                    },
                ],
                cursor: Some(MoveIndex { var_index: 0, move_index: 0 }),
            },
            Some(c) => if self.at_tip() {
                self.append(m)
            } else if self.follows(m) {
                self.with_cursor(
                    MoveIndex { var_index: c.var_index, move_index: (c.move_index + 1) as usize },
                )
            } else {
                self.branch(c, m)
            },
        }
    }

    /// The moves from the start of the game to the move at the address: the
    /// moves that lead to the branch point of its variation, then the moves
    /// of the variation up to the address.
    pub open spec fn path(self, a: MoveIndex) -> Seq<Move>
        decreases a.var_index,
    {
        let v = self.variations[a.var_index as int];
        let own = v.moves.take(a.move_index + 1);
        match v.from {
            Some(p) => if p.var_index < a.var_index {
                self.path(p) + own
            } else {
                own
            },
            None => own,
        }
    }

    /// The moves from the start of the game to the cursor.
    pub open spec fn moves_to_cursor(self) -> Seq<Move> {
        match self.cursor {
            Some(c) => self.path(c),
            None => Seq::empty(),
        }
    }

    /// The position at the cursor; the starting position where the tree has
    /// no move.
    pub open spec fn current_position(self) -> Seq<char> {
        match self.cursor {
            Some(c) => self.position_at(c),
            None => Position::initial(),
        }
    }

    /// The address after `a` in the same variation, where the tree holds a
    /// move there.
    pub open spec fn successor(self, a: MoveIndex) -> Option<MoveIndex> {
        let next = MoveIndex { var_index: a.var_index, move_index: (a.move_index + 1) as usize };
        if a.move_index < usize::MAX && self.has(next) {
            Some(next)
        } else {
            None
        }
    }

    /// The variations that start after the move at the address, in the
    /// order in which they were made.
    pub open spec fn branches_from(self, a: MoveIndex) -> Seq<VariationView> {
        self.variations.filter(|v: VariationView| v.from == Some(a))
    }

    /// A move played at the tip extends the cursor's variation: no variation
    /// is made, the cursor goes one ply on, and no other variation changes.
    pub proof fn lemma_tip_append(self, m: Move)
        requires
            self.wf(),
            self.at_tip(),
        ensures
            self.push(m).variations.len() == self.variations.len(),
            self.push(m).cursor is Some,
            self.push(m).cursor->0.var_index == self.cursor->0.var_index,
            self.push(m).cursor->0.move_index == self.cursor->0.move_index + 1,
            self.push(m).variations[self.cursor->0.var_index as int].moves
                == self.variations[self.cursor->0.var_index as int].moves.push(m),
            forall|i: int|
                0 <= i < self.variations.len() && i != self.cursor->0.var_index
                    ==> self.push(m).variations[i] == self.variations[i],
    {
    }

    /// A move that is already the next move of the cursor's variation is
    /// followed: the variations stay as they are, and the cursor goes one ply
    /// on.
    pub proof fn lemma_follow(self, m: Move)
        requires
            self.wf(),
            self.follows(m),
        ensures
            self.push(m).variations == self.variations,
            self.push(m).cursor is Some,
            self.push(m).cursor->0.var_index == self.cursor->0.var_index,
            self.push(m).cursor->0.move_index == self.cursor->0.move_index + 1,
    {
    }

    /// A move that differs from the next move of the cursor's variation
    /// starts exactly one new variation after the old cursor, with the cursor
    /// on its first move; the variations that were there stay as they are.
    pub proof fn lemma_branch(self, m: Move)
        requires
            self.wf(),
            self.cursor is Some,
            !self.at_tip(),
            !self.follows(m),
        ensures
            self.push(m).variations.len() == self.variations.len() + 1,
            self.push(m).variations.last().from == self.cursor,
            self.push(m).variations.last().moves == seq![m],
            self.push(m).cursor is Some,
            self.push(m).cursor->0.var_index == self.variations.len(),
            self.push(m).cursor->0.move_index == 0,
            forall|i: int|
                0 <= i < self.variations.len() ==> self.push(m).variations[i]
                    == self.variations[i],
    {
    }

    /// Replaying the moves that lead to an address from the starting
    /// position gives the position at that address.
    pub proof fn lemma_path_replays(self, a: MoveIndex)
        requires
            self.wf(),
            self.has(a),
        ensures
            replay(Position::initial(), self.path(a)) == self.position_at(a),
        decreases a.var_index,
    {
        let v = self.variations[a.var_index as int];
        let own = v.moves.take(a.move_index + 1);
        assert(self.line_wf(a.var_index as int));
        match v.from {
            Some(p) => {
                self.lemma_path_replays(p);
                lemma_replay_concat(Position::initial(), self.path(p), own);
            },
            None => {},
        }
    }

    /// The history round trip: in a well-formed tree, replaying
    /// `moves_to_cursor` from the starting position gives the position at the
    /// cursor.
    pub proof fn lemma_history_round_trip(self)
        requires
            self.wf(),
        ensures
            replay(Position::initial(), self.moves_to_cursor()) == self.current_position(),
    {
        match self.cursor {
            Some(c) => self.lemma_path_replays(c),
            None => {},
        }
    }

    /// A tree stays well formed when a variation is started after one of
    /// its moves.
    pub proof fn lemma_branch_wf(self, start: MoveIndex, m: Move)
        requires
            self.wf(),
            self.has(start),
            self.variations.len() < usize::MAX,
        ensures
            self.branch(start, m).wf(),
    {
        let t = self.branch(start, m);
        let n = self.variations.len() as int;
        assert forall|i: int| 0 <= i < t.variations.len() implies #[trigger] t.line_wf(i) by {
            if i < n {
                assert(self.line_wf(i));
                assert(t.variations[i] == self.variations[i]);
                if i > 0 {
                    let p = self.variations[i].from->0;
                    assert(t.variations[p.var_index as int] == self.variations[p.var_index as int]);
                }
            } else {
                assert(t.variations[start.var_index as int]
                    == self.variations[start.var_index as int]);
            }
        }
    }

    /// A tree stays well formed when a move is played at the cursor, as long
    /// as what comes of it has room in the machine.
    pub proof fn lemma_push_wf(self, m: Move)
        requires
            self.wf(),
            self.push(m).within(usize::MAX as nat),
        ensures
            self.push(m).wf(),
    {
        let t = self.push(m);
        match self.cursor {
            None => {
                assert(t.line_wf(0));
            },
            Some(c) => {
                if self.at_tip() {
                    assert forall|i: int| 0 <= i < t.variations.len() implies #[trigger] t.line_wf(
                        i,
                    ) by {
                        assert(self.line_wf(i));
                        if i > 0 {
                            let p = self.variations[i].from->0;
                            let old_parent = self.variations[p.var_index as int];
                            let new_parent = t.variations[p.var_index as int];
                            assert(new_parent.base == old_parent.base);
                            assert(new_parent.moves.take(p.move_index + 1)
                                =~= old_parent.moves.take(p.move_index + 1));
                        }
                    }
                } else if self.follows(m) {
                    assert forall|i: int| 0 <= i < t.variations.len() implies #[trigger] t.line_wf(
                        i,
                    ) by {
                        assert(self.line_wf(i));
                    }
                } else {
                    self.lemma_branch_wf(c, m);
                }
            },
        }
    }

    /// The tree after one step.
    pub open spec fn apply(self, op: TreeOp) -> TreeView {
        match op {
            TreeOp::Push(m) => self.push(m),
            TreeOp::SetCursor(a) => if self.has(a) {
                self.with_cursor(a)
            } else {
                self
            },
        }
    }

    /// The tree that a sequence of steps makes of the empty tree.
    pub open spec fn after(ops: Seq<TreeOp>) -> TreeView
        decreases ops.len(),
    {
        if ops.len() == 0 {
            TreeView::empty()
        } else {
            TreeView::after(ops.drop_last()).apply(ops.last())
        }
    }

    /// Whatever moves are played and wherever the cursor is put, the tree is
    /// well formed, and it holds no more variations and no longer ones than
    /// steps were made.
    pub proof fn lemma_after_wf(ops: Seq<TreeOp>)
        requires
            ops.len() <= usize::MAX,
        ensures
            TreeView::after(ops).wf(),
            TreeView::after(ops).within(ops.len()),
        decreases ops.len(),
    {
        if ops.len() > 0 {
            let before = TreeView::after(ops.drop_last());
            TreeView::lemma_after_wf(ops.drop_last());
            match ops.last() {
                TreeOp::Push(m) => {
                    let t = before.push(m);
                    assert forall|i: int| 0 <= i < t.variations.len() implies (
                    #[trigger] t.variations[i]).moves.len() <= ops.len() by {
                        if i < before.variations.len() {
                            assert(before.variations[i].moves.len() <= ops.len() - 1);
                        }
                    }
                    before.lemma_push_wf(m);
                },
                TreeOp::SetCursor(a) => {
                    if before.has(a) {
                        before.lemma_with_cursor_wf(a);
                    }
                    let t = before.apply(ops.last());
                    assert forall|i: int| 0 <= i < t.variations.len() implies (
                    #[trigger] t.variations[i]).moves.len() <= ops.len() by {
                        assert(before.variations[i].moves.len() <= ops.len() - 1);
                    }
                },
            }
        }
    }

    /// The history round trip, for any sequence of pushes and cursor moves:
    /// replaying the moves that lead to the cursor from the starting position
    /// gives the position at the cursor.
    pub proof fn lemma_round_trip_after(ops: Seq<TreeOp>)
        requires
            ops.len() <= usize::MAX,
        ensures
            replay(Position::initial(), TreeView::after(ops).moves_to_cursor()) == TreeView::after(
                ops,
            ).current_position(),
    {
        TreeView::lemma_after_wf(ops);
        TreeView::after(ops).lemma_history_round_trip();
    }

    /// A tree stays well formed when the cursor goes to one of its moves.
    pub proof fn lemma_with_cursor_wf(self, a: MoveIndex)
        requires
            self.wf(),
            self.has(a),
        ensures
            self.with_cursor(a).wf(),
    {
        let t = self.with_cursor(a);
        assert forall|i: int| 0 <= i < t.variations.len() implies #[trigger] t.line_wf(i) by {
            assert(self.line_wf(i));
        }
    }
}

/// The history of a game with its side lines, and the cursor that says where
/// the player is.
#[derive(Debug)]
pub struct VariationTree {
    variations: Vec<Variation>,
    cursor: Option<MoveIndex>,
}

impl View for VariationTree {
    type V = TreeView;

    closed spec fn view(&self) -> TreeView {
        TreeView {
            variations: Seq::new(self.variations@.len(), |i: int| self.variations@[i]@),
            cursor: self.cursor,
        }
    }
}

impl VariationTree {
    #[verifier::type_invariant]
    spec fn well_formed(self) -> bool {
        self@.wf()
    }

    pub fn new() -> (r: VariationTree)
        ensures
            r@ == TreeView::empty(),
            r@.wf(),
    {
        let r = VariationTree { variations: Vec::new(), cursor: None };
        assert(r@.variations =~= Seq::empty());
        r
    }

    /// Takes the variations out of the tree, to change them and put them
    /// back with a cursor that fits. Until then the tree is empty.
    fn take_variations(&mut self) -> (r: Vec<Variation>)
        ensures
            r == old(self).variations,
            final(self)@ == TreeView::empty(),
    {
        let mut taken = VariationTree::new();
        std::mem::swap(self, &mut taken);
        taken.variations
    }

    pub fn current(&self) -> (r: Option<MoveIndex>)
        ensures
            r == self@.cursor,
    {
        self.cursor
    }

    pub fn is_current(&self, index: MoveIndex) -> (r: bool)
        ensures
            r == (self@.cursor == Some(index)),
    {
        match self.cursor {
            Some(c) => c == index,
            None => false,
        }
    }

    pub fn is_current_variation(&self, index: MoveIndex) -> (r: bool)
        ensures
            r == (self@.cursor matches Some(c) && c.var_index == index.var_index),
    {
        match self.cursor {
            Some(c) => c.var_index == index.var_index,
            None => false,
        }
    }

    /// Whether the tree holds a move at the address.
    pub fn contains(&self, index: MoveIndex) -> (r: bool)
        ensures
            r == self@.has(index),
    {
        index.var_index < self.variations.len() && index.move_index
            < self.variations[index.var_index].moves.len()
    }

    /// Puts the cursor on a move of the tree. An address at which the tree
    /// holds no move changes nothing.
    pub fn set_current(&mut self, index: MoveIndex)
        ensures
            old(self)@.has(index) ==> final(self)@ == old(self)@.with_cursor(index),
            !old(self)@.has(index) ==> final(self)@ == old(self)@,
            final(self)@.wf(),
    {
        proof {
            use_type_invariant(&*self);
        }
        if self.contains(index) {
            proof {
                self@.lemma_with_cursor_wf(index);
            }
            self.cursor = Some(index);
        }
    }

    /// The position at the cursor; the starting position where the tree has
    /// no move.
    pub fn game(&self) -> (r: Position)
        ensures
            r@ == self@.current_position(),
    {
        proof {
            use_type_invariant(self);
        }
        match self.cursor {
            Some(c) => self.variations[c.var_index].game(c.move_index),
            None => Position::new(),
        }
    }

    /// The position after the move at the address. An address at which the
    /// tree holds no move has none.
    pub fn game_at(&self, index: MoveIndex) -> (r: Option<Position>)
        ensures
            r is Some <==> self@.has(index),
            r matches Some(p) ==> p@ == self@.position_at(index),
    {
        if self.contains(index) {
            Some(self.variations[index.var_index].game(index.move_index))
        } else {
            None
        }
    }

    /// Starts a variation of one move after the move at `start`, and puts
    /// the cursor on it. An address at which the tree holds no move changes
    /// nothing.
    pub fn start_variation(&mut self, start: MoveIndex, move_: Move) -> (r: Option<MoveIndex>)
        ensures
            old(self)@.has(start) ==> final(self)@ == old(self)@.branch(start, move_) && r
                == final(self)@.cursor,
            !old(self)@.has(start) ==> final(self)@ == old(self)@ && r is None,
            final(self)@.wf(),
    {
        proof {
            use_type_invariant(&*self);
        }
        if !self.contains(start) {
            return None;
        }
        let game = self.variations[start.var_index].game(start.move_index);
        let var_index: usize = self.variations.len();
        let variation = Variation::new(start, var_index, move_, game);
        let new_index = variation.index;
        let ghost before = self@;
        let mut variations = self.take_variations();
        variations.push(variation);
        proof {
            assert(variations@.len() == variations.len());
            before.lemma_branch_wf(start, move_);
            assert(Seq::new(variations@.len(), |i: int| variations@[i]@) =~= before.branch(
                start,
                move_,
            ).variations);
        }
        *self = VariationTree { variations, cursor: Some(new_index) };
        Some(new_index)
    }

    /// Plays a move at the cursor. On an empty tree the move starts the root
    /// variation. At the tip of a variation it extends that variation. Before
    /// the tip, a move that the variation already holds next is followed, and
    /// any other move starts a new variation after the cursor. Either way the
    /// cursor ends on the move that was played. Whether the move is legal is
    /// not asked.
    pub fn push_move(&mut self, move_: Move)
        ensures
            final(self)@ == old(self)@.push(move_),
            final(self)@.wf(),
    {
        proof {
            use_type_invariant(&*self);
        }
        let ghost before = self@;
        match self.cursor {
            Some(index) => {
                let len: usize = self.variations[index.var_index].moves.len();
                if index.move_index + 1 == len {
                    let mut variations = self.take_variations();
                    variations[index.var_index].moves.push(move_);
                    proof {
                        let longer = variations@[index.var_index as int].moves;
                        assert(longer@.len() == longer.len());
                        assert(Seq::new(variations@.len(), |i: int| variations@[i]@)
                            =~= before.append(move_).variations);
                        before.lemma_push_wf(move_);
                    }
                    *self = VariationTree { variations, cursor: Some(index.incr_move()) };
                } else {
                    let next = self.variations[index.var_index].moves[index.move_index + 1];
                    if move_ == next {
                        proof {
                            before.lemma_push_wf(move_);
                        }
                        self.cursor = Some(index.incr_move());
                    } else {
                        let _ = self.start_variation(index, move_);
                    }
                }
            },
            None => {
                proof {
                    before.lemma_push_wf(move_);
                }
                let moves: Vec<Move> = vec![move_];
                assert(moves@ =~= seq![move_]);
                let root = Variation {
                    from: None,
                    index: MoveIndex::root(),
                    moves,
                    position: Position::new(),
                };
                let variations: Vec<Variation> = vec![root];
                proof {
                    assert(Seq::new(variations@.len(), |i: int| variations@[i]@) =~= before.push(
                        move_,
                    ).variations);
                }
                *self = VariationTree { variations, cursor: Some(MoveIndex::root()) };
            },
        }
    }

    /// Plays the move that a text in coordinate notation stands for at the
    /// cursor. A text that is no move in that notation is an error. A text
    /// that stands for no legal move at the cursor changes nothing.
    pub fn push_uci_move(&mut self, uci: &str) -> (r: Result<(), ParseUciMoveError>)
        ensures
            r is Ok <==> uci_well_formed(uci@),
            r is Err ==> final(self)@ == old(self)@,
            r is Ok ==> final(self)@ == match uci_move_in(old(self)@.current_position(), uci@) {
                Some(m) => old(self)@.push(m),
                None => old(self)@,
            },
            final(self)@.wf(),
    {
        proof {
            use_type_invariant(&*self);
        }
        match check_uci(uci) {
            Err(e) => Err(e),
            Ok(_) => {
                let game = self.game();
                match game.uci_to_move(uci) {
                    Some(move_) => self.push_move(move_),
                    None => {},
                }
                Ok(())
            },
        }
    }

    /// The number of branch points between the cursor and the root: what
    /// `moves` asks to be less than `MAX_HOPS`.
    pub fn depth(&self) -> (r: usize)
        ensures
            r == self@.depth(),
    {
        proof {
            use_type_invariant(self);
        }
        let start: usize = match self.cursor {
            Some(c) => c.var_index,
            None => {
                return 0;
            },
        };
        proof {
            self@.lemma_hops_bound(start as int);
        }
        let mut at: usize = start;
        let mut count: usize = 0;
        loop
            invariant
                self@.wf(),
                at < self@.variations.len(),
                self@.hops(start as int) <= usize::MAX,
                count + self@.hops(at as int) == self@.hops(start as int),
            ensures
                count == self@.hops(start as int),
            decreases at,
        {
            assert(self@.line_wf(at as int));
            match self.variations[at].from {
                Some(from) => {
                    count += 1;
                    at = from.var_index;
                },
                None => {
                    break ;
                },
            }
        }
        count
    }

    /// The moves from the start of the game to the cursor, in the order in
    /// which they were played.
    ///
    /// The walk goes from the cursor's variation to the root by the branch
    /// points. Each branch point lies in an earlier variation, so the walk
    /// cannot go round, and it makes as many hops as the cursor is deep. A
    /// cursor that lies `MAX_HOPS` branch points deep or deeper is beyond any
    /// game and is not walked: `depth` tells beforehand.
    pub fn moves(&self) -> (r: Vec<Move>)
        requires
            self@.depth() < MAX_HOPS,
        ensures
            r@ == self@.moves_to_cursor(),
    {
        proof {
            use_type_invariant(self);
        }
        let mut result: Vec<Move> = Vec::new();
        let cursor = match self.cursor {
            Some(c) => c,
            None => {
                return result;
            },
        };
        let mut chain: Vec<MoveIndex> = Vec::new();
        chain.push(cursor);
        let mut at: MoveIndex = cursor;
        loop
            invariant
                self@.wf(),
                chain@.len() >= 1,
                chain@[0] == cursor,
                chain@.last() == at,
                chain@.len() - 1 + self@.hops(at.var_index as int) == self@.depth(),
                self@.depth() < MAX_HOPS,
                forall|k: int| 0 <= k < chain@.len() ==> self@.has(#[trigger] chain@[k]),
                forall|k: int|
                    0 <= k < chain@.len() - 1 ==> self@.variations[(#[trigger] chain@[k]).var_index as int].from
                        == Some(chain@[k + 1]),
            ensures
                self@.variations[chain@.last().var_index as int].from is None,
                chain@.len() == self@.depth() + 1,
                chain@.len() <= MAX_HOPS,
            decreases at.var_index,
        {
            assert(self@.line_wf(at.var_index as int));
            match self.variations[at.var_index].from {
                Some(from) => {
                    chain.push(from);
                    at = from;
                },
                None => {
                    break ;
                },
            }
        }
        let mut k: usize = chain.len();
        while k > 0
            invariant
                self@.wf(),
                k <= chain@.len(),
                chain@.len() >= 1,
                chain@[0] == cursor,
                forall|j: int| 0 <= j < chain@.len() ==> self@.has(#[trigger] chain@[j]),
                forall|j: int|
                    0 <= j < chain@.len() - 1 ==> self@.variations[(#[trigger] chain@[j]).var_index as int].from
                        == Some(chain@[j + 1]),
                self@.variations[chain@.last().var_index as int].from is None,
                k == chain@.len() ==> result@ == Seq::<Move>::empty(),
                k < chain@.len() ==> result@ == self@.path(chain@[k as int]),
            decreases k,
        {
            k -= 1;
            let link: MoveIndex = chain[k];
            let ghost before = result@;
            let variation = &self.variations[link.var_index];
            assert(self@.line_wf(link.var_index as int));
            let count: usize = variation.moves.len();
            let mut i: usize = 0;
            while i <= link.move_index
                invariant
                    i <= link.move_index + 1,
                    link.move_index < count,
                    count == variation.moves@.len(),
                    result@ == before + variation.moves@.take(i as int),
                decreases link.move_index + 1 - i,
            {
                result.push(variation.moves[i]);
                proof {
                    assert(variation.moves@.take(i + 1) =~= variation.moves@.take(i as int).push(
                        variation.moves@[i as int],
                    ));
                }
                i += 1;
            }
            proof {
                let own = self@.variations[link.var_index as int].moves.take(link.move_index + 1);
                assert(result@ == before + own);
                if k + 1 == chain@.len() {
                    assert(before + own =~= own);
                } else {
                    assert(self@.variations[link.var_index as int].from == Some(
                        chain@[k + 1],
                    ));
                }
            }
        }
        result
    }

    fn next(&self, index: MoveIndex) -> (r: Option<MoveIndex>)
        ensures
            r == self@.successor(index),
    {
        if index.var_index < self.variations.len() && index.move_index < usize::MAX
            && index.move_index + 1 < self.variations[index.var_index].moves.len() {
            Some(index.incr_move())
        } else {
            None
        }
    }

    /// The move at the address, if the tree holds one there.
    pub fn move_at(&self, index: MoveIndex) -> (r: Option<&Move>)
        ensures
            r is Some <==> self@.has(index),
            r matches Some(m) ==> *m == self@.variations[index.var_index as int].moves[index.move_index as int],
    {
        if index.var_index < self.variations.len() && index.move_index
            < self.variations[index.var_index].moves.len() {
            Some(&self.variations[index.var_index].moves[index.move_index])
        } else {
            None
        }
    }

    /// A walk over the moves of the root variation, from its first move.
    pub fn iter(&self) -> (r: VariationTreeIterator<'_>)
        ensures
            r.tree() == self@,
            r.position() == Some(MoveIndex { var_index: 0, move_index: 0 }),
    {
        VariationTreeIterator { root: self, cur_index: Some(MoveIndex::root()) }
    }

    /// The address of the first move of the game, if a move was played.
    pub fn root_index(&self) -> (r: Option<MoveIndex>)
        ensures
            r == if self@.cursor is Some {
                Some(MoveIndex { var_index: 0, move_index: 0 })
            } else {
                None
            },
    {
        if self.cursor.is_some() {
            Some(MoveIndex::root())
        } else {
            None
        }
    }

    /// The root variation, if a move was played.
    pub fn root_variation(&self) -> (r: Option<Variation>)
        ensures
            r is Some <==> self@.cursor is Some,
            r matches Some(v) ==> v@ == self@.variations[0],
    {
        proof {
            use_type_invariant(self);
        }
        if self.cursor.is_some() {
            Some(self.variations[0].clone())
        } else {
            None
        }
    }

    /// The variations that start after the move at the address, in the
    /// order in which they were made.
    pub fn variations_from(&self, index: MoveIndex) -> (r: Vec<Variation>)
        ensures
            views(r@) == self@.branches_from(index),
    {
        let ghost pred = |v: VariationView| v.from == Some(index);
        let mut found: Vec<Variation> = Vec::new();
        let mut i: usize = 0;
        proof {
            reveal(Seq::filter);
            assert(views(found@) =~= self@.variations.take(0).filter(pred));
        }
        while i < self.variations.len()
            invariant
                i <= self.variations@.len(),
                pred == |v: VariationView| v.from == Some(index),
                views(found@) == self@.variations.take(i as int).filter(pred),
            decreases self.variations.len() - i,
        {
            let variation = &self.variations[i];
            proof {
                reveal(Seq::filter);
                assert(self@.variations.take(i + 1).drop_last() =~= self@.variations.take(
                    i as int,
                ));
                assert(self@.variations.take(i + 1).last() == variation@);
            }
            let branches_here = match variation.from {
                Some(from) => from == index,
                None => false,
            };
            if branches_here {
                let ghost before = found@;
                found.push(variation.clone());
                proof {
                    assert(views(found@) =~= views(before).push(variation@));
                }
            }
            i += 1;
        }
        proof {
            assert(self@.variations.take(i as int) =~= self@.variations);
        }
        found
    }

    /// The variations in the order of their addresses.
    #[allow(dead_code)]
    fn sorted_variations(&self) -> (r: Vec<Variation>)
        ensures
            views(r@) == self@.variations,
    {
        let mut sorted: Vec<Variation> = Vec::new();
        let mut i: usize = 0;
        while i < self.variations.len()
            invariant
                i <= self.variations@.len(),
                views(sorted@) == self@.variations.take(i as int),
            decreases self.variations.len() - i,
        {
            let ghost before = sorted@;
            sorted.push(self.variations[i].clone());
            proof {
                assert(views(sorted@) =~= views(before).push(self.variations@[i as int]@));
                assert(self@.variations.take(i + 1) =~= self@.variations.take(i as int).push(
                    self@.variations[i as int],
                ));
            }
            i += 1;
        }
        proof {
            assert(self@.variations.take(i as int) =~= self@.variations);
        }
        sorted
    }
}

/// The views of a sequence of variations.
pub open spec fn views(variations: Seq<Variation>) -> Seq<VariationView> {
    Seq::new(variations.len(), |i: int| variations[i]@)
}

/// A move of the tree with its address.
#[derive(Debug, Clone, Copy, PartialEq, Eq, Structural)]
pub struct VariationTreeItem {
    pub index: MoveIndex,
    pub move_: Move,
}

/// A walk over the moves of a tree's root variation.
pub struct VariationTreeIterator<'a> {
    root: &'a VariationTree,
    cur_index: Option<MoveIndex>,
}

impl<'a> VariationTreeIterator<'a> {
    /// The tree that is walked.
    pub closed spec fn tree(&self) -> TreeView {
        self.root@
    }

    /// The address of the move that comes next.
    pub closed spec fn position(&self) -> Option<MoveIndex> {
        self.cur_index
    }

    /// The move under the walk with its address, and a step to the move
    /// after it. Nothing, once the walk has left the tree.
    pub fn next(&mut self) -> (r: Option<VariationTreeItem>)
        ensures
            final(self).tree() == old(self).tree(),
            match old(self).position() {
                Some(c) => if old(self).tree().has(c) {
                    &&& r == Some(
                        VariationTreeItem {
                            index: c,
                            move_: old(self).tree().variations[c.var_index as int].moves[c.move_index as int],
                        },
                    )
                    &&& final(self).position() == old(self).tree().successor(c)
                } else {
                    r is None && final(self).position() == old(self).position()
                },
                None => r is None && final(self).position() == old(self).position(),
            },
    {
        match self.cur_index {
            Some(current) => match self.root.move_at(current) {
                Some(m) => {
                    let item = VariationTreeItem { index: current, move_: *m };
                    self.cur_index = self.root.next(current);
                    Some(item)
                },
                None => None,
            },
            None => None,
        }
    }
}

} // verus!
