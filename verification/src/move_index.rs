//! Addresses of moves inside a variation tree.

use std::cmp::Ordering;
use vstd::prelude::*;
use vstd::std_specs::cmp::PartialOrdSpecImpl;

verus! {

/// The address of one move: the variation that holds it and the ply of the
/// move inside that variation, counted from zero.
#[derive(Debug, Clone, Copy, PartialEq, Eq, Structural, Ord, Hash)]
pub struct MoveIndex {
    pub var_index: usize,
    pub move_index: usize,
}

impl MoveIndex {
    /// Lexicographic order on `(var_index, move_index)`.
    pub open spec fn precedes(self, other: MoveIndex) -> bool {
        self.var_index < other.var_index || (self.var_index == other.var_index && self.move_index
            < other.move_index)
    }

    /// The address with the given variation and ply.
    pub fn new(var_index: usize, move_index: usize) -> (r: MoveIndex)
        ensures
            r.var_index == var_index,
            r.move_index == move_index,
    {
        MoveIndex { var_index, move_index }
    }

    /// The first move of the root variation.
    pub fn root() -> (r: MoveIndex)
        ensures
            r.var_index == 0,
            r.move_index == 0,
    {
        MoveIndex { var_index: 0, move_index: 0 }
    }

    /// The same ply in the next variation.
    pub fn incr_variation(&self) -> (r: MoveIndex)
        requires
            self.var_index < usize::MAX,
        ensures
            r.var_index == self.var_index + 1,
            r.move_index == self.move_index,
    {
        MoveIndex { var_index: self.var_index + 1, move_index: self.move_index }
    }

    /// The next ply in the same variation.
    pub fn incr_move(&self) -> (r: MoveIndex)
        requires
            self.move_index < usize::MAX,
        ensures
            r.var_index == self.var_index,
            r.move_index == self.move_index + 1,
    {
        MoveIndex { var_index: self.var_index, move_index: self.move_index + 1 }
    }

    pub fn move_index(&self) -> (r: usize)
        ensures
            r == self.move_index,
    {
        self.move_index
    }

    pub fn var_index(&self) -> (r: usize)
        ensures
            r == self.var_index,
    {
        self.var_index
    }

    /// Any two addresses are ordered in exactly one way: the first precedes
    /// the second, they are equal, or the second precedes the first.
    pub proof fn lemma_total_order(a: MoveIndex, b: MoveIndex)
        ensures
            a.precedes(b) || a == b || b.precedes(a),
            !(a.precedes(b) && a == b),
            !(a.precedes(b) && b.precedes(a)),
            !(a == b && b.precedes(a)),
    {
    }

    /// The order is transitive.
    pub proof fn lemma_precedes_transitive(a: MoveIndex, b: MoveIndex, c: MoveIndex)
        requires
            a.precedes(b),
            b.precedes(c),
        ensures
            a.precedes(c),
    {
    }
}

impl PartialOrd for MoveIndex {
    fn partial_cmp(&self, other: &Self) -> (r: Option<Ordering>) {
        if self.var_index < other.var_index {
            Some(Ordering::Less)
        } else if self.var_index > other.var_index {
            Some(Ordering::Greater)
        } else if self.move_index < other.move_index {
            Some(Ordering::Less)
        } else if self.move_index > other.move_index {
            Some(Ordering::Greater)
        } else {
            Some(Ordering::Equal)
        }
    }
}

impl PartialOrdSpecImpl for MoveIndex {
    open spec fn obeys_partial_cmp_spec() -> bool {
        true
    }

    open spec fn partial_cmp_spec(&self, other: &Self) -> Option<Ordering> {
        if self.precedes(*other) {
            Some(Ordering::Less)
        } else if other.precedes(*self) {
            Some(Ordering::Greater)
        } else {
            Some(Ordering::Equal)
        }
    }
}

} // verus!
