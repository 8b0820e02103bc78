//! The board as it is drawn, with White at the bottom: which rank and file
//! a row and a column of the drawing show.

use crate::chess::{File, Rank};
use vstd::prelude::*;

verus! {

/// The rank in the row `index` of the drawing, counted from the top.
pub fn rank_from_index(index: usize) -> (r: Rank)
    requires
        index < 8,
    ensures
        r == Rank::of_number(7 - index),
{
    match index {
        0 => Rank::Eighth,
        1 => Rank::Seventh,
        2 => Rank::Sixth,
        3 => Rank::Fifth,
        4 => Rank::Fourth,
        5 => Rank::Third,
        6 => Rank::Second,
        _ => Rank::First,
    }
}

/// The file in the column `index` of the drawing, counted from the left.
pub fn file_from_index(index: usize) -> (r: File)
    requires
        index < 8,
    ensures
        r == File::of_number(index as int),
{
    match index {
        0 => File::A,
        1 => File::B,
        2 => File::C,
        3 => File::D,
        4 => File::E,
        5 => File::F,
        6 => File::G,
        _ => File::H,
    }
}

/// The row of the drawing that shows the rank, counted from the top.
pub fn rank_to_index(rank: Rank) -> (r: usize)
    ensures
        r == 7 - rank.number(),
{
    match rank {
        Rank::Eighth => 0,
        Rank::Seventh => 1,
        Rank::Sixth => 2,
        Rank::Fifth => 3,
        Rank::Fourth => 4,
        Rank::Third => 5,
        Rank::Second => 6,
        Rank::First => 7,
    }
}

/// The column of the drawing that shows the file, counted from the left.
pub fn file_to_index(file: File) -> (r: usize)
    ensures
        r == file.number(),
{
    match file {
        File::A => 0,
        File::B => 1,
        File::C => 2,
        File::D => 3,
        File::E => 4,
        File::F => 5,
        File::G => 6,
        File::H => 7,
    }
}

} // verus!
