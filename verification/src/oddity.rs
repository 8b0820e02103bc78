//! Two services for the display of moves: the square on which a castling
//! king is shown to arrive, and a line of the engine in standard notation.

use crate::chess::{played, san_of, uci_move_in, File, Move, Position, Square};
use crate::text::texts;
use vstd::prelude::*;

verus! {

/// The square that a move is shown to go to. The rules engine describes
/// castling by the squares of the king and of the rook; a king that castles
/// from the `e` file with a rook on the `h` or the `a` file is shown going to
/// the `g` or the `c` file of its rank. Any other move goes to its target.
pub open spec fn classic_target(m: Move) -> Square {
    match m {
        Move::Castle { king, rook } => if king.file_of() == File::E && rook.file_of()
            == File::H {
            Square::at(File::G, king.rank_of())
        } else if king.file_of() == File::E && rook.file_of() == File::A {
            Square::at(File::C, king.rank_of())
        } else {
            rook
        },
        _ => m.target(),
    }
}

pub fn move_classic_to(move_: &Move) -> (r: Square)
    ensures
        r == classic_target(*move_),
{
    match *move_ {
        Move::Castle { king, rook } => {
            match (king.file(), rook.file()) {
                (File::E, File::H) => Square::from_coords(File::G, king.rank()),
                (File::E, File::A) => Square::from_coords(File::C, king.rank()),
                _ => move_.to(),
            }
        },
        _ => move_.to(),
    }
}

/// The moves of a line in standard notation, each written on the position
/// that the moves before it give. The line ends before the first text that
/// stands for no legal move.
pub open spec fn san_list(fen: Seq<char>, ucis: Seq<Seq<char>>) -> Seq<Seq<char>>
    decreases ucis.len(),
{
    if ucis.len() == 0 {
        Seq::empty()
    } else {
        match uci_move_in(fen, ucis[0]) {
            Some(m) => match (san_of(fen, m), played(fen, m)) {
                (Some(text), Some(next)) => seq![text] + san_list(next, ucis.drop_first()),
                (Some(text), None) => seq![text],
                (None, _) => Seq::empty(),
            },
            None => Seq::empty(),
        }
    }
}

/// Writes a line of moves in coordinate notation in standard notation.
pub fn ucimovelist_to_sanlist(game: Position, movelist: &Vec<String>) -> (r: Vec<String>)
    ensures
        texts(r@) == san_list(game@, texts(movelist@)),
{
    let ghost ucis = texts(movelist@);
    let ghost start = game@;
    let mut position = game;
    let mut result: Vec<String> = Vec::new();
    let mut i: usize = 0;
    assert(texts(result@) + san_list(start, ucis.skip(0)) =~= san_list(start, ucis)) by {
        assert(ucis.skip(0) =~= ucis);
    }
    while i < movelist.len()
        invariant
            start == game@,
            ucis == texts(movelist@),
            i <= movelist@.len(),
            texts(result@) + san_list(position@, ucis.skip(i as int)) == san_list(start, ucis),
        decreases movelist.len() - i,
    {
        let ghost rest = ucis.skip(i as int);
        let ghost before = result@;
        proof {
            assert(rest.len() > 0);
            assert(rest[0] == movelist@[i as int]@);
            assert(rest.drop_first() =~= ucis.skip(i + 1));
        }
        let move_ = match position.uci_to_move(movelist[i].as_str()) {
            Some(m) => m,
            None => {
                proof {
                    assert(san_list(position@, rest) == Seq::<Seq<char>>::empty());
                    assert(texts(result@) + Seq::<Seq<char>>::empty() =~= texts(result@));
                }
                return result;
            },
        };
        let text = match position.san(&move_) {
            Some(text) => text,
            None => {
                proof {
                    assert(san_list(position@, rest) == Seq::<Seq<char>>::empty());
                    assert(texts(result@) + Seq::<Seq<char>>::empty() =~= texts(result@));
                }
                return result;
            },
        };
        result.push(text);
        proof {
            assert(texts(result@) =~= texts(before).push(text@));
        }
        match position.play(&move_) {
            Some(next) => {
                proof {
                    assert(san_list(position@, rest) == seq![text@] + san_list(
                        next@,
                        ucis.skip(i + 1),
                    ));
                    assert(texts(result@) + san_list(next@, ucis.skip(i + 1)) =~= texts(before)
                        + san_list(position@, rest));
                }
                position = next;
            },
            None => {
                proof {
                    assert(san_list(position@, rest) == seq![text@]);
                    assert(texts(result@) =~= texts(before) + san_list(position@, rest));
                }
                return result;
            },
        }
        i += 1;
    }
    proof {
        assert(san_list(position@, ucis.skip(i as int)) == Seq::<Seq<char>>::empty());
        assert(texts(result@) + Seq::<Seq<char>>::empty() =~= texts(result@));
    }
    result
}

} // verus!
