//! Chess values as the library holds them, and the calls into the rules
//! engine.
//!
//! A position is held as its portable notation, a move as plain squares and
//! roles. Whatever needs the rules of chess is asked of `shakmaty`, through
//! the trusted functions at the end of this file: the contracts of those
//! functions are believed, not proved.

use shakmaty::Color as EngineColor;
use shakmaty::Move as EngineMove;
use shakmaty::Role as EngineRole;
use shakmaty::Square as EngineSquare;
use shakmaty_uci::ParseUciMoveError as EngineUciError;
use vstd::prelude::*;

verus! {

/// The two sides.
#[derive(Debug, Clone, Copy, PartialEq, Eq, Structural, Hash)]
pub enum Color {
    White,
    Black,
}

/// The six kinds of pieces.
#[derive(Debug, Clone, Copy, PartialEq, Eq, Structural, Hash)]
pub enum Role {
    Pawn,
    Knight,
    Bishop,
    Rook,
    Queen,
    King,
}

/// A piece of one side.
#[derive(Debug, Clone, Copy, PartialEq, Eq, Structural, Hash)]
pub struct Piece {
    pub color: Color,
    pub role: Role,
}

/// A column of the board.
#[derive(Debug, Clone, Copy, PartialEq, Eq, Structural, Hash)]
pub enum File {
    A,
    B,
    C,
    D,
    E,
    F,
    G,
    H,
}

/// A row of the board, counted from White's side.
#[derive(Debug, Clone, Copy, PartialEq, Eq, Structural, Hash)]
pub enum Rank {
    First,
    Second,
    Third,
    Fourth,
    Fifth,
    Sixth,
    Seventh,
    Eighth,
}

impl File {
    /// The number of the file, `A` being 0.
    pub open spec fn number(self) -> int {
        match self {
            File::A => 0,
            File::B => 1,
            File::C => 2,
            File::D => 3,
            File::E => 4,
            File::F => 5,
            File::G => 6,
            File::H => 7,
        }
    }

    /// The file with the given number; numbers from 7 on give `H`.
    pub open spec fn of_number(n: int) -> File {
        if n <= 0 {
            File::A
        } else if n == 1 {
            File::B
        } else if n == 2 {
            File::C
        } else if n == 3 {
            File::D
        } else if n == 4 {
            File::E
        } else if n == 5 {
            File::F
        } else if n == 6 {
            File::G
        } else {
            File::H
        }
    }

    pub fn to_u8(self) -> (r: u8)
        ensures
            r == self.number(),
            r < 8,
    {
        match self {
            File::A => 0,
            File::B => 1,
            File::C => 2,
            File::D => 3,
            File::E => 4,
            File::F => 5,
            File::G => 6,
            File::H => 7,
        }
    }

    /// The file with the given number, if there is one.
    pub fn from_u8(number: u8) -> (r: Option<File>)
        ensures
            number < 8 <==> r is Some,
            r matches Some(f) ==> f == File::of_number(number as int),
    {
        match number {
            0 => Some(File::A),
            1 => Some(File::B),
            2 => Some(File::C),
            3 => Some(File::D),
            4 => Some(File::E),
            5 => Some(File::F),
            6 => Some(File::G),
            7 => Some(File::H),
            _ => None,
        }
    }
}

impl Rank {
    /// The number of the rank, `First` being 0.
    pub open spec fn number(self) -> int {
        match self {
            Rank::First => 0,
            Rank::Second => 1,
            Rank::Third => 2,
            Rank::Fourth => 3,
            Rank::Fifth => 4,
            Rank::Sixth => 5,
            Rank::Seventh => 6,
            Rank::Eighth => 7,
        }
    }

    /// The rank with the given number; numbers from 7 on give `Eighth`.
    pub open spec fn of_number(n: int) -> Rank {
        if n <= 0 {
            Rank::First
        } else if n == 1 {
            Rank::Second
        } else if n == 2 {
            Rank::Third
        } else if n == 3 {
            Rank::Fourth
        } else if n == 4 {
            Rank::Fifth
        } else if n == 5 {
            Rank::Sixth
        } else if n == 6 {
            Rank::Seventh
        } else {
            Rank::Eighth
        }
    }

    pub fn to_u8(self) -> (r: u8)
        ensures
            r == self.number(),
            r < 8,
    {
        match self {
            Rank::First => 0,
            Rank::Second => 1,
            Rank::Third => 2,
            Rank::Fourth => 3,
            Rank::Fifth => 4,
            Rank::Sixth => 5,
            Rank::Seventh => 6,
            Rank::Eighth => 7,
        }
    }

    /// The rank with the given number, if there is one.
    pub fn from_u8(number: u8) -> (r: Option<Rank>)
        ensures
            number < 8 <==> r is Some,
            r matches Some(k) ==> k == Rank::of_number(number as int),
    {
        match number {
            0 => Some(Rank::First),
            1 => Some(Rank::Second),
            2 => Some(Rank::Third),
            3 => Some(Rank::Fourth),
            4 => Some(Rank::Fifth),
            5 => Some(Rank::Sixth),
            6 => Some(Rank::Seventh),
            7 => Some(Rank::Eighth),
            _ => None,
        }
    }
}

/// A square of the board, numbered file first: `a1` is 0, `b1` is 1, `h8` is
/// 63.
#[derive(Debug, Clone, Copy, PartialEq, Eq, Structural, Hash)]
pub struct Square {
    pub index: u8,
}

impl Square {
    /// The square is on the board.
    pub open spec fn wf(self) -> bool {
        self.index < 64
    }

    pub open spec fn at(file: File, rank: Rank) -> Square {
        Square { index: (file.number() + 8 * rank.number()) as u8 }
    }

    pub fn from_coords(file: File, rank: Rank) -> (r: Square)
        ensures
            r == Square::at(file, rank),
            r.wf(),
    {
        Square { index: file.to_u8() + 8 * rank.to_u8() }
    }

    /// The square with the given number, if it is on the board.
    pub fn new(index: u8) -> (r: Option<Square>)
        ensures
            index < 64 <==> r is Some,
            r matches Some(s) ==> s.index == index,
    {
        if index < 64 {
            Some(Square { index })
        } else {
            None
        }
    }

/// The file of the square.
    pub open spec fn file_of(self) -> File {
        File::of_number((self.index % 8) as int)
    }

    /// The rank of the square; a number that is not on the board is taken
    /// around the board.
    pub open spec fn rank_of(self) -> Rank {
        Rank::of_number(((self.index / 8) % 8) as int)
    }

    pub fn file(self) -> (r: File)
        ensures
            r == self.file_of(),
    {
        match File::from_u8(self.index % 8) {
            Some(f) => f,
            None => File::A,
        }
    }

    pub fn rank(self) -> (r: Rank)
        ensures
            r == self.rank_of(),
    {
        match Rank::from_u8((self.index / 8) % 8) {
            Some(k) => k,
            None => Rank::First,
        }
    }
}

/// One move, as the rules engine describes it.
#[derive(Debug, Clone, Copy, PartialEq, Eq, Structural, Hash)]
pub enum Move {
    /// A piece goes from one square to another.
    Normal { role: Role, from: Square, capture: Option<Role>, to: Square, promotion: Option<Role> },
    /// A pawn takes a pawn in passing.
    EnPassant { from: Square, to: Square },
    /// The king castles with the rook that stands on `rook`.
    Castle { king: Square, rook: Square },
    /// A piece is dropped on the board.
    Put { role: Role, to: Square },
}

impl Move {
    /// The square that the move starts from; a drop starts from none.
    pub open spec fn origin(self) -> Option<Square> {
        match self {
            Move::Normal { from, .. } => Some(from),
            Move::EnPassant { from, .. } => Some(from),
            Move::Castle { king, .. } => Some(king),
            Move::Put { .. } => None,
        }
    }

    /// The role that a pawn is promoted to, if the move promotes.
    pub open spec fn promoted(self) -> Option<Role> {
        match self {
            Move::Normal { promotion, .. } => promotion,
            _ => None,
        }
    }

    pub fn from(&self) -> (r: Option<Square>)
        ensures
            r == self.origin(),
    {
        match *self {
            Move::Normal { from, .. } => Some(from),
            Move::EnPassant { from, .. } => Some(from),
            Move::Castle { king, .. } => Some(king),
            Move::Put { .. } => None,
        }
    }

    /// The square that the move goes to; for castling, the rook's square.
    pub open spec fn target(self) -> Square {
        match self {
            Move::Normal { to, .. } => to,
            Move::EnPassant { to, .. } => to,
            Move::Castle { rook, .. } => rook,
            Move::Put { to, .. } => to,
        }
    }

    pub fn to(&self) -> (r: Square)
        ensures
            r == self.target(),
    {
        match *self {
            Move::Normal { to, .. } => to,
            Move::EnPassant { to, .. } => to,
            Move::Castle { rook, .. } => rook,
            Move::Put { to, .. } => to,
        }
    }

    pub fn promotion(&self) -> (r: Option<Role>)
        ensures
            r == self.promoted(),
    {
        match *self {
            Move::Normal { promotion, .. } => promotion,
            _ => None,
        }
    }
}

/// What playing a move on a position gives: the notation of the position
/// after the move, or nothing where the rules engine refuses the notation or
/// the move.
pub uninterp spec fn played(fen: Seq<char>, m: Move) -> Option<Seq<char>>;

/// The canonical form of a position: its notation without the move counters,
/// and with the en-passant square only where a capture in passing is legal.
/// Nothing where the rules engine refuses the notation.
pub uninterp spec fn canonical_of(fen: Seq<char>) -> Option<Seq<char>>;

/// A letter of a file, `a` to `h`.
pub open spec fn is_file_char(c: char) -> bool {
    'a' <= c <= 'h'
}

/// A digit of a rank, `1` to `8`.
pub open spec fn is_rank_char(c: char) -> bool {
    '1' <= c <= '8'
}

/// A letter of a role, small or capital.
pub open spec fn is_role_char(c: char) -> bool {
    c == 'P' || c == 'p' || c == 'N' || c == 'n' || c == 'B' || c == 'b' || c == 'R' || c == 'r'
        || c == 'Q' || c == 'q' || c == 'K' || c == 'k'
}

/// Whether a text is a move in coordinate notation. Such a text has four or
/// five characters. It is `0000`, the move that is none; or a square, a
/// square, and then perhaps the letter of the role that a pawn is promoted
/// to; or the letter of a role, `@`, a square, and then perhaps one more
/// character of one byte, which is not read.
pub open spec fn uci_well_formed(text: Seq<char>) -> bool {
    &&& text.len() == 4 || text.len() == 5
    &&& {
        ||| text == seq!['0', '0', '0', '0']
        ||| {
            &&& is_file_char(text[2])
            &&& is_rank_char(text[3])
            &&& if text[1] == '@' {
                is_role_char(text[0]) && (text.len() == 5 ==> text[4] <= '\u{7f}')
            } else {
                is_file_char(text[0]) && is_rank_char(text[1]) && (text.len() == 5
                    ==> is_role_char(text[4]))
            }
        }
    }
}

/// The legal move that a text in coordinate notation stands for on a
/// position, if there is one.
pub uninterp spec fn uci_move_in(fen: Seq<char>, text: Seq<char>) -> Option<Move>;

/// A move in standard algebraic notation, as it is written on a position.
/// Nothing where the rules engine refuses the notation of the position.
pub uninterp spec fn san_of(fen: Seq<char>, m: Move) -> Option<Seq<char>>;

/// The side that is to move in a position. Nothing where the rules engine
/// refuses the notation.
pub uninterp spec fn turn_of(fen: Seq<char>) -> Option<Color>;

/// The piece that stands on a square of a position. Nothing where the
/// square is empty or not on the board, or the rules engine refuses the
/// notation.
pub uninterp spec fn piece_at_of(fen: Seq<char>, square: Square) -> Option<Piece>;

/// The legal moves of a position, in the order in which the rules engine
/// lists them. None where it refuses the notation.
pub uninterp spec fn legal_moves_of(fen: Seq<char>) -> Seq<Move>;

/// The position after one move: an illegal move leaves the position as it
/// is.
pub open spec fn step(fen: Seq<char>, m: Move) -> Seq<char> {
    match played(fen, m) {
        Some(next) => next,
        None => fen,
    }
}

/// The position after a sequence of moves, each played on what the moves
/// before it gave.
pub open spec fn replay(fen: Seq<char>, moves: Seq<Move>) -> Seq<char>
    decreases moves.len(),
{
    if moves.len() == 0 {
        fen
    } else {
        step(replay(fen, moves.drop_last()), moves.last())
    }
}

/// Replaying two sequences one after the other is replaying their
/// concatenation.
pub proof fn lemma_replay_concat(fen: Seq<char>, first: Seq<Move>, second: Seq<Move>)
    ensures
        replay(fen, first + second) == replay(replay(fen, first), second),
    decreases second.len(),
{
    if second.len() == 0 {
        assert(first + second =~= first);
    } else {
        lemma_replay_concat(fen, first, second.drop_last());
        assert((first + second).drop_last() =~= first + second.drop_last());
        assert((first + second).last() == second.last());
    }
}

/// A chess position, held as its portable notation.
#[derive(Debug)]
pub struct Position {
    fen: String,
}

impl View for Position {
    type V = Seq<char>;

    closed spec fn view(&self) -> Seq<char> {
        self.fen@
    }
}

impl Clone for Position {
    fn clone(&self) -> (r: Position)
        ensures
            r@ == self@,
    {
        Position { fen: self.fen.clone() }
    }
}

impl Position {
    /// The notation of the position in which every game starts.
    pub open spec fn initial() -> Seq<char> {
        "rnbqkbnr/pppppppp/8/8/8/8/PPPPPPPP/RNBQKBNR w KQkq - 0 1"@
    }

    /// The position in which every game starts.
    pub fn new() -> (r: Position)
        ensures
            r@ == Position::initial(),
    {
        Position { fen: start_fen() }
    }

    /// The position that a portable notation describes. A text that the
    /// rules engine does not accept is a position without legal moves.
    pub fn from_fen(fen: String) -> (r: Position)
        ensures
            r@ == fen@,
    {
        Position { fen }
    }

    /// The portable notation of the position.
    pub fn fen(&self) -> (r: &String)
        ensures
            r@ == self@,
    {
        &self.fen
    }

    /// Plays a move: the position after it, or nothing where the move is
    /// not legal.
    pub fn play(&self, m: &Move) -> (r: Option<Position>)
        ensures
            r matches Some(p) ==> played(self@, *m) == Some(p@),
            r is None ==> played(self@, *m) is None,
    {
        match play_on(self.fen.as_str(), m) {
            Some(fen) => Some(Position { fen }),
            None => None,
        }
    }

    /// Plays a move where it is legal, and keeps the position where it is
    /// not.
    pub fn play_or_stay(self, m: &Move) -> (r: Position)
        ensures
            r@ == step(self@, *m),
    {
        match self.play(m) {
            Some(next) => next,
            None => self,
        }
    }

    /// The key under which the position is looked up: see `canonical_of`.
    pub fn canonical(&self) -> (r: Option<String>)
        ensures
            r matches Some(key) ==> canonical_of(self@) == Some(key@),
            r is None ==> canonical_of(self@) is None,
    {
        canonical_key(self.fen.as_str())
    }

    /// The legal move that a text in coordinate notation stands for here.
    pub fn uci_to_move(&self, text: &str) -> (r: Option<Move>)
        ensures
            r == uci_move_in(self@, text@),
    {
        uci_move_on(self.fen.as_str(), text)
    }

    /// The side that is to move.
    pub fn turn(&self) -> (r: Option<Color>)
        ensures
            r == turn_of(self@),
    {
        turn_on(self.fen.as_str())
    }

    /// The piece on a square.
    pub fn piece_at(&self, square: Square) -> (r: Option<Piece>)
        ensures
            r == piece_at_of(self@, square),
    {
        piece_on(self.fen.as_str(), square)
    }

    /// The legal moves.
    pub fn legal_moves(&self) -> (r: Vec<Move>)
        ensures
            r@ == legal_moves_of(self@),
    {
        legal_moves_on(self.fen.as_str())
    }

    /// The move in standard algebraic notation.
    pub fn san(&self, m: &Move) -> (r: Option<String>)
        ensures
            r matches Some(text) ==> san_of(self@, *m) == Some(text@),
            r is None ==> san_of(self@, *m) is None,
    {
        san_on(self.fen.as_str(), m)
    }
}

/// The error of a text that is no move in coordinate notation.
#[derive(Debug, Clone, Copy, PartialEq, Eq, Structural)]
pub struct ParseUciMoveError;

/// Tests whether a text is a move in coordinate notation.
pub fn check_uci(text: &str) -> (r: Result<(), ParseUciMoveError>)
    ensures
        r is Ok <==> uci_well_formed(text@),
{
    match parse_uci(text) {
        Ok(_) => Ok(()),
        Err(_) => Err(ParseUciMoveError),
    }
}

/// `shakmaty::Move`, carried between the rules engine and the conversions
/// below. This module has a `Move` of its own, so the engine's type has
/// another name here.
#[verifier::external_type_specification]
#[verifier::external_body]
pub struct ExMove(EngineMove);

/// `shakmaty::Role`, carried like `shakmaty::Move`.
#[verifier::external_type_specification]
#[verifier::external_body]
pub struct ExRole(EngineRole);

/// `shakmaty::Color`, carried like `shakmaty::Move`.
#[verifier::external_type_specification]
#[verifier::external_body]
pub struct ExColor(EngineColor);

/// `shakmaty::Square`, carried like `shakmaty::Move`.
#[verifier::external_type_specification]
#[verifier::external_body]
pub struct ExSquare(EngineSquare);

/// `shakmaty::Chess`: a position of standard chess as the rules engine holds
/// it. Nothing is known of what is inside.
#[verifier::external_type_specification]
#[verifier::external_body]
pub struct ExChess(shakmaty::Chess);

/// `shakmaty_uci::ParseUciMoveError`: the error of `UciMove::from_ascii`.
#[verifier::external_type_specification]
#[verifier::external_body]
pub struct ExParseUciMoveError(EngineUciError);

/// `shakmaty::Chess::new`, written out by `shakmaty::fen::Fen::from_position`
/// with `EnPassantMode::Legal`. Trusted: the text that comes back is the
/// notation of the starting position, letter for letter.
#[verifier::external_body]
fn start_fen() -> (r: String)
    ensures
        r@ == Position::initial(),
{
    shakmaty::fen::Fen::from_position(shakmaty::Chess::new(), shakmaty::EnPassantMode::Legal)
        .to_string()
}

/// `shakmaty::fen::Fen::from_ascii`, then `Fen::into_position` with
/// `CastlingMode::Standard`: the position that a notation describes, or
/// nothing where either refuses it. Nothing is claimed of the result.
#[verifier::external_body]
fn position_of(fen: &str) -> Option<shakmaty::Chess> {
    shakmaty::fen::Fen::from_ascii(fen.as_bytes()).ok()?.into_position(
        shakmaty::CastlingMode::Standard,
    ).ok()
}

/// `shakmaty::Position::play` on the position that the notation describes,
/// written back by `Fen::from_position` with `EnPassantMode::Legal`. Trusted:
/// what comes back depends on the notation and the move alone, which is what
/// `played` names. Nothing comes back where the notation is refused, a
/// square of the move is not on the board, or the move is not legal.
#[verifier::external_body]
fn play_on(fen: &str, m: &Move) -> (r: Option<String>)
    ensures
        r matches Some(next) ==> played(fen@, *m) == Some(next@),
        r is None ==> played(fen@, *m) is None,
{
    let next = shakmaty::Position::play(position_of(fen)?, &move_out(m)?).ok()?;
    Some(shakmaty::fen::Fen::from_position(next, shakmaty::EnPassantMode::Legal).to_string())
}

/// `shakmaty::fen::Epd::from_position` with `EnPassantMode::Legal`, written
/// out as text. Trusted: what comes back depends on the notation alone, which
/// is what `canonical_of` names. Nothing comes back where the notation is
/// refused.
#[verifier::external_body]
fn canonical_key(fen: &str) -> (r: Option<String>)
    ensures
        r matches Some(key) ==> canonical_of(fen@) == Some(key@),
        r is None ==> canonical_of(fen@) is None,
{
    let pos = position_of(fen)?;
    Some(shakmaty::fen::Epd::from_position(pos, shakmaty::EnPassantMode::Legal).to_string())
}

/// `shakmaty_uci::UciMove::from_ascii` on the bytes of the text, its move
/// dropped. Trusted: the text is accepted exactly where `uci_well_formed`
/// holds of its characters. The outside function reads bytes: in a text
/// that it accepts every character is one byte long, so the characters of
/// the text are its bytes.
#[verifier::external_body]
fn parse_uci(text: &str) -> (r: Result<(), EngineUciError>)
    ensures
        r is Ok <==> uci_well_formed(text@),
{
    shakmaty_uci::UciMove::from_ascii(text.as_bytes()).map(|_| ())
}

/// `shakmaty_uci::UciMove::to_move` on what `UciMove::from_ascii` reads in
/// the text. Trusted: what comes back depends on the notation and the text
/// alone, which is what `uci_move_in` names. Nothing comes back where the
/// notation or the text is refused, or the text stands for no legal move.
#[verifier::external_body]
fn uci_move_on(fen: &str, text: &str) -> (r: Option<Move>)
    ensures
        r == uci_move_in(fen@, text@),
{
    let uci = shakmaty_uci::UciMove::from_ascii(text.as_bytes()).ok()?;
    Some(move_in(&uci.to_move(&position_of(fen)?).ok()?))
}

/// `shakmaty::san::San::from_move`, written out as text. Trusted: what comes
/// back depends on the notation and the move alone, which is what `san_of`
/// names. Nothing comes back where the notation is refused or a square of
/// the move is not on the board.
#[verifier::external_body]
fn san_on(fen: &str, m: &Move) -> (r: Option<String>)
    ensures
        r matches Some(text) ==> san_of(fen@, *m) == Some(text@),
        r is None ==> san_of(fen@, *m) is None,
{
    Some(shakmaty::san::San::from_move(&position_of(fen)?, &move_out(m)?).to_string())
}

/// `shakmaty::Position::turn`. Trusted: what comes back depends on the
/// notation alone, which is what `turn_of` names. Nothing comes back where
/// the notation is refused.
#[verifier::external_body]
fn turn_on(fen: &str) -> (r: Option<Color>)
    ensures
        r == turn_of(fen@),
{
    Some(color_in(shakmaty::Position::turn(&position_of(fen)?)))
}

/// `shakmaty::Board::piece_at` on the board of the position. Trusted: what
/// comes back depends on the notation and the square alone, which is what
/// `piece_at_of` names.
#[verifier::external_body]
fn piece_on(fen: &str, square: Square) -> (r: Option<Piece>)
    ensures
        r == piece_at_of(fen@, square),
{
    let piece = shakmaty::Position::board(&position_of(fen)?).piece_at(square_out(square)?)?;
    Some(Piece { color: color_in(piece.color), role: role_in(piece.role) })
}

/// `shakmaty::Position::legal_moves`, each move converted. Trusted: the moves
/// and their order depend on the notation alone, which is what
/// `legal_moves_of` names. A notation that is refused has no moves.
#[verifier::external_body]
fn legal_moves_on(fen: &str) -> (r: Vec<Move>)
    ensures
        r@ == legal_moves_of(fen@),
{
    match position_of(fen) {
        Some(pos) => shakmaty::Position::legal_moves(&pos).iter().map(move_in).collect(),
        None => Vec::new(),
    }
}

/// The side that a `shakmaty::Color` names, variant for variant. Nothing is
/// claimed of the result.
#[verifier::external_body]
fn color_in(color: EngineColor) -> Color {
    match color {
        EngineColor::White => Color::White,
        EngineColor::Black => Color::Black,
    }
}

/// The role as a `shakmaty::Role`, variant for variant. Nothing is claimed of
/// the result.
#[verifier::external_body]
fn role_out(role: Role) -> EngineRole {
    match role {
        Role::Pawn => EngineRole::Pawn,
        Role::Knight => EngineRole::Knight,
        Role::Bishop => EngineRole::Bishop,
        Role::Rook => EngineRole::Rook,
        Role::Queen => EngineRole::Queen,
        Role::King => EngineRole::King,
    }
}

/// The role that a `shakmaty::Role` names, variant for variant. Nothing is
/// claimed of the result.
#[verifier::external_body]
fn role_in(role: EngineRole) -> Role {
    match role {
        EngineRole::Pawn => Role::Pawn,
        EngineRole::Knight => Role::Knight,
        EngineRole::Bishop => Role::Bishop,
        EngineRole::Rook => Role::Rook,
        EngineRole::Queen => Role::Queen,
        EngineRole::King => Role::King,
    }
}

/// `shakmaty::Square::try_from` on the number of the square: nothing for a
/// number that is not on the board. Nothing is claimed of the result.
#[verifier::external_body]
fn square_out(square: Square) -> Option<EngineSquare> {
    EngineSquare::try_from(square.index).ok()
}

/// `u8::from` on a `shakmaty::Square`: the square with the same number.
/// Nothing is claimed of the result.
#[verifier::external_body]
fn square_in(square: EngineSquare) -> Square {
    Square { index: u8::from(square) }
}

/// The move as a `shakmaty::Move`, variant for variant and field for field;
/// nothing where one of its squares is not on the board. Nothing is claimed
/// of the result.
#[verifier::external_body]
fn move_out(m: &Move) -> Option<EngineMove> {
    Some(match *m {
        Move::Normal { role, from, capture, to, promotion } => EngineMove::Normal {
            role: role_out(role),
            from: square_out(from)?,
            capture: capture.map(role_out),
            to: square_out(to)?,
            promotion: promotion.map(role_out),
        },
        Move::EnPassant { from, to } => EngineMove::EnPassant { from: square_out(from)?, to: square_out(to)? },
        Move::Castle { king, rook } => EngineMove::Castle { king: square_out(king)?, rook: square_out(rook)? },
        Move::Put { role, to } => EngineMove::Put { role: role_out(role), to: square_out(to)? },
    })
}

/// The move that a `shakmaty::Move` holds, variant for variant and field for
/// field. Nothing is claimed of the result.
#[verifier::external_body]
fn move_in(m: &EngineMove) -> Move {
    match *m {
        EngineMove::Normal { role, from, capture, to, promotion } => Move::Normal {
            role: role_in(role),
            from: square_in(from),
            capture: capture.map(role_in),
            to: square_in(to),
            promotion: promotion.map(role_in),
        },
        EngineMove::EnPassant { from, to } => Move::EnPassant { from: square_in(from), to: square_in(to) },
        EngineMove::Castle { king, rook } => Move::Castle { king: square_in(king), rook: square_in(rook) },
        EngineMove::Put { role, to } => Move::Put { role: role_in(role), to: square_in(to) },
    }
}

} // verus!
