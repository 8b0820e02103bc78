use chess_diagram::chess::{check_uci, Color, File, Move, ParseUciMoveError, Position, Rank, Role, Square};

const START: &str = "rnbqkbnr/pppppppp/8/8/8/8/PPPPPPPP/RNBQKBNR w KQkq - 0 1";

fn square(file: File, rank: Rank) -> Square {
    Square::from_coords(file, rank)
}

fn normal(role: Role, from: Square, to: Square) -> Move {
    Move::Normal { role, from, capture: None, to, promotion: None }
}

fn play_all(ucis: &[&str]) -> Position {
    let mut position = Position::new();
    for uci in ucis {
        let m = position.uci_to_move(uci).unwrap();
        position = position.play(&m).unwrap();
    }
    position
}

#[test]
fn the_starting_position_is_the_one_of_the_rules_engine() {
    assert_eq!(Position::new().fen().as_str(), START);
    let fen = shakmaty::fen::Fen::from_position(shakmaty::Chess::new(), shakmaty::EnPassantMode::Legal);
    assert_eq!(Position::new().fen(), &fen.to_string());
}

#[test]
fn squares_are_numbered_file_first() {
    assert_eq!(square(File::A, Rank::First).index, 0);
    assert_eq!(square(File::B, Rank::First).index, 1);
    assert_eq!(square(File::E, Rank::Second).index, 12);
    assert_eq!(square(File::H, Rank::Eighth).index, 63);
    assert_eq!(Square::new(12), Some(square(File::E, Rank::Second)));
    assert_eq!(Square::new(63), Some(square(File::H, Rank::Eighth)));
    assert_eq!(Square::new(64), None);
    for index in 0..64u8 {
        let s = Square::new(index).unwrap();
        assert_eq!(Square::from_coords(s.file(), s.rank()), s);
        assert_eq!(u8::from(shakmaty::Square::new(u32::from(index))), s.index);
        assert_eq!(shakmaty::Square::new(u32::from(index)).file().char(), (b'a' + s.file().to_u8()) as char);
        assert_eq!(shakmaty::Square::new(u32::from(index)).rank().char(), (b'1' + s.rank().to_u8()) as char);
    }
}

#[test]
fn files_and_ranks_have_numbers() {
    assert_eq!(File::A.to_u8(), 0);
    assert_eq!(File::H.to_u8(), 7);
    assert_eq!(Rank::First.to_u8(), 0);
    assert_eq!(Rank::Eighth.to_u8(), 7);
    assert_eq!(File::from_u8(4), Some(File::E));
    assert_eq!(File::from_u8(8), None);
    assert_eq!(Rank::from_u8(1), Some(Rank::Second));
    assert_eq!(Rank::from_u8(8), None);
    for n in 0..8u8 {
        assert_eq!(File::from_u8(n).unwrap().to_u8(), n);
        assert_eq!(Rank::from_u8(n).unwrap().to_u8(), n);
    }
}

#[test]
fn a_legal_move_gives_the_next_position() {
    let e2e4 = normal(Role::Pawn, square(File::E, Rank::Second), square(File::E, Rank::Fourth));
    let next = Position::new().play(&e2e4).unwrap();
    assert_eq!(next.fen().as_str(), "rnbqkbnr/pppppppp/8/8/4P3/8/PPPP1PPP/RNBQKBNR b KQkq - 0 1");
    let g8f6 = normal(Role::Knight, square(File::G, Rank::Eighth), square(File::F, Rank::Sixth));
    let next = next.play(&g8f6).unwrap();
    assert_eq!(next.fen().as_str(), "rnbqkb1r/pppppppp/5n2/8/4P3/8/PPPP1PPP/RNBQKBNR w KQkq - 1 2");
}

#[test]
fn an_illegal_move_gives_nothing() {
    let e2e5 = normal(Role::Pawn, square(File::E, Rank::Second), square(File::E, Rank::Fifth));
    assert!(Position::new().play(&e2e5).is_none());
    let wrong_role = normal(Role::Knight, square(File::E, Rank::Second), square(File::E, Rank::Fourth));
    assert!(Position::new().play(&wrong_role).is_none());
    let off_board = normal(Role::Pawn, Square { index: 200 }, square(File::E, Rank::Fourth));
    assert!(Position::new().play(&off_board).is_none());
    assert_eq!(Position::new().play_or_stay(&e2e5).fen().as_str(), START);
}

#[test]
fn a_text_that_is_no_position_has_no_moves() {
    let e2e4 = normal(Role::Pawn, square(File::E, Rank::Second), square(File::E, Rank::Fourth));
    let position = Position::from_fen(String::from("not a position"));
    assert_eq!(position.fen().as_str(), "not a position");
    assert!(position.play(&e2e4).is_none());
    assert!(position.canonical().is_none());
    assert!(position.uci_to_move("e2e4").is_none());
    assert!(position.san(&e2e4).is_none());
    let no_kings = Position::from_fen(String::from("8/8/8/8/8/8/8/8 w - - 0 1"));
    assert!(no_kings.play(&e2e4).is_none());
    assert!(no_kings.canonical().is_none());
}

#[test]
fn captures_promotions_and_en_passant_go_through() {
    let position = play_all(&["e2e4", "d7d5", "e4d5", "c7c5"]);
    let m = position.uci_to_move("d5c6").unwrap();
    assert_eq!(m, Move::EnPassant { from: square(File::D, Rank::Fifth), to: square(File::C, Rank::Sixth) });
    let position = position.play(&m).unwrap();
    assert_eq!(position.fen().as_str(), "rnbqkbnr/pp2pppp/2P5/8/8/8/PPPP1PPP/RNBQKBNR b KQkq - 0 3");
    let position = play_all(&["e2e4", "d7d5", "e4d5", "c7c5", "d5c6", "g8f6", "c6b7", "f6d5"]);
    let m = position.uci_to_move("b7a8q").unwrap();
    assert_eq!(
        m,
        Move::Normal {
            role: Role::Pawn,
            from: square(File::B, Rank::Seventh),
            capture: Some(Role::Rook),
            to: square(File::A, Rank::Eighth),
            promotion: Some(Role::Queen),
        }
    );
    assert_eq!(m.promotion(), Some(Role::Queen));
    assert_eq!(position.san(&m).unwrap(), "bxa8=Q");
    let position = position.play(&m).unwrap();
    assert_eq!(position.fen().as_str(), "Qnbqkb1r/p3pppp/8/3n4/8/8/PPPP1PPP/RNBQKBNR b KQk - 0 5");
}

#[test]
fn castling_is_a_move_of_king_and_rook() {
    let position = play_all(&["e2e4", "e7e5", "g1f3", "b8c6", "f1c4", "f8c5"]);
    let castle = Move::Castle { king: square(File::E, Rank::First), rook: square(File::H, Rank::First) };
    assert_eq!(position.uci_to_move("e1g1"), Some(castle));
    assert_eq!(position.uci_to_move("e1h1"), Some(castle));
    assert_eq!(position.san(&castle).unwrap(), "O-O");
    assert_eq!(castle.from(), Some(square(File::E, Rank::First)));
    assert_eq!(castle.to(), square(File::H, Rank::First));
    assert_eq!(castle.promotion(), None);
    let next = position.play(&castle).unwrap();
    assert_eq!(next.fen().as_str(), "r1bqk1nr/pppp1ppp/2n5/2b1p3/2B1P3/5N2/PPPP1PPP/RNBQ1RK1 b kq - 5 4");
}

#[test]
fn a_drop_has_no_origin() {
    let drop = Move::Put { role: Role::Queen, to: square(File::D, Rank::Fourth) };
    assert_eq!(drop.from(), None);
    assert_eq!(drop.to(), square(File::D, Rank::Fourth));
    assert_eq!(drop.promotion(), None);
    assert!(Position::new().play(&drop).is_none());
}

#[test]
fn the_canonical_key_ignores_the_move_counters() {
    assert_eq!(Position::new().canonical().unwrap(), "rnbqkbnr/pppppppp/8/8/8/8/PPPPPPPP/RNBQKBNR w KQkq -");
    let direct = play_all(&["g1f3", "g8f6"]);
    let detour = play_all(&["g1f3", "g8f6", "f3g1", "f6g8", "g1f3", "g8f6"]);
    assert_ne!(direct.fen(), detour.fen());
    assert_eq!(direct.canonical(), detour.canonical());
    assert_eq!(direct.canonical().unwrap(), "rnbqkb1r/pppppppp/5n2/8/8/5N2/PPPPPPPP/RNBQKB1R w KQkq -");
}

#[test]
fn the_canonical_key_keeps_turn_castling_and_en_passant() {
    let white_to_move = play_all(&["g1f3", "g8f6", "f3g1", "f6g8"]);
    assert_eq!(white_to_move.canonical(), Position::new().canonical());
    let black_to_move = play_all(&["g1f3", "g8f6", "f3g1"]);
    assert_ne!(black_to_move.canonical(), play_all(&["g1f3"]).canonical());
    let rook_moved = play_all(&["h2h4", "h7h5", "h1h2", "h8h7", "h2h1", "h7h8"]);
    let rook_at_home = play_all(&["h2h4", "h7h5"]);
    assert_eq!(rook_moved.canonical().unwrap(), "rnbqkbnr/ppppppp1/8/7p/7P/8/PPPPPPP1/RNBQKBNR w Qq -");
    assert_eq!(rook_at_home.canonical().unwrap(), "rnbqkbnr/ppppppp1/8/7p/7P/8/PPPPPPP1/RNBQKBNR w KQkq -");
    let with_en_passant = play_all(&["e2e4", "a7a6", "e4e5", "d7d5"]);
    assert_eq!(with_en_passant.canonical().unwrap(), "rnbqkbnr/1pp1pppp/p7/3pP3/8/8/PPPP1PPP/RNBQKBNR w KQkq d6");
    let without = play_all(&["e2e4", "d7d5", "e4e5", "a7a6"]);
    assert_eq!(without.canonical().unwrap(), "rnbqkbnr/1pp1pppp/p7/3pP3/8/8/PPPP1PPP/RNBQKBNR w KQkq -");
}

#[test]
fn coordinate_notation_is_checked() {
    assert_eq!(check_uci("e2e4"), Ok(()));
    assert_eq!(check_uci("e7e8q"), Ok(()));
    assert_eq!(check_uci("0000"), Ok(()));
    assert_eq!(check_uci("Q@d4"), Ok(()));
    assert_eq!(check_uci(""), Err(ParseUciMoveError));
    assert_eq!(check_uci("e2"), Err(ParseUciMoveError));
    assert_eq!(check_uci("e2e9"), Err(ParseUciMoveError));
    assert_eq!(check_uci("e2e4qq"), Err(ParseUciMoveError));
    assert_eq!(check_uci("e7e8x"), Err(ParseUciMoveError));
}

#[test]
fn coordinate_notation_stands_for_legal_moves_only() {
    let start = Position::new();
    assert_eq!(
        start.uci_to_move("e2e4"),
        Some(normal(Role::Pawn, square(File::E, Rank::Second), square(File::E, Rank::Fourth)))
    );
    assert_eq!(
        start.uci_to_move("g1f3"),
        Some(normal(Role::Knight, square(File::G, Rank::First), square(File::F, Rank::Third)))
    );
    assert_eq!(start.uci_to_move("e2e5"), None);
    assert_eq!(start.uci_to_move("e7e5"), None);
    assert_eq!(start.uci_to_move("0000"), None);
    assert_eq!(start.uci_to_move("nonsense"), None);
    let position = play_all(&["e2e4", "d7d5"]);
    assert_eq!(
        position.uci_to_move("e4d5"),
        Some(Move::Normal {
            role: Role::Pawn,
            from: square(File::E, Rank::Fourth),
            capture: Some(Role::Pawn),
            to: square(File::D, Rank::Fifth),
            promotion: None,
        })
    );
}

#[test]
fn standard_notation_is_written_on_the_position() {
    let start = Position::new();
    let e2e4 = start.uci_to_move("e2e4").unwrap();
    assert_eq!(start.san(&e2e4).unwrap(), "e4");
    let g1f3 = start.uci_to_move("g1f3").unwrap();
    assert_eq!(start.san(&g1f3).unwrap(), "Nf3");
    let position = play_all(&["g1f3", "a7a6", "f3d4", "a6a5", "b1c3", "a5a4"]);
    let m = position.uci_to_move("c3b5").unwrap();
    assert_eq!(position.san(&m).unwrap(), "Ncb5");
    let m = position.uci_to_move("d4b5").unwrap();
    assert_eq!(position.san(&m).unwrap(), "Ndb5");
}

#[test]
fn positions_are_copied() {
    let position = play_all(&["e2e4"]);
    let copy = position.clone();
    assert_eq!(copy.fen(), position.fen());
}

#[test]
fn colors_and_roles_compare() {
    assert_ne!(Color::White, Color::Black);
    assert_eq!(Role::Queen, Role::Queen);
    assert_ne!(Role::Queen, Role::King);
}

fn reference_is_file(c: char) -> bool {
    ('a'..='h').contains(&c)
}

fn reference_is_rank(c: char) -> bool {
    ('1'..='8').contains(&c)
}

fn reference_is_role(c: char) -> bool {
    "PpNnBbRrQqKk".contains(c)
}

fn reference_well_formed(text: &[char]) -> bool {
    if text.len() != 4 && text.len() != 5 {
        return false;
    }
    if text == ['0', '0', '0', '0'] {
        return true;
    }
    if !reference_is_file(text[2]) || !reference_is_rank(text[3]) {
        return false;
    }
    if text[1] == '@' {
        reference_is_role(text[0]) && (text.len() == 4 || text[4] <= '\u{7f}')
    } else {
        reference_is_file(text[0])
            && reference_is_rank(text[1])
            && (text.len() == 4 || reference_is_role(text[4]))
    }
}

fn all_texts(alphabet: &[char], length: usize) -> Vec<Vec<char>> {
    let mut texts: Vec<Vec<char>> = vec![Vec::new()];
    for _ in 0..length {
        let mut longer = Vec::new();
        for text in texts.iter() {
            for c in alphabet {
                let mut next = text.clone();
                next.push(*c);
                longer.push(next);
            }
        }
        texts = longer;
    }
    texts
}

#[test]
fn coordinate_notation_is_what_the_grammar_says() {
    let alphabet = ['a', 'h', 'i', '`', '1', '8', '9', '0', '@', 'q', 'K', 'x', 'é', ' '];
    let mut accepted = 0;
    for length in 0..=5 {
        for text in all_texts(&alphabet, length) {
            let string: String = text.iter().collect();
            let expected = reference_well_formed(&text);
            assert_eq!(check_uci(&string).is_ok(), expected, "{string:?}");
            if expected {
                accepted += 1;
            }
        }
    }
    assert_eq!(accepted, 1 + 16 + 16 * 2 + 8 + 8 * 13);
    for text in all_texts(&['e', '2', '4', 'q', '0', '日'], 6) {
        let string: String = text.iter().collect();
        assert!(check_uci(&string).is_err());
    }
}

#[test]
fn coordinate_notation_in_single_cases() {
    for good in ["a1h8", "h8a1", "e7e8q", "e7e8N", "e2e4k", "0000", "P@e4", "k@a1", "Q@d4x", "Q@d4 "] {
        assert_eq!(check_uci(good), Ok(()), "{good}");
    }
    for bad in [
        "", "e2", "e2e", "e2e4qq", "00000", "000", "i1a1", "a9a1", "a1i1", "a1a9", "a0a1", "E2E4", "e7e8x", "e7e8@",
        "X@e4", "Q@e9", "Q@d4é", "é2e4", "e2é4", "@@e4", "e2e4\n",
    ] {
        assert_eq!(check_uci(bad), Err(ParseUciMoveError), "{bad:?}");
    }
}
