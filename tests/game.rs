use mastermind::board::{Board, GameState};
use mastermind::code::{Code, ParseError};
use mastermind::color::{Color, ColorSet};
use mastermind::score::{Key, Score};

fn code(s: &str) -> Code {
    match Code::try_from(String::from(s)) {
        Ok(c) => c,
        Err(e) => panic!("{:?} does not parse: {:?}", s, e),
    }
}

fn parse_err(s: &str) -> ParseError {
    match Code::try_from(String::from(s)) {
        Ok(c) => panic!("{:?} parsed as {:?}", s, c.positional()),
        Err(e) => e,
    }
}

use Color::{Blue, Green, Purple, Red};
use Key::{ColorAndPositionCorrect as B, ColorCorrect as W, Empty as E};

#[test]
fn parses_bare_token() {
    assert_eq!(code("rgbp").positional(), [Red, Green, Blue, Purple]);
}

#[test]
fn parses_decorated_token() {
    assert_eq!(code("(r,g,b,p)").positional(), [Red, Green, Blue, Purple]);
}

#[test]
fn parses_line_with_newline_and_spaces() {
    assert_eq!(code("p b g r\n").positional(), [Purple, Blue, Green, Red]);
}

#[test]
fn drops_unknown_characters() {
    assert_eq!(code("xrRy-gZZb!!p").positional(), [Red, Green, Blue, Purple]);
}

#[test]
fn repeated_symbols_parse() {
    assert_eq!(code("rrrr").positional(), [Red, Red, Red, Red]);
}

#[test]
fn empty_text_has_too_few_symbols() {
    assert_eq!(parse_err(""), ParseError::TooFewSymbols);
}

#[test]
fn three_symbols_are_too_few() {
    assert_eq!(parse_err("(r,g,b)"), ParseError::TooFewSymbols);
    assert_eq!(parse_err("rgbxyz"), ParseError::TooFewSymbols);
}

#[test]
fn five_symbols_are_too_many() {
    assert_eq!(parse_err("rgbpr"), ParseError::TooManySymbols);
    assert_eq!(parse_err("(r,g,b,p,p,p)"), ParseError::TooManySymbols);
}

#[test]
fn canonical_text_reads_back() {
    for s in ["rgbp", "pppp", "bgrr", "(g,p,g,b)"] {
        let c = code(s);
        let text = c.to_text();
        let back = code(&text);
        assert_eq!(back.positional(), c.positional());
    }
}

#[test]
fn canonical_text_is_space_separated() {
    assert_eq!(code("(r,g,b,p)").to_text(), "r g b p");
    assert_eq!(code("pgbr").to_text(), "p g b r");
}

#[test]
fn color_characters() {
    assert_eq!(Red.to_char(), 'r');
    assert_eq!(Green.to_char(), 'g');
    assert_eq!(Blue.to_char(), 'b');
    assert_eq!(Purple.to_char(), 'p');
    assert_eq!(Color::from_char('g'), Some(Green));
    assert_eq!(Color::from_char('R'), None);
    assert_eq!(Color::from_char(','), None);
}

#[test]
fn color_set_membership() {
    let mut s = ColorSet::empty();
    assert!(!s.contains(Red));
    s.insert(Red);
    s.insert(Blue);
    assert!(s.contains(Red));
    assert!(s.contains(Blue));
    assert!(!s.contains(Green));
    assert!(!s.contains(Purple));
}

#[test]
fn code_against_itself_wins() {
    for s in ["rgbp", "rrrr", "pbbp", "gggb"] {
        let c = code(s);
        let score = c.score(c);
        assert_eq!(score, Score(B, B, B, B));
        assert!(score.wins());
    }
}

#[test]
fn repeated_guess_symbol_is_not_limited() {
    let score = code("rgbp").score(code("rrrr"));
    assert_eq!(score, Score(B, W, W, W));
    assert!(!score.wins());
}

#[test]
fn symbol_outside_hidden_is_absent() {
    let score = code("rrgg").score(code("brgp"));
    assert_eq!(score, Score(E, B, B, E));
}

#[test]
fn all_absent() {
    let score = code("rrrr").score(code("gbpg"));
    assert_eq!(score, Score(E, E, E, E));
}

#[test]
fn present_elsewhere_everywhere() {
    let score = code("rgbp").score(code("prgb"));
    assert_eq!(score, Score(W, W, W, W));
}

#[test]
fn key_and_score_text() {
    assert_eq!(B.to_char(), 'b');
    assert_eq!(W.to_char(), 'w');
    assert_eq!(E.to_char(), ' ');
    assert_eq!(Score(B, W, E, B).to_text(), "b w   b");
}

#[test]
fn end_to_end_game() {
    let mut board = Board::new(code("rgbp"));
    assert!(!board.is_won());
    let (score, won) = board.submit(code("pppp"));
    assert_eq!(score, Score(W, W, W, B));
    assert!(!won);
    assert!(!board.is_won());
    let (score, won) = board.submit(code("rgbp"));
    assert_eq!(score, Score(B, B, B, B));
    assert!(won);
    assert!(board.is_won());
    assert_eq!(board.rounds().len(), 2);
    assert_eq!(board.rounds()[0].input_code.positional(), [Purple, Purple, Purple, Purple]);
    assert_eq!(board.rounds()[1].input_code.positional(), [Red, Green, Blue, Purple]);
    assert_eq!(board.hidden_code().positional(), [Red, Green, Blue, Purple]);
}

#[test]
fn history_keeps_every_round_in_order() {
    let mut board = Board::new(code("bgrp"));
    let guesses = ["rrrr", "gbrp", "(p,p,g,g)", "bgrp"];
    for (i, g) in guesses.iter().enumerate() {
        let (_, won) = board.submit(code(g));
        assert_eq!(won, i == guesses.len() - 1);
    }
    let rounds = board.rounds();
    assert_eq!(rounds.len(), guesses.len());
    for (i, g) in guesses.iter().enumerate() {
        assert_eq!(rounds[i].input_code.positional(), code(g).positional());
        assert_eq!(rounds[i].wins(), i == guesses.len() - 1);
    }
    assert!(board.is_won());
}

#[test]
fn round_and_board_text() {
    let mut board = Board::new(code("rgbp"));
    assert_eq!(board.to_text(), "");
    board.submit(code("pppp"));
    assert_eq!(board.rounds()[0].to_text(), "p p p p - w w w b");
    board.submit(code("rgpg"));
    assert_eq!(board.to_text(), "p p p p - w w w b\nr g p g - b b w w\n");
}

#[test]
fn game_state_values() {
    assert_ne!(GameState::InProgress, GameState::Won);
}
