use vstd::prelude::*;

use crate::color::Color;
use crate::text::push_char;

verus! {

/// The feedback for one position of a guess.
#[derive(Clone, Copy, Debug, PartialEq, Eq, Structural)]
pub enum Key {
    /// The guessed symbol occurs somewhere in the hidden code, but not here.
    ColorCorrect,
    /// The guessed symbol is the hidden symbol at this position.
    ColorAndPositionCorrect,
    /// The guessed symbol does not occur in the hidden code.
    Empty,
}

/// The key for position `i` of `guess` against `hidden`: an exact match
/// first, else whether the symbol occurs anywhere in `hidden`.
pub open spec fn key_of(hidden: Seq<Color>, guess: Seq<Color>, i: int) -> Key {
    if guess[i] == hidden[i] {
        Key::ColorAndPositionCorrect
    } else if hidden.contains(guess[i]) {
        Key::ColorCorrect
    } else {
        Key::Empty
    }
}

/// The four keys for `guess` against `hidden`, in position order.
pub open spec fn score_of(hidden: Seq<Color>, guess: Seq<Color>) -> Seq<Key> {
    Seq::new(4, |i: int| key_of(hidden, guess, i))
}

/// A score wins when each of its four keys is an exact match.
pub open spec fn winning(keys: Seq<Key>) -> bool {
    &&& keys.len() == 4
    &&& forall|i: int| 0 <= i < 4 ==> keys[i] == Key::ColorAndPositionCorrect
}

/// The text of a score: its four key characters separated by spaces.
pub open spec fn score_text(k: Seq<Key>) -> Seq<char> {
    seq![key_char(k[0]), ' ', key_char(k[1]), ' ', key_char(k[2]), ' ', key_char(k[3])]
}

/// The character a key is shown as.
pub open spec fn key_char(k: Key) -> char {
    match k {
        Key::ColorCorrect => 'w',
        Key::ColorAndPositionCorrect => 'b',
        Key::Empty => ' ',
    }
}

impl Key {
    /// The single character this key is shown as.
    pub fn to_char(&self) -> (r: char)
        ensures
            r == key_char(*self),
    {
        match self {
            Key::ColorCorrect => 'w',
            Key::ColorAndPositionCorrect => 'b',
            Key::Empty => ' ',
        }
    }
}

/// The keys for the four positions of a guess.
#[derive(Clone, Copy, Debug, PartialEq, Eq, Structural)]
pub struct Score(pub Key, pub Key, pub Key, pub Key);

impl View for Score {
    type V = Seq<Key>;

    open spec fn view(&self) -> Seq<Key> {
        seq![self.0, self.1, self.2, self.3]
    }
}

impl Score {
    /// Whether all four keys are exact matches.
    pub fn wins(&self) -> (r: bool)
        ensures
            r == winning(self@),
    {
        match self {
            Score(
                Key::ColorAndPositionCorrect,
                Key::ColorAndPositionCorrect,
                Key::ColorAndPositionCorrect,
                Key::ColorAndPositionCorrect,
            ) => true,
            _ => false,
        }
    }

    /// The four key characters separated by spaces.
    pub fn to_text(&self) -> (r: String)
        ensures
            r@ == score_text(self@),
    {
        let mut r = String::new();
        push_char(&mut r, self.0.to_char());
        push_char(&mut r, ' ');
        push_char(&mut r, self.1.to_char());
        push_char(&mut r, ' ');
        push_char(&mut r, self.2.to_char());
        push_char(&mut r, ' ');
        push_char(&mut r, self.3.to_char());
        assert(r@ =~= score_text(self@));
        r
    }
}

/// Scoring a code against itself gives a winning score.
pub proof fn lemma_exact_match_wins(hidden: Seq<Color>)
    requires
        hidden.len() == 4,
    ensures
        winning(score_of(hidden, hidden)),
{
}

/// A position whose guessed symbol occurs nowhere in the hidden code is
/// marked absent.
pub proof fn lemma_absent_symbol(hidden: Seq<Color>, guess: Seq<Color>, i: int)
    requires
        hidden.len() == 4,
        guess.len() == 4,
        0 <= i < 4,
        !hidden.contains(guess[i]),
    ensures
        score_of(hidden, guess)[i] == Key::Empty,
{
    assert(hidden[i] != guess[i]) by {
        if hidden[i] == guess[i] {
            assert(hidden.contains(guess[i]));
        }
    }
}

} // verus!
