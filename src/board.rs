use vstd::prelude::*;

use crate::code::{code_text, Code};
use crate::color::Color;
use crate::score::{score_of, score_text, winning, Score};
use crate::text::{push_char, push_str};

verus! {

/// One guess with the score it got.
#[derive(Clone, Copy, Debug)]
pub struct Round {
    pub input_code: Code,
    pub score: Score,
}

/// The line a round is shown as: the guess, a dash, the score.
pub open spec fn round_text(r: Round) -> Seq<char> {
    code_text(r.input_code@) + seq![' ', '-', ' '] + score_text(r.score@)
}

/// The text of a history: each round on a line of its own.
pub open spec fn history_text(rounds: Seq<Round>) -> Seq<char>
    decreases rounds.len(),
{
    if rounds.len() == 0 {
        Seq::empty()
    } else {
        history_text(rounds.drop_last()) + round_text(rounds.last()) + seq!['\n']
    }
}

impl Round {
    /// Whether this round's score wins.
    pub fn wins(&self) -> (r: bool)
        ensures
            r == winning(self.score@),
    {
        self.score.wins()
    }

    /// The guess, ` - `, then the score.
    pub fn to_text(&self) -> (r: String)
        ensures
            r@ == round_text(*self),
    {
        let mut r = self.input_code.to_text();
        push_char(&mut r, ' ');
        push_char(&mut r, '-');
        push_char(&mut r, ' ');
        let s = self.score.to_text();
        push_str(&mut r, s.as_str());
        assert(r@ =~= round_text(*self));
        r
    }
}

/// Where a game stands.
#[derive(Clone, Copy, Debug, PartialEq, Eq, Structural)]
pub enum GameState {
    /// No round has won yet.
    InProgress,
    /// The last round won; no more guesses are taken.
    Won,
}

/// A game: the hidden code and the rounds played so far.
pub struct Board {
    hidden_code: Code,
    rounds: Vec<Round>,
    state: GameState,
}

/// `after` is `before` with one more round, for `guess`, scored against the
/// hidden code; the game is won exactly when that round wins.
pub open spec fn submitted(before: Board, guess: Code, after: Board) -> bool {
    let h = after.history();
    &&& after.hidden() == before.hidden()
    &&& h.len() == before.history().len() + 1
    &&& h.drop_last() == before.history()
    &&& h.last().input_code == guess
    &&& h.last().score@ == score_of(before.hidden(), guess@)
    &&& after.state() == (if winning(h.last().score@) {
        GameState::Won
    } else {
        GameState::InProgress
    })
}

/// After `j` submissions from an empty history, the history holds `j`
/// rounds, and round `k` is the one that submission `k` added.
proof fn lemma_rounds_kept(boards: Seq<Board>, guesses: Seq<Code>, j: int)
    requires
        boards.len() == guesses.len() + 1,
        boards[0].history().len() == 0,
        forall|k: int|
            0 <= k < guesses.len() ==> submitted(#[trigger] boards[k], guesses[k], boards[k + 1]),
        0 <= j < boards.len(),
    ensures
        boards[j].history().len() == j,
        forall|k: int|
            0 <= k < j ==> (#[trigger] boards[j].history()[k]) == boards[k + 1].history().last(),
    decreases j,
{
    if j > 0 {
        lemma_rounds_kept(boards, guesses, j - 1);
        assert(submitted(boards[j - 1], guesses[j - 1], boards[j]));
        let h = boards[j].history();
        assert forall|k: int| 0 <= k < j implies (#[trigger] h[k]) == boards[k
            + 1].history().last() by {
            if k < j - 1 {
                assert(h[k] == h.drop_last()[k]);
            }
        }
    }
}

/// A game played from no rounds through `guesses`, where every submission
/// but the last leaves it in progress and the last wins it, has one round per
/// guess in the order submitted, and only the last round wins.
pub proof fn lemma_history_integrity(boards: Seq<Board>, guesses: Seq<Code>)
    requires
        guesses.len() >= 1,
        boards.len() == guesses.len() + 1,
        boards[0].history().len() == 0,
        forall|k: int|
            0 <= k < guesses.len() ==> submitted(#[trigger] boards[k], guesses[k], boards[k + 1]),
        forall|k: int|
            1 <= k < guesses.len() ==> (#[trigger] boards[k]).state() == GameState::InProgress,
        boards.last().state() == GameState::Won,
    ensures
        boards.last().history().len() == guesses.len(),
        forall|k: int|
            0 <= k < guesses.len() ==> (#[trigger] boards.last().history()[k]).input_code
                == guesses[k],
        forall|k: int|
            0 <= k < guesses.len() - 1 ==> !winning(
                (#[trigger] boards.last().history()[k]).score@,
            ),
        winning(boards.last().history().last().score@),
{
    let n = guesses.len() as int;
    lemma_rounds_kept(boards, guesses, n);
    let h = boards.last().history();
    assert forall|k: int| 0 <= k < n implies (#[trigger] h[k]).input_code == guesses[k] by {
        assert(submitted(boards[k], guesses[k], boards[k + 1]));
    }
    assert forall|k: int| 0 <= k < n - 1 implies !winning((#[trigger] h[k]).score@) by {
        assert(submitted(boards[k], guesses[k], boards[k + 1]));
        assert(boards[k + 1].state() == GameState::InProgress);
    }
    assert(submitted(boards[n - 1], guesses[n - 1], boards[n]));
}

impl Board {
    /// The hidden code.
    pub closed spec fn hidden(&self) -> Seq<Color> {
        self.hidden_code@
    }

    /// The rounds in the order they were played.
    pub closed spec fn history(&self) -> Seq<Round> {
        self.rounds@
    }

    /// Where the game stands.
    pub closed spec fn state(&self) -> GameState {
        self.state
    }

    /// Each round is scored against the hidden code, no round but the last
    /// wins, and the game is won exactly when the last round wins.
    pub closed spec fn wf(&self) -> bool {
        &&& self.hidden_code.wf()
        &&& forall|i: int|
            0 <= i < self.rounds@.len() ==> (#[trigger] self.rounds@[i]).score@ == score_of(
                self.hidden_code@,
                self.rounds@[i].input_code@,
            )
        &&& forall|i: int|
            0 <= i < self.rounds@.len() - 1 ==> !winning((#[trigger] self.rounds@[i]).score@)
        &&& (self.state == GameState::Won <==> (self.rounds@.len() > 0 && winning(
            self.rounds@.last().score@,
        )))
    }

    /// A new game on `hidden_code`, with no rounds.
    pub fn new(hidden_code: Code) -> (r: Board)
        requires
            hidden_code.wf(),
        ensures
            r.wf(),
            r.hidden() == hidden_code@,
            r.history() == Seq::<Round>::empty(),
            r.state() == GameState::InProgress,
    {
        Board { hidden_code, rounds: Vec::new(), state: GameState::InProgress }
    }

    /// Scores `guess` against the hidden code, records the round, and
    /// returns the score with whether it wins.
    pub fn submit(&mut self, guess: Code) -> (r: (Score, bool))
        requires
            old(self).wf(),
            old(self).state() == GameState::InProgress,
        ensures
            final(self).wf(),
            submitted(*old(self), guess, *final(self)),
            r.0@ == score_of(old(self).hidden(), guess@),
            r.1 == winning(r.0@),
            final(self).history().last().score == r.0,
    {
        let score = self.hidden_code.score(guess);
        self.rounds.push(Round { input_code: guess, score });
        let won = self.rounds[self.rounds.len() - 1].wins();
        if won {
            self.state = GameState::Won;
        }
        assert(self.rounds@.drop_last() =~= old(self).rounds@);
        (score, won)
    }

    /// Whether the game is won.
    pub fn is_won(&self) -> (r: bool)
        ensures
            r == (self.state() == GameState::Won),
    {
        self.state == GameState::Won
    }

    /// The hidden code.
    pub fn hidden_code(&self) -> (r: &Code)
        ensures
            r@ == self.hidden(),
    {
        &self.hidden_code
    }

    /// The rounds in the order they were played.
    pub fn rounds(&self) -> (r: &Vec<Round>)
        ensures
            r@ == self.history(),
    {
        &self.rounds
    }

    /// The history, one line per round.
    pub fn to_text(&self) -> (r: String)
        ensures
            r@ == history_text(self.history()),
    {
        let mut r = String::new();
        let mut i: usize = 0;
        while i < self.rounds.len()
            invariant
                i <= self.rounds@.len(),
                r@ == history_text(self.rounds@.take(i as int)),
            decreases self.rounds@.len() - i,
        {
            let line = self.rounds[i].to_text();
            push_str(&mut r, line.as_str());
            push_char(&mut r, '\n');
            assert(self.rounds@.take(i + 1).drop_last() =~= self.rounds@.take(i as int));
            i += 1;
        }
        assert(self.rounds@.take(i as int) =~= self.rounds@);
        r
    }
}

} // verus!
