use vstd::prelude::*;

use crate::color::{char_of, color_of, Color, ColorSet};
use crate::score::{key_of, score_of, Key, Score};
use crate::text::push_char;

verus! {

/// Why a text is no code.
#[derive(Clone, Copy, Debug, PartialEq, Eq, Structural)]
pub enum ParseError {
    /// Fewer than four symbol characters.
    TooFewSymbols,
    /// More than four symbol characters.
    TooManySymbols,
}

/// The symbols of `s` in order, every other character dropped.
pub open spec fn symbols(s: Seq<char>) -> Seq<Color>
    decreases s.len(),
{
    if s.len() == 0 {
        Seq::empty()
    } else {
        let rest = symbols(s.drop_last());
        match color_of(s.last()) {
            Some(c) => rest.push(c),
            None => rest,
        }
    }
}

/// The canonical text of a code: its four symbol characters, separated by
/// single spaces.
pub open spec fn code_text(p: Seq<Color>) -> Seq<char> {
    seq![char_of(p[0]), ' ', char_of(p[1]), ' ', char_of(p[2]), ' ', char_of(p[3])]
}

/// Reading one more character of `s` appends its symbol, if it is one.
proof fn lemma_symbols_take(s: Seq<char>, k: int)
    requires
        0 <= k < s.len(),
    ensures
        symbols(s.take(k + 1)) == (match color_of(s[k]) {
            Some(c) => symbols(s.take(k)).push(c),
            None => symbols(s.take(k)),
        }),
{
    assert(s.take(k + 1).drop_last() =~= s.take(k));
}

/// The canonical text of four symbols reads back as those four symbols.
pub proof fn lemma_text_round_trip(p: Seq<Color>)
    requires
        p.len() == 4,
    ensures
        symbols(code_text(p)) == p,
{
    let t = code_text(p);
    assert(t.take(0) =~= Seq::<char>::empty());
    lemma_symbols_take(t, 0);
    lemma_symbols_take(t, 1);
    lemma_symbols_take(t, 2);
    lemma_symbols_take(t, 3);
    lemma_symbols_take(t, 4);
    lemma_symbols_take(t, 5);
    lemma_symbols_take(t, 6);
    assert(symbols(t.take(7)) =~= p);
    assert(t.take(7) =~= t);
}

/// Four symbols in order, with the set of those that occur.
#[derive(Clone, Copy, Debug)]
pub struct Code {
    positional: [Color; 4],
    set: ColorSet,
}

impl View for Code {
    type V = Seq<Color>;

    closed spec fn view(&self) -> Seq<Color> {
        self.positional@
    }
}

impl Code {
    /// The set holds exactly the symbols that occur in the sequence.
    pub closed spec fn wf(&self) -> bool {
        forall|c: Color| self.set@.contains(c) <==> self.positional@.contains(c)
    }

    /// Reads a code from text: the symbol characters `r`, `g`, `b`, `p` are
    /// taken in order and every other character is dropped; exactly four
    /// must remain.
    pub fn try_from(s: String) -> (r: Result<Code, ParseError>)
        ensures
            symbols(s@).len() < 4 ==> r == Err::<Code, ParseError>(ParseError::TooFewSymbols),
            symbols(s@).len() > 4 ==> r == Err::<Code, ParseError>(ParseError::TooManySymbols),
            symbols(s@).len() == 4 ==> r is Ok,
            r matches Ok(code) ==> code.wf() && code@ == symbols(s@),
    {
        let t = s.as_str();
        let n = t.unicode_len();
        let mut pos: Vec<Color> = Vec::new();
        let mut set = ColorSet::empty();
        let mut i: usize = 0;
        while i < n
            invariant
                n == t@.len(),
                t@ == s@,
                i <= n,
                pos@ == symbols(t@.take(i as int)),
                forall|c: Color| set@.contains(c) <==> pos@.contains(c),
            decreases n - i,
        {
            let ch = t.get_char(i);
            assert(t@.take(i + 1).drop_last() =~= t@.take(i as int));
            match Color::from_char(ch) {
                Some(c) => {
                    let ghost before = pos@;
                    set.insert(c);
                    pos.push(c);
                    assert forall|d: Color| set@.contains(d) <==> pos@.contains(d) by {
                        if before.contains(d) {
                            let k = choose|k: int| 0 <= k < before.len() && before[k] == d;
                            assert(pos@[k] == d);
                        }
                        if pos@.contains(d) && d != c {
                            let k = choose|k: int| 0 <= k < pos@.len() && pos@[k] == d;
                            assert(before[k] == d);
                        }
                        if d == c {
                            assert(pos@[before.len() as int] == c);
                        }
                    }
                },
                None => {},
            }
            i += 1;
        }
        assert(t@.take(n as int) =~= t@);
        if pos.len() < 4 {
            Err(ParseError::TooFewSymbols)
        } else if pos.len() > 4 {
            Err(ParseError::TooManySymbols)
        } else {
            let code = Code { positional: [pos[0], pos[1], pos[2], pos[3]], set };
            assert(code.positional@ =~= pos@);
            Ok(code)
        }
    }

    /// A code written as its canonical text reads back as the same code.
    pub proof fn lemma_parse_round_trip(c: Code)
        ensures
            symbols(code_text(c@)) == c@,
            c@.len() == 4,
    {
        lemma_text_round_trip(c@);
    }

    /// The key for one position: `guessed` against `hidden` at the same
    /// position, then against the symbols of this code.
    fn classify(&self, hidden: Color, guessed: Color) -> (r: Key)
        requires
            self.wf(),
        ensures
            r == (if guessed == hidden {
                Key::ColorAndPositionCorrect
            } else if self@.contains(guessed) {
                Key::ColorCorrect
            } else {
                Key::Empty
            }),
    {
        if guessed == hidden {
            Key::ColorAndPositionCorrect
        } else if self.set.contains(guessed) {
            Key::ColorCorrect
        } else {
            Key::Empty
        }
    }

    /// Scores the guess `other` against this code, the hidden one.
    pub fn score(&self, other: Code) -> (r: Score)
        requires
            self.wf(),
        ensures
            r@ == score_of(self@, other@),
    {
        let p = &self.positional;
        let q = &other.positional;
        let r = Score(
            self.classify(p[0], q[0]),
            self.classify(p[1], q[1]),
            self.classify(p[2], q[2]),
            self.classify(p[3], q[3]),
        );
        assert(r@ =~= score_of(self@, other@));
        r
    }

    /// The four symbols in order.
    pub fn positional(&self) -> (r: [Color; 4])
        ensures
            r@ == self@,
    {
        self.positional
    }

    /// The canonical text: the four symbol characters separated by spaces.
    pub fn to_text(&self) -> (r: String)
        ensures
            r@ == code_text(self@),
    {
        let mut r = String::new();
        push_char(&mut r, self.positional[0].to_char());
        push_char(&mut r, ' ');
        push_char(&mut r, self.positional[1].to_char());
        push_char(&mut r, ' ');
        push_char(&mut r, self.positional[2].to_char());
        push_char(&mut r, ' ');
        push_char(&mut r, self.positional[3].to_char());
        assert(r@ =~= code_text(self@));
        r
    }
}

} // verus!
