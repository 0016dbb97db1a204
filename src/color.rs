use vstd::prelude::*;

verus! {

/// One of the four symbols a code is made of.
#[derive(Clone, Copy, Debug, PartialEq, Eq, Structural, Hash)]
pub enum Color {
    Red,
    Green,
    Blue,
    Purple,
}

/// The symbol that a character stands for, if any.
pub open spec fn color_of(c: char) -> Option<Color> {
    if c == 'r' {
        Some(Color::Red)
    } else if c == 'g' {
        Some(Color::Green)
    } else if c == 'b' {
        Some(Color::Blue)
    } else if c == 'p' {
        Some(Color::Purple)
    } else {
        None
    }
}

/// The character that a symbol is written as.
pub open spec fn char_of(c: Color) -> char {
    match c {
        Color::Red => 'r',
        Color::Green => 'g',
        Color::Blue => 'b',
        Color::Purple => 'p',
    }
}

impl Color {
    /// The single character that this symbol is written as.
    pub fn to_char(&self) -> (r: char)
        ensures
            r == char_of(*self),
            color_of(r) == Some(*self),
    {
        match self {
            Color::Red => 'r',
            Color::Green => 'g',
            Color::Blue => 'b',
            Color::Purple => 'p',
        }
    }

    /// The symbol that `c` stands for, or `None` where `c` is no symbol.
    pub fn from_char(c: char) -> (r: Option<Color>)
        ensures
            r == color_of(c),
    {
        match c {
            'r' => Some(Color::Red),
            'g' => Some(Color::Green),
            'b' => Some(Color::Blue),
            'p' => Some(Color::Purple),
            _ => None,
        }
    }
}

/// A set of symbols, one flag per symbol.
#[derive(Clone, Copy, Debug, PartialEq, Eq, Structural)]
pub struct ColorSet {
    red: bool,
    green: bool,
    blue: bool,
    purple: bool,
}

impl View for ColorSet {
    type V = Set<Color>;

    closed spec fn view(&self) -> Set<Color> {
        Set::new(
            |c: Color|
                match c {
                    Color::Red => self.red,
                    Color::Green => self.green,
                    Color::Blue => self.blue,
                    Color::Purple => self.purple,
                },
        )
    }
}

impl ColorSet {
    /// The set that holds no symbol.
    pub fn empty() -> (r: ColorSet)
        ensures
            r@ == Set::<Color>::empty(),
    {
        let r = ColorSet { red: false, green: false, blue: false, purple: false };
        assert(r@ =~= Set::<Color>::empty());
        r
    }

    /// Adds `c` to the set.
    pub fn insert(&mut self, c: Color)
        ensures
            final(self)@ == old(self)@.insert(c),
    {
        match c {
            Color::Red => self.red = true,
            Color::Green => self.green = true,
            Color::Blue => self.blue = true,
            Color::Purple => self.purple = true,
        }
        assert(final(self)@ =~= old(self)@.insert(c));
    }

    /// Whether `c` is in the set.
    pub fn contains(&self, c: Color) -> (r: bool)
        ensures
            r == self@.contains(c),
    {
        match c {
            Color::Red => self.red,
            Color::Green => self.green,
            Color::Blue => self.blue,
            Color::Purple => self.purple,
        }
    }
}

} // verus!
