//! The seven unqualified note names.

use std::cmp::Ordering;
use vstd::prelude::*;

verus! {

/// A note name without accidental, ordered by its place in the C major scale.
#[derive(Clone, Copy, Debug, PartialEq, Eq, Ord, Hash, Structural)]
pub enum Letter {
    C,
    D,
    E,
    F,
    G,
    A,
    B,
}

impl Letter {
    /// Place in the scale, counted from C as 0.
    pub open spec fn step(self) -> int {
        match self {
            Letter::C => 0,
            Letter::D => 1,
            Letter::E => 2,
            Letter::F => 3,
            Letter::G => 4,
            Letter::A => 5,
            Letter::B => 6,
        }
    }

    /// The letter at a place in the scale, taken cyclically.
    pub open spec fn at(step: int) -> Letter {
        let r = step % 7;
        if r == 0 {
            Letter::C
        } else if r == 1 {
            Letter::D
        } else if r == 2 {
            Letter::E
        } else if r == 3 {
            Letter::F
        } else if r == 4 {
            Letter::G
        } else if r == 5 {
            Letter::A
        } else {
            Letter::B
        }
    }

    /// Semitones above C within one octave.
    pub open spec fn semitone(self) -> int {
        match self {
            Letter::C => 0,
            Letter::D => 2,
            Letter::E => 4,
            Letter::F => 5,
            Letter::G => 7,
            Letter::A => 9,
            Letter::B => 11,
        }
    }

    /// The upper-case character that names the letter.
    pub open spec fn symbol(self) -> char {
        match self {
            Letter::C => 'C',
            Letter::D => 'D',
            Letter::E => 'E',
            Letter::F => 'F',
            Letter::G => 'G',
            Letter::A => 'A',
            Letter::B => 'B',
        }
    }

    /// The letter that a character names, if any. Lower case names nothing.
    pub open spec fn of_symbol(c: char) -> Option<Letter> {
        if c == 'C' {
            Some(Letter::C)
        } else if c == 'D' {
            Some(Letter::D)
        } else if c == 'E' {
            Some(Letter::E)
        } else if c == 'F' {
            Some(Letter::F)
        } else if c == 'G' {
            Some(Letter::G)
        } else if c == 'A' {
            Some(Letter::A)
        } else if c == 'B' {
            Some(Letter::B)
        } else {
            None
        }
    }

    /// Place in the scale, counted from C as 0.
    pub fn index(self) -> (r: u8)
        ensures
            r == self.step(),
    {
        match self {
            Letter::C => 0,
            Letter::D => 1,
            Letter::E => 2,
            Letter::F => 3,
            Letter::G => 4,
            Letter::A => 5,
            Letter::B => 6,
        }
    }

    /// The letter at `index` modulo 7.
    pub fn from_index(index: u8) -> (r: Letter)
        ensures
            r == Letter::at(index as int),
    {
        let r: u8 = index % 7;
        if r == 0 {
            Letter::C
        } else if r == 1 {
            Letter::D
        } else if r == 2 {
            Letter::E
        } else if r == 3 {
            Letter::F
        } else if r == 4 {
            Letter::G
        } else if r == 5 {
            Letter::A
        } else {
            Letter::B
        }
    }

    /// The following letter; B is followed by C.
    pub fn next(self) -> (r: Letter)
        ensures
            r == Letter::at(self.step() + 1),
    {
        Letter::from_index(self.index() + 1)
    }

    /// The preceding letter; C is preceded by B.
    pub fn prev(self) -> (r: Letter)
        ensures
            r == Letter::at(self.step() - 1),
    {
        Letter::from_index(self.index() + 6)
    }

    /// Whether `self` stands before `other` in the scale.
    pub fn precedes(self, other: Letter) -> (r: bool)
        ensures
            r == (self.step() < other.step()),
    {
        self.index() < other.index()
    }

    /// Semitones above C within one octave.
    pub fn semitones(self) -> (r: u8)
        ensures
            r == self.semitone(),
    {
        match self {
            Letter::C => 0,
            Letter::D => 2,
            Letter::E => 4,
            Letter::F => 5,
            Letter::G => 7,
            Letter::A => 9,
            Letter::B => 11,
        }
    }

    /// The upper-case character that names the letter.
    pub fn to_char(self) -> (r: char)
        ensures
            r == self.symbol(),
    {
        match self {
            Letter::C => 'C',
            Letter::D => 'D',
            Letter::E => 'E',
            Letter::F => 'F',
            Letter::G => 'G',
            Letter::A => 'A',
            Letter::B => 'B',
        }
    }

    /// Reads a letter from its upper-case character.
    pub fn from_char(c: char) -> (r: Option<Letter>)
        ensures
            r == Letter::of_symbol(c),
    {
        if c == 'C' {
            Some(Letter::C)
        } else if c == 'D' {
            Some(Letter::D)
        } else if c == 'E' {
            Some(Letter::E)
        } else if c == 'F' {
            Some(Letter::F)
        } else if c == 'G' {
            Some(Letter::G)
        } else if c == 'A' {
            Some(Letter::A)
        } else if c == 'B' {
            Some(Letter::B)
        } else {
            None
        }
    }
}

impl PartialOrd for Letter {
    /// Letters are ordered as their places in the scale are, from C up to B.
    fn partial_cmp(&self, other: &Letter) -> (r: Option<Ordering>) {
        let a: u8 = self.index();
        let b: u8 = other.index();
        if a < b {
            Some(Ordering::Less)
        } else if a > b {
            Some(Ordering::Greater)
        } else {
            Some(Ordering::Equal)
        }
    }
}

impl vstd::std_specs::cmp::PartialOrdSpecImpl for Letter {
    open spec fn obeys_partial_cmp_spec() -> bool {
        true
    }

    open spec fn partial_cmp_spec(&self, other: &Letter) -> Option<Ordering> {
        if self.step() < other.step() {
            Some(Ordering::Less)
        } else if self.step() > other.step() {
            Some(Ordering::Greater)
        } else {
            Some(Ordering::Equal)
        }
    }
}

/// A letter's place in the scale is below 7, and `at` finds the letter again.
pub proof fn lemma_step_at(l: Letter)
    ensures
        0 <= l.step() < 7,
        Letter::at(l.step()) == l,
{
}

/// Going to the next letter and back, or back and forth, changes nothing.
pub proof fn lemma_next_prev(l: Letter)
    ensures
        Letter::at(Letter::at(l.step() + 1).step() - 1) == l,
        Letter::at(Letter::at(l.step() - 1).step() + 1) == l,
{
}

/// Seven steps forward lead back to the same letter.
pub proof fn lemma_cycle(step: int)
    ensures
        Letter::at(step + 7) == Letter::at(step),
{
}

/// A letter is read back from its own character, and from no other.
pub proof fn lemma_symbol_of_symbol(l: Letter, c: char)
    ensures
        Letter::of_symbol(l.symbol()) == Some(l),
        Letter::of_symbol(c) == Some(l) ==> c == l.symbol(),
{
}

} // verus!
