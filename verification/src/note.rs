//! Note spellings: a letter with an accidental, read from and written as text.

use crate::letter::{lemma_symbol_of_symbol, Letter};
use crate::pitch::{Pitch, REFERENCE_OCTAVE};
use vstd::prelude::*;
use vstd::string::*;

pub mod pitch_note;

verus! {

/// What raises or lowers a letter.
#[derive(Clone, Copy, Debug, PartialEq, Eq, Hash, Structural)]
pub enum Accidental {
    Natural,
    Flat,
    DoubleFlat,
    Sharp,
    DoubleSharp,
}

impl Accidental {
    /// Semitones by which the accidental moves a letter.
    pub open spec fn offset(self) -> int {
        match self {
            Accidental::Natural => 0,
            Accidental::Flat => -1,
            Accidental::DoubleFlat => -2,
            Accidental::Sharp => 1,
            Accidental::DoubleSharp => 2,
        }
    }

    /// The musical sign shown for the accidental.
    pub open spec fn sign(self) -> char {
        match self {
            Accidental::Natural => '\u{266e}',
            Accidental::Flat => '\u{266d}',
            Accidental::DoubleFlat => '\u{1d12b}',
            Accidental::Sharp => '\u{266f}',
            Accidental::DoubleSharp => '\u{1d12a}',
        }
    }

    /// The plain-text suffix read by `Note::parse`.
    pub open spec fn suffix(self) -> Seq<char> {
        match self {
            Accidental::Natural => seq![],
            Accidental::Flat => seq!['b'],
            Accidental::DoubleFlat => seq!['b', 'b'],
            Accidental::Sharp => seq!['#'],
            Accidental::DoubleSharp => seq!['#', '#'],
        }
    }

    /// Place of the variant in its declaration.
    pub open spec fn tag(self) -> int {
        match self {
            Accidental::Natural => 0,
            Accidental::Flat => 1,
            Accidental::DoubleFlat => 2,
            Accidental::Sharp => 3,
            Accidental::DoubleSharp => 4,
        }
    }

    /// Whether the accidental leaves the letter as it is.
    pub fn is_natural(self) -> (r: bool)
        ensures
            r == (self == Accidental::Natural),
    {
        match self {
            Accidental::Natural => true,
            _ => false,
        }
    }

    /// Semitones by which the accidental moves a letter.
    pub fn delta(self) -> (r: i8)
        ensures
            r == self.offset(),
    {
        match self {
            Accidental::Natural => 0,
            Accidental::Flat => -1,
            Accidental::DoubleFlat => -2,
            Accidental::Sharp => 1,
            Accidental::DoubleSharp => 2,
        }
    }

    /// The musical sign shown for the accidental.
    pub fn glyph(self) -> (r: char)
        ensures
            r == self.sign(),
    {
        match self {
            Accidental::Natural => '\u{266e}',
            Accidental::Flat => '\u{266d}',
            Accidental::DoubleFlat => '\u{1d12b}',
            Accidental::Sharp => '\u{266f}',
            Accidental::DoubleSharp => '\u{1d12a}',
        }
    }

    /// The plain-text suffix read by `Note::parse`.
    pub fn ascii(self) -> (r: &'static str)
        ensures
            r@ == self.suffix(),
    {
        proof {
            reveal_strlit("");
            reveal_strlit("b");
            reveal_strlit("bb");
            reveal_strlit("#");
            reveal_strlit("##");
        }
        match self {
            Accidental::Natural => "",
            Accidental::Flat => "b",
            Accidental::DoubleFlat => "bb",
            Accidental::Sharp => "#",
            Accidental::DoubleSharp => "##",
        }
    }

    /// A small integer that stands for the variant, for layers that take
    /// attributes as numbers.
    pub fn ordinal(self) -> (r: u8)
        ensures
            r == self.tag(),
    {
        match self {
            Accidental::Natural => 0,
            Accidental::Flat => 1,
            Accidental::DoubleFlat => 2,
            Accidental::Sharp => 3,
            Accidental::DoubleSharp => 4,
        }
    }
}

/// Why a text is not a note.
#[derive(Clone, Copy, Debug, PartialEq, Eq, Structural)]
pub enum Error {
    /// The text was empty.
    EmptyInput,
    /// The character is no letter from A to G where the letter stands, or no
    /// part of an accidental behind it.
    InvalidCharacter(char),
}

impl Error {
    /// The sentence that `message` returns.
    pub open spec fn text(self) -> Seq<char> {
        match self {
            Error::EmptyInput => "Empty note input"@,
            Error::InvalidCharacter(c) => "Invalid character `"@.push(c).push('`'),
        }
    }

    /// A sentence for the user.
    pub fn message(&self) -> (r: String)
        ensures
            r@ == self.text(),
    {
        match self {
            Error::EmptyInput => String::from_str("Empty note input"),
            Error::InvalidCharacter(c) => {
                let mut s = String::from_str("Invalid character `");
                push_char(&mut s, *c);
                push_char(&mut s, '`');
                s
            },
        }
    }
}

impl From<char> for Error {
    /// The error that reports `c` as out of place.
    fn from(c: char) -> (r: Error) {
        Error::InvalidCharacter(c)
    }
}

impl vstd::std_specs::convert::FromSpecImpl<char> for Error {
    open spec fn obeys_from_spec() -> bool {
        true
    }

    open spec fn from_spec(c: char) -> Error {
        Error::InvalidCharacter(c)
    }
}

/// `String::push` of std: the character is added at the end of the string.
#[verifier::external_body]
fn push_char(s: &mut String, c: char)
    ensures
        final(s)@ == old(s)@.push(c),
{
    s.push(c);
}

/// A letter with an accidental: how a pitch is written, not which one sounds.
#[derive(Clone, Copy, Debug, PartialEq, Eq, Hash, Structural)]
pub struct Note {
    pub natural: Letter,
    pub accidental: Accidental,
}

/// The accidental that a suffix of plain text names, or the first character
/// that does not belong to one.
pub open spec fn parse_suffix(s: Seq<char>) -> Result<Accidental, Error> {
    if s.len() == 0 {
        Ok(Accidental::Natural)
    } else if s[0] != 'b' && s[0] != '#' {
        Err(Error::InvalidCharacter(s[0]))
    } else if s.len() == 1 {
        Ok(if s[0] == 'b' { Accidental::Flat } else { Accidental::Sharp })
    } else if s[1] != s[0] {
        Err(Error::InvalidCharacter(s[1]))
    } else if s.len() == 2 {
        Ok(if s[0] == 'b' { Accidental::DoubleFlat } else { Accidental::DoubleSharp })
    } else {
        Err(Error::InvalidCharacter(s[2]))
    }
}

/// The note that a plain text names: one letter from A to G in upper case,
/// then nothing, `b`, `bb`, `#` or `##`. Anything else is an error that
/// carries the first character out of place.
pub open spec fn parse_text(s: Seq<char>) -> Result<Note, Error> {
    if s.len() == 0 {
        Err(Error::EmptyInput)
    } else {
        match Letter::of_symbol(s[0]) {
            None => Err(Error::InvalidCharacter(s[0])),
            Some(natural) => match parse_suffix(s.subrange(1, s.len() as int)) {
                Ok(accidental) => Ok(Note { natural, accidental }),
                Err(e) => Err(e),
            },
        }
    }
}

impl Note {
    /// Semitones above C that the note spells, before any octave is chosen.
    /// Between -2 (C double flat) and 13 (B double sharp).
    pub open spec fn semitone(self) -> int {
        self.natural.semitone() + self.accidental.offset()
    }

    /// The note written with musical signs: the letter, then the sign.
    pub open spec fn glyphs(self) -> Seq<char> {
        seq![self.natural.symbol(), self.accidental.sign()]
    }

    /// The note written in plain text, as `parse` reads it.
    pub open spec fn plain(self) -> Seq<char> {
        seq![self.natural.symbol()] + self.accidental.suffix()
    }

    /// The spelling of a position in the octave that prefers flats.
    pub open spec fn flat_spelling(chroma: int) -> Note {
        if chroma == 0 {
            Note { natural: Letter::C, accidental: Accidental::Natural }
        } else if chroma == 1 {
            Note { natural: Letter::D, accidental: Accidental::Flat }
        } else if chroma == 2 {
            Note { natural: Letter::D, accidental: Accidental::Natural }
        } else if chroma == 3 {
            Note { natural: Letter::E, accidental: Accidental::Flat }
        } else if chroma == 4 {
            Note { natural: Letter::E, accidental: Accidental::Natural }
        } else if chroma == 5 {
            Note { natural: Letter::F, accidental: Accidental::Natural }
        } else if chroma == 6 {
            Note { natural: Letter::G, accidental: Accidental::Flat }
        } else if chroma == 7 {
            Note { natural: Letter::G, accidental: Accidental::Natural }
        } else if chroma == 8 {
            Note { natural: Letter::A, accidental: Accidental::Flat }
        } else if chroma == 9 {
            Note { natural: Letter::A, accidental: Accidental::Natural }
        } else if chroma == 10 {
            Note { natural: Letter::B, accidental: Accidental::Flat }
        } else {
            Note { natural: Letter::B, accidental: Accidental::Natural }
        }
    }

    /// The spelling of a position in the octave that prefers sharps.
    pub open spec fn sharp_spelling(chroma: int) -> Note {
        let flat = Note::flat_spelling(chroma);
        if flat.accidental == Accidental::Flat {
            Note { natural: Letter::at(flat.natural.step() - 1), accidental: Accidental::Sharp }
        } else {
            flat
        }
    }

    /// The letter with the accidental.
    pub fn new(natural: Letter, accidental: Accidental) -> (r: Note)
        ensures
            r == (Note { natural, accidental }),
    {
        Note { natural, accidental }
    }

    /// The bare letter.
    pub fn natural(natural: Letter) -> (r: Note)
        ensures
            r == (Note { natural, accidental: Accidental::Natural }),
    {
        Note::new(natural, Accidental::Natural)
    }

    /// The letter lowered by a semitone.
    pub fn flat(natural: Letter) -> (r: Note)
        ensures
            r == (Note { natural, accidental: Accidental::Flat }),
    {
        Note::new(natural, Accidental::Flat)
    }

    /// The letter lowered by two semitones.
    pub fn double_flat(natural: Letter) -> (r: Note)
        ensures
            r == (Note { natural, accidental: Accidental::DoubleFlat }),
    {
        Note::new(natural, Accidental::DoubleFlat)
    }

    /// The letter raised by a semitone.
    pub fn sharp(natural: Letter) -> (r: Note)
        ensures
            r == (Note { natural, accidental: Accidental::Sharp }),
    {
        Note::new(natural, Accidental::Sharp)
    }

    /// The letter raised by two semitones.
    pub fn double_sharp(natural: Letter) -> (r: Note)
        ensures
            r == (Note { natural, accidental: Accidental::DoubleSharp }),
    {
        Note::new(natural, Accidental::DoubleSharp)
    }

    /// Spells `pitch` with a flat where it is a black key, and with the bare
    /// letter where it is a white one.
    pub fn from_flat(pitch: Pitch) -> (r: Note)
        ensures
            r == Note::flat_spelling(pitch.chroma()),
    {
        let chroma: u8 = pitch.pitch_class();
        match chroma {
            0 => Note::natural(Letter::C),
            1 => Note::flat(Letter::D),
            2 => Note::natural(Letter::D),
            3 => Note::flat(Letter::E),
            4 => Note::natural(Letter::E),
            5 => Note::natural(Letter::F),
            6 => Note::flat(Letter::G),
            7 => Note::natural(Letter::G),
            8 => Note::flat(Letter::A),
            9 => Note::natural(Letter::A),
            10 => Note::flat(Letter::B),
            _ => Note::natural(Letter::B),
        }
    }

    /// Spells `pitch` with a sharp where it is a black key, and with the bare
    /// letter where it is a white one.
    pub fn from_sharp(pitch: Pitch) -> (r: Note)
        ensures
            r == Note::sharp_spelling(pitch.chroma()),
    {
        let flat = Note::from_flat(pitch);
        match flat.accidental {
            Accidental::Flat => Note::sharp(flat.natural.prev()),
            _ => flat,
        }
    }

    /// Reads a note from plain text. Case matters and blanks are not skipped.
    pub fn parse(text: &str) -> (r: Result<Note, Error>)
        ensures
            r == parse_text(text@),
    {
        let n: usize = text.unicode_len();
        if n == 0 {
            return Err(Error::EmptyInput);
        }
        let first: char = text.get_char(0);
        let natural = match Letter::from_char(first) {
            Some(l) => l,
            None => {
                return Err(Error::InvalidCharacter(first));
            },
        };
        if n == 1 {
            return Ok(Note::new(natural, Accidental::Natural));
        }
        let second: char = text.get_char(1);
        if second != 'b' && second != '#' {
            return Err(Error::InvalidCharacter(second));
        }
        if n == 2 {
            return Ok(
                if second == 'b' {
                    Note::flat(natural)
                } else {
                    Note::sharp(natural)
                },
            );
        }
        let third: char = text.get_char(2);
        if third != second {
            return Err(Error::InvalidCharacter(third));
        }
        if n == 3 {
            return Ok(
                if second == 'b' {
                    Note::double_flat(natural)
                } else {
                    Note::double_sharp(natural)
                },
            );
        }
        let fourth: char = text.get_char(3);
        Err(Error::InvalidCharacter(fourth))
    }

    /// Writes the note with musical signs: the letter, then the sign of the
    /// accidental, the natural sign included. `parse` does not read this form.
    pub fn format(&self) -> (r: String)
        ensures
            r@ == self.glyphs(),
    {
        let mut s = String::new();
        push_char(&mut s, self.natural.to_char());
        push_char(&mut s, self.accidental.glyph());
        s
    }

    /// Writes the note in the plain text that `parse` reads.
    pub fn format_ascii(&self) -> (r: String)
        ensures
            r@ == self.plain(),
    {
        let mut s = String::new();
        push_char(&mut s, self.natural.to_char());
        s.append(self.accidental.ascii());
        s
    }
}

impl From<Letter> for Note {
    /// The bare letter.
    fn from(natural: Letter) -> (r: Note) {
        Note::new(natural, Accidental::Natural)
    }
}

impl vstd::std_specs::convert::FromSpecImpl<Letter> for Note {
    open spec fn obeys_from_spec() -> bool {
        true
    }

    open spec fn from_spec(natural: Letter) -> Note {
        Note { natural, accidental: Accidental::Natural }
    }
}

/// A note written in plain text is read back as the same note, whatever its
/// accidental.
pub proof fn lemma_parse_plain(note: Note)
    ensures
        parse_text(note.plain()) == Ok::<Note, Error>(note),
{
    let s = note.plain();
    assert(s.subrange(1, s.len() as int) =~= note.accidental.suffix());
    lemma_symbol_of_symbol(note.natural, s[0]);
}

/// A note written with musical signs is not read back: the sign is reported
/// as the character out of place.
pub proof fn lemma_parse_glyphs(note: Note)
    ensures
        parse_text(note.glyphs()) == Err::<Note, Error>(
            Error::InvalidCharacter(note.accidental.sign()),
        ),
{
    let s = note.glyphs();
    assert(s.subrange(1, s.len() as int) =~= seq![note.accidental.sign()]);
    lemma_symbol_of_symbol(note.natural, s[0]);
}

/// Either spelling of a pitch names the key of that pitch: the pitch of the
/// spelled note differs from the source by whole octaves only.
pub proof fn lemma_spelling_keeps_chroma(p: Pitch)
    ensures
        Pitch::spelled(Note::flat_spelling(p.chroma()), REFERENCE_OCTAVE).chroma() == p.chroma(),
        Pitch::spelled(Note::sharp_spelling(p.chroma()), REFERENCE_OCTAVE).chroma() == p.chroma(),
{
}

/// A white key is spelled with its bare letter under either preference, and a
/// black key with a flat under the one and a sharp under the other.
pub proof fn lemma_spelling_bias(chroma: int)
    requires
        0 <= chroma < 12,
    ensures
        Note::flat_spelling(chroma).accidental == Accidental::Natural
            || Note::flat_spelling(chroma).accidental == Accidental::Flat,
        Note::sharp_spelling(chroma).accidental == Accidental::Natural
            || Note::sharp_spelling(chroma).accidental == Accidental::Sharp,
        Note::flat_spelling(chroma).accidental == Accidental::Natural
            <==> Note::sharp_spelling(chroma).accidental == Accidental::Natural,
        Note::flat_spelling(chroma).accidental == Accidental::Natural ==> Note::flat_spelling(
            chroma,
        ) == Note::sharp_spelling(chroma),
        Note::flat_spelling(chroma).semitone() == chroma,
        Note::sharp_spelling(chroma).semitone() == chroma,
{
}

} // verus!
