//! Absolute pitches, counted in semitones from C in octave 0.

use crate::letter::Letter;
use crate::note::Note;
use std::cmp::Ordering;
use vstd::prelude::*;

verus! {

/// The MIDI note number of pitch 0, the C of octave 0.
pub const MIDI_ZERO: i32 = 12;

/// The highest MIDI note number.
pub const MIDI_MAX: i32 = 127;

/// The octave in which a bare note is placed when it becomes a pitch.
pub const REFERENCE_OCTAVE: i8 = 0;

/// Octaves by which a pitch is lifted before its octave is computed, so that
/// the division never sees a negative number: 12 times this exceeds `2^31`.
const OCTAVE_LIFT: i64 = 178956971;

/// An absolute chromatic position. Two spellings of one key are one pitch.
#[derive(Clone, Copy, Debug, PartialEq, Eq, Ord, Hash, Structural)]
pub struct Pitch {
    pub semitones: i32,
}

impl Pitch {
    /// Semitones above C in octave 0.
    pub open spec fn value(self) -> int {
        self.semitones as int
    }

    /// Position within the octave, from 0 (C) to 11 (B).
    pub open spec fn chroma(self) -> int {
        self.semitones as int % 12
    }

    /// Whether the pitch has a MIDI note number.
    pub open spec fn playable(self) -> bool {
        0 <= self.semitones + MIDI_ZERO <= MIDI_MAX
    }

    /// The unaltered pitch of a letter in octave 0.
    pub open spec fn of_letter(letter: Letter) -> Pitch {
        Pitch { semitones: letter.semitone() as i32 }
    }

    /// The pitch that `note` spells in `octave`.
    pub open spec fn spelled(note: Note, octave: i8) -> Pitch {
        Pitch { semitones: (note.semitone() + 12 * octave) as i32 }
    }

    /// The pitch of a MIDI note number: a shift down by `MIDI_ZERO`.
    pub open spec fn of_midi(midi: u8) -> Pitch {
        Pitch { semitones: (midi - MIDI_ZERO) as i32 }
    }

    /// The MIDI note number of a playable pitch, and `None` for the others.
    pub open spec fn midi(self) -> Option<u8> {
        if self.playable() {
            Some((self.semitones + MIDI_ZERO) as u8)
        } else {
            None
        }
    }

    /// The pitch that many semitones above C in octave 0.
    pub fn from_semitones(semitones: i32) -> (r: Pitch)
        ensures
            r.semitones == semitones,
    {
        Pitch { semitones }
    }

    /// The unaltered pitch of a letter in octave 0.
    pub fn natural(letter: Letter) -> (r: Pitch)
        ensures
            r == Pitch::of_letter(letter),
    {
        let s: u8 = letter.semitones();
        Pitch { semitones: s as i32 }
    }

    /// The pitch that `note` spells in the given octave.
    pub fn with_octave(note: Note, octave: i8) -> (r: Pitch)
        ensures
            r == Pitch::spelled(note, octave),
            r.value() == note.semitone() + 12 * octave,
    {
        let base: i32 = note.natural.semitones() as i32;
        let delta: i32 = note.accidental.delta() as i32;
        Pitch { semitones: base + delta + 12 * (octave as i32) }
    }

    /// The pitch of a MIDI note number.
    pub fn from_midi(midi: u8) -> (r: Pitch)
        ensures
            r == Pitch::of_midi(midi),
    {
        Pitch { semitones: midi as i32 - MIDI_ZERO }
    }

    /// The MIDI note number, for the pitches that have one.
    pub fn to_midi(self) -> (r: Option<u8>)
        ensures
            r == self.midi(),
    {
        if self.semitones >= -MIDI_ZERO && self.semitones <= MIDI_MAX - MIDI_ZERO {
            Some((self.semitones + MIDI_ZERO) as u8)
        } else {
            None
        }
    }

    /// Position within the octave, from 0 (C) to 11 (B).
    pub fn pitch_class(self) -> (r: u8)
        ensures
            r == self.chroma(),
    {
        let lifted: i64 = self.semitones as i64 + 12 * OCTAVE_LIFT;
        (lifted % 12) as u8
    }

    /// The octave that holds the pitch; octave 0 starts at pitch 0.
    pub fn octave(self) -> (r: i32)
        ensures
            r == self.value() / 12,
    {
        let lifted: i64 = self.semitones as i64 + 12 * OCTAVE_LIFT;
        (lifted / 12 - OCTAVE_LIFT) as i32
    }

    /// Whether both pitches are the same key in some octave.
    pub fn same_chroma_as(self, other: Pitch) -> (r: bool)
        ensures
            r == (self.chroma() == other.chroma()),
    {
        self.pitch_class() == other.pitch_class()
    }

    /// Semitones from `self` up to `other`; negative where `other` is lower.
    pub fn distance(self, other: Pitch) -> (r: i64)
        ensures
            r == other.value() - self.value(),
    {
        other.semitones as i64 - self.semitones as i64
    }

    /// Whether `self` sounds below `other`.
    pub fn is_below(self, other: Pitch) -> (r: bool)
        ensures
            r == (self.value() < other.value()),
    {
        self.semitones < other.semitones
    }
}

impl PartialOrd for Pitch {
    /// Pitches are ordered as their semitone counts are.
    fn partial_cmp(&self, other: &Pitch) -> (r: Option<Ordering>) {
        if self.semitones < other.semitones {
            Some(Ordering::Less)
        } else if self.semitones > other.semitones {
            Some(Ordering::Greater)
        } else {
            Some(Ordering::Equal)
        }
    }
}

impl vstd::std_specs::cmp::PartialOrdSpecImpl for Pitch {
    open spec fn obeys_partial_cmp_spec() -> bool {
        true
    }

    open spec fn partial_cmp_spec(&self, other: &Pitch) -> Option<Ordering> {
        if self.semitones < other.semitones {
            Some(Ordering::Less)
        } else if self.semitones > other.semitones {
            Some(Ordering::Greater)
        } else {
            Some(Ordering::Equal)
        }
    }
}

impl From<Note> for Pitch {
    /// The pitch that `note` spells in octave 0.
    fn from(note: Note) -> (r: Pitch) {
        Pitch::with_octave(note, REFERENCE_OCTAVE)
    }
}

impl vstd::std_specs::convert::FromSpecImpl<Note> for Pitch {
    open spec fn obeys_from_spec() -> bool {
        true
    }

    open spec fn from_spec(note: Note) -> Pitch {
        Pitch::spelled(note, REFERENCE_OCTAVE)
    }
}

/// A playable pitch is found again from its MIDI note number.
pub proof fn lemma_midi_round_trip(p: Pitch)
    requires
        p.playable(),
    ensures
        p.midi() is Some,
        p.midi().unwrap() == p.value() + MIDI_ZERO,
        Pitch::of_midi(p.midi().unwrap()) == p,
{
}

/// Every MIDI note number up to 127 is the number of its own pitch.
pub proof fn lemma_midi_pitch_playable(midi: u8)
    requires
        midi <= MIDI_MAX,
    ensures
        Pitch::of_midi(midi).playable(),
        Pitch::of_midi(midi).midi() == Some(midi),
{
}

/// A bare note becomes the pitch that it spells in the reference octave, so
/// two spellings with the same semitone count, such as C sharp and D flat,
/// become the same pitch.
pub proof fn lemma_enharmonic(a: Note, b: Note)
    requires
        a.semitone() == b.semitone(),
    ensures
        Pitch::spelled(a, REFERENCE_OCTAVE) == Pitch::spelled(b, REFERENCE_OCTAVE),
{
}

/// Pitches an octave apart are the same key.
pub proof fn lemma_octave_keeps_chroma(p: Pitch, q: Pitch)
    requires
        q.value() == p.value() + 12,
    ensures
        q.chroma() == p.chroma(),
{
}

} // verus!
