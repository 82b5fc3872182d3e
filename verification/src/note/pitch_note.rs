//! A pitch together with the note that writes it.

use crate::letter::Letter;
use crate::note::{Accidental, Note};
use crate::pitch::{Pitch, REFERENCE_OCTAVE};
use vstd::prelude::*;

verus! {

/// A pitch and the spelling chosen for it. The spelling names the key of the
/// pitch; the octave is the pitch's alone.
#[derive(Clone, Copy, Debug, PartialEq, Eq, Structural)]
pub struct PitchNote {
    pitch: Pitch,
    note: Note,
}

/// Whether `note` is a spelling of the key of `pitch`.
pub open spec fn spells(note: Note, pitch: Pitch) -> bool {
    Pitch::spelled(note, REFERENCE_OCTAVE).chroma() == pitch.chroma()
}

impl PitchNote {
    /// The pitch.
    pub closed spec fn spec_pitch(self) -> Pitch {
        self.pitch
    }

    /// The spelling.
    pub closed spec fn spec_note(self) -> Note {
        self.note
    }

    /// The note spells the pitch.
    pub open spec fn wf(self) -> bool {
        spells(self.spec_note(), self.spec_pitch())
    }

    /// Pairs a pitch with a spelling of it.
    pub fn new(pitch: Pitch, note: Note) -> (r: PitchNote)
        requires
            spells(note, pitch),
        ensures
            r.spec_pitch() == pitch,
            r.spec_note() == note,
            r.wf(),
    {
        PitchNote { pitch, note }
    }

    /// The unaltered pitch of a letter in octave 0, spelled by the letter.
    pub fn natural(letter: Letter) -> (r: PitchNote)
        ensures
            r.spec_pitch() == Pitch::of_letter(letter),
            r.spec_note() == (Note { natural: letter, accidental: Accidental::Natural }),
            r.wf(),
    {
        PitchNote::new(Pitch::natural(letter), Note::natural(letter))
    }

    /// The pitch with the spelling that prefers flats.
    pub fn from_flat(pitch: Pitch) -> (r: PitchNote)
        ensures
            r.spec_pitch() == pitch,
            r.spec_note() == Note::flat_spelling(pitch.chroma()),
            r.wf(),
    {
        proof {
            crate::note::lemma_spelling_keeps_chroma(pitch);
        }
        PitchNote::new(pitch, Note::from_flat(pitch))
    }

    /// The pitch with the spelling that prefers sharps.
    pub fn from_sharp(pitch: Pitch) -> (r: PitchNote)
        ensures
            r.spec_pitch() == pitch,
            r.spec_note() == Note::sharp_spelling(pitch.chroma()),
            r.wf(),
    {
        proof {
            crate::note::lemma_spelling_keeps_chroma(pitch);
        }
        PitchNote::new(pitch, Note::from_sharp(pitch))
    }

    /// The pitch.
    pub fn pitch(self) -> (r: Pitch)
        ensures
            r == self.spec_pitch(),
    {
        self.pitch
    }

    /// The spelling.
    pub fn note(self) -> (r: Note)
        ensures
            r == self.spec_note(),
    {
        self.note
    }
}

impl From<Note> for PitchNote {
    /// The note with the pitch that it spells in octave 0.
    fn from(note: Note) -> (r: PitchNote) {
        PitchNote { pitch: Pitch::with_octave(note, REFERENCE_OCTAVE), note }
    }
}

impl vstd::std_specs::convert::FromSpecImpl<Note> for PitchNote {
    open spec fn obeys_from_spec() -> bool {
        true
    }

    closed spec fn from_spec(note: Note) -> PitchNote {
        PitchNote { pitch: Pitch::spelled(note, REFERENCE_OCTAVE), note }
    }
}

/// A note turned into a pitch note keeps its spelling, gets the pitch that it
/// spells in octave 0, and is well formed.
pub proof fn lemma_from_note(note: Note)
    ensures
        <PitchNote as vstd::std_specs::convert::FromSpec<Note>>::from_spec(note).spec_note() == note,
        <PitchNote as vstd::std_specs::convert::FromSpec<Note>>::from_spec(note).spec_pitch()
            == Pitch::spelled(note, REFERENCE_OCTAVE),
        <PitchNote as vstd::std_specs::convert::FromSpec<Note>>::from_spec(note).wf(),
{
}

} // verus!
