//! Written music notation: note spellings, absolute pitches, and the layout
//! of one measure of chords on a five-line staff.
//!
//! Pitches count semitones from C in octave 0, which is MIDI note 12. A bare
//! note converts to a pitch in that same octave 0.

pub mod letter;
pub mod note;
pub mod pitch;
pub mod staff;

pub use letter::Letter;
pub use letter::Letter as Natural;
pub use note::pitch_note::PitchNote;
pub use note::{Accidental, Error, Note};
pub use pitch::Pitch;
pub use staff::{Chord, Duration, Measure};
