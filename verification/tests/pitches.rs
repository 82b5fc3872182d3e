use staff::letter::Letter;
use staff::note::pitch_note::PitchNote;
use staff::note::{Accidental, Note};
use staff::pitch::Pitch;

const LETTERS: [Letter; 7] =
    [Letter::C, Letter::D, Letter::E, Letter::F, Letter::G, Letter::A, Letter::B];

const ACCIDENTALS: [Accidental; 5] = [
    Accidental::Natural,
    Accidental::Flat,
    Accidental::DoubleFlat,
    Accidental::Sharp,
    Accidental::DoubleSharp,
];

#[test]
fn natural_pitches() {
    let expected: [i32; 7] = [0, 2, 4, 5, 7, 9, 11];
    for (l, e) in LETTERS.iter().zip(expected) {
        assert_eq!(Pitch::natural(*l), Pitch::from_semitones(e));
        assert_eq!(Pitch::from(Note::natural(*l)), Pitch::natural(*l));
    }
}

#[test]
fn enharmonic_spellings_are_one_pitch() {
    assert_eq!(
        Pitch::from(Note { natural: Letter::C, accidental: Accidental::Sharp }),
        Pitch::from(Note { natural: Letter::D, accidental: Accidental::Flat })
    );
    assert_eq!(Pitch::from(Note::sharp(Letter::C)).semitones, 1);
    assert_eq!(Pitch::from(Note::double_sharp(Letter::C)), Pitch::natural(Letter::D));
    assert_eq!(Pitch::from(Note::flat(Letter::F)), Pitch::natural(Letter::E));
    assert_eq!(Pitch::from(Note::flat(Letter::C)).semitones, -1);
    assert_eq!(Pitch::from(Note::double_sharp(Letter::B)).semitones, 13);
}

#[test]
fn octaves_are_twelve_semitones() {
    assert_eq!(Pitch::with_octave(Note::natural(Letter::A), 4).semitones, 57);
    assert_eq!(Pitch::with_octave(Note::natural(Letter::C), -1).semitones, -12);
    assert_eq!(Pitch::with_octave(Note::double_flat(Letter::C), -128).semitones, -1538);
    assert_eq!(Pitch::with_octave(Note::double_sharp(Letter::B), 127).semitones, 1537);
    assert_eq!(Pitch::from_semitones(57).octave(), 4);
    assert_eq!(Pitch::from_semitones(-1).octave(), -1);
    assert_eq!(Pitch::from_semitones(-12).octave(), -1);
    assert_eq!(Pitch::from_semitones(-13).octave(), -2);
    assert_eq!(Pitch::from_semitones(0).octave(), 0);
    assert_eq!(Pitch::from_semitones(i32::MAX).octave(), 178956970);
    assert_eq!(Pitch::from_semitones(i32::MIN).octave(), -178956971);
}

#[test]
fn pitch_class_is_never_negative() {
    assert_eq!(Pitch::from_semitones(0).pitch_class(), 0);
    assert_eq!(Pitch::from_semitones(13).pitch_class(), 1);
    assert_eq!(Pitch::from_semitones(-1).pitch_class(), 11);
    assert_eq!(Pitch::from_semitones(-12).pitch_class(), 0);
    assert_eq!(Pitch::from_semitones(i32::MIN).pitch_class(), 4);
    assert_eq!(Pitch::from_semitones(i32::MAX).pitch_class(), 7);
    assert!(Pitch::from_semitones(-11).same_chroma_as(Pitch::from_semitones(25)));
    assert!(!Pitch::from_semitones(-11).same_chroma_as(Pitch::from_semitones(24)));
}

#[test]
fn midi_round_trip() {
    assert_eq!(Pitch::from_semitones(0).to_midi(), Some(12));
    assert_eq!(Pitch::from_midi(12), Pitch::from_semitones(0));
    assert_eq!(Pitch::from_midi(0).semitones, -12);
    assert_eq!(Pitch::with_octave(Note::natural(Letter::A), 4).to_midi(), Some(69));
    for m in 0..=127u8 {
        let p = Pitch::from_midi(m);
        assert_eq!(p.to_midi(), Some(m));
        assert_eq!(Pitch::from_midi(p.to_midi().unwrap()), p);
    }
    for s in -12..=115 {
        let p = Pitch::from_semitones(s);
        assert_eq!(Pitch::from_midi(p.to_midi().unwrap()), p);
    }
}

#[test]
fn pitches_outside_the_playable_range_have_no_midi_number() {
    assert_eq!(Pitch::from_semitones(-13).to_midi(), None);
    assert_eq!(Pitch::from_semitones(116).to_midi(), None);
    assert_eq!(Pitch::from_semitones(115).to_midi(), Some(127));
    assert_eq!(Pitch::from_semitones(i32::MIN).to_midi(), None);
    assert_eq!(Pitch::from_semitones(i32::MAX).to_midi(), None);
    assert_eq!(Pitch::from_midi(255).semitones, 243);
}

#[test]
fn order_and_distance() {
    let c = Pitch::natural(Letter::C);
    let g = Pitch::natural(Letter::G);
    assert!(c < g);
    assert!(c.is_below(g));
    assert!(!g.is_below(c));
    assert!(!c.is_below(c));
    assert_eq!(c.distance(g), 7);
    assert_eq!(g.distance(c), -7);
    assert_eq!(
        Pitch::from_semitones(i32::MIN).distance(Pitch::from_semitones(i32::MAX)),
        4294967295
    );
}

#[test]
fn flat_and_sharp_spellings() {
    let flats = ["C", "Db", "D", "Eb", "E", "F", "Gb", "G", "Ab", "A", "Bb", "B"];
    let sharps = ["C", "C#", "D", "D#", "E", "F", "F#", "G", "G#", "A", "A#", "B"];
    for s in 0..12 {
        let p = Pitch::from_semitones(s);
        assert_eq!(Note::from_flat(p).format_ascii(), flats[s as usize]);
        assert_eq!(Note::from_sharp(p).format_ascii(), sharps[s as usize]);
        let low = Pitch::from_semitones(s - 36);
        assert_eq!(Note::from_flat(low), Note::from_flat(p));
        assert_eq!(Note::from_sharp(low), Note::from_sharp(p));
    }
}

#[test]
fn spelled_note_keeps_the_key_of_the_pitch() {
    for l in LETTERS {
        for a in ACCIDENTALS {
            for octave in [-3i8, 0, 5] {
                let p = Pitch::with_octave(Note::new(l, a), octave);
                assert!(Pitch::from(Note::from_flat(p)).same_chroma_as(p));
                assert!(Pitch::from(Note::from_sharp(p)).same_chroma_as(p));
            }
        }
    }
    for s in -40..40 {
        let p = Pitch::from_semitones(s);
        assert!(Pitch::from(Note::from_flat(p)).same_chroma_as(p));
        assert!(Pitch::from(Note::from_sharp(p)).same_chroma_as(p));
    }
}

#[test]
fn pitch_note_constructors_agree_with_the_note() {
    let p = Pitch::from_semitones(58);
    let flat = PitchNote::from_flat(p);
    assert_eq!(flat.pitch(), p);
    assert_eq!(flat.note(), Note::flat(Letter::B));
    let sharp = PitchNote::from_sharp(p);
    assert_eq!(sharp.pitch(), p);
    assert_eq!(sharp.note(), Note::sharp(Letter::A));
    let natural = PitchNote::natural(Letter::F);
    assert_eq!(natural.pitch(), Pitch::from_semitones(5));
    assert_eq!(natural.note(), Note::natural(Letter::F));
    let made = PitchNote::new(Pitch::from_semitones(13), Note::sharp(Letter::C));
    assert_eq!(made.pitch().semitones, 13);
    assert_eq!(made.note(), Note::sharp(Letter::C));
    assert_eq!(made, PitchNote::from_sharp(Pitch::from_semitones(13)));
    let from = PitchNote::from(Note::double_flat(Letter::D));
    assert_eq!(from.pitch(), Pitch::from_semitones(0));
    assert_eq!(from.note(), Note::double_flat(Letter::D));
    assert!(Pitch::from(from.note()).same_chroma_as(from.pitch()));
}
