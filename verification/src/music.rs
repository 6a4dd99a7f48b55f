//! The note table: named pitches, their frequencies, and the track they are played from.

use vstd::prelude::*;

verus! {

/// A named pitch: the twelve semitones of the octave that starts at middle C,
/// and that octave's root once more an octave up.
#[derive(Clone, Copy, Debug, PartialEq, Eq, Structural)]
pub enum Note {
    C4,
    CSharp4,
    D4,
    DSharp4,
    E4,
    F4,
    FSharp4,
    G4,
    GSharp4,
    A4,
    ASharp4,
    B4,
    C5,
}

impl Note {
    /// The frequency of this pitch in whole hertz.
    pub open spec fn hz(self) -> nat {
        match self {
            Note::C4 => 261,
            Note::CSharp4 => 277,
            Note::D4 => 294,
            Note::DSharp4 => 311,
            Note::E4 => 330,
            Note::F4 => 349,
            Note::FSharp4 => 370,
            Note::G4 => 392,
            Note::GSharp4 => 415,
            Note::A4 => 440,
            Note::ASharp4 => 466,
            Note::B4 => 493,
            Note::C5 => 523,
        }
    }

    /// Looks up the frequency of this pitch.
    pub fn freq(&self) -> (hertz: u32)
        ensures
            hertz == self.hz(),
    {
        match *self {
            Note::C4 => 261,
            Note::CSharp4 => 277,
            Note::D4 => 294,
            Note::DSharp4 => 311,
            Note::E4 => 330,
            Note::F4 => 349,
            Note::FSharp4 => 370,
            Note::G4 => 392,
            Note::GSharp4 => 415,
            Note::A4 => 440,
            Note::ASharp4 => 466,
            Note::B4 => 493,
            Note::C5 => 523,
        }
    }
}

/// The pitches that are played one per beat, in order and then again from the
/// start. A track holds at least one pitch and does not change.
pub struct Track {
    notes: Vec<Note>,
}

impl View for Track {
    type V = Seq<Note>;

    closed spec fn view(&self) -> Seq<Note> {
        self.notes@
    }
}

impl Track {
    /// A track is not empty.
    #[verifier::type_invariant]
    pub open spec fn wf(&self) -> bool {
        self@.len() >= 1
    }

    /// The track that plays `notes`; there is none for an empty list.
    pub fn new(notes: Vec<Note>) -> (made: Option<Track>)
        ensures
            made is Some <==> notes@.len() >= 1,
            made matches Some(track) ==> track.wf() && track@ == notes@,
    {
        if notes.len() == 0 {
            None
        } else {
            Some(Track { notes })
        }
    }

    /// The C major scale from middle C up to the C above it.
    pub fn scale() -> (track: Track)
        ensures
            track.wf(),
            track@ == seq![
                Note::C4,
                Note::D4,
                Note::E4,
                Note::F4,
                Note::G4,
                Note::A4,
                Note::B4,
                Note::C5,
            ],
    {
        let mut notes: Vec<Note> = Vec::new();
        notes.push(Note::C4);
        notes.push(Note::D4);
        notes.push(Note::E4);
        notes.push(Note::F4);
        notes.push(Note::G4);
        notes.push(Note::A4);
        notes.push(Note::B4);
        notes.push(Note::C5);
        Track { notes }
    }

    /// How many pitches the track holds.
    pub fn len(&self) -> (len: usize)
        ensures
            len == self@.len(),
            len >= 1,
    {
        proof {
            use_type_invariant(self);
        }
        self.notes.len()
    }

    /// The pitch at `index`.
    pub fn note(&self, index: usize) -> (note: Note)
        requires
            index < self@.len(),
        ensures
            note == self@[index as int],
    {
        self.notes[index]
    }
}

} // verus!
