//! The control thread's side: what it sees of the audio thread at one poll,
//! and what its operations do to the tempo.

use vstd::prelude::*;
use crate::common::{lowered, App, BeatEvent, ThreadComm};

verus! {

/// What one poll of the two channels found.
pub struct Observation<A> {
    /// The beat that was pending, if one was.
    pub beat: Option<BeatEvent>,
    /// The sample buffer that was pending; empty if none was.
    pub samples: Vec<A>,
}

impl<A> Observation<A> {
    /// Whether a beat was pending.
    pub fn has_beat(&self) -> (seen: bool)
        ensures
            seen == self.beat is Some,
    {
        self.beat.is_some()
    }
}

/// What the observer makes of the two results of a poll: nothing pending is no
/// beat and an empty sample buffer, and no error.
pub fn observed<A>(beat: Option<BeatEvent>, samples: Option<Vec<A>>) -> (seen: Observation<A>)
    ensures
        seen.beat == beat,
        samples matches Some(buffer) ==> seen.samples == buffer,
        samples is None ==> seen.samples@.len() == 0,
{
    match samples {
        Some(buffer) => Observation { beat, samples: buffer },
        None => Observation { beat, samples: Vec::new() },
    }
}

impl<A> ThreadComm<A> {
    /// Polls both channels once, without blocking: the beats first, then the
    /// sample buffers. What is found depends on what the audio thread has sent.
    pub fn observe(&self) -> (seen: Observation<A>) {
        let beat = match self.beats.rx.try_recv() {
            Ok(event) => Some(event),
            Err(_) => None,
        };
        let samples = match self.samples.rx.try_recv() {
            Ok(buffer) => Some(buffer),
            Err(_) => None,
        };
        observed(beat, samples)
    }
}

/// An operation of the control thread.
#[derive(Clone, Copy, Debug, PartialEq, Eq, Structural)]
pub enum Control {
    /// Stop the program.
    Quit,
    /// Raise the tempo by one beat per minute.
    TempoUp,
    /// Lower the tempo by one beat per minute.
    TempoDown,
    /// Do nothing.
    Pass,
}

impl Control {
    /// The operation that a key stands for: `q` quits, `+` raises the tempo,
    /// `-` lowers it, and every other key does nothing.
    pub fn for_key(key: char) -> (control: Control)
        ensures
            control == if key == 'q' {
                Control::Quit
            } else if key == '+' {
                Control::TempoUp
            } else if key == '-' {
                Control::TempoDown
            } else {
                Control::Pass
            },
    {
        if key == 'q' {
            Control::Quit
        } else if key == '+' {
            Control::TempoUp
        } else if key == '-' {
            Control::TempoDown
        } else {
            Control::Pass
        }
    }
}

impl App {
    /// The tempo after `control`.
    pub open spec fn tempo_after(&self, control: Control) -> nat {
        match control {
            Control::TempoUp => (self.tempo() + 1) as nat,
            Control::TempoDown => lowered(self.tempo() as nat),
            _ => self.tempo() as nat,
        }
    }

    /// Carries out one operation and says whether the program goes on.
    pub fn apply(&mut self, control: Control) -> (running: bool)
        requires
            control == Control::TempoUp ==> old(self).tempo() < u128::MAX,
        ensures
            final(self).wf(),
            final(self).tempo() == old(self).tempo_after(control),
            running == (control != Control::Quit),
    {
        proof {
            use_type_invariant(&*self);
        }
        match control {
            Control::Quit => false,
            Control::TempoUp => {
                self.increment();
                true
            },
            Control::TempoDown => {
                self.decrement();
                true
            },
            Control::Pass => true,
        }
    }
}

} // verus!
