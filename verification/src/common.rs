//! What the audio thread and the control thread have in common: the tempo,
//! the beat event, and the channels that carry events and sample buffers from
//! the first to the second.

use vstd::prelude::*;
use std::sync::mpsc::{channel, Receiver, Sender};
use crate::music::Note;

verus! {

/// A beat boundary was crossed; `note` is the pitch that starts with it.
#[derive(Clone, Copy, Debug, PartialEq, Eq, Structural)]
pub struct BeatEvent {
    pub note: Note,
}

/// Something that wants to hear of beats.
pub trait Beat {
    fn on_beat(&self, beat_event: BeatEvent);
}

/// The shared tempo in beats per minute. It is never below one.
pub struct App {
    bpm: u128,
}

/// The tempo one decrement below `bpm`, held at one.
pub open spec fn lowered(bpm: nat) -> nat {
    if bpm > 1 {
        (bpm - 1) as nat
    } else {
        1
    }
}

/// The tempo after `times` decrements.
pub open spec fn lowered_by(bpm: nat, times: nat) -> nat
    decreases times,
{
    if times == 0 {
        bpm
    } else {
        lowered(lowered_by(bpm, (times - 1) as nat))
    }
}

impl App {
    /// The tempo in beats per minute.
    pub closed spec fn tempo(&self) -> u128 {
        self.bpm
    }

    /// The tempo is at least one beat per minute.
    #[verifier::type_invariant]
    pub open spec fn wf(&self) -> bool {
        self.tempo() >= 1
    }

    /// Reads the tempo.
    pub fn bpm(&self) -> (bpm: u128)
        ensures
            bpm == self.tempo(),
            bpm >= 1,
    {
        proof {
            use_type_invariant(self);
        }
        self.bpm
    }

    /// Raises the tempo by one beat per minute.
    pub fn increment(&mut self)
        requires
            old(self).tempo() < u128::MAX,
        ensures
            final(self).wf(),
            final(self).tempo() == old(self).tempo() + 1,
    {
        proof {
            use_type_invariant(&*self);
        }
        self.bpm = self.bpm + 1;
    }

    /// Lowers the tempo by one beat per minute, but never below one.
    pub fn decrement(&mut self)
        ensures
            final(self).wf(),
            final(self).tempo() == lowered(old(self).tempo() as nat),
    {
        proof {
            use_type_invariant(&*self);
        }
        if self.bpm > 1 {
            self.bpm = self.bpm - 1;
        }
    }
}

impl Default for App {
    /// Sixty beats per minute.
    fn default() -> (app: App)
        ensures
            app.wf(),
            app.tempo() == 60,
    {
        App { bpm: 60 }
    }
}

/// Decrements never take the tempo below one: after `times` of them a tempo
/// that was above `times` is lower by `times`, and any other tempo is one.
pub proof fn lemma_lowered_by(bpm: nat, times: nat)
    requires
        bpm >= 1,
    ensures
        lowered_by(bpm, times) >= 1,
        lowered_by(bpm, times) == if bpm > times {
            (bpm - times) as nat
        } else {
            1
        },
    decreases times,
{
    if times > 0 {
        lemma_lowered_by(bpm, (times - 1) as nat);
    }
}

/// The two ends of one unbounded channel.
#[verifier::reject_recursive_types(T)]
pub struct ChannelPair<T> {
    pub tx: Sender<T>,
    pub rx: Receiver<T>,
}

impl<T> ChannelPair<T> {
    /// Opens a channel and keeps both of its ends.
    pub fn new() -> (pair: Self) {
        let (tx, rx) = channel();
        Self { tx, rx }
    }
}

/// The channels from the audio thread to its observer: one for beats, one for
/// the sample buffer of each callback. `A` is the type of an amplitude.
#[verifier::reject_recursive_types(A)]
pub struct ThreadComm<A> {
    pub beats: ChannelPair<BeatEvent>,
    pub samples: ChannelPair<Vec<A>>,
}

impl<A> Default for ThreadComm<A> {
    fn default() -> (comm: Self) {
        ThreadComm { beats: ChannelPair::new(), samples: ChannelPair::new() }
    }
}

} // verus!
