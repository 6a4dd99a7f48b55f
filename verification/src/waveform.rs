//! The waveform generator: an oscillator whose phase clock counts samples and
//! wraps at the sample rate.
//!
//! The oscillator keeps the integer state only. The shape of the wave, which
//! turns a phase into an amplitude, is a function that the caller supplies; it
//! is handed the phase, the frequency and the sample rate, and nothing else.

use vstd::prelude::*;
use crate::cyclic::{
    lemma_wrap_advance, lemma_wrap_next, lemma_wrap_period, wrap_advance, wrap_next,
};

verus! {

/// Why an output format cannot drive an oscillator.
#[derive(Clone, Copy, Debug, PartialEq, Eq, Structural)]
pub enum FormatError {
    /// The sample rate is zero.
    NoSampleRate,
    /// The format has no channel.
    NoChannels,
}

/// Oscillator state of one output stream.
pub struct SinWave {
    sample_rate: u32,
    sample_clock: u32,
    nchannels: usize,
}

/// A wave shape is usable when it accepts every phase below the sample rate,
/// at every frequency.
pub open spec fn shape_is_total<A, V: Fn(u32, u32, u32) -> A>(shape: V) -> bool {
    forall|phase: u32, frequency: u32, rate: u32|
        phase < rate ==> #[trigger] call_requires(shape, (phase, frequency, rate))
}

impl SinWave {
    /// Samples per second; fixed for the life of the stream.
    pub closed spec fn rate(&self) -> u32 {
        self.sample_rate
    }

    /// The phase clock: how many samples into the current second the oscillator is.
    pub closed spec fn phase(&self) -> u32 {
        self.sample_clock
    }

    /// Samples per frame; fixed for the life of the stream.
    pub closed spec fn channels(&self) -> usize {
        self.nchannels
    }

    /// The phase stays below the sample rate, and a frame has at least one sample.
    #[verifier::type_invariant]
    pub open spec fn wf(&self) -> bool {
        &&& self.rate() > 0
        &&& self.phase() < self.rate()
        &&& self.channels() > 0
    }

    /// An oscillator at phase zero for the given format, or the reason why the
    /// format is unusable.
    pub fn new(sample_rate: u32, nchannels: usize) -> (made: Result<SinWave, FormatError>)
        ensures
            sample_rate == 0 <==> made == Err::<SinWave, FormatError>(FormatError::NoSampleRate),
            sample_rate > 0 && nchannels == 0 <==> made == Err::<SinWave, FormatError>(
                FormatError::NoChannels,
            ),
            sample_rate > 0 && nchannels > 0 <==> made is Ok,
            made matches Ok(wave) ==> {
                &&& wave.wf()
                &&& wave.rate() == sample_rate
                &&& wave.phase() == 0
                &&& wave.channels() == nchannels
            },
    {
        if sample_rate == 0 {
            Err(FormatError::NoSampleRate)
        } else if nchannels == 0 {
            Err(FormatError::NoChannels)
        } else {
            Ok(SinWave { sample_rate, sample_clock: 0, nchannels })
        }
    }

    /// Samples per second.
    pub fn sample_rate(&self) -> (rate: u32)
        ensures
            rate == self.rate(),
            rate > 0,
    {
        proof {
            use_type_invariant(self);
        }
        self.sample_rate
    }

    /// The current phase.
    pub fn sample_clock(&self) -> (phase: u32)
        ensures
            phase == self.phase(),
            phase < self.rate(),
    {
        proof {
            use_type_invariant(self);
        }
        self.sample_clock
    }

    /// Samples per frame.
    pub fn nchannels(&self) -> (channels: usize)
        ensures
            channels == self.channels(),
            channels > 0,
    {
        proof {
            use_type_invariant(self);
        }
        self.nchannels
    }

    /// Advances the phase by one sample period, wrapping at the sample rate.
    pub fn tick(&mut self)
        ensures
            final(self).wf(),
            final(self).phase() == wrap_next(old(self).phase() as nat, old(self).rate() as nat),
            final(self).phase() == if old(self).phase() + 1 == old(self).rate() {
                0
            } else {
                old(self).phase() + 1
            },
            final(self).rate() == old(self).rate(),
            final(self).channels() == old(self).channels(),
    {
        proof {
            use_type_invariant(&*self);
            lemma_wrap_next(self.sample_clock as nat, self.sample_rate as nat);
        }
        self.sample_clock = (self.sample_clock + 1) % self.sample_rate;
    }

    /// The amplitude that `shape` gives at the current phase for `frequency`.
    /// The oscillator is only read: any number of tones may be taken at one phase.
    pub fn tone<A, V: Fn(u32, u32, u32) -> A>(&self, frequency: u32, shape: &V) -> (amplitude: A)
        requires
            shape_is_total(*shape),
        ensures
            call_ensures(*shape, (self.phase(), frequency, self.rate()), amplitude),
    {
        proof {
            use_type_invariant(self);
        }
        shape(self.sample_clock, frequency, self.sample_rate)
    }
}

/// The phase clock is periodic: after as many ticks as the sample rate, the
/// phase is what it was.
pub proof fn lemma_tick_periodic(wave: SinWave)
    requires
        wave.wf(),
    ensures
        wrap_advance(wave.phase() as nat, wave.rate() as nat, wave.rate() as nat) == wave.phase(),
{
    lemma_wrap_period(wave.phase() as nat, wave.rate() as nat);
}

/// After any number of ticks the phase is the sum of the old phase and that
/// number, modulo the sample rate.
pub proof fn lemma_tick_many(wave: SinWave, ticks: nat)
    requires
        wave.wf(),
    ensures
        wrap_advance(wave.phase() as nat, wave.rate() as nat, ticks) == (wave.phase() as nat
            + ticks) % (wave.rate() as nat),
{
    lemma_wrap_advance(wave.phase() as nat, wave.rate() as nat, ticks);
}

/// A wave shape is a function when equal arguments always give it one amplitude.
pub open spec fn shape_is_pure<A, V: Fn(u32, u32, u32) -> A>(shape: V) -> bool {
    forall|phase: u32, frequency: u32, rate: u32, one: A, other: A|
        #![trigger
            call_ensures(shape, (phase, frequency, rate), one),
            call_ensures(shape, (phase, frequency, rate), other),
        ]
        call_ensures(shape, (phase, frequency, rate), one) && call_ensures(
            shape,
            (phase, frequency, rate),
            other,
        ) ==> one == other
}

/// With a shape that is a function, the tone is a function of phase, frequency
/// and sample rate: two tones taken at the same phase and rate, from one
/// oscillator or from two, are the same amplitude.
pub proof fn lemma_tone_repeatable<A, V: Fn(u32, u32, u32) -> A>(
    first: SinWave,
    second: SinWave,
    frequency: u32,
    shape: V,
    one: A,
    other: A,
)
    requires
        shape_is_pure(shape),
        first.phase() == second.phase(),
        first.rate() == second.rate(),
        call_ensures(shape, (first.phase(), frequency, first.rate()), one),
        call_ensures(shape, (second.phase(), frequency, second.rate()), other),
    ensures
        one == other,
{
}

} // verus!
