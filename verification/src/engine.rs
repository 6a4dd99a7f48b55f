//! The audio engine: what happens in one audio callback. The scheduler is
//! checked once, a beat that fired is published, every frame of the output
//! buffer is filled from the oscillator at the pitch that is sounding, and the
//! rendered amplitudes are published as one sample buffer.
//!
//! Amplitudes and device samples are values of types that the caller chooses.
//! Two functions of the caller make them: `shape` turns a phase, a frequency
//! and a sample rate into an amplitude, and `encode` turns an amplitude into a
//! device sample.

use vstd::prelude::*;
use std::sync::mpsc::Sender;
use std::time::Instant;
use crate::common::BeatEvent;
use crate::cyclic::{lemma_wrap_step, wrap_next};
use crate::music::{Note, Track};
use crate::scheduler::{BeatScheduler, Schedule};
use crate::waveform::{shape_is_total, FormatError, SinWave};

verus! {

/// An encoder is usable when it accepts every amplitude.
pub open spec fn encoder_is_total<A, T, E: Fn(&A) -> T>(encode: E) -> bool {
    forall|amplitude: &A| #[trigger] call_requires(encode, (amplitude,))
}

/// The number of frames in a buffer of `len` samples with `channels` samples
/// to a frame. A last frame that is cut short counts.
pub open spec fn frame_count(len: nat, channels: nat) -> nat
    recommends
        channels > 0,
{
    ((len + channels - 1) / (channels as int)) as nat
}

/// The phase after `ticks` ticks from `phase`, at the sample rate `rate`.
pub open spec fn phase_after(phase: nat, rate: nat, ticks: nat) -> nat
    recommends
        rate > 0,
{
    (phase + ticks) % rate
}

/// What one callback's rendering is. The oscillator `before` ticks once per
/// frame, before that frame's amplitude is taken, so frame `k` sounds at the
/// phase `k + 1` ticks on. `samples` holds one amplitude per frame, and every
/// sample of a frame in `output` is that frame's amplitude, encoded.
pub open spec fn rendered<T, A, V: Fn(u32, u32, u32) -> A, E: Fn(&A) -> T>(
    shape: V,
    encode: E,
    before: SinWave,
    frequency: u32,
    samples: Seq<A>,
    output: Seq<T>,
) -> bool {
    &&& samples.len() == frame_count(output.len(), before.channels() as nat)
    &&& forall|k: int|
        0 <= k < samples.len() ==> call_ensures(
            shape,
            (
                phase_after(before.phase() as nat, before.rate() as nat, (k + 1) as nat) as u32,
                frequency,
                before.rate(),
            ),
            #[trigger] samples[k],
        )
    &&& forall|i: int|
        0 <= i < output.len() ==> call_ensures(
            encode,
            (&samples[i / (before.channels() as int)],),
            #[trigger] output[i],
        )
}

/// One frame's amplitude: the oscillator ticks, then the tone is taken at the
/// new phase.
pub fn play_note<A, V: Fn(u32, u32, u32) -> A>(
    waveform: &mut SinWave,
    frequency: u32,
    shape: &V,
) -> (amplitude: A)
    requires
        shape_is_total(*shape),
    ensures
        final(waveform).wf(),
        final(waveform).phase() == wrap_next(
            old(waveform).phase() as nat,
            old(waveform).rate() as nat,
        ),
        final(waveform).rate() == old(waveform).rate(),
        final(waveform).channels() == old(waveform).channels(),
        call_ensures(
            *shape,
            (final(waveform).phase(), frequency, final(waveform).rate()),
            amplitude,
        ),
{
    waveform.tick();
    waveform.tone(frequency, shape)
}

/// Fills `output` with the pitch of frequency `note`, frame by frame, and
/// returns the amplitudes, one per frame.
pub fn update_sample_buffer<T: Copy, A, V: Fn(u32, u32, u32) -> A, E: Fn(&A) -> T>(
    output: &mut [T],
    request: &mut SinWave,
    shape: &V,
    encode: &E,
    note: u32,
) -> (samples: Vec<A>)
    requires
        shape_is_total(*shape),
        encoder_is_total(*encode),
    ensures
        final(output)@.len() == old(output)@.len(),
        rendered(*shape, *encode, *old(request), note, samples@, final(output)@),
        final(request).wf(),
        final(request).rate() == old(request).rate(),
        final(request).channels() == old(request).channels(),
        final(request).phase() == phase_after(
            old(request).phase() as nat,
            old(request).rate() as nat,
            samples@.len(),
        ),
{
    let channels: usize = request.nchannels();
    let len: usize = output.len();
    let ghost rate: nat = request.rate() as nat;
    let ghost start: nat = request.phase() as nat;
    let mut samples: Vec<A> = Vec::new();
    let mut begin: usize = 0;
    proof {
        use_type_invariant(&*request);
        assert(start % rate == start) by (nonlinear_arith)
            requires
                start < rate,
        ;
        assert((0 + channels - 1) / (channels as int) == 0) by (nonlinear_arith)
            requires
                channels > 0,
        ;
    }
    while begin < len
        invariant
            shape_is_total(*shape),
            encoder_is_total(*encode),
            channels > 0,
            channels == old(request).channels(),
            rate == old(request).rate(),
            start == old(request).phase(),
            len == output@.len(),
            len == old(output)@.len(),
            begin <= len,
            begin < len ==> begin == samples@.len() * channels,
            samples@.len() == frame_count(begin as nat, channels as nat),
            request.wf(),
            request.rate() == rate,
            request.channels() == channels,
            request.phase() == phase_after(start, rate, samples@.len()),
            forall|k: int|
                0 <= k < samples@.len() ==> call_ensures(
                    *shape,
                    (phase_after(start, rate, (k + 1) as nat) as u32, note, rate as u32),
                    #[trigger] samples@[k],
                ),
            forall|i: int|
                0 <= i < begin ==> call_ensures(
                    *encode,
                    (&samples@[i / (channels as int)],),
                    #[trigger] output@[i],
                ),
            forall|i: int| 0 <= i < begin ==> #[trigger] (i / (channels as int)) < samples@.len(),
        decreases len - begin,
    {
        let ghost frame: int = samples@.len() as int;
        let ghost earlier: Seq<A> = samples@;
        proof {
            lemma_wrap_step(start, rate, frame as nat);
        }
        let amplitude: A = play_note(request, note, shape);
        let value: T = encode(&amplitude);
        samples.push(amplitude);
        let end: usize = if len - begin < channels {
            len
        } else {
            begin + channels
        };
        proof {
            assert forall|i: int| 0 <= i < begin implies call_ensures(
                *encode,
                (&samples@[i / (channels as int)],),
                #[trigger] output@[i],
            ) by {
                assert(i / (channels as int) < frame);
                assert(samples@[i / (channels as int)] == earlier[i / (channels as int)]);
            }
        }
        let mut at: usize = begin;
        while at < end
            invariant
                channels > 0,
                begin == frame * channels,
                begin <= at <= end,
                end <= len,
                end <= begin + channels,
                len == output@.len(),
                samples@.len() == frame + 1,
                call_ensures(*encode, (&samples@[frame],), value),
                forall|i: int|
                    0 <= i < begin ==> call_ensures(
                        *encode,
                        (&samples@[i / (channels as int)],),
                        #[trigger] output@[i],
                    ),
                forall|i: int|
                    begin <= i < at ==> call_ensures(
                        *encode,
                        (&samples@[frame],),
                        #[trigger] output@[i],
                    ),
            decreases end - at,
        {
            output[at] = value;
            at += 1;
        }
        proof {
            let c = channels as int;
            assert forall|i: int| 0 <= i < end implies #[trigger] (i / c) < frame + 1 by {
                if i >= begin {
                    lemma_frame_of(i, frame, c);
                }
            }
            assert forall|i: int| 0 <= i < end implies call_ensures(
                *encode,
                (&samples@[i / c],),
                #[trigger] output@[i],
            ) by {
                if i >= begin {
                    lemma_frame_of(i, frame, c);
                }
            }
            lemma_frame_count_step(begin as int, end as int, frame, c);
        }
        begin = end;
    }
    samples
}

/// The state of one output stream: its oscillator, its scheduler, and the
/// clock reading from which the scheduler's time is counted.
pub struct Engine {
    request: SinWave,
    scheduler: BeatScheduler,
    started: Instant,
}

impl Engine {
    /// The oscillator.
    pub closed spec fn wave(&self) -> SinWave {
        self.request
    }

    /// The scheduler's state.
    pub closed spec fn schedule(&self) -> Schedule {
        self.scheduler@
    }

    /// Oscillator and scheduler are well formed.
    pub open spec fn wf(&self) -> bool {
        &&& self.wave().wf()
        &&& self.schedule().wf()
    }

    /// What one callback does to the engine and to the output buffer, at the
    /// clock reading `now` and the tempo `bpm`: the scheduler is checked once,
    /// and the buffer is rendered at the pitch that sounds after the check.
    pub open spec fn advanced<T, A, V: Fn(u32, u32, u32) -> A, E: Fn(&A) -> T>(
        self,
        after: Engine,
        now: nat,
        bpm: nat,
        shape: V,
        encode: E,
        samples: Seq<A>,
        output: Seq<T>,
    ) -> bool {
        &&& after.schedule() == self.schedule().checked(now, bpm)
        &&& rendered(
            shape,
            encode,
            self.wave(),
            after.schedule().current().hz() as u32,
            samples,
            output,
        )
        &&& after.wave().rate() == self.wave().rate()
        &&& after.wave().channels() == self.wave().channels()
        &&& after.wave().phase() == phase_after(
            self.wave().phase() as nat,
            self.wave().rate() as nat,
            samples.len(),
        )
    }

    /// The engine of a stream with the given format, at the start of `track`,
    /// the oscillator at phase zero and the last beat at this moment; or the
    /// reason why the format is unusable.
    pub fn new(sample_rate: u32, nchannels: usize, track: Track) -> (made: Result<
        Engine,
        FormatError,
    >)
        ensures
            sample_rate == 0 <==> made == Err::<Engine, FormatError>(FormatError::NoSampleRate),
            sample_rate > 0 && nchannels == 0 <==> made == Err::<Engine, FormatError>(
                FormatError::NoChannels,
            ),
            sample_rate > 0 && nchannels > 0 <==> made is Ok,
            made matches Ok(engine) ==> {
                &&& engine.wf()
                &&& engine.wave().rate() == sample_rate
                &&& engine.wave().channels() == nchannels
                &&& engine.wave().phase() == 0
                &&& engine.schedule() == (Schedule { track: track@, index: 0, last_beat: 0 })
            },
    {
        match SinWave::new(sample_rate, nchannels) {
            Ok(request) => {
                let scheduler = BeatScheduler::new(track, 0);
                Ok(Engine { request, scheduler, started: Instant::now() })
            },
            Err(reason) => Err(reason),
        }
    }

    /// The oscillator's phase.
    pub fn sample_clock(&self) -> (phase: u32)
        ensures
            phase == self.wave().phase(),
            phase < self.wave().rate(),
    {
        self.request.sample_clock()
    }

    /// The position in the track of the pitch that is sounding.
    pub fn index(&self) -> (index: usize)
        ensures
            index == self.schedule().index,
            index < self.schedule().track.len(),
    {
        self.scheduler.index()
    }

    /// The pitch that is sounding.
    pub fn current(&self) -> (note: Note)
        ensures
            note == self.schedule().current(),
    {
        self.scheduler.current()
    }

    /// One callback at a given clock reading, in milliseconds since the engine
    /// was made. Returns the beat that fired, if one did, and the amplitudes
    /// of the rendered frames.
    pub fn advance<T: Copy, A, V: Fn(u32, u32, u32) -> A, E: Fn(&A) -> T>(
        &mut self,
        now_ms: u128,
        bpm: u128,
        output: &mut [T],
        shape: &V,
        encode: &E,
    ) -> (done: (Option<BeatEvent>, Vec<A>))
        requires
            bpm >= 1,
            shape_is_total(*shape),
            encoder_is_total(*encode),
        ensures
            final(self).wf(),
            final(output)@.len() == old(output)@.len(),
            old(self).advanced(
                *final(self),
                now_ms as nat,
                bpm as nat,
                *shape,
                *encode,
                done.1@,
                final(output)@,
            ),
            done.0 is Some <==> old(self).schedule().due(now_ms as nat, bpm as nat),
            done.0 matches Some(event) ==> event.note == final(self).schedule().current(),
    {
        let beat = self.scheduler.check(now_ms, bpm);
        let frequency: u32 = self.scheduler.current().freq();
        let samples = update_sample_buffer(output, &mut self.request, shape, encode, frequency);
        (beat, samples)
    }

    /// One callback: reads the clock, advances, and publishes first the beat,
    /// if one fired, and then the sample buffer. A send that fails because the
    /// observer is gone is not an error here. Returns the clock reading that
    /// the callback went by, in milliseconds since the engine was made.
    pub fn on_output<T: Copy, A, V: Fn(u32, u32, u32) -> A, E: Fn(&A) -> T>(
        &mut self,
        output: &mut [T],
        bpm: u128,
        shape: &V,
        encode: &E,
        beat_sender: &Sender<BeatEvent>,
        sample_sender: &Sender<Vec<A>>,
    ) -> (now_ms: u128)
        requires
            bpm >= 1,
            shape_is_total(*shape),
            encoder_is_total(*encode),
        ensures
            final(self).wf(),
            final(output)@.len() == old(output)@.len(),
            exists|samples: Seq<A>|
                old(self).advanced(
                    *final(self),
                    now_ms as nat,
                    bpm as nat,
                    *shape,
                    *encode,
                    samples,
                    final(output)@,
                ),
    {
        let now_ms: u128 = self.started.elapsed().as_millis();
        let (beat, samples) = self.advance(now_ms, bpm, output, shape, encode);
        if let Some(event) = beat {
            let _ = beat_sender.send(event);
        }
        let _ = sample_sender.send(samples);
        now_ms
    }
}

/// A sample whose index lies in the frame's range belongs to that frame.
proof fn lemma_frame_of(i: int, frame: int, channels: int)
    requires
        channels > 0,
        frame >= 0,
        frame * channels <= i < frame * channels + channels,
    ensures
        i / channels == frame,
{
    assert(i / channels == frame) by (nonlinear_arith)
        requires
            channels > 0,
            frame * channels <= i < frame * channels + channels,
    ;
}

/// One more frame, whole or cut short, is one more in the count of frames.
proof fn lemma_frame_count_step(begin: int, end: int, frame: int, channels: int)
    requires
        channels > 0,
        frame >= 0,
        begin == frame * channels,
        begin < end <= begin + channels,
    ensures
        (end + channels - 1) / channels == frame + 1,
        end == begin + channels ==> end == (frame + 1) * channels,
{
    assert((end + channels - 1) / channels == frame + 1) by (nonlinear_arith)
        requires
            channels > 0,
            frame * channels < end <= frame * channels + channels,
    ;
    assert(end == begin + channels ==> end == (frame + 1) * channels) by (nonlinear_arith)
        requires
            begin == frame * channels,
    ;
}

} // verus!
