//! The beat scheduler: once per audio callback it decides whether the tempo's
//! interval has passed since the last beat, and if so moves on to the next
//! pitch of the track.
//!
//! Time is a reading of a monotonic clock in whole milliseconds. At most one
//! beat fires per check, however long ago the last one was: after a stall the
//! schedule falls behind the clock and stays behind.

use vstd::prelude::*;
use crate::common::BeatEvent;
use crate::cyclic::{lemma_wrap_next, lemma_wrap_step, wrap_next};
use crate::music::{Note, Track};

verus! {

/// Milliseconds in a minute.
pub const MINUTE_MS: u128 = 60000;

/// The length of one beat in milliseconds at `bpm` beats per minute, rounded down.
pub open spec fn beat_interval(bpm: nat) -> nat
    recommends
        bpm >= 1,
{
    60000nat / bpm
}

/// The time from the reading `last` to the reading `now`; zero if `now` is the
/// earlier one.
pub open spec fn elapsed_between(last: nat, now: nat) -> nat {
    if now >= last {
        (now - last) as nat
    } else {
        0
    }
}

/// The length of one beat in milliseconds at `bpm` beats per minute.
pub fn bpm_to_miliseconds(bpm: &u128) -> (interval: u128)
    requires
        *bpm >= 1,
    ensures
        interval == beat_interval(*bpm as nat),
{
    MINUTE_MS / *bpm
}

/// What a scheduler is, as a mathematical value.
pub struct Schedule {
    /// The pitches, one per beat.
    pub track: Seq<Note>,
    /// The position in the track of the pitch that is sounding.
    pub index: nat,
    /// The clock reading at the last beat.
    pub last_beat: nat,
}

impl Schedule {
    /// The position is inside the track.
    pub open spec fn wf(self) -> bool {
        self.index < self.track.len()
    }

    /// The pitch that is sounding.
    pub open spec fn current(self) -> Note {
        self.track[self.index as int]
    }

    /// Whether a beat is due at the reading `now`: the time since the last
    /// beat is at least one interval.
    pub open spec fn due(self, now: nat, bpm: nat) -> bool {
        elapsed_between(self.last_beat, now) >= beat_interval(bpm)
    }

    /// The schedule one beat later, the beat falling at `now`.
    pub open spec fn fired(self, now: nat) -> Schedule {
        Schedule {
            track: self.track,
            index: wrap_next(self.index, self.track.len()),
            last_beat: now,
        }
    }

    /// The schedule after one check at the reading `now`.
    pub open spec fn checked(self, now: nat, bpm: nat) -> Schedule {
        if self.due(now, bpm) {
            self.fired(now)
        } else {
            self
        }
    }

    /// The schedule after a run of checks, each given as a clock reading and
    /// the tempo at that moment.
    pub open spec fn after_checks(self, checks: Seq<(nat, nat)>) -> Schedule
        decreases checks.len(),
    {
        if checks.len() == 0 {
            self
        } else {
            let (now, bpm) = checks.last();
            self.after_checks(checks.drop_last()).checked(now, bpm)
        }
    }

    /// How many of the checks of a run fire a beat.
    pub open spec fn beats_during(self, checks: Seq<(nat, nat)>) -> nat
        decreases checks.len(),
    {
        if checks.len() == 0 {
            0
        } else {
            let (now, bpm) = checks.last();
            let earlier = self.beats_during(checks.drop_last());
            if self.after_checks(checks.drop_last()).due(now, bpm) {
                earlier + 1
            } else {
                earlier
            }
        }
    }
}

/// The scheduler of one stream.
pub struct BeatScheduler {
    track: Track,
    index: usize,
    last_beat: u128,
}

impl View for BeatScheduler {
    type V = Schedule;

    closed spec fn view(&self) -> Schedule {
        Schedule { track: self.track@, index: self.index as nat, last_beat: self.last_beat as nat }
    }
}

impl BeatScheduler {
    /// The position is inside the track.
    #[verifier::type_invariant]
    pub open spec fn wf(&self) -> bool {
        self@.wf()
    }

    /// A scheduler at the start of `track`, its last beat at the reading `now_ms`.
    pub fn new(track: Track, now_ms: u128) -> (scheduler: BeatScheduler)
        ensures
            scheduler.wf(),
            scheduler@ == (Schedule { track: track@, index: 0, last_beat: now_ms as nat }),
    {
        proof {
            use_type_invariant(&track);
        }
        BeatScheduler { track, index: 0, last_beat: now_ms }
    }

    /// The position in the track of the pitch that is sounding.
    pub fn index(&self) -> (index: usize)
        ensures
            index == self@.index,
            index < self@.track.len(),
    {
        proof {
            use_type_invariant(self);
        }
        self.index
    }

    /// The clock reading at the last beat.
    pub fn last_beat(&self) -> (reading: u128)
        ensures
            reading == self@.last_beat,
    {
        self.last_beat
    }

    /// The pitch that is sounding.
    pub fn current(&self) -> (note: Note)
        ensures
            note == self@.current(),
    {
        proof {
            use_type_invariant(self);
        }
        self.track.note(self.index)
    }

    /// The check of one audio callback, at the clock reading `now_ms` and the
    /// tempo `bpm`. If at least one interval has passed since the last beat,
    /// the scheduler moves to the next pitch, takes `now_ms` as the time of
    /// the beat and returns the event that carries the new pitch. Otherwise
    /// nothing changes.
    pub fn check(&mut self, now_ms: u128, bpm: u128) -> (beat: Option<BeatEvent>)
        requires
            bpm >= 1,
        ensures
            final(self).wf(),
            final(self)@ == old(self)@.checked(now_ms as nat, bpm as nat),
            beat is Some <==> old(self)@.due(now_ms as nat, bpm as nat),
            beat matches Some(event) ==> event.note == final(self)@.current(),
            beat is Some ==> final(self)@.index == if old(self)@.index + 1 == old(
                self,
            )@.track.len() {
                0
            } else {
                old(self)@.index + 1
            },
    {
        proof {
            use_type_invariant(&*self);
        }
        let elapsed: u128 = if now_ms >= self.last_beat {
            now_ms - self.last_beat
        } else {
            0
        };
        if elapsed >= bpm_to_miliseconds(&bpm) {
            let len: usize = self.track.len();
            let mut next: usize = self.index + 1;
            if next == len {
                next = 0;
            }
            proof {
                lemma_wrap_next(self.index as nat, len as nat);
            }
            self.index = next;
            self.last_beat = now_ms;
            Some(BeatEvent { note: self.track.note(next) })
        } else {
            None
        }
    }
}

/// After any run of checks, at whatever readings and tempos, the position is
/// the old position plus the number of beats that fired, modulo the track's
/// length. From the start of the track it is the number of beats modulo the
/// length. The track itself never changes.
pub proof fn lemma_index_counts_beats(schedule: Schedule, checks: Seq<(nat, nat)>)
    requires
        schedule.wf(),
    ensures
        schedule.after_checks(checks).wf(),
        schedule.after_checks(checks).track == schedule.track,
        schedule.after_checks(checks).index == (schedule.index + schedule.beats_during(checks))
            % schedule.track.len(),
        schedule.index == 0 ==> schedule.after_checks(checks).index == schedule.beats_during(
            checks,
        ) % schedule.track.len(),
    decreases checks.len(),
{
    let len = schedule.track.len();
    if checks.len() == 0 {
        assert(schedule.index % len == schedule.index) by (nonlinear_arith)
            requires
                schedule.index < len,
        ;
    } else {
        let earlier = checks.drop_last();
        lemma_index_counts_beats(schedule, earlier);
        lemma_wrap_step(schedule.index, len, schedule.beats_during(earlier));
        lemma_wrap_next(schedule.after_checks(earlier).index, len);
    }
}

/// There is no catching up. However late a beat is, the check that fires it
/// moves the position by one and takes the reading as the time of the beat; so
/// at any tempo at which a beat lasts a millisecond or more, a second check at
/// the same reading fires nothing.
pub proof fn lemma_no_catch_up(schedule: Schedule, now: nat, bpm: nat)
    requires
        1 <= bpm <= 60000,
    ensures
        schedule.due(now, bpm) ==> schedule.checked(now, bpm).last_beat == now,
        schedule.due(now, bpm) ==> schedule.checked(now, bpm).index == wrap_next(
            schedule.index,
            schedule.track.len(),
        ),
        !schedule.checked(now, bpm).due(now, bpm),
{
    assert(60000nat / bpm >= 1) by (nonlinear_arith)
        requires
            1 <= bpm <= 60000,
    ;
}

/// The tempo reaches the position only through the question whether a beat is
/// due: two checks at tempos that agree on that question end in the same
/// state, and a check at which no beat is due changes nothing at any tempo.
pub proof fn lemma_tempo_acts_through_due(schedule: Schedule, now: nat, bpm: nat, other_bpm: nat)
    ensures
        schedule.due(now, bpm) == schedule.due(now, other_bpm) ==> schedule.checked(now, bpm)
            == schedule.checked(now, other_bpm),
        !schedule.due(now, bpm) ==> schedule.checked(now, bpm) == schedule,
        schedule.checked(now, bpm).index == schedule.index || schedule.checked(now, bpm).index
            == wrap_next(schedule.index, schedule.track.len()),
{
}

} // verus!
