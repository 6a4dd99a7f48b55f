use aeonium::common::{BeatEvent, ThreadComm};
use aeonium::engine::Engine;
use aeonium::music::{Note, Track};
use aeonium::waveform::FormatError;

fn sine(phase: u32, frequency: u32, rate: u32) -> f32 {
    (phase as f32 * frequency as f32 * 2.0 * std::f32::consts::PI / rate as f32).sin()
}

fn same(amplitude: &f32) -> f32 {
    *amplitude
}

fn frequency_only(_phase: u32, frequency: u32, _rate: u32) -> u32 {
    frequency
}

fn keep(value: &u32) -> u32 {
    *value
}

#[test]
fn engine_refuses_a_format_without_sample_rate() {
    assert!(matches!(Engine::new(0, 2, Track::scale()), Err(FormatError::NoSampleRate)));
}

#[test]
fn engine_refuses_a_format_without_channels() {
    assert!(matches!(Engine::new(48000, 0, Track::scale()), Err(FormatError::NoChannels)));
}

#[test]
fn new_engine_is_at_the_start() {
    let engine = Engine::new(48000, 2, Track::scale()).ok().unwrap();
    assert_eq!(engine.sample_clock(), 0);
    assert_eq!(engine.index(), 0);
    assert_eq!(engine.current(), Note::C4);
}

#[test]
fn one_second_at_sixty_bpm_moves_from_c4_to_d4_once() {
    let track = Track::new(vec![Note::C4, Note::D4]).unwrap();
    let mut engine = Engine::new(48000, 2, track).ok().unwrap();
    let mut output = vec![0u32; 960];
    let mut beats = 0;
    let mut now: u128 = 0;
    while now < 1000 {
        let (beat, samples) = engine.advance(now, 60, &mut output, &frequency_only, &keep);
        assert_eq!(beat, None);
        assert_eq!(samples.len(), 480);
        assert!(samples.iter().all(|frequency| *frequency == 261));
        now += 10;
    }
    let (beat, samples) = engine.advance(1000, 60, &mut output, &frequency_only, &keep);
    if beat.is_some() {
        beats += 1;
    }
    assert_eq!(beat, Some(BeatEvent { note: Note::D4 }));
    assert_eq!(engine.current(), Note::D4);
    assert_eq!(engine.current().freq(), 294);
    assert!(samples.iter().all(|frequency| *frequency == 294));
    assert!(output.iter().all(|frequency| *frequency == 294));
    let mut now: u128 = 1010;
    while now < 2000 {
        let (beat, _) = engine.advance(now, 60, &mut output, &frequency_only, &keep);
        if beat.is_some() {
            beats += 1;
        }
        now += 10;
    }
    assert_eq!(beats, 1);
    assert_eq!(engine.index(), 1);
}

#[test]
fn the_new_pitch_sounds_in_the_callback_in_which_the_beat_fires() {
    let mut engine = Engine::new(48000, 1, Track::scale()).ok().unwrap();
    let mut output = vec![0u32; 4];
    let (beat, samples) = engine.advance(5000, 60, &mut output, &frequency_only, &keep);
    assert_eq!(beat, Some(BeatEvent { note: Note::D4 }));
    assert_eq!(samples, vec![294, 294, 294, 294]);
}

#[test]
fn advance_renders_sines_at_the_sounding_pitch() {
    let mut engine = Engine::new(48000, 2, Track::scale()).ok().unwrap();
    let mut output = vec![0.0f32; 20];
    let (beat, samples) = engine.advance(0, 60, &mut output, &sine, &same);
    assert_eq!(beat, None);
    assert_eq!(samples.len(), 10);
    for k in 0..10usize {
        let expected = ((k + 1) as f32 * 261.0 * 2.0 * std::f32::consts::PI / 48000.0).sin();
        assert_eq!(samples[k], expected);
        assert_eq!(output[2 * k], expected);
        assert_eq!(output[2 * k + 1], expected);
    }
    assert_eq!(engine.sample_clock(), 10);
}

#[test]
fn tempo_does_not_move_the_index_without_a_beat() {
    let mut engine = Engine::new(48000, 2, Track::scale()).ok().unwrap();
    let mut output = vec![0u32; 8];
    for bpm in [1u128, 30, 60, 61, 59, 100] {
        let (beat, _) = engine.advance(100, bpm, &mut output, &frequency_only, &keep);
        assert_eq!(beat, None);
        assert_eq!(engine.index(), 0);
    }
}

#[test]
fn on_output_publishes_the_beat_and_then_the_samples() {
    let comm: ThreadComm<u32> = ThreadComm::default();
    let mut engine = Engine::new(48000, 2, Track::scale()).ok().unwrap();
    let mut output = vec![0u32; 6];
    engine.on_output(
        &mut output,
        60001,
        &frequency_only,
        &keep,
        &comm.beats.tx,
        &comm.samples.tx,
    );
    assert_eq!(output, vec![294; 6]);
    assert_eq!(engine.index(), 1);
    assert_eq!(engine.sample_clock(), 3);
    let seen = comm.observe();
    assert_eq!(seen.beat, Some(BeatEvent { note: Note::D4 }));
    assert!(seen.has_beat());
    assert_eq!(seen.samples, vec![294, 294, 294]);
    let after = comm.observe();
    assert_eq!(after.beat, None);
    assert!(after.samples.is_empty());
}

#[test]
fn on_output_at_a_slow_tempo_publishes_samples_only() {
    let comm: ThreadComm<u32> = ThreadComm::default();
    let mut engine = Engine::new(48000, 2, Track::scale()).ok().unwrap();
    let mut output = vec![0u32; 4];
    let now = engine.on_output(&mut output, 1, &frequency_only, &keep, &comm.beats.tx, &comm.samples.tx);
    assert!(now < 60000);
    assert_eq!(engine.index(), 0);
    let seen = comm.observe();
    assert_eq!(seen.beat, None);
    assert!(!seen.has_beat());
    assert_eq!(seen.samples, vec![261, 261]);
}

#[test]
fn on_output_goes_on_when_the_observer_is_gone() {
    let comm: ThreadComm<u32> = ThreadComm::default();
    let beat_sender = comm.beats.tx.clone();
    let sample_sender = comm.samples.tx.clone();
    drop(comm);
    let mut engine = Engine::new(48000, 2, Track::scale()).ok().unwrap();
    let mut output = vec![0u32; 4];
    engine.on_output(&mut output, 60001, &frequency_only, &keep, &beat_sender, &sample_sender);
    engine.on_output(&mut output, 60001, &frequency_only, &keep, &beat_sender, &sample_sender);
    assert_eq!(engine.index(), 2);
    assert_eq!(output, vec![330; 4]);
}
