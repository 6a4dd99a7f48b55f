use aeonium::engine::update_sample_buffer;
use aeonium::waveform::SinWave;

fn sine(phase: u32, frequency: u32, rate: u32) -> f32 {
    (phase as f32 * frequency as f32 * 2.0 * std::f32::consts::PI / rate as f32).sin()
}

fn same(amplitude: &f32) -> f32 {
    *amplitude
}

fn to_i16(amplitude: &f32) -> i16 {
    (*amplitude * 32767.0) as i16
}

#[test]
fn ten_frames_of_two_channels_give_ten_amplitudes() {
    let mut wave = SinWave::new(48000, 2).ok().unwrap();
    let mut output = vec![0.0f32; 20];
    let samples = update_sample_buffer(&mut output, &mut wave, &sine, &same, 440);
    assert_eq!(samples.len(), 10);
    for k in 0..10usize {
        let phase = (k + 1) as f32;
        let expected = (phase * 440.0 * 2.0 * std::f32::consts::PI / 48000.0).sin();
        assert_eq!(samples[k], expected);
        assert_eq!(output[2 * k], expected);
        assert_eq!(output[2 * k + 1], expected);
    }
    assert_eq!(wave.sample_clock(), 10);
}

#[test]
fn every_channel_of_a_frame_gets_the_encoded_amplitude() {
    let mut wave = SinWave::new(44100, 3).ok().unwrap();
    let mut output = vec![0i16; 12];
    let samples = update_sample_buffer(&mut output, &mut wave, &sine, &to_i16, 523);
    assert_eq!(samples.len(), 4);
    for i in 0..12usize {
        assert_eq!(output[i], to_i16(&samples[i / 3]));
    }
    for k in 0..4usize {
        assert_eq!(samples[k], sine(k as u32 + 1, 523, 44100));
    }
}

#[test]
fn phases_continue_from_one_buffer_to_the_next() {
    let mut wave = SinWave::new(48000, 1).ok().unwrap();
    let phases = |phase: u32, _frequency: u32, _rate: u32| phase;
    let keep = |phase: &u32| *phase;
    let mut output = vec![0u32; 4];
    let first = update_sample_buffer(&mut output, &mut wave, &phases, &keep, 440);
    assert_eq!(first, vec![1, 2, 3, 4]);
    assert_eq!(output, vec![1, 2, 3, 4]);
    let second = update_sample_buffer(&mut output, &mut wave, &phases, &keep, 440);
    assert_eq!(second, vec![5, 6, 7, 8]);
    assert_eq!(wave.sample_clock(), 8);
}

#[test]
fn phases_wrap_at_the_sample_rate_inside_a_buffer() {
    let mut wave = SinWave::new(5, 2).ok().unwrap();
    let phases = |phase: u32, _frequency: u32, _rate: u32| phase;
    let keep = |phase: &u32| *phase;
    let mut output = vec![9u32; 14];
    let samples = update_sample_buffer(&mut output, &mut wave, &phases, &keep, 261);
    assert_eq!(samples, vec![1, 2, 3, 4, 0, 1, 2]);
    assert_eq!(output, vec![1, 1, 2, 2, 3, 3, 4, 4, 0, 0, 1, 1, 2, 2]);
    assert_eq!(wave.sample_clock(), 2);
}

#[test]
fn a_last_frame_cut_short_is_still_a_frame() {
    let mut wave = SinWave::new(48000, 2).ok().unwrap();
    let phases = |phase: u32, _frequency: u32, _rate: u32| phase;
    let keep = |phase: &u32| *phase;
    let mut output = vec![0u32; 5];
    let samples = update_sample_buffer(&mut output, &mut wave, &phases, &keep, 440);
    assert_eq!(samples, vec![1, 2, 3]);
    assert_eq!(output, vec![1, 1, 2, 2, 3]);
    assert_eq!(wave.sample_clock(), 3);
}

#[test]
fn an_empty_buffer_renders_nothing_and_leaves_the_phase() {
    let mut wave = SinWave::new(48000, 2).ok().unwrap();
    wave.tick();
    let mut output: Vec<f32> = Vec::new();
    let samples = update_sample_buffer(&mut output, &mut wave, &sine, &same, 440);
    assert!(samples.is_empty());
    assert_eq!(wave.sample_clock(), 1);
}

#[test]
fn the_shape_is_given_the_frequency_and_the_rate() {
    let mut wave = SinWave::new(22050, 1).ok().unwrap();
    let arguments = |phase: u32, frequency: u32, rate: u32| (phase, frequency, rate);
    let frequency_of = |seen: &(u32, u32, u32)| seen.1;
    let mut output = vec![0u32; 3];
    let samples = update_sample_buffer(&mut output, &mut wave, &arguments, &frequency_of, 294);
    assert_eq!(samples, vec![(1, 294, 22050), (2, 294, 22050), (3, 294, 22050)]);
    assert_eq!(output, vec![294, 294, 294]);
}

#[test]
fn more_channels_than_samples_is_one_short_frame() {
    let mut wave = SinWave::new(48000, 8).ok().unwrap();
    let phases = |phase: u32, _frequency: u32, _rate: u32| phase;
    let keep = |phase: &u32| *phase;
    let mut output = vec![0u32; 3];
    let samples = update_sample_buffer(&mut output, &mut wave, &phases, &keep, 440);
    assert_eq!(samples, vec![1]);
    assert_eq!(output, vec![1, 1, 1]);
}
