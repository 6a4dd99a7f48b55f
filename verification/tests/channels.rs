use aeonium::common::{BeatEvent, ChannelPair, ThreadComm};
use aeonium::control::observed;
use aeonium::music::Note;

#[test]
fn polling_before_any_audio_finds_nothing() {
    let comm: ThreadComm<f32> = ThreadComm::default();
    let seen = comm.observe();
    assert_eq!(seen.beat, None);
    assert!(!seen.has_beat());
    assert!(seen.samples.is_empty());
    let again = comm.observe();
    assert_eq!(again.beat, None);
    assert!(again.samples.is_empty());
}

#[test]
fn a_new_channel_pair_is_empty_and_connected() {
    let pair: ChannelPair<u8> = ChannelPair::new();
    assert!(pair.rx.try_recv().is_err());
    assert!(pair.tx.send(7).is_ok());
    assert_eq!(pair.rx.try_recv().ok(), Some(7));
    assert!(pair.rx.try_recv().is_err());
}

#[test]
fn a_channel_pair_hands_items_out_in_the_order_sent() {
    let pair: ChannelPair<u32> = ChannelPair::new();
    for item in 0..100u32 {
        assert!(pair.tx.send(item).is_ok());
    }
    for item in 0..100u32 {
        assert_eq!(pair.rx.try_recv().ok(), Some(item));
    }
    assert!(pair.rx.try_recv().is_err());
}

#[test]
fn the_two_channels_are_independent() {
    let comm: ThreadComm<f32> = ThreadComm::default();
    comm.samples.tx.send(vec![0.5, -0.5]).unwrap();
    let seen = comm.observe();
    assert_eq!(seen.beat, None);
    assert_eq!(seen.samples, vec![0.5, -0.5]);
    comm.beats.tx.send(BeatEvent { note: Note::E4 }).unwrap();
    let seen = comm.observe();
    assert_eq!(seen.beat, Some(BeatEvent { note: Note::E4 }));
    assert!(seen.samples.is_empty());
}

#[test]
fn observe_takes_one_item_from_each_channel() {
    let comm: ThreadComm<u8> = ThreadComm::default();
    comm.beats.tx.send(BeatEvent { note: Note::C4 }).unwrap();
    comm.beats.tx.send(BeatEvent { note: Note::D4 }).unwrap();
    comm.samples.tx.send(vec![1]).unwrap();
    comm.samples.tx.send(vec![2]).unwrap();
    let first = comm.observe();
    assert_eq!(first.beat, Some(BeatEvent { note: Note::C4 }));
    assert_eq!(first.samples, vec![1]);
    let second = comm.observe();
    assert_eq!(second.beat, Some(BeatEvent { note: Note::D4 }));
    assert_eq!(second.samples, vec![2]);
    let third = comm.observe();
    assert_eq!(third.beat, None);
    assert!(third.samples.is_empty());
}

#[test]
fn observed_keeps_what_was_polled() {
    let seen = observed(Some(BeatEvent { note: Note::B4 }), Some(vec![1.0f32, 2.0]));
    assert_eq!(seen.beat, Some(BeatEvent { note: Note::B4 }));
    assert!(seen.has_beat());
    assert_eq!(seen.samples, vec![1.0, 2.0]);
}

#[test]
fn observed_turns_nothing_into_no_beat_and_no_samples() {
    let seen = observed::<f32>(None, None);
    assert_eq!(seen.beat, None);
    assert!(!seen.has_beat());
    assert!(seen.samples.is_empty());
}
