use echokit::afe::{is_louder_than, SpeechSegmenter};
use echokit::app::Event;

#[test]
fn loudness_compares_the_mean_with_the_scaled_trigger() {
    // mean 300, trigger 300 at full volume: not above
    assert!(!is_louder_than(&[300, -300, 300, -300], 300, 5));
    // mean 301 > 300
    assert!(is_louder_than(&[301, -301, 301, -301], 300, 5));
    // at level 3 the trigger is 180
    assert!(!is_louder_than(&[180, -180], 300, 3));
    assert!(is_louder_than(&[181, -180, 180], 300, 3));
    // at level 0 anything above silence is louder
    assert!(is_louder_than(&[0, 1], 300, 0));
    assert!(!is_louder_than(&[0, 0], 300, 0));
    assert!(!is_louder_than(&[], 300, 5));
    assert!(is_louder_than(&[i16::MIN; 8], 32767, 5));
}

#[test]
fn speech_while_silent_is_forwarded_window_by_window() {
    let mut seg = SpeechSegmenter::new(300);
    assert_eq!(seg.on_window(false, 5, vec![0, 0], false), None);
    assert_eq!(seg.on_window(false, 5, vec![], true), None);
    assert_eq!(seg.on_window(false, 5, vec![1, 2], true), Some(Event::MicAudioChunk(vec![1, 2])));
    assert_eq!(seg.on_window(false, 5, vec![3], true), Some(Event::MicAudioChunk(vec![3])));
    assert_eq!(seg.on_window(false, 5, vec![0], false), Some(Event::MicAudioEnd));
    assert_eq!(seg.on_window(false, 5, vec![0], false), None);
}

#[test]
fn speech_while_playing_is_held_and_judged_at_its_end() {
    let mut seg = SpeechSegmenter::new(300);
    assert_eq!(seg.on_window(true, 5, vec![400, -400], true), None);
    assert_eq!(seg.on_window(true, 5, vec![500], true), None);
    assert_eq!(
        seg.on_window(true, 5, vec![0], false),
        Some(Event::MicInterrupt(vec![400, -400, 500]))
    );
    // a quiet segment is dropped
    assert_eq!(seg.on_window(true, 5, vec![100, -100], true), None);
    assert_eq!(seg.on_window(true, 5, vec![0], false), None);
    // and nothing of it is left
    assert_eq!(seg.on_window(false, 5, vec![7], true), Some(Event::MicAudioChunk(vec![7])));
}

#[test]
fn the_volume_is_read_when_the_segment_opens() {
    let mut seg = SpeechSegmenter::new(300);
    // opens at level 1: the trigger is 60
    assert_eq!(seg.on_window(true, 1, vec![100, -100], true), None);
    // a later level does not count
    assert_eq!(seg.on_window(true, 5, vec![100], true), None);
    assert_eq!(
        seg.on_window(true, 5, vec![0], false),
        Some(Event::MicInterrupt(vec![100, -100, 100]))
    );
}

#[test]
fn a_held_segment_that_ends_in_silence_is_sent_whole() {
    let mut seg = SpeechSegmenter::new(300);
    assert_eq!(seg.on_window(true, 5, vec![1, 1], true), None);
    // playback stops, the segment goes on: still held
    assert_eq!(seg.on_window(false, 5, vec![2], true), None);
    assert_eq!(seg.on_window(false, 5, vec![0], false), Some(Event::MicInterrupt(vec![1, 1, 2])));
}

#[test]
fn a_failed_fetch_changes_nothing() {
    let mut seg = SpeechSegmenter::new(300);
    assert_eq!(seg.on_fetch(false, 5, Ok((vec![1, 2], true))), Some(Event::MicAudioChunk(vec![1, 2])));
    assert_eq!(seg.on_fetch(false, 5, Err(-1)), None);
    assert_eq!(seg.on_fetch(false, 5, Ok((vec![0], false))), Some(Event::MicAudioEnd));
    assert_eq!(seg.on_fetch(true, 5, Err(7)), None);
    assert_eq!(seg.on_fetch(true, 5, Ok((vec![0], false))), None);
}
