use echokit::audio::{
    interleave, AudioEvent, AudioLoop, CompletionSignal, Dequeued, SendBuffer,
};

fn sig(id: u64) -> CompletionSignal {
    CompletionSignal { id }
}

fn drain(buffer: &mut SendBuffer) -> Vec<Vec<i16>> {
    let mut chunks = Vec::new();
    loop {
        let out = buffer.get_chunk();
        match out.chunk {
            Some(chunk) => chunks.push(chunk),
            None => return chunks,
        }
    }
}

#[test]
fn push_then_drain_yields_full_chunks_in_order() {
    for len in [0usize, 1, 3, 4, 5, 8, 11, 12, 13, 100] {
        let data: Vec<i16> = (0..len).map(|k| (k as i16) * 5 - 20).collect();
        let mut buffer = SendBuffer::new(4);
        buffer.push_i16(&data);
        assert_eq!(buffer.len(), len / 4);
        assert_eq!(buffer.rest_len(), len % 4);
        let chunks = drain(&mut buffer);
        assert_eq!(chunks.len(), len / 4);
        for chunk in &chunks {
            assert_eq!(chunk.len(), 4);
        }
        let flat: Vec<i16> = chunks.into_iter().flatten().collect();
        assert_eq!(flat, data[..(len / 4) * 4].to_vec());
        assert_eq!(buffer.len(), 0);
        assert_eq!(buffer.rest_len(), len % 4);
    }
}

#[test]
fn remainder_is_carried_into_the_next_push() {
    let mut buffer = SendBuffer::new(4);
    buffer.push_i16(&[1, 2, 3]);
    assert_eq!(buffer.get_chunk().chunk, None);
    buffer.push_i16(&[4, 5, 6, 7, 8, 9]);
    assert_eq!(buffer.get_chunk().chunk, Some(vec![1, 2, 3, 4]));
    assert_eq!(buffer.get_chunk().chunk, Some(vec![5, 6, 7, 8]));
    assert_eq!(buffer.get_chunk().chunk, None);
    assert_eq!(buffer.rest_len(), 1);
    buffer.push_i16(&[10, 11, 12]);
    assert_eq!(buffer.get_chunk().chunk, Some(vec![9, 10, 11, 12]));
}

#[test]
fn bytes_are_read_as_little_endian_pairs() {
    let mut buffer = SendBuffer::new(2);
    buffer.push_u8(&[0x01, 0x00, 0xff, 0xff, 0x10, 0x27, 0x99]);
    assert_eq!(buffer.get_chunk().chunk, Some(vec![1, -1]));
    assert_eq!(buffer.get_chunk().chunk, None);
    assert_eq!(buffer.rest_len(), 1);
    buffer.push_u8(&[0xf0, 0xd8]);
    assert_eq!(buffer.get_chunk().chunk, Some(vec![10000, -10000]));
}

#[test]
fn chunks_are_scaled_by_the_volume_at_completion() {
    let mut buffer = SendBuffer::new(2);
    assert_eq!(buffer.volume(), 5);
    assert_eq!(buffer.chunk_size(), 2);
    buffer.set_volume(3);
    buffer.push_i16(&[1000, -1000, 7]);
    buffer.set_volume(1);
    buffer.push_i16(&[-7, 50]);
    assert_eq!(buffer.get_chunk().chunk, Some(vec![600, -600]));
    assert_eq!(buffer.get_chunk().chunk, Some(vec![1, -1]));
    assert_eq!(buffer.rest_len(), 1);
}

#[test]
fn dequeue_passes_markers_and_reports_them() {
    let mut buffer = SendBuffer::new(2);
    buffer.push_back_end_speech(sig(1));
    buffer.push_viseme(4);
    buffer.push_viseme(9);
    buffer.push_i16(&[1, 2, 3, 4]);
    buffer.push_back_end_speech(sig(2));
    buffer.push_back_end_speech(sig(3));
    assert_eq!(buffer.len(), 7);
    assert_eq!(
        buffer.get_chunk(),
        Dequeued { chunk: Some(vec![1, 2]), signals: vec![sig(1)], viseme: Some(9) }
    );
    assert_eq!(
        buffer.get_chunk(),
        Dequeued { chunk: Some(vec![3, 4]), signals: vec![], viseme: None }
    );
    assert_eq!(
        buffer.get_chunk(),
        Dequeued { chunk: None, signals: vec![sig(2), sig(3)], viseme: None }
    );
    assert_eq!(buffer.get_chunk(), Dequeued { chunk: None, signals: vec![], viseme: None });
}

#[test]
fn clear_signals_every_marker() {
    let mut buffer = SendBuffer::new(2);
    buffer.push_i16(&[1, 2, 3]);
    buffer.push_back_end_speech(sig(7));
    buffer.push_i16(&[4, 5, 6]);
    buffer.push_viseme(1);
    buffer.push_back_end_speech(sig(8));
    buffer.push_back_end_speech(sig(9));
    assert_eq!(buffer.clear(), vec![sig(7), sig(8), sig(9)]);
    assert_eq!(buffer.len(), 0);
    assert_eq!(buffer.rest_len(), 0);
    assert_eq!(buffer.clear(), vec![]);
    buffer.push_i16(&[1]);
    assert_eq!(buffer.clear(), vec![]);
    assert_eq!(buffer.rest_len(), 1);
}

#[test]
fn interleave_pairs_capture_with_reference() {
    assert_eq!(interleave(&[1, 2, 3], &[10, 20, 30]), vec![1, 10, 2, 20, 3, 30]);
    assert_eq!(interleave(&[1, 2, 3], &[10]), vec![1, 10, 2, 0, 3, 0]);
    assert_eq!(interleave(&[1, 2], &[]), vec![1, 0, 2, 0]);
    assert_eq!(interleave(&[], &[5]), Vec::<i16>::new());
}

#[test]
fn loop_plays_greeting_then_signals() {
    let hello: Vec<u8> = vec![10, 0, 20, 0, 30, 0, 40, 0, 50, 0];
    let mut audio = AudioLoop::new(2, hello);
    assert_eq!(audio.volume(), 3);
    assert!(!audio.playing());

    let idle = audio.next_period();
    assert_eq!(idle.chunk, None);
    assert!(!idle.playing && !idle.changed);

    assert_eq!(audio.handle_event(AudioEvent::VolSet(5)), vec![]);
    assert_eq!(audio.handle_event(AudioEvent::Hello(sig(1))), vec![]);

    let first = audio.next_period();
    assert_eq!(first.chunk, Some(vec![10, 20]));
    assert!(first.playing && first.changed);
    assert!(audio.playing());
    let second = audio.next_period();
    assert_eq!(second.chunk, Some(vec![30, 40]));
    assert!(second.playing && !second.changed);
    let done = audio.next_period();
    assert_eq!(done.chunk, None);
    assert_eq!(done.signals, vec![sig(1)]);
    assert!(!done.playing && done.changed);
}

#[test]
fn loop_holds_speech_until_allowed() {
    let mut audio = AudioLoop::new(2, Vec::new());
    audio.handle_event(AudioEvent::VolSet(9));
    assert_eq!(audio.volume(), 5);
    audio.handle_event(AudioEvent::SpeechChunki16(vec![1, 2, 3, 4], Some(6)));
    audio.handle_event(AudioEvent::EndSpeech(sig(2)));
    assert_eq!(audio.next_period().chunk, None);
    audio.handle_event(AudioEvent::StartSpeech);
    let first = audio.next_period();
    assert_eq!(first.chunk, Some(vec![1, 2]));
    assert_eq!(first.viseme, Some(6));
    let second = audio.next_period();
    assert_eq!(second.chunk, Some(vec![3, 4]));
    assert_eq!(second.viseme, None);
    let last = audio.next_period();
    assert_eq!(last.chunk, None);
    assert_eq!(last.signals, vec![sig(2)]);
}

#[test]
fn interrupt_and_clear_fire_pending_markers() {
    let mut audio = AudioLoop::new(2, Vec::new());
    audio.handle_event(AudioEvent::StartSpeech);
    audio.handle_event(AudioEvent::SpeechChunk(vec![1, 0, 2, 0, 3, 0, 4, 0], None));
    audio.handle_event(AudioEvent::EndSpeech(sig(3)));
    assert_eq!(audio.handle_event(AudioEvent::Interrupt(sig(4))), vec![sig(3), sig(4)]);
    assert_eq!(audio.next_period().chunk, None);

    audio.handle_event(AudioEvent::StartSpeech);
    audio.handle_event(AudioEvent::SpeechChunki16(vec![1, 2], None));
    audio.handle_event(AudioEvent::EndSpeech(sig(5)));
    audio.handle_event(AudioEvent::EndSpeech(sig(6)));
    assert_eq!(audio.handle_event(AudioEvent::ClearSpeech), vec![sig(5), sig(6)]);
    assert_eq!(audio.next_period().chunk, None);
}

#[test]
fn new_greeting_replaces_the_old() {
    let mut audio = AudioLoop::new(1, vec![1, 0]);
    audio.handle_event(AudioEvent::VolSet(5));
    audio.handle_event(AudioEvent::SetHello(vec![9, 0, 8, 0]));
    audio.handle_event(AudioEvent::Hello(sig(1)));
    assert_eq!(audio.next_period().chunk, Some(vec![9]));
    assert_eq!(audio.next_period().chunk, Some(vec![8]));
}

#[test]
fn echo_reference_is_the_chunk_played_before() {
    let mut audio = AudioLoop::new(2, Vec::new());
    audio.handle_event(AudioEvent::VolSet(5));
    audio.handle_event(AudioEvent::StartSpeech);
    audio.handle_event(AudioEvent::SpeechChunki16(vec![100, 200, 300, 400], None));

    let first = audio.next_period();
    assert_eq!(audio.finish_period(&[1, 2], first.chunk), Some(vec![1, 0, 2, 0]));
    let second = audio.next_period();
    assert_eq!(audio.finish_period(&[3, 4], second.chunk), Some(vec![3, 100, 4, 200]));
    let third = audio.next_period();
    assert_eq!(third.chunk, None);
    assert_eq!(audio.finish_period(&[5, 6], third.chunk), Some(vec![5, 300, 6, 400]));
    assert_eq!(audio.finish_period(&[7, 8], None), Some(vec![7, 0, 8, 0]));
    assert_eq!(audio.finish_period(&[7, 8, 9], None), None);
    assert_eq!(audio.finish_period(&[7], None), None);
}
