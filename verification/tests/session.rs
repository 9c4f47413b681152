use echokit::app::{
    classify, Action, DownloadMetrics, Event, Label, Pending, Session, SessionConfig, Signal,
    State, Timeout,
};
use echokit::audio::{AudioEvent, CompletionSignal};
use echokit::protocol::{ClientCommand, ServerEvent};

fn sig(id: u64) -> CompletionSignal {
    CompletionSignal { id }
}

fn listening() -> Session {
    let mut s = Session::new(SessionConfig::standard(), 0);
    s.handle(Event::Event(Event::K0), 0);
    s.handle(Event::Connected, 0);
    s.handle(Event::Event(Event::NOTIFY), 0);
    assert_eq!(s.state, State::Listening);
    s
}

fn waiting() -> Session {
    let mut s = listening();
    s.handle(Event::MicAudioChunk(vec![1; 5600]), 0);
    s.handle(Event::MicAudioEnd, 0);
    assert_eq!(s.state, State::Waiting);
    s
}

fn server(event: ServerEvent) -> Event {
    Event::ServerEvent(event)
}

fn chunk(bytes: usize) -> Event {
    server(ServerEvent::AudioChunk { data: vec![0; bytes], viseme: None })
}

#[test]
fn metrics_speed_and_staleness() {
    let mut m = DownloadMetrics::new(1_000);
    assert!(m.is_timeout(1_000));
    assert_eq!(m.elapsed(1_000), 300_000);
    assert_eq!(m.elapsed(2_500), 301_500);
    assert_eq!(m.speed(1_000), u64::MAX);
    m.reset(2_000);
    assert!(!m.is_timeout(2_000));
    assert!(!m.is_timeout(32_999));
    assert!(m.is_timeout(33_000));
    assert_eq!(m.elapsed(1_000), 0);
    m.add_data(64_000);
    m.add_data(64_000);
    assert_eq!(m.data_size, 128_000);
    // 4 s of audio in 2 s
    assert_eq!(m.speed(4_000), 500);
    // 4 s of audio in 8 s
    assert_eq!(m.speed(10_000), 2_000);
    // 4 s of audio in 4 s
    assert_eq!(m.speed(6_000), 1_000);
    m.add_data(usize::MAX);
    assert_eq!(m.data_size, usize::MAX);
}

#[test]
fn speed_is_scale_invariant() {
    for (elapsed, bytes) in [(2_000u64, 128_000usize), (8_000, 128_000), (1, 3), (999, 7), (0, 5)] {
        let mut once = DownloadMetrics::new(0);
        once.reset(0);
        once.add_data(bytes);
        let mut twice = DownloadMetrics::new(0);
        twice.reset(0);
        twice.add_data(2 * bytes);
        assert_eq!(once.speed(elapsed), twice.speed(2 * elapsed));
    }
}

#[test]
fn names_are_read_as_signals() {
    assert_eq!(classify(Event::GAIA), Signal::Main);
    assert_eq!(classify(Event::K0), Signal::Main);
    assert_eq!(classify(Event::K0_), Signal::ToggleInterrupt);
    assert_eq!(classify(Event::VOL_UP), Signal::VolumeUp);
    assert_eq!(classify(Event::VOL_DOWN), Signal::VolumeDown);
    assert_eq!(classify(Event::K1), Signal::Previous);
    assert_eq!(classify(Event::K2), Signal::Next);
    assert_eq!(classify(Event::YES), Signal::Yes);
    assert_eq!(classify(Event::IDLE), Signal::Idle);
    assert_eq!(classify(Event::NOTIFY), Signal::Notify);
    assert_eq!(classify(Event::NO), Signal::Other);
    assert_eq!(classify(Event::NOISE), Signal::Other);
    assert_eq!(classify(Event::RESET), Signal::Other);
    assert_eq!(classify(Event::UNKNOWN), Signal::Other);
    assert_eq!(classify(""), Signal::Other);
}

#[test]
fn a_new_session_is_idle() {
    let s = Session::new(SessionConfig::standard(), 42);
    assert_eq!(s.state, State::Idle);
    assert_eq!(s.pending, Pending::Nothing);
    assert!(!s.busy());
    assert_eq!(s.awaited_signal(), None);
    assert_eq!(s.volume, 3);
    assert_eq!(s.speed, 1_500);
    assert!(!s.allow_interrupt);
    assert_eq!(s.timeout_ms(), 60_000);
    assert_eq!(s.timeout_event(), Event::Event(Event::IDLE));
    assert!(s.metrics.is_timeout(42));
}

#[test]
fn engaging_reaches_listening_after_one_greeting() {
    let mut s = Session::new(SessionConfig::standard(), 0);
    assert_eq!(s.handle(Event::Event(Event::K0), 1), vec![Action::Reconnect { retries: 3 }]);
    assert_eq!(s.state, State::Idle);
    assert!(s.busy());
    assert_eq!(s.handle(Event::Connected, 2), vec![Action::Player(AudioEvent::Hello(sig(0)))]);
    assert_eq!(s.state, State::Idle);
    assert_eq!(s.pending, Pending::Hello(sig(0)));
    assert_eq!(s.awaited_signal(), Some(sig(0)));
    assert_eq!(s.handle(Event::Event(Event::NOTIFY), 3), vec![Action::Status(Label::Listening)]);
    assert_eq!(s.state, State::Listening);
    assert!(!s.busy());
    assert_eq!(s.awaited_signal(), None);
}

#[test]
fn the_wake_word_engages_too() {
    let mut s = Session::new(SessionConfig::standard(), 0);
    assert_eq!(s.handle(Event::Event(Event::GAIA), 1), vec![Action::Reconnect { retries: 3 }]);
}

#[test]
fn a_failed_connection_never_leaves_idle() {
    let mut s = Session::new(SessionConfig::standard(), 0);
    s.handle(Event::Event(Event::K0), 1);
    assert_eq!(s.state, State::Idle);
    assert_eq!(s.handle(Event::ConnectFailed, 2), vec![Action::Status(Label::ConnectFailed)]);
    assert_eq!(s.state, State::Idle);
    assert!(!s.busy());
    // a stray completion changes nothing
    assert_eq!(s.handle(Event::Event(Event::NOTIFY), 3), vec![]);
    assert_eq!(s.state, State::Idle);
    // and the user can try again
    assert_eq!(s.handle(Event::Event(Event::K0), 4), vec![Action::Reconnect { retries: 3 }]);
}

#[test]
fn speech_opens_a_turn() {
    let mut s = listening();
    let samples: Vec<i16> = (0..5600).map(|k| k as i16).collect();
    let actions = s.handle(Event::MicAudioChunk(samples.clone()), 10);
    assert_eq!(
        actions,
        vec![Action::Command(ClientCommand::StartChat), Action::Audio(samples.clone())]
    );
    match &actions[1] {
        Action::Audio(frame) => {
            assert_eq!(frame.len(), 5600);
            assert!(frame.len() * 2 >= 8192);
        }
        other => panic!("not an audio frame: {:?}", other),
    }
    assert_eq!(s.state, State::Submitting);
    assert!(s.submit.started);
    assert_eq!(s.submit.duration, 5600);
    assert!(s.submit.buffer.is_empty());
}

#[test]
fn short_speech_is_held_until_it_is_long_enough() {
    let mut s = listening();
    assert_eq!(s.handle(Event::MicAudioChunk(vec![1; 4799]), 10), vec![]);
    assert_eq!(s.state, State::Listening);
    assert_eq!(s.submit.buffer.len(), 4799);
    assert_eq!(s.handle(Event::MicAudioEnd, 11), vec![]);
    assert_eq!(s.state, State::Listening);
    let mut all = vec![1i16; 4799];
    all.push(2);
    assert_eq!(
        s.handle(Event::MicAudioChunk(vec![2]), 12),
        vec![Action::Command(ClientCommand::StartChat), Action::Audio(all)]
    );
    assert_eq!(s.state, State::Submitting);
    // later frames go out without a second opening
    assert_eq!(s.handle(Event::MicAudioChunk(vec![3; 100]), 13), vec![]);
    assert_eq!(
        s.handle(Event::MicAudioChunk(vec![4; 412]), 14),
        vec![Action::Audio([vec![3; 100], vec![4; 412]].concat())]
    );
}

#[test]
fn end_of_speech_submits() {
    let mut s = listening();
    s.handle(Event::MicAudioChunk(vec![1; 5600]), 10);
    s.handle(Event::MicAudioChunk(vec![2; 10]), 11);
    assert_eq!(
        s.handle(Event::MicAudioEnd, 12),
        vec![
            Action::Audio(vec![2; 10]),
            Action::Command(ClientCommand::Submit),
            Action::Status(Label::Waiting)
        ]
    );
    assert_eq!(s.state, State::Waiting);
    assert_eq!(s.submit.duration, 0);
    assert!(!s.submit.started);
}

#[test]
fn end_of_speech_opens_a_turn_that_was_not_open() {
    let mut config = SessionConfig::standard();
    config.chunk_samples = 8192;
    let mut s = Session::new(config, 0);
    s.handle(Event::Event(Event::K0), 0);
    s.handle(Event::Connected, 0);
    s.handle(Event::Event(Event::NOTIFY), 0);
    assert_eq!(s.handle(Event::MicAudioChunk(vec![1; 5000]), 10), vec![]);
    assert_eq!(
        s.handle(Event::MicAudioEnd, 12),
        vec![
            Action::Command(ClientCommand::StartChat),
            Action::Audio(vec![1; 5000]),
            Action::Command(ClientCommand::Submit),
            Action::Status(Label::Waiting)
        ]
    );
}

#[test]
fn a_turn_without_transcript_is_given_up_after_ten_seconds() {
    let mut s = listening();
    for _ in 0..10 {
        s.handle(Event::MicAudioChunk(vec![1; 16_000]), 10);
    }
    assert_eq!(s.state, State::Submitting);
    assert_eq!(s.submit.duration, 160_000);
    assert_eq!(
        s.handle(Event::MicAudioChunk(vec![1; 1]), 11),
        vec![Action::Status(Label::Listening)]
    );
    assert_eq!(s.state, State::Listening);
    assert_eq!(s.submit.duration, 0);
    assert!(!s.submit.started);
}

#[test]
fn a_transcript_keeps_a_long_turn_alive() {
    let mut s = listening();
    for _ in 0..10 {
        s.handle(Event::MicAudioChunk(vec![1; 16_000]), 10);
    }
    assert_eq!(
        s.handle(server(ServerEvent::ASR { text: "  so far \n".to_string() }), 11),
        vec![Action::Status(Label::Asr), Action::Transcript("so far".to_string())]
    );
    assert!(s.submit.got_asr_result);
    assert_eq!(
        s.handle(Event::MicAudioChunk(vec![1; 600]), 12),
        vec![Action::Audio(vec![1; 600])]
    );
    assert_eq!(s.state, State::Submitting);
}

#[test]
fn the_server_may_end_the_turn() {
    let mut s = listening();
    assert_eq!(s.handle(server(ServerEvent::EndVad), 5), vec![]);
    assert_eq!(s.state, State::Listening);
    s.handle(Event::MicAudioChunk(vec![1; 5600]), 10);
    assert_eq!(s.handle(server(ServerEvent::EndVad), 11), vec![Action::Status(Label::Waiting)]);
    assert_eq!(s.state, State::Waiting);
    assert!(!s.submit.started);
}

#[test]
fn the_first_response_is_played_as_one_block() {
    let mut s = waiting();
    assert_eq!(
        s.handle(server(ServerEvent::StartAudio { text: " hello ".to_string() }), 1_000),
        vec![
            Action::Status(Label::Speaking { speed: 1_500 }),
            Action::Transcript("hello".to_string()),
            Action::Player(AudioEvent::StartSpeech)
        ]
    );
    assert_eq!(s.state, State::Speaking { blocked: false });
    assert!(s.need_compute);
    assert_eq!(
        s.handle(server(ServerEvent::AudioChunk { data: vec![1, 0, 2, 0], viseme: Some(3) }), 1_100),
        vec![]
    );
    assert_eq!(
        s.handle(server(ServerEvent::AudioChunk { data: vec![3, 0], viseme: None }), 1_200),
        vec![]
    );
    assert_eq!(
        s.handle(server(ServerEvent::EndAudio), 1_300),
        vec![
            Action::Player(AudioEvent::SpeechChunki16(vec![1, 2, 3], None)),
            Action::Player(AudioEvent::EndSpeech(sig(1)))
        ]
    );
    assert_eq!(s.state, State::Speaking { blocked: true });
    assert_eq!(s.awaited_signal(), Some(sig(1)));
    assert!(!s.need_compute);
    // 6 bytes in 300 ms
    assert_eq!(s.speed, 300 * 32_000 / 6);
    assert_eq!(s.handle(Event::Event(Event::NOTIFY), 1_400), vec![]);
    assert_eq!(s.state, State::Speaking { blocked: false });
    assert_eq!(s.handle(server(ServerEvent::EndResponse), 1_500), vec![
        Action::Status(Label::Listening)
    ]);
    assert_eq!(s.state, State::Listening);
}

fn respond(s: &mut Session, start_ms: u64, end_ms: u64) -> Vec<Vec<Action>> {
    let mut out = Vec::new();
    s.handle(server(ServerEvent::StartAudio { text: String::new() }), start_ms);
    for k in 1..=4u64 {
        let now = start_ms + (end_ms - start_ms) * k / 4;
        out.push(s.handle(chunk(32_000), now));
    }
    out.push(s.handle(server(ServerEvent::EndAudio), end_ms));
    s.handle(Event::Event(Event::NOTIFY), end_ms);
    s.handle(server(ServerEvent::EndResponse), end_ms);
    out
}

fn next_turn(s: &mut Session, now: u64) {
    assert_eq!(s.state, State::Listening);
    s.handle(Event::MicAudioChunk(vec![1; 5600]), now);
    s.handle(Event::MicAudioEnd, now);
    assert_eq!(s.state, State::Waiting);
}

#[test]
fn a_fast_server_is_streamed() {
    let mut s = waiting();
    // four seconds of audio within two seconds
    respond(&mut s, 1_000, 3_000);
    assert_eq!(s.speed, 500);
    next_turn(&mut s, 4_000);
    s.handle(server(ServerEvent::StartAudio { text: String::new() }), 5_000);
    for k in 0..4u64 {
        assert_eq!(
            s.handle(chunk(32_000), 5_000 + 500 * k),
            vec![Action::Player(AudioEvent::SpeechChunk(vec![0; 32_000], None))]
        );
        assert!(s.recv_audio.is_empty());
    }
    let end = s.handle(server(ServerEvent::EndAudio), 7_000);
    assert_eq!(end.len(), 1);
    assert!(matches!(end[0], Action::Player(AudioEvent::EndSpeech(_))));
    // the measurement is not stale: the speed is kept
    assert_eq!(s.speed, 500);
}

#[test]
fn a_slow_server_is_played_as_one_block() {
    let mut s = waiting();
    // four seconds of audio within eight seconds
    let first = respond(&mut s, 1_000, 9_000);
    assert_eq!(s.speed, 2_000);
    for step in &first[..4] {
        assert!(step.is_empty());
    }
    assert_eq!(first[4].len(), 2);
    next_turn(&mut s, 10_000);
    let second = respond(&mut s, 11_000, 19_000);
    for step in &second[..4] {
        assert!(step.is_empty());
    }
    assert_eq!(second[4].len(), 2);
    match &second[4][0] {
        Action::Player(AudioEvent::SpeechChunki16(samples, None)) => {
            assert_eq!(samples.len(), 64_000)
        }
        other => panic!("not a block: {:?}", other),
    }
    assert!(matches!(second[4][1], Action::Player(AudioEvent::EndSpeech(_))));
}

#[test]
fn a_stale_measurement_is_taken_anew() {
    let mut s = waiting();
    respond(&mut s, 1_000, 3_000);
    assert_eq!(s.speed, 500);
    next_turn(&mut s, 40_000);
    // more than thirty seconds later: measured again, eight seconds this time
    respond(&mut s, 41_000, 49_000);
    assert_eq!(s.speed, 2_000);
}

#[test]
fn audio_outside_speaking_is_ignored() {
    let mut s = listening();
    assert_eq!(s.handle(chunk(10), 1), vec![]);
    assert_eq!(s.handle(server(ServerEvent::EndAudio), 1), vec![]);
    assert_eq!(s.handle(server(ServerEvent::StartAudio { text: "x".to_string() }), 1), vec![]);
    assert_eq!(s.state, State::Listening);
}

#[test]
fn a_short_interrupt_is_ignored() {
    let mut s = waiting();
    s.handle(server(ServerEvent::StartAudio { text: String::new() }), 1_000);
    s.handle(Event::Event(Event::K0_), 1_001);
    assert!(s.allow_interrupt);
    let before = s.clone();
    assert_eq!(s.handle(Event::MicInterrupt(vec![1; 19_199]), 1_002), vec![]);
    assert_eq!(s, before);
}

#[test]
fn an_interrupt_is_ignored_while_switched_off() {
    let mut s = waiting();
    s.handle(server(ServerEvent::StartAudio { text: String::new() }), 1_000);
    let before = s.clone();
    assert_eq!(s.handle(Event::MicInterrupt(vec![1; 40_000]), 1_002), vec![]);
    assert_eq!(s, before);
}

#[test]
fn a_barge_in_restarts_the_turn() {
    let mut s = waiting();
    s.handle(server(ServerEvent::StartAudio { text: String::new() }), 1_000);
    assert_eq!(
        s.handle(Event::Event(Event::K0_), 1_001),
        vec![Action::Status(Label::Interrupt(true))]
    );
    let speech: Vec<i16> = (0..19_200).map(|k| (k % 100) as i16).collect();
    assert_eq!(
        s.handle(Event::MicInterrupt(speech.clone()), 1_002),
        vec![Action::Player(AudioEvent::Interrupt(sig(1)))]
    );
    assert_eq!(s.pending, Pending::InterruptAck(sig(1)));
    assert_eq!(s.awaited_signal(), Some(sig(1)));
    // what arrives meanwhile is left alone
    assert_eq!(s.handle(chunk(10), 1_003), vec![]);
    assert_eq!(s.handle(Event::MicAudioChunk(vec![1; 10]), 1_003), vec![]);
    assert_eq!(
        s.handle(Event::Event(Event::NOTIFY), 1_004),
        vec![Action::Reconnect { retries: 3 }]
    );
    assert_eq!(s.handle(Event::Connected, 1_005), vec![Action::Status(Label::Listening)]);
    assert_eq!(s.state, State::Listening);
    assert!(!s.busy());
    assert_eq!(s.timeout, Timeout::InterruptWait);
    assert_eq!(s.timeout_ms(), 1_000);
    assert_eq!(s.timeout_event(), Event::MicInterruptWaitTimeout);
    assert_eq!(s.submit.buffer, speech);
    // nothing follows: the captured speech is the whole turn
    assert_eq!(
        s.handle(Event::MicInterruptWaitTimeout, 2_005),
        vec![
            Action::Command(ClientCommand::StartChat),
            Action::Audio(speech),
            Action::Command(ClientCommand::Submit),
            Action::Status(Label::Waiting)
        ]
    );
    assert_eq!(s.state, State::Waiting);
    assert_eq!(s.timeout, Timeout::Normal);
}

#[test]
fn speech_after_a_barge_in_goes_on_with_the_capture() {
    let mut s = waiting();
    s.handle(server(ServerEvent::StartAudio { text: String::new() }), 1_000);
    s.handle(Event::Event(Event::K0_), 1_001);
    s.handle(Event::MicInterrupt(vec![5; 20_000]), 1_002);
    s.handle(Event::Event(Event::NOTIFY), 1_004);
    s.handle(Event::Connected, 1_005);
    assert_eq!(
        s.handle(Event::MicAudioChunk(vec![6; 3]), 1_100),
        vec![
            Action::Command(ClientCommand::StartChat),
            Action::Audio([vec![5; 20_000], vec![6; 3]].concat())
        ]
    );
    assert_eq!(s.state, State::Submitting);
    // the short wait runs out: nothing more to do
    assert_eq!(s.handle(Event::MicInterruptWaitTimeout, 2_005), vec![]);
    assert_eq!(s.timeout, Timeout::Normal);
    assert_eq!(s.state, State::Submitting);
}

#[test]
fn a_barge_in_that_cannot_connect_ends_idle() {
    let mut s = waiting();
    s.handle(server(ServerEvent::StartAudio { text: String::new() }), 1_000);
    s.handle(Event::Event(Event::K0_), 1_001);
    s.handle(Event::MicInterrupt(vec![5; 20_000]), 1_002);
    s.handle(Event::Event(Event::NOTIFY), 1_004);
    assert_eq!(s.handle(Event::ConnectFailed, 1_005), vec![Action::Status(Label::ConnectFailed)]);
    assert_eq!(s.state, State::Idle);
    assert!(s.submit.buffer.is_empty());
}

#[test]
fn volume_buttons_stay_within_their_range() {
    let mut s = Session::new(SessionConfig::standard(), 0);
    assert_eq!(
        s.handle(Event::Event(Event::VOL_UP), 1),
        vec![Action::Player(AudioEvent::VolSet(4)), Action::Status(Label::Volume(4))]
    );
    s.handle(Event::Event(Event::VOL_UP), 1);
    assert_eq!(
        s.handle(Event::Event(Event::VOL_UP), 1),
        vec![Action::Player(AudioEvent::VolSet(5)), Action::Status(Label::Volume(5))]
    );
    assert_eq!(s.volume, 5);
    for _ in 0..6 {
        s.handle(Event::Event(Event::VOL_DOWN), 1);
    }
    assert_eq!(s.volume, 1);
    assert_eq!(
        s.handle(Event::Event(Event::VOL_DOWN), 1),
        vec![Action::Player(AudioEvent::VolSet(1)), Action::Status(Label::Volume(1))]
    );
}

#[test]
fn the_main_button_disengages() {
    let mut s = listening();
    assert_eq!(
        s.handle(Event::Event(Event::K0), 1),
        vec![Action::Close, Action::Status(Label::Idle)]
    );
    assert_eq!(s.state, State::Idle);

    let mut s = waiting();
    s.handle(server(ServerEvent::StartAudio { text: String::new() }), 1_000);
    s.handle(chunk(4), 1_001);
    s.handle(server(ServerEvent::EndAudio), 1_002);
    assert_eq!(
        s.handle(Event::Event(Event::K0), 1_003),
        vec![
            Action::Player(AudioEvent::ClearSpeech),
            Action::Close,
            Action::Status(Label::Idle)
        ]
    );
    assert_eq!(s.state, State::Idle);
    assert_eq!(s.awaited_signal(), None);
    // the end of the response finds the user gone
    assert_eq!(s.handle(server(ServerEvent::EndResponse), 1_004), vec![]);
    assert_eq!(s.state, State::Idle);
}

#[test]
fn the_long_wait_disengages_a_listening_session() {
    let mut s = listening();
    assert_eq!(
        s.handle(Event::Event(Event::IDLE), 60_000),
        vec![Action::Close, Action::Status(Label::Idle)]
    );
    assert_eq!(s.state, State::Idle);
    let mut s = waiting();
    assert_eq!(s.handle(Event::Event(Event::IDLE), 60_000), vec![]);
    assert_eq!(s.state, State::Waiting);
}

#[test]
fn choices_are_walked_and_confirmed() {
    let mut s = waiting();
    let offer = ServerEvent::Choices {
        message: "pick".to_string(),
        items: vec!["a".to_string(), "b".to_string(), "c".to_string()],
    };
    assert_eq!(
        s.handle(server(offer), 1),
        vec![Action::Status(Label::Choices { index: 0 }), Action::Transcript("pick".to_string())]
    );
    assert_eq!(s.state, State::Choices { index: 0 });
    assert_eq!(s.handle(Event::Event(Event::K1), 2), vec![
        Action::Status(Label::Choices { index: 0 })
    ]);
    assert_eq!(s.handle(Event::Event(Event::K2), 2), vec![
        Action::Status(Label::Choices { index: 1 })
    ]);
    s.handle(Event::Event(Event::K2), 2);
    assert_eq!(s.handle(Event::Event(Event::K2), 2), vec![
        Action::Status(Label::Choices { index: 2 })
    ]);
    assert_eq!(s.state, State::Choices { index: 2 });
    s.handle(Event::Event(Event::K1), 2);
    assert_eq!(s.state, State::Choices { index: 1 });
    // the end of the response leaves the choice open
    assert_eq!(s.handle(server(ServerEvent::EndResponse), 3), vec![]);
    assert_eq!(s.state, State::Choices { index: 1 });
    assert_eq!(
        s.handle(Event::Event(Event::YES), 4),
        vec![
            Action::Command(ClientCommand::Select { index: 1 }),
            Action::Status(Label::Waiting)
        ]
    );
    assert_eq!(s.state, State::Waiting);
}

#[test]
fn the_main_button_confirms_a_choice() {
    let mut s = waiting();
    s.handle(
        server(ServerEvent::Choices { message: String::new(), items: vec!["a".to_string()] }),
        1,
    );
    s.handle(Event::Event(Event::K2), 2);
    assert_eq!(s.state, State::Choices { index: 0 });
    assert_eq!(
        s.handle(Event::Event(Event::K0), 3),
        vec![
            Action::Command(ClientCommand::Select { index: 0 }),
            Action::Status(Label::Waiting)
        ]
    );
}

#[test]
fn the_greeting_is_handed_to_the_player_once() {
    let mut s = Session::new(SessionConfig::standard(), 0);
    assert_eq!(s.handle(server(ServerEvent::HelloStart), 1), vec![]);
    assert_eq!(s.handle(server(ServerEvent::HelloChunk { data: vec![1, 2] }), 1), vec![]);
    assert_eq!(s.handle(server(ServerEvent::HelloChunk { data: vec![3] }), 1), vec![]);
    assert_eq!(
        s.handle(server(ServerEvent::HelloEnd), 1),
        vec![Action::Player(AudioEvent::SetHello(vec![1, 2, 3]))]
    );
    assert!(s.init_hello);
    s.handle(server(ServerEvent::HelloStart), 2);
    s.handle(server(ServerEvent::HelloChunk { data: vec![9] }), 2);
    assert_eq!(s.handle(server(ServerEvent::HelloEnd), 2), vec![]);
    assert!(s.hello.is_empty());
}

#[test]
fn actions_and_notifications_are_shown() {
    let mut s = listening();
    assert_eq!(
        s.handle(server(ServerEvent::Action { action: "say".to_string() }), 1),
        vec![Action::Status(Label::Action("say".to_string()))]
    );
    assert_eq!(
        s.handle(server(ServerEvent::HasNotification), 1),
        vec![Action::Status(Label::Notification)]
    );
    for quiet in [
        ServerEvent::BGStart,
        ServerEvent::BGChunk { data: vec![1] },
        ServerEvent::BGEnd,
        ServerEvent::StartVideo,
        ServerEvent::EndVideo,
    ] {
        let before = s.clone();
        assert_eq!(s.handle(server(quiet), 1), vec![]);
        assert_eq!(s, before);
    }
}

#[test]
fn a_lost_connection_is_recovered() {
    let mut s = waiting();
    assert_eq!(s.handle(Event::ConnectionLost, 1), vec![Action::Reconnect { retries: 3 }]);
    assert_eq!(s.pending, Pending::Recover);
    assert_eq!(s.handle(Event::Connected, 2), vec![Action::Status(Label::Listening)]);
    assert_eq!(s.state, State::Listening);

    let mut s = waiting();
    s.handle(Event::ConnectionLost, 1);
    assert_eq!(s.handle(Event::ConnectFailed, 2), vec![Action::Status(Label::ConnectFailed)]);
    assert_eq!(s.state, State::Idle);

    let mut s = Session::new(SessionConfig::standard(), 0);
    assert_eq!(s.handle(Event::ConnectionLost, 1), vec![]);
    assert_eq!(s.state, State::Idle);
}
