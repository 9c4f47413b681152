//! The session orchestrator: the events it consumes, the download metrics
//! behind the adaptive playback speed, and the conversation state machine.

use vstd::prelude::*;

use crate::audio::{AudioEvent, AudioEventView, CompletionSignal};
use crate::pcm::{decode_le, pcm_from_le_bytes, BYTES_PER_SECOND};
use crate::protocol::{ClientCommand, ClientCommandView, ServerEvent, ServerEventView};
use crate::text::{str_equal, trim_text, trimmed};

verus! {

/// How far a fresh set of metrics is dated back, so that it counts as stale.
pub const STALE_MS: u64 = 300_000;

/// Seconds after which a measurement is stale and the next response is
/// measured anew.
pub const METRICS_TIMEOUT_SEC: u64 = 30;

/// The speed that stands for "no audio received": slower than any limit.
pub const SPEED_UNKNOWN: u64 = u64::MAX;

/// Download duration over playback duration, in thousandths, for `bytes`
/// bytes of real-time PCM received within `elapsed_ms` milliseconds.
pub open spec fn speed_permille(elapsed_ms: nat, bytes: nat) -> nat {
    if bytes == 0 {
        SPEED_UNKNOWN as nat
    } else if elapsed_ms * BYTES_PER_SECOND as nat / bytes >= SPEED_UNKNOWN as nat {
        SPEED_UNKNOWN as nat
    } else {
        elapsed_ms * BYTES_PER_SECOND as nat / bytes
    }
}

/// The speed is scale-invariant: twice the time for twice the bytes is the
/// same speed.
pub proof fn lemma_speed_scale_invariant(elapsed_ms: nat, bytes: nat)
    ensures
        speed_permille(2 * elapsed_ms, 2 * bytes) == speed_permille(elapsed_ms, bytes),
{
    if bytes > 0 {
        let a = elapsed_ms * BYTES_PER_SECOND as nat;
        assert((2 * elapsed_ms) * BYTES_PER_SECOND as nat == 2 * a) by (nonlinear_arith)
            requires
                a == elapsed_ms * BYTES_PER_SECOND as nat,
        ;
        assert((2 * a) / (2 * bytes) == a / bytes) by (nonlinear_arith)
            requires
                bytes > 0,
                a >= 0,
        ;
    }
}

/// How fast a response arrives, against how fast it plays.
#[derive(Debug, Clone, Copy, PartialEq, Eq, Structural)]
pub struct DownloadMetrics {
    /// Clock reading, in milliseconds, at which the measurement started.
    pub start_ms: u64,
    /// Milliseconds counted on top of the time since `start_ms`.
    pub backdate_ms: u64,
    /// Bytes received since the measurement started.
    pub data_size: usize,
    /// Seconds after which the measurement is stale.
    pub timeout_sec: u64,
}

impl DownloadMetrics {
    /// Milliseconds the measurement has run at clock reading `now_ms`, capped
    /// at the largest `u64`.
    pub open spec fn elapsed_at(self, now_ms: u64) -> nat {
        let run: int = if now_ms >= self.start_ms {
            now_ms - self.start_ms
        } else {
            0
        };
        if run + self.backdate_ms > u64::MAX {
            u64::MAX as nat
        } else {
            (run + self.backdate_ms) as nat
        }
    }

    /// Whether the measurement is stale at `now_ms`.
    pub open spec fn stale_at(self, now_ms: u64) -> bool {
        self.elapsed_at(now_ms) / 1000 > self.timeout_sec
    }

    /// The metrics after a reset at `now_ms`.
    pub open spec fn restarted(self, now_ms: u64) -> DownloadMetrics {
        DownloadMetrics { start_ms: now_ms, backdate_ms: 0, data_size: 0, ..self }
    }

    /// The metrics after `size` more bytes.
    pub open spec fn with_data(self, size: usize) -> DownloadMetrics {
        DownloadMetrics {
            data_size: if self.data_size + size > usize::MAX {
                usize::MAX
            } else {
                (self.data_size + size) as usize
            },
            ..self
        }
    }

    /// The speed measured at `now_ms`.
    pub open spec fn speed_at(self, now_ms: u64) -> u64 {
        speed_permille(self.elapsed_at(now_ms), self.data_size as nat) as u64
    }

    /// Metrics that are stale from the start, so that the first response is
    /// measured.
    pub fn new(now_ms: u64) -> (metrics: Self)
        ensures
            metrics == (DownloadMetrics {
                start_ms: now_ms,
                backdate_ms: STALE_MS,
                data_size: 0,
                timeout_sec: METRICS_TIMEOUT_SEC,
            }),
            metrics.stale_at(now_ms),
    {
        DownloadMetrics {
            start_ms: now_ms,
            backdate_ms: STALE_MS,
            data_size: 0,
            timeout_sec: METRICS_TIMEOUT_SEC,
        }
    }

    pub fn is_timeout(&self, now_ms: u64) -> (stale: bool)
        ensures
            stale == self.stale_at(now_ms),
    {
        self.elapsed(now_ms) / 1000 > self.timeout_sec
    }

    pub fn reset(&mut self, now_ms: u64)
        ensures
            *final(self) == old(self).restarted(now_ms),
    {
        self.start_ms = now_ms;
        self.backdate_ms = 0;
        self.data_size = 0;
    }

    pub fn add_data(&mut self, size: usize)
        ensures
            *final(self) == old(self).with_data(size),
    {
        self.data_size = if size > usize::MAX - self.data_size {
            usize::MAX
        } else {
            self.data_size + size
        };
    }

    /// Milliseconds since the measurement started.
    pub fn elapsed(&self, now_ms: u64) -> (ms: u64)
        ensures
            ms == self.elapsed_at(now_ms),
    {
        let run: u64 = if now_ms >= self.start_ms {
            now_ms - self.start_ms
        } else {
            0
        };
        if run > u64::MAX - self.backdate_ms {
            u64::MAX
        } else {
            run + self.backdate_ms
        }
    }

    /// Download duration over playback duration, in thousandths.
    pub fn speed(&self, now_ms: u64) -> (permille: u64)
        ensures
            permille == self.speed_at(now_ms),
            permille == speed_permille(self.elapsed_at(now_ms), self.data_size as nat),
    {
        if self.data_size == 0 {
            return SPEED_UNKNOWN;
        }
        let elapsed: u128 = self.elapsed(now_ms) as u128;
        let bytes: u128 = self.data_size as u128;
        assert(elapsed * 32000 <= u64::MAX * 32000) by (nonlinear_arith)
            requires
                elapsed <= u64::MAX,
        ;
        let ratio: u128 = elapsed * 32000 / bytes;
        if ratio >= SPEED_UNKNOWN as u128 {
            SPEED_UNKNOWN
        } else {
            ratio as u64
        }
    }
}

/// An event for the orchestrator: a named signal from a button, a timer or
/// the player, an event from the server, audio from the microphone, or the
/// outcome of a connection attempt.
#[derive(Debug, Clone, PartialEq, Eq)]
pub enum Event {
    /// A named signal; the names are the constants of this type.
    Event(&'static str),
    ServerEvent(ServerEvent),
    /// Speech heard while the device is silent.
    MicAudioChunk(Vec<i16>),
    /// The speech has ended.
    MicAudioEnd,
    /// A whole segment of speech heard while the device was playing.
    MicInterrupt(Vec<i16>),
    /// Nothing followed a barge-in within the short wait.
    MicInterruptWaitTimeout,
    /// The transport is connected.
    Connected,
    /// The transport could not be connected within the retries allowed.
    ConnectFailed,
    /// The transport failed while in use.
    ConnectionLost,
}

#[allow(dead_code)]
impl Event {
    pub const IDLE: &'static str = "idle";
    pub const GAIA: &'static str = "gaia";
    pub const NO: &'static str = "no";
    pub const YES: &'static str = "yes";
    pub const NOISE: &'static str = "noise";
    pub const RESET: &'static str = "reset";
    pub const UNKNOWN: &'static str = "unknown";
    pub const K0: &'static str = "k0";
    pub const K0_: &'static str = "k0_";
    pub const K1: &'static str = "k1";
    pub const K2: &'static str = "k2";
    pub const VOL_UP: &'static str = "vol_up";
    pub const VOL_DOWN: &'static str = "vol_down";
    pub const NOTIFY: &'static str = "notify";
}

/// What an `Event` holds.
pub enum EventView {
    Event(Seq<char>),
    ServerEvent(ServerEventView),
    MicAudioChunk(Seq<i16>),
    MicAudioEnd,
    MicInterrupt(Seq<i16>),
    MicInterruptWaitTimeout,
    Connected,
    ConnectFailed,
    ConnectionLost,
}

impl View for Event {
    type V = EventView;

    open spec fn view(&self) -> EventView {
        match *self {
            Event::Event(name) => EventView::Event(name@),
            Event::ServerEvent(event) => EventView::ServerEvent(event@),
            Event::MicAudioChunk(samples) => EventView::MicAudioChunk(samples@),
            Event::MicAudioEnd => EventView::MicAudioEnd,
            Event::MicInterrupt(samples) => EventView::MicInterrupt(samples@),
            Event::MicInterruptWaitTimeout => EventView::MicInterruptWaitTimeout,
            Event::Connected => EventView::Connected,
            Event::ConnectFailed => EventView::ConnectFailed,
            Event::ConnectionLost => EventView::ConnectionLost,
        }
    }
}

/// What a named signal asks for.
#[derive(Debug, Clone, Copy, PartialEq, Eq, Structural)]
pub enum Signal {
    /// The main button or the wake word: engage, disengage or confirm.
    Main,
    /// Switch barge-in on or off.
    ToggleInterrupt,
    VolumeUp,
    VolumeDown,
    /// Move to the option before.
    Previous,
    /// Move to the option after.
    Next,
    /// Confirm the option shown.
    Yes,
    /// Nothing happened for the long wait.
    Idle,
    /// The completion signal that was awaited has fired.
    Notify,
    /// A name that asks for nothing.
    Other,
}

/// The signal that a name stands for.
pub open spec fn signal_of(name: Seq<char>) -> Signal {
    if name == "gaia"@ || name == "k0"@ {
        Signal::Main
    } else if name == "k0_"@ {
        Signal::ToggleInterrupt
    } else if name == "vol_up"@ {
        Signal::VolumeUp
    } else if name == "vol_down"@ {
        Signal::VolumeDown
    } else if name == "k1"@ {
        Signal::Previous
    } else if name == "k2"@ {
        Signal::Next
    } else if name == "yes"@ {
        Signal::Yes
    } else if name == "idle"@ {
        Signal::Idle
    } else if name == "notify"@ {
        Signal::Notify
    } else {
        Signal::Other
    }
}

/// Reads a signal's name.
pub fn classify(name: &str) -> (signal: Signal)
    ensures
        signal == signal_of(name@),
{
    if str_equal(name, "gaia") || str_equal(name, "k0") {
        Signal::Main
    } else if str_equal(name, "k0_") {
        Signal::ToggleInterrupt
    } else if str_equal(name, "vol_up") {
        Signal::VolumeUp
    } else if str_equal(name, "vol_down") {
        Signal::VolumeDown
    } else if str_equal(name, "k1") {
        Signal::Previous
    } else if str_equal(name, "k2") {
        Signal::Next
    } else if str_equal(name, "yes") {
        Signal::Yes
    } else if str_equal(name, "idle") {
        Signal::Idle
    } else if str_equal(name, "notify") {
        Signal::Notify
    } else {
        Signal::Other
    }
}

/// Where the conversation stands.
#[derive(Debug, Clone, Copy, PartialEq, Eq, Structural)]
pub enum State {
    /// Disengaged: the device waits for the user to start.
    Idle,
    /// Engaged and waiting for speech.
    Listening,
    /// A turn is open and audio is being sent.
    Submitting,
    /// The turn is with the server.
    Waiting,
    /// The server offered options; `index` is the one shown.
    Choices { index: usize },
    /// The answer is being played; `blocked` while the end of playback is
    /// awaited.
    Speaking { blocked: bool },
}

/// An outcome that the orchestrator waits for before it goes on.
#[derive(Debug, Clone, Copy, PartialEq, Eq, Structural)]
pub enum Pending {
    Nothing,
    /// The connection attempt that engages the device.
    Connect,
    /// The end of the greeting.
    Hello(CompletionSignal),
    /// The player's acknowledgement of a barge-in.
    InterruptAck(CompletionSignal),
    /// The connection attempt of a barge-in.
    BargeInConnect,
    /// The connection attempt after the transport failed.
    Recover,
}

/// How long the event loop waits before it reports a timeout.
#[derive(Debug, Clone, Copy, PartialEq, Eq, Structural)]
pub enum Timeout {
    Normal,
    /// The short wait for speech to follow a barge-in.
    InterruptWait,
}

/// Milliseconds of the long wait.
pub const NORMAL_TIMEOUT_MS: u64 = 60_000;

/// Milliseconds of the short wait after a barge-in.
pub const INTERNAL_TIMEOUT_MS: u64 = 1_000;

/// The tuned thresholds of the orchestrator.
#[derive(Debug, Clone, Copy, PartialEq, Eq, Structural)]
pub struct SessionConfig {
    /// Samples that must have been heard before audio is sent.
    pub min_submit_samples: u64,
    /// Samples of one hardware chunk: the least that one audio frame holds.
    pub chunk_samples: usize,
    /// Samples after which a turn without a transcript counts as stuck.
    pub stuck_samples: u64,
    /// Samples that a barge-in must hold.
    pub min_interrupt_samples: usize,
    /// Speed, in thousandths, from which on a response is played as one
    /// block.
    pub speed_limit: u64,
    /// Connection attempts per reconnect.
    pub reconnect_retries: usize,
}

impl SessionConfig {
    /// 0.3 s before audio is sent, frames of at least 512 samples, a turn
    /// stuck after 10 s, a barge-in of at least 1.2 s, block playback from
    /// speed 1.0 on, three connection attempts.
    pub fn standard() -> (config: Self)
        ensures
            config == (SessionConfig {
                min_submit_samples: 4_800,
                chunk_samples: 512,
                stuck_samples: 160_000,
                min_interrupt_samples: 19_200,
                speed_limit: 1_000,
                reconnect_retries: 3,
            }),
    {
        SessionConfig {
            min_submit_samples: 4_800,
            chunk_samples: 512,
            stuck_samples: 160_000,
            min_interrupt_samples: 19_200,
            speed_limit: 1_000,
            reconnect_retries: 3,
        }
    }
}

/// The state label of a display update.
#[derive(Debug, Clone, PartialEq, Eq)]
pub enum Label {
    Idle,
    Listening,
    Waiting,
    /// A transcript of the user's speech is shown.
    Asr,
    /// The answer is played; the speed is in thousandths.
    Speaking { speed: u64 },
    Choices { index: usize },
    Volume(u8),
    Interrupt(bool),
    Action(String),
    ConnectFailed,
    Notification,
}

/// What a `Label` holds.
pub enum LabelView {
    Idle,
    Listening,
    Waiting,
    Asr,
    Speaking { speed: u64 },
    Choices { index: usize },
    Volume(u8),
    Interrupt(bool),
    Action(Seq<char>),
    ConnectFailed,
    Notification,
}

impl View for Label {
    type V = LabelView;

    open spec fn view(&self) -> LabelView {
        match *self {
            Label::Idle => LabelView::Idle,
            Label::Listening => LabelView::Listening,
            Label::Waiting => LabelView::Waiting,
            Label::Asr => LabelView::Asr,
            Label::Speaking { speed } => LabelView::Speaking { speed },
            Label::Choices { index } => LabelView::Choices { index },
            Label::Volume(level) => LabelView::Volume(level),
            Label::Interrupt(on) => LabelView::Interrupt(on),
            Label::Action(action) => LabelView::Action(action@),
            Label::ConnectFailed => LabelView::ConnectFailed,
            Label::Notification => LabelView::Notification,
        }
    }
}

/// Outside work that the orchestrator asks for.
#[derive(Debug, Clone, PartialEq, Eq)]
pub enum Action {
    /// Connect the transport anew, trying up to `retries` times; the outcome
    /// comes back as `Event::Connected` or `Event::ConnectFailed`.
    Reconnect { retries: usize },
    /// Close the transport.
    Close,
    /// Send a control command.
    Command(ClientCommand),
    /// Send one audio frame.
    Audio(Vec<i16>),
    /// Hand an event to the audio loop.
    Player(AudioEvent),
    /// Show a state label.
    Status(Label),
    /// Show a text.
    Transcript(String),
}

/// What an `Action` holds.
pub enum ActionView {
    Reconnect { retries: usize },
    Close,
    Command(ClientCommandView),
    Audio(Seq<i16>),
    Player(AudioEventView),
    Status(LabelView),
    Transcript(Seq<char>),
}

impl View for Action {
    type V = ActionView;

    open spec fn view(&self) -> ActionView {
        match *self {
            Action::Reconnect { retries } => ActionView::Reconnect { retries },
            Action::Close => ActionView::Close,
            Action::Command(command) => ActionView::Command(command@),
            Action::Audio(samples) => ActionView::Audio(samples@),
            Action::Player(event) => ActionView::Player(event@),
            Action::Status(label) => ActionView::Status(label@),
            Action::Transcript(text) => ActionView::Transcript(text@),
        }
    }
}

/// The views of a list of actions, in order.
pub open spec fn action_views(actions: Seq<Action>) -> Seq<ActionView> {
    actions.map_values(|a: Action| a@)
}

/// The audio of the turn that is being recorded.
#[derive(Debug, Clone, PartialEq, Eq)]
pub struct SubmitState {
    /// Samples heard and not yet sent.
    pub buffer: Vec<i16>,
    /// Samples heard in this turn.
    pub duration: u64,
    /// Whether the turn was opened at the server.
    pub started: bool,
    /// Whether the server sent a transcript for this turn.
    pub got_asr_result: bool,
}

/// What a `SubmitState` holds.
pub struct SubmitStateView {
    pub buffer: Seq<i16>,
    pub duration: u64,
    pub started: bool,
    pub got_asr_result: bool,
}

impl SubmitStateView {
    /// The state before anything was heard.
    pub open spec fn empty() -> SubmitStateView {
        SubmitStateView { buffer: Seq::empty(), duration: 0, started: false, got_asr_result: false }
    }
}

impl View for SubmitState {
    type V = SubmitStateView;

    open spec fn view(&self) -> SubmitStateView {
        SubmitStateView {
            buffer: self.buffer@,
            duration: self.duration,
            started: self.started,
            got_asr_result: self.got_asr_result,
        }
    }
}

impl SubmitState {
    pub fn new() -> (submit: Self)
        ensures
            submit@ == SubmitStateView::empty(),
    {
        SubmitState { buffer: Vec::new(), duration: 0, started: false, got_asr_result: false }
    }
}

/// Volume level when the session starts.
pub const INITIAL_VOLUME: u8 = 3;

/// Lowest volume level the buttons reach.
pub const MIN_VOLUME: u8 = 1;

/// Highest volume level the buttons reach.
pub const TOP_VOLUME: u8 = 5;

/// Speed assumed, in thousandths, before any response was measured.
pub const INITIAL_SPEED: u64 = 1_500;

/// The orchestrator of one device.
#[derive(Debug, Clone, PartialEq, Eq)]
pub struct Session {
    pub config: SessionConfig,
    pub state: State,
    pub pending: Pending,
    /// The end-of-speech signal whose firing is awaited, if any.
    pub playback: Option<CompletionSignal>,
    pub timeout: Timeout,
    pub submit: SubmitState,
    pub metrics: DownloadMetrics,
    /// Whether the response under way is measured.
    pub need_compute: bool,
    /// Speed of the last measured response, in thousandths.
    pub speed: u64,
    pub volume: u8,
    pub allow_interrupt: bool,
    /// Speech received and held back for block playback.
    pub recv_audio: Vec<i16>,
    /// The greeting sound received so far.
    pub hello: Vec<u8>,
    /// Whether the greeting sound was handed to the player.
    pub init_hello: bool,
    /// Number of options the server offered.
    pub choice_count: usize,
    /// Id of the next completion signal.
    pub next_signal: u64,
}

/// What a `Session` holds.
pub struct SessionView {
    pub config: SessionConfig,
    pub state: State,
    pub pending: Pending,
    pub playback: Option<CompletionSignal>,
    pub timeout: Timeout,
    pub submit: SubmitStateView,
    pub metrics: DownloadMetrics,
    pub need_compute: bool,
    pub speed: u64,
    pub volume: u8,
    pub allow_interrupt: bool,
    pub recv_audio: Seq<i16>,
    pub hello: Seq<u8>,
    pub init_hello: bool,
    pub choice_count: usize,
    pub next_signal: u64,
}

impl View for Session {
    type V = SessionView;

    open spec fn view(&self) -> SessionView {
        SessionView {
            config: self.config,
            state: self.state,
            pending: self.pending,
            playback: self.playback,
            timeout: self.timeout,
            submit: self.submit@,
            metrics: self.metrics,
            need_compute: self.need_compute,
            speed: self.speed,
            volume: self.volume,
            allow_interrupt: self.allow_interrupt,
            recv_audio: self.recv_audio@,
            hello: self.hello@,
            init_hello: self.init_hello,
            choice_count: self.choice_count,
            next_signal: self.next_signal,
        }
    }
}

/// `a + b`, capped at the largest `u64`.
pub open spec fn capped_sum(a: u64, b: nat) -> u64 {
    if a + b > u64::MAX {
        u64::MAX
    } else {
        (a + b) as u64
    }
}

impl SessionView {
    /// The session as it starts at clock reading `now_ms`.
    pub open spec fn initial(config: SessionConfig, now_ms: u64) -> SessionView {
        SessionView {
            config,
            state: State::Idle,
            pending: Pending::Nothing,
            playback: None,
            timeout: Timeout::Normal,
            submit: SubmitStateView::empty(),
            metrics: DownloadMetrics {
                start_ms: now_ms,
                backdate_ms: STALE_MS,
                data_size: 0,
                timeout_sec: METRICS_TIMEOUT_SEC,
            },
            need_compute: true,
            speed: INITIAL_SPEED,
            volume: INITIAL_VOLUME,
            allow_interrupt: false,
            recv_audio: Seq::empty(),
            hello: Seq::empty(),
            init_hello: false,
            choice_count: 0,
            next_signal: 0,
        }
    }

    /// Whether an outcome is awaited. Until it arrives only the outcome, the
    /// volume and barge-in switches and the greeting are attended to.
    pub open spec fn busy(self) -> bool {
        !(self.pending is Nothing)
    }

    /// The completion signal that is made next.
    pub open spec fn fresh_signal(self) -> CompletionSignal {
        CompletionSignal { id: self.next_signal }
    }

    /// The id that follows `next_signal`.
    pub open spec fn following_id(self) -> u64 {
        if self.next_signal == u64::MAX {
            0
        } else {
            (self.next_signal + 1) as u64
        }
    }

    /// Nothing changes and nothing is asked for.
    pub open spec fn stay(self) -> (SessionView, Seq<ActionView>) {
        (self, Seq::empty())
    }

    /// The session disengages.
    pub open spec fn disengaged(self) -> SessionView {
        SessionView {
            state: State::Idle,
            pending: Pending::Nothing,
            playback: None,
            timeout: Timeout::Normal,
            submit: SubmitStateView::empty(),
            recv_audio: Seq::empty(),
            ..self
        }
    }

    /// The option at `index` is confirmed.
    pub open spec fn confirm(self, index: usize) -> (SessionView, Seq<ActionView>) {
        (
            SessionView { state: State::Waiting, ..self },
            seq![
                ActionView::Command(ClientCommandView::Select { index }),
                ActionView::Status(LabelView::Waiting),
            ],
        )
    }

    /// The option shown after moving one step from `index`, kept within the
    /// options offered.
    pub open spec fn moved(self, index: usize, forward: bool) -> usize {
        if forward {
            if index + 1 < self.choice_count {
                (index + 1) as usize
            } else if self.choice_count > 0 {
                (self.choice_count - 1) as usize
            } else {
                0
            }
        } else {
            if index > 0 {
                (index - 1) as usize
            } else {
                0
            }
        }
    }

    /// The awaited completion signal has fired.
    pub open spec fn on_notify(self) -> (SessionView, Seq<ActionView>) {
        match self.pending {
            Pending::Hello(_) => (
                SessionView {
                    state: State::Listening,
                    pending: Pending::Nothing,
                    timeout: Timeout::Normal,
                    submit: SubmitStateView::empty(),
                    ..self
                },
                seq![ActionView::Status(LabelView::Listening)],
            ),
            Pending::InterruptAck(_) => (
                SessionView { pending: Pending::BargeInConnect, ..self },
                seq![ActionView::Reconnect { retries: self.config.reconnect_retries }],
            ),
            _ => (
                SessionView {
                    playback: None,
                    state: if self.state is Speaking {
                        State::Speaking { blocked: false }
                    } else {
                        self.state
                    },
                    ..self
                },
                Seq::empty(),
            ),
        }
    }

    /// The volume is set to `level` and shown.
    pub open spec fn with_volume(self, level: u8) -> (SessionView, Seq<ActionView>) {
        (
            SessionView { volume: level, ..self },
            seq![
                ActionView::Player(AudioEventView::VolSet(level)),
                ActionView::Status(LabelView::Volume(level)),
            ],
        )
    }

    /// The main button was pressed or the wake word heard.
    pub open spec fn on_main(self) -> (SessionView, Seq<ActionView>) {
        if self.busy() {
            self.stay()
        } else {
            match self.state {
                State::Idle => (
                    SessionView { pending: Pending::Connect, ..self },
                    seq![ActionView::Reconnect { retries: self.config.reconnect_retries }],
                ),
                State::Listening | State::Submitting => (
                    self.disengaged(),
                    seq![ActionView::Close, ActionView::Status(LabelView::Idle)],
                ),
                State::Choices { index } => self.confirm(index),
                State::Waiting | State::Speaking { .. } => (
                    self.disengaged(),
                    seq![
                        ActionView::Player(AudioEventView::ClearSpeech),
                        ActionView::Close,
                        ActionView::Status(LabelView::Idle),
                    ],
                ),
            }
        }
    }

    /// A named signal arrived.
    pub open spec fn on_signal(self, signal: Signal) -> (SessionView, Seq<ActionView>) {
        match signal {
            Signal::Notify => self.on_notify(),
            Signal::VolumeUp => self.with_volume(
                if self.volume >= TOP_VOLUME {
                    TOP_VOLUME
                } else {
                    (self.volume + 1) as u8
                },
            ),
            Signal::VolumeDown => self.with_volume(
                if self.volume <= MIN_VOLUME {
                    MIN_VOLUME
                } else {
                    (self.volume - 1) as u8
                },
            ),
            Signal::ToggleInterrupt => (
                SessionView { allow_interrupt: !self.allow_interrupt, ..self },
                seq![ActionView::Status(LabelView::Interrupt(!self.allow_interrupt))],
            ),
            Signal::Main => self.on_main(),
            Signal::Yes => match self.state {
                State::Choices { index } if !self.busy() => self.confirm(index),
                _ => self.stay(),
            },
            Signal::Previous | Signal::Next => match self.state {
                State::Choices { index } if !self.busy() => {
                    let shown = self.moved(index, signal is Next);
                    (
                        SessionView { state: State::Choices { index: shown }, ..self },
                        seq![ActionView::Status(LabelView::Choices { index: shown })],
                    )
                },
                _ => self.stay(),
            },
            Signal::Idle => if !self.busy() && (self.state is Listening
                || self.state is Submitting) {
                (self.disengaged(), seq![ActionView::Close, ActionView::Status(LabelView::Idle)])
            } else {
                self.stay()
            },
            Signal::Other => self.stay(),
        }
    }

    /// The transport is connected.
    pub open spec fn on_connected(self) -> (SessionView, Seq<ActionView>) {
        match self.pending {
            Pending::Connect => (
                SessionView {
                    pending: Pending::Hello(self.fresh_signal()),
                    next_signal: self.following_id(),
                    ..self
                },
                seq![ActionView::Player(AudioEventView::Hello(self.fresh_signal()))],
            ),
            Pending::BargeInConnect => (
                SessionView {
                    state: State::Listening,
                    pending: Pending::Nothing,
                    timeout: Timeout::InterruptWait,
                    recv_audio: Seq::empty(),
                    ..self
                },
                seq![ActionView::Status(LabelView::Listening)],
            ),
            Pending::Recover => (
                SessionView {
                    state: State::Listening,
                    pending: Pending::Nothing,
                    timeout: Timeout::Normal,
                    submit: SubmitStateView::empty(),
                    recv_audio: Seq::empty(),
                    ..self
                },
                seq![ActionView::Status(LabelView::Listening)],
            ),
            _ => self.stay(),
        }
    }

    /// The transport could not be connected.
    pub open spec fn on_connect_failed(self) -> (SessionView, Seq<ActionView>) {
        match self.pending {
            Pending::Connect | Pending::BargeInConnect | Pending::Recover => (
                self.disengaged(),
                seq![ActionView::Status(LabelView::ConnectFailed)],
            ),
            _ => self.stay(),
        }
    }

    /// The transport failed while in use.
    pub open spec fn on_connection_lost(self) -> (SessionView, Seq<ActionView>) {
        if self.busy() || self.state is Idle {
            self.stay()
        } else {
            (
                SessionView { pending: Pending::Recover, ..self },
                seq![ActionView::Reconnect { retries: self.config.reconnect_retries }],
            )
        }
    }

    /// What opens a turn at the server, where it is not open yet.
    pub open spec fn opening(self) -> Seq<ActionView> {
        if self.submit.started {
            Seq::empty()
        } else {
            seq![ActionView::Command(ClientCommandView::StartChat)]
        }
    }

    /// Speech was heard while the device was silent.
    pub open spec fn on_mic_chunk(self, samples: Seq<i16>) -> (SessionView, Seq<ActionView>) {
        if self.busy() || !(self.state is Listening || self.state is Submitting) {
            self.stay()
        } else {
            let duration = capped_sum(self.submit.duration, samples.len());
            let buffer = self.submit.buffer + samples;
            if duration > self.config.stuck_samples && !self.submit.got_asr_result {
                (
                    SessionView {
                        state: State::Listening,
                        submit: SubmitStateView::empty(),
                        ..self
                    },
                    seq![ActionView::Status(LabelView::Listening)],
                )
            } else if duration >= self.config.min_submit_samples && buffer.len()
                >= self.config.chunk_samples {
                (
                    SessionView {
                        state: State::Submitting,
                        submit: SubmitStateView {
                            buffer: Seq::empty(),
                            duration,
                            started: true,
                            ..self.submit
                        },
                        ..self
                    },
                    self.opening() + seq![ActionView::Audio(buffer)],
                )
            } else {
                (
                    SessionView {
                        submit: SubmitStateView { buffer, duration, ..self.submit },
                        ..self
                    },
                    Seq::empty(),
                )
            }
        }
    }

    /// What sends the samples that are still held, where there are any.
    pub open spec fn flushing(self) -> Seq<ActionView> {
        if self.submit.buffer.len() > 0 {
            seq![ActionView::Audio(self.submit.buffer)]
        } else {
            Seq::empty()
        }
    }

    /// The speech has ended.
    pub open spec fn on_mic_end(self) -> (SessionView, Seq<ActionView>) {
        if self.busy() || !(self.state is Listening || self.state is Submitting)
            || self.submit.duration < self.config.min_submit_samples {
            self.stay()
        } else {
            (
                SessionView {
                    state: State::Waiting,
                    timeout: Timeout::Normal,
                    submit: SubmitStateView::empty(),
                    ..self
                },
                self.opening() + self.flushing() + seq![
                    ActionView::Command(ClientCommandView::Submit),
                    ActionView::Status(LabelView::Waiting),
                ],
            )
        }
    }

    /// Whether a segment heard during playback starts a barge-in.
    pub open spec fn interrupts(self, samples: Seq<i16>) -> bool {
        &&& !self.busy()
        &&& self.state is Listening || self.state is Speaking
        &&& self.allow_interrupt
        &&& samples.len() >= self.config.min_interrupt_samples
    }

    /// A segment of speech was heard during playback.
    pub open spec fn on_interrupt(self, samples: Seq<i16>) -> (SessionView, Seq<ActionView>) {
        if self.interrupts(samples) {
            (
                SessionView {
                    state: if self.state is Speaking {
                        State::Speaking { blocked: false }
                    } else {
                        self.state
                    },
                    pending: Pending::InterruptAck(self.fresh_signal()),
                    playback: None,
                    next_signal: self.following_id(),
                    submit: SubmitStateView {
                        buffer: samples,
                        duration: capped_sum(0, samples.len()),
                        started: false,
                        got_asr_result: false,
                    },
                    ..self
                },
                seq![ActionView::Player(AudioEventView::Interrupt(self.fresh_signal()))],
            )
        } else {
            self.stay()
        }
    }

    /// Nothing followed a barge-in within the short wait.
    pub open spec fn on_interrupt_timeout(self) -> (SessionView, Seq<ActionView>) {
        if !self.busy() && self.state is Listening && !self.submit.started {
            (
                SessionView {
                    state: State::Waiting,
                    timeout: Timeout::Normal,
                    submit: SubmitStateView::empty(),
                    ..self
                },
                seq![
                    ActionView::Command(ClientCommandView::StartChat),
                    ActionView::Audio(self.submit.buffer),
                    ActionView::Command(ClientCommandView::Submit),
                    ActionView::Status(LabelView::Waiting),
                ],
            )
        } else {
            (SessionView { timeout: Timeout::Normal, ..self }, Seq::empty())
        }
    }

    /// Synthesized speech is announced at clock reading `now_ms`.
    pub open spec fn on_start_audio(self, text: Seq<char>, now_ms: u64) -> (
        SessionView,
        Seq<ActionView>,
    ) {
        if self.state is Waiting || self.state is Speaking {
            let stale = self.metrics.stale_at(now_ms);
            (
                SessionView {
                    state: State::Speaking { blocked: self.playback is Some },
                    need_compute: self.need_compute || stale,
                    metrics: if stale {
                        self.metrics.restarted(now_ms)
                    } else {
                        self.metrics
                    },
                    ..self
                },
                seq![
                    ActionView::Status(LabelView::Speaking { speed: self.speed }),
                    ActionView::Transcript(trimmed(text)),
                    ActionView::Player(AudioEventView::StartSpeech),
                ],
            )
        } else {
            self.stay()
        }
    }

    /// Whether speech is handed to the player as it arrives.
    pub open spec fn streams(self) -> bool {
        self.speed < self.config.speed_limit
    }

    /// A piece of synthesized speech arrived.
    pub open spec fn on_audio_chunk(self, data: Seq<u8>, viseme: Option<u8>) -> (
        SessionView,
        Seq<ActionView>,
    ) {
        if self.state is Speaking {
            let metrics = if self.need_compute {
                self.metrics.with_data(data.len() as usize)
            } else {
                self.metrics
            };
            if self.streams() {
                (
                    SessionView { metrics, ..self },
                    seq![ActionView::Player(AudioEventView::SpeechChunk(data, viseme))],
                )
            } else {
                (
                    SessionView {
                        metrics,
                        recv_audio: self.recv_audio + decode_le(data),
                        ..self
                    },
                    Seq::empty(),
                )
            }
        } else {
            self.stay()
        }
    }

    /// What plays the speech that was held back, where there is any.
    pub open spec fn block(self) -> Seq<ActionView> {
        if self.recv_audio.len() > 0 {
            seq![ActionView::Player(AudioEventView::SpeechChunki16(self.recv_audio, None))]
        } else {
            Seq::empty()
        }
    }

    /// The synthesized speech is complete at clock reading `now_ms`.
    pub open spec fn on_end_audio(self, now_ms: u64) -> (SessionView, Seq<ActionView>) {
        if self.state is Speaking {
            (
                SessionView {
                    state: State::Speaking { blocked: true },
                    playback: Some(self.fresh_signal()),
                    next_signal: self.following_id(),
                    recv_audio: Seq::empty(),
                    speed: if self.need_compute {
                        self.metrics.speed_at(now_ms)
                    } else {
                        self.speed
                    },
                    need_compute: false,
                    ..self
                },
                self.block() + seq![
                    ActionView::Player(AudioEventView::EndSpeech(self.fresh_signal())),
                ],
            )
        } else {
            self.stay()
        }
    }

    /// The server has answered the turn in full.
    pub open spec fn on_end_response(self) -> (SessionView, Seq<ActionView>) {
        match self.state {
            State::Idle => self.stay(),
            State::Choices { .. } => (
                SessionView {
                    submit: SubmitStateView::empty(),
                    recv_audio: Seq::empty(),
                    ..self
                },
                Seq::empty(),
            ),
            _ => (
                SessionView {
                    state: State::Listening,
                    submit: SubmitStateView::empty(),
                    recv_audio: Seq::empty(),
                    ..self
                },
                seq![ActionView::Status(LabelView::Listening)],
            ),
        }
    }

    /// A piece of the greeting arrived, or its start or end.
    pub open spec fn on_hello(self, event: ServerEventView) -> (SessionView, Seq<ActionView>) {
        match event {
            ServerEventView::HelloStart => (
                SessionView { hello: Seq::empty(), ..self },
                Seq::empty(),
            ),
            ServerEventView::HelloChunk { data } => if self.init_hello {
                self.stay()
            } else {
                (SessionView { hello: self.hello + data, ..self }, Seq::empty())
            },
            ServerEventView::HelloEnd => if self.init_hello {
                self.stay()
            } else {
                (
                    SessionView { hello: Seq::empty(), init_hello: true, ..self },
                    seq![ActionView::Player(AudioEventView::SetHello(self.hello))],
                )
            },
            _ => self.stay(),
        }
    }

    /// An event from the server arrived at clock reading `now_ms`.
    pub open spec fn on_server(self, event: ServerEventView, now_ms: u64) -> (
        SessionView,
        Seq<ActionView>,
    ) {
        match event {
            ServerEventView::HelloStart
            | ServerEventView::HelloChunk { .. }
            | ServerEventView::HelloEnd => self.on_hello(event),
            _ => if self.busy() {
                self.stay()
            } else {
                match event {
                    ServerEventView::ASR { text } => (
                        SessionView {
                            submit: SubmitStateView { got_asr_result: true, ..self.submit },
                            ..self
                        },
                        seq![
                            ActionView::Status(LabelView::Asr),
                            ActionView::Transcript(trimmed(text)),
                        ],
                    ),
                    ServerEventView::Action { action } => (
                        self,
                        seq![ActionView::Status(LabelView::Action(action))],
                    ),
                    ServerEventView::Choices { message, items } => if self.state is Waiting
                        || self.state is Speaking {
                        (
                            SessionView {
                                state: State::Choices { index: 0 },
                                choice_count: items.len() as usize,
                                ..self
                            },
                            seq![
                                ActionView::Status(LabelView::Choices { index: 0 }),
                                ActionView::Transcript(message),
                            ],
                        )
                    } else {
                        self.stay()
                    },
                    ServerEventView::StartAudio { text } => self.on_start_audio(text, now_ms),
                    ServerEventView::AudioChunk { data, viseme } => self.on_audio_chunk(
                        data,
                        viseme,
                    ),
                    ServerEventView::EndAudio => self.on_end_audio(now_ms),
                    ServerEventView::EndResponse => self.on_end_response(),
                    ServerEventView::EndVad => if self.state is Submitting {
                        (
                            SessionView {
                                state: State::Waiting,
                                submit: SubmitStateView::empty(),
                                ..self
                            },
                            seq![ActionView::Status(LabelView::Waiting)],
                        )
                    } else {
                        self.stay()
                    },
                    ServerEventView::HasNotification => (
                        self,
                        seq![ActionView::Status(LabelView::Notification)],
                    ),
                    _ => self.stay(),
                }
            },
        }
    }

    /// The session and the outside work asked for after `event`, handled at
    /// clock reading `now_ms`.
    pub open spec fn step(self, event: EventView, now_ms: u64) -> (SessionView, Seq<ActionView>) {
        match event {
            EventView::Event(name) => self.on_signal(signal_of(name)),
            EventView::ServerEvent(event) => self.on_server(event, now_ms),
            EventView::MicAudioChunk(samples) => self.on_mic_chunk(samples),
            EventView::MicAudioEnd => self.on_mic_end(),
            EventView::MicInterrupt(samples) => self.on_interrupt(samples),
            EventView::MicInterruptWaitTimeout => self.on_interrupt_timeout(),
            EventView::Connected => self.on_connected(),
            EventView::ConnectFailed => self.on_connect_failed(),
            EventView::ConnectionLost => self.on_connection_lost(),
        }
    }
}

impl Session {
    /// A session that starts disengaged at clock reading `now_ms`.
    pub fn new(config: SessionConfig, now_ms: u64) -> (session: Self)
        ensures
            session@ == SessionView::initial(config, now_ms),
    {
        Session {
            config,
            state: State::Idle,
            pending: Pending::Nothing,
            playback: None,
            timeout: Timeout::Normal,
            submit: SubmitState::new(),
            metrics: DownloadMetrics::new(now_ms),
            need_compute: true,
            speed: INITIAL_SPEED,
            volume: INITIAL_VOLUME,
            allow_interrupt: false,
            recv_audio: Vec::new(),
            hello: Vec::new(),
            init_hello: false,
            choice_count: 0,
            next_signal: 0,
        }
    }

    /// Whether an outcome is awaited; see `SessionView::busy`.
    pub fn busy(&self) -> (busy: bool)
        ensures
            busy == self@.busy(),
    {
        match self.pending {
            Pending::Nothing => false,
            _ => true,
        }
    }

    /// The completion signal whose firing is to be reported as
    /// `Event::NOTIFY`: that of a greeting or barge-in under way, else that
    /// of the speech being played.
    pub fn awaited_signal(&self) -> (signal: Option<CompletionSignal>)
        ensures
            signal == match self.pending {
                Pending::Hello(s) => Some(s),
                Pending::InterruptAck(s) => Some(s),
                _ => self.playback,
            },
    {
        match self.pending {
            Pending::Hello(s) => Some(s),
            Pending::InterruptAck(s) => Some(s),
            _ => self.playback,
        }
    }

    /// Milliseconds to wait for an event before reporting a timeout.
    pub fn timeout_ms(&self) -> (ms: u64)
        ensures
            ms == if self.timeout is InterruptWait {
                INTERNAL_TIMEOUT_MS
            } else {
                NORMAL_TIMEOUT_MS
            },
    {
        match self.timeout {
            Timeout::InterruptWait => INTERNAL_TIMEOUT_MS,
            Timeout::Normal => NORMAL_TIMEOUT_MS,
        }
    }

    /// The event that reports a timeout of the current wait.
    pub fn timeout_event(&self) -> (event: Event)
        ensures
            event@ == if self.timeout is InterruptWait {
                EventView::MicInterruptWaitTimeout
            } else {
                EventView::Event("idle"@)
            },
    {
        match self.timeout {
            Timeout::InterruptWait => Event::MicInterruptWaitTimeout,
            Timeout::Normal => Event::Event("idle"),
        }
    }

    fn take_signal(&mut self) -> (signal: CompletionSignal)
        ensures
            signal == old(self)@.fresh_signal(),
            *final(self) == (Session { next_signal: old(self)@.following_id(), ..*old(self) }),
    {
        let signal = CompletionSignal { id: self.next_signal };
        self.next_signal = if self.next_signal == u64::MAX {
            0
        } else {
            self.next_signal + 1
        };
        signal
    }

    fn disengage(&mut self)
        ensures
            final(self)@ == old(self)@.disengaged(),
    {
        self.state = State::Idle;
        self.pending = Pending::Nothing;
        self.playback = None;
        self.timeout = Timeout::Normal;
        self.submit = SubmitState::new();
        self.recv_audio = Vec::new();
    }

    fn confirm(&mut self, index: usize) -> (actions: Vec<Action>)
        ensures
            final(self)@ == old(self)@.confirm(index).0,
            action_views(actions@) == old(self)@.confirm(index).1,
    {
        self.state = State::Waiting;
        let mut actions: Vec<Action> = Vec::new();
        actions.push(Action::Command(ClientCommand::Select { index }));
        actions.push(Action::Status(Label::Waiting));
        assert(action_views(actions@) =~= old(self)@.confirm(index).1);
        actions
    }

    fn on_notify(&mut self) -> (actions: Vec<Action>)
        ensures
            final(self)@ == old(self)@.on_notify().0,
            action_views(actions@) == old(self)@.on_notify().1,
    {
        let mut actions: Vec<Action> = Vec::new();
        match self.pending {
            Pending::Hello(_) => {
                self.state = State::Listening;
                self.pending = Pending::Nothing;
                self.timeout = Timeout::Normal;
                self.submit = SubmitState::new();
                actions.push(Action::Status(Label::Listening));
            },
            Pending::InterruptAck(_) => {
                self.pending = Pending::BargeInConnect;
                actions.push(Action::Reconnect { retries: self.config.reconnect_retries });
            },
            _ => {
                self.playback = None;
                match self.state {
                    State::Speaking { .. } => {
                        self.state = State::Speaking { blocked: false };
                    },
                    _ => {},
                }
            },
        }
        assert(action_views(actions@) =~= old(self)@.on_notify().1);
        actions
    }

    fn set_volume(&mut self, level: u8) -> (actions: Vec<Action>)
        ensures
            final(self)@ == old(self)@.with_volume(level).0,
            action_views(actions@) == old(self)@.with_volume(level).1,
    {
        self.volume = level;
        let mut actions: Vec<Action> = Vec::new();
        actions.push(Action::Player(AudioEvent::VolSet(level)));
        actions.push(Action::Status(Label::Volume(level)));
        assert(action_views(actions@) =~= old(self)@.with_volume(level).1);
        actions
    }

    fn on_main(&mut self) -> (actions: Vec<Action>)
        ensures
            final(self)@ == old(self)@.on_main().0,
            action_views(actions@) == old(self)@.on_main().1,
    {
        let mut actions: Vec<Action> = Vec::new();
        if self.busy() {
            assert(action_views(actions@) =~= old(self)@.on_main().1);
            return actions;
        }
        match self.state {
            State::Idle => {
                self.pending = Pending::Connect;
                actions.push(Action::Reconnect { retries: self.config.reconnect_retries });
            },
            State::Listening | State::Submitting => {
                self.disengage();
                actions.push(Action::Close);
                actions.push(Action::Status(Label::Idle));
            },
            State::Choices { index } => {
                return self.confirm(index);
            },
            State::Waiting | State::Speaking { .. } => {
                self.disengage();
                actions.push(Action::Player(AudioEvent::ClearSpeech));
                actions.push(Action::Close);
                actions.push(Action::Status(Label::Idle));
            },
        }
        assert(action_views(actions@) =~= old(self)@.on_main().1);
        actions
    }

    fn on_signal(&mut self, signal: Signal) -> (actions: Vec<Action>)
        ensures
            final(self)@ == old(self)@.on_signal(signal).0,
            action_views(actions@) == old(self)@.on_signal(signal).1,
    {
        let mut actions: Vec<Action> = Vec::new();
        match signal {
            Signal::Notify => {
                return self.on_notify();
            },
            Signal::VolumeUp => {
                let level: u8 = if self.volume >= TOP_VOLUME {
                    TOP_VOLUME
                } else {
                    self.volume + 1
                };
                return self.set_volume(level);
            },
            Signal::VolumeDown => {
                let level: u8 = if self.volume <= MIN_VOLUME {
                    MIN_VOLUME
                } else {
                    self.volume - 1
                };
                return self.set_volume(level);
            },
            Signal::ToggleInterrupt => {
                self.allow_interrupt = !self.allow_interrupt;
                actions.push(Action::Status(Label::Interrupt(self.allow_interrupt)));
            },
            Signal::Main => {
                return self.on_main();
            },
            Signal::Yes => {
                if !self.busy() {
                    match self.state {
                        State::Choices { index } => {
                            return self.confirm(index);
                        },
                        _ => {},
                    }
                }
            },
            Signal::Previous | Signal::Next => {
                if !self.busy() {
                    match self.state {
                        State::Choices { index } => {
                            let forward = match signal {
                                Signal::Next => true,
                                _ => false,
                            };
                            let shown: usize = if forward {
                                if index < usize::MAX && index + 1 < self.choice_count {
                                    index + 1
                                } else if self.choice_count > 0 {
                                    self.choice_count - 1
                                } else {
                                    0
                                }
                            } else if index > 0 {
                                index - 1
                            } else {
                                0
                            };
                            self.state = State::Choices { index: shown };
                            actions.push(Action::Status(Label::Choices { index: shown }));
                        },
                        _ => {},
                    }
                }
            },
            Signal::Idle => {
                if !self.busy() {
                    match self.state {
                        State::Listening | State::Submitting => {
                            self.disengage();
                            actions.push(Action::Close);
                            actions.push(Action::Status(Label::Idle));
                        },
                        _ => {},
                    }
                }
            },
            Signal::Other => {},
        }
        assert(action_views(actions@) =~= old(self)@.on_signal(signal).1);
        actions
    }
}

impl Session {
    fn on_connected(&mut self) -> (actions: Vec<Action>)
        ensures
            final(self)@ == old(self)@.on_connected().0,
            action_views(actions@) == old(self)@.on_connected().1,
    {
        let mut actions: Vec<Action> = Vec::new();
        match self.pending {
            Pending::Connect => {
                let signal = self.take_signal();
                self.pending = Pending::Hello(signal);
                actions.push(Action::Player(AudioEvent::Hello(signal)));
            },
            Pending::BargeInConnect => {
                self.state = State::Listening;
                self.pending = Pending::Nothing;
                self.timeout = Timeout::InterruptWait;
                self.recv_audio = Vec::new();
                actions.push(Action::Status(Label::Listening));
            },
            Pending::Recover => {
                self.state = State::Listening;
                self.pending = Pending::Nothing;
                self.timeout = Timeout::Normal;
                self.submit = SubmitState::new();
                self.recv_audio = Vec::new();
                actions.push(Action::Status(Label::Listening));
            },
            _ => {},
        }
        assert(action_views(actions@) =~= old(self)@.on_connected().1);
        actions
    }

    fn on_connect_failed(&mut self) -> (actions: Vec<Action>)
        ensures
            final(self)@ == old(self)@.on_connect_failed().0,
            action_views(actions@) == old(self)@.on_connect_failed().1,
    {
        let mut actions: Vec<Action> = Vec::new();
        match self.pending {
            Pending::Connect | Pending::BargeInConnect | Pending::Recover => {
                self.disengage();
                actions.push(Action::Status(Label::ConnectFailed));
            },
            _ => {},
        }
        assert(action_views(actions@) =~= old(self)@.on_connect_failed().1);
        actions
    }

    fn on_connection_lost(&mut self) -> (actions: Vec<Action>)
        ensures
            final(self)@ == old(self)@.on_connection_lost().0,
            action_views(actions@) == old(self)@.on_connection_lost().1,
    {
        let mut actions: Vec<Action> = Vec::new();
        let idle = match self.state {
            State::Idle => true,
            _ => false,
        };
        if !self.busy() && !idle {
            self.pending = Pending::Recover;
            actions.push(Action::Reconnect { retries: self.config.reconnect_retries });
        }
        assert(action_views(actions@) =~= old(self)@.on_connection_lost().1);
        actions
    }

    /// Whether speech from the microphone is recorded in this state.
    fn records(&self) -> (yes: bool)
        ensures
            yes == (!self@.busy() && (self.state is Listening || self.state is Submitting)),
    {
        if self.busy() {
            return false;
        }
        match self.state {
            State::Listening | State::Submitting => true,
            _ => false,
        }
    }

    fn on_mic_chunk(&mut self, samples: Vec<i16>) -> (actions: Vec<Action>)
        ensures
            final(self)@ == old(self)@.on_mic_chunk(samples@).0,
            action_views(actions@) == old(self)@.on_mic_chunk(samples@).1,
    {
        let mut actions: Vec<Action> = Vec::new();
        if !self.records() {
            assert(action_views(actions@) =~= old(self)@.on_mic_chunk(samples@).1);
            return actions;
        }
        let mut heard = samples;
        let count: usize = heard.len();
        let duration: u64 = if count as u64 > u64::MAX - self.submit.duration {
            u64::MAX
        } else {
            self.submit.duration + count as u64
        };
        self.submit.buffer.append(&mut heard);
        self.submit.duration = duration;
        if duration > self.config.stuck_samples && !self.submit.got_asr_result {
            self.state = State::Listening;
            self.submit = SubmitState::new();
            actions.push(Action::Status(Label::Listening));
        } else if duration >= self.config.min_submit_samples && self.submit.buffer.len()
            >= self.config.chunk_samples {
            if !self.submit.started {
                actions.push(Action::Command(ClientCommand::StartChat));
            }
            let mut frame: Vec<i16> = Vec::new();
            core::mem::swap(&mut frame, &mut self.submit.buffer);
            actions.push(Action::Audio(frame));
            self.submit.started = true;
            self.state = State::Submitting;
        }
        assert(action_views(actions@) =~= old(self)@.on_mic_chunk(samples@).1);
        assert(self@ =~~= old(self)@.on_mic_chunk(samples@).0);
        actions
    }

    fn on_mic_end(&mut self) -> (actions: Vec<Action>)
        ensures
            final(self)@ == old(self)@.on_mic_end().0,
            action_views(actions@) == old(self)@.on_mic_end().1,
    {
        let mut actions: Vec<Action> = Vec::new();
        if !self.records() || self.submit.duration < self.config.min_submit_samples {
            assert(action_views(actions@) =~= old(self)@.on_mic_end().1);
            return actions;
        }
        if !self.submit.started {
            actions.push(Action::Command(ClientCommand::StartChat));
        }
        if self.submit.buffer.len() > 0 {
            let mut frame: Vec<i16> = Vec::new();
            core::mem::swap(&mut frame, &mut self.submit.buffer);
            actions.push(Action::Audio(frame));
        }
        actions.push(Action::Command(ClientCommand::Submit));
        actions.push(Action::Status(Label::Waiting));
        self.state = State::Waiting;
        self.timeout = Timeout::Normal;
        self.submit = SubmitState::new();
        assert(action_views(actions@) =~= old(self)@.on_mic_end().1);
        actions
    }

    fn on_interrupt(&mut self, samples: Vec<i16>) -> (actions: Vec<Action>)
        ensures
            final(self)@ == old(self)@.on_interrupt(samples@).0,
            action_views(actions@) == old(self)@.on_interrupt(samples@).1,
    {
        let mut actions: Vec<Action> = Vec::new();
        let state_fits = match self.state {
            State::Listening | State::Speaking { .. } => true,
            _ => false,
        };
        if self.busy() || !state_fits || !self.allow_interrupt || samples.len()
            < self.config.min_interrupt_samples {
            assert(action_views(actions@) =~= old(self)@.on_interrupt(samples@).1);
            return actions;
        }
        let signal = self.take_signal();
        match self.state {
            State::Speaking { .. } => {
                self.state = State::Speaking { blocked: false };
            },
            _ => {},
        }
        self.pending = Pending::InterruptAck(signal);
        self.playback = None;
        let heard: usize = samples.len();
        self.submit = SubmitState {
            buffer: samples,
            duration: heard as u64,
            started: false,
            got_asr_result: false,
        };
        actions.push(Action::Player(AudioEvent::Interrupt(signal)));
        assert(action_views(actions@) =~= old(self)@.on_interrupt(samples@).1);
        actions
    }

    fn on_interrupt_timeout(&mut self) -> (actions: Vec<Action>)
        ensures
            final(self)@ == old(self)@.on_interrupt_timeout().0,
            action_views(actions@) == old(self)@.on_interrupt_timeout().1,
    {
        let mut actions: Vec<Action> = Vec::new();
        let listening = match self.state {
            State::Listening => true,
            _ => false,
        };
        self.timeout = Timeout::Normal;
        if !self.busy() && listening && !self.submit.started {
            let mut frame: Vec<i16> = Vec::new();
            core::mem::swap(&mut frame, &mut self.submit.buffer);
            actions.push(Action::Command(ClientCommand::StartChat));
            actions.push(Action::Audio(frame));
            actions.push(Action::Command(ClientCommand::Submit));
            actions.push(Action::Status(Label::Waiting));
            self.state = State::Waiting;
            self.submit = SubmitState::new();
        }
        assert(action_views(actions@) =~= old(self)@.on_interrupt_timeout().1);
        actions
    }

    fn on_start_audio(&mut self, text: String, now_ms: u64) -> (actions: Vec<Action>)
        ensures
            final(self)@ == old(self)@.on_start_audio(text@, now_ms).0,
            action_views(actions@) == old(self)@.on_start_audio(text@, now_ms).1,
    {
        let mut actions: Vec<Action> = Vec::new();
        match self.state {
            State::Waiting | State::Speaking { .. } => {
                if self.metrics.is_timeout(now_ms) {
                    self.metrics.reset(now_ms);
                    self.need_compute = true;
                }
                self.state = State::Speaking { blocked: self.playback.is_some() };
                actions.push(Action::Status(Label::Speaking { speed: self.speed }));
                actions.push(Action::Transcript(trim_text(text.as_str())));
                actions.push(Action::Player(AudioEvent::StartSpeech));
            },
            _ => {},
        }
        assert(action_views(actions@) =~= old(self)@.on_start_audio(text@, now_ms).1);
        actions
    }

    fn on_audio_chunk(&mut self, data: Vec<u8>, viseme: Option<u8>) -> (actions: Vec<Action>)
        ensures
            final(self)@ == old(self)@.on_audio_chunk(data@, viseme).0,
            action_views(actions@) == old(self)@.on_audio_chunk(data@, viseme).1,
    {
        let mut actions: Vec<Action> = Vec::new();
        match self.state {
            State::Speaking { .. } => {
                if self.need_compute {
                    self.metrics.add_data(data.len());
                }
                if self.speed < self.config.speed_limit {
                    actions.push(Action::Player(AudioEvent::SpeechChunk(data, viseme)));
                } else {
                    let mut samples = pcm_from_le_bytes(data.as_slice());
                    self.recv_audio.append(&mut samples);
                }
            },
            _ => {},
        }
        assert(action_views(actions@) =~= old(self)@.on_audio_chunk(data@, viseme).1);
        actions
    }

    fn on_end_audio(&mut self, now_ms: u64) -> (actions: Vec<Action>)
        ensures
            final(self)@ == old(self)@.on_end_audio(now_ms).0,
            action_views(actions@) == old(self)@.on_end_audio(now_ms).1,
    {
        let mut actions: Vec<Action> = Vec::new();
        match self.state {
            State::Speaking { .. } => {
                if self.recv_audio.len() > 0 {
                    let mut block: Vec<i16> = Vec::new();
                    core::mem::swap(&mut block, &mut self.recv_audio);
                    actions.push(Action::Player(AudioEvent::SpeechChunki16(block, None)));
                }
                if self.need_compute {
                    self.speed = self.metrics.speed(now_ms);
                    self.need_compute = false;
                }
                let signal = self.take_signal();
                self.playback = Some(signal);
                self.state = State::Speaking { blocked: true };
                actions.push(Action::Player(AudioEvent::EndSpeech(signal)));
            },
            _ => {},
        }
        assert(action_views(actions@) =~= old(self)@.on_end_audio(now_ms).1);
        assert(self@.recv_audio =~= old(self)@.on_end_audio(now_ms).0.recv_audio);
        actions
    }

    fn on_end_response(&mut self) -> (actions: Vec<Action>)
        ensures
            final(self)@ == old(self)@.on_end_response().0,
            action_views(actions@) == old(self)@.on_end_response().1,
    {
        let mut actions: Vec<Action> = Vec::new();
        match self.state {
            State::Idle => {},
            State::Choices { .. } => {
                self.submit = SubmitState::new();
                self.recv_audio = Vec::new();
            },
            _ => {
                self.state = State::Listening;
                self.submit = SubmitState::new();
                self.recv_audio = Vec::new();
                actions.push(Action::Status(Label::Listening));
            },
        }
        assert(action_views(actions@) =~= old(self)@.on_end_response().1);
        actions
    }
}

impl Session {
    fn on_hello_start(&mut self)
        ensures
            final(self)@ == old(self)@.on_hello(ServerEventView::HelloStart).0,
    {
        self.hello = Vec::new();
    }

    fn on_hello_chunk(&mut self, data: Vec<u8>)
        ensures
            final(self)@ == old(self)@.on_hello(ServerEventView::HelloChunk { data: data@ }).0,
    {
        if !self.init_hello {
            let mut piece = data;
            self.hello.append(&mut piece);
        }
    }

    fn on_hello_end(&mut self) -> (actions: Vec<Action>)
        ensures
            final(self)@ == old(self)@.on_hello(ServerEventView::HelloEnd).0,
            action_views(actions@) == old(self)@.on_hello(ServerEventView::HelloEnd).1,
    {
        let mut actions: Vec<Action> = Vec::new();
        if !self.init_hello {
            let mut sound: Vec<u8> = Vec::new();
            core::mem::swap(&mut sound, &mut self.hello);
            actions.push(Action::Player(AudioEvent::SetHello(sound)));
            self.init_hello = true;
        }
        assert(action_views(actions@) =~= old(self)@.on_hello(ServerEventView::HelloEnd).1);
        actions
    }

    fn on_server(&mut self, event: ServerEvent, now_ms: u64) -> (actions: Vec<Action>)
        ensures
            final(self)@ == old(self)@.on_server(event@, now_ms).0,
            action_views(actions@) == old(self)@.on_server(event@, now_ms).1,
    {
        let mut actions: Vec<Action> = Vec::new();
        let busy = self.busy();
        match event {
            ServerEvent::HelloStart => {
                self.on_hello_start();
            },
            ServerEvent::HelloChunk { data } => {
                self.on_hello_chunk(data);
            },
            ServerEvent::HelloEnd => {
                return self.on_hello_end();
            },
            ServerEvent::ASR { text } => {
                if !busy {
                    self.submit.got_asr_result = true;
                    actions.push(Action::Status(Label::Asr));
                    actions.push(Action::Transcript(trim_text(text.as_str())));
                }
            },
            ServerEvent::Action { action } => {
                if !busy {
                    actions.push(Action::Status(Label::Action(action)));
                }
            },
            ServerEvent::Choices { message, items } => {
                let answering = match self.state {
                    State::Waiting | State::Speaking { .. } => true,
                    _ => false,
                };
                if !busy && answering {
                    self.state = State::Choices { index: 0 };
                    self.choice_count = items.len();
                    actions.push(Action::Status(Label::Choices { index: 0 }));
                    actions.push(Action::Transcript(message));
                }
            },
            ServerEvent::StartAudio { text } => {
                if !busy {
                    return self.on_start_audio(text, now_ms);
                }
            },
            ServerEvent::AudioChunk { data, viseme } => {
                if !busy {
                    return self.on_audio_chunk(data, viseme);
                }
            },
            ServerEvent::EndAudio => {
                if !busy {
                    return self.on_end_audio(now_ms);
                }
            },
            ServerEvent::EndResponse => {
                if !busy {
                    return self.on_end_response();
                }
            },
            ServerEvent::EndVad => {
                let submitting = match self.state {
                    State::Submitting => true,
                    _ => false,
                };
                if !busy && submitting {
                    self.state = State::Waiting;
                    self.submit = SubmitState::new();
                    actions.push(Action::Status(Label::Waiting));
                }
            },
            ServerEvent::HasNotification => {
                if !busy {
                    actions.push(Action::Status(Label::Notification));
                }
            },
            ServerEvent::BGStart
            | ServerEvent::BGChunk { .. }
            | ServerEvent::BGEnd
            | ServerEvent::StartVideo
            | ServerEvent::EndVideo => {},
        }
        assert(action_views(actions@) =~= old(self)@.on_server(event@, now_ms).1);
        actions
    }

    /// Handles one event at clock reading `now_ms`: moves the session on and
    /// returns, in order, the outside work to be done.
    pub fn handle(&mut self, event: Event, now_ms: u64) -> (actions: Vec<Action>)
        ensures
            final(self)@ == old(self)@.step(event@, now_ms).0,
            action_views(actions@) == old(self)@.step(event@, now_ms).1,
    {
        match event {
            Event::Event(name) => {
                let signal = classify(name);
                self.on_signal(signal)
            },
            Event::ServerEvent(event) => self.on_server(event, now_ms),
            Event::MicAudioChunk(samples) => self.on_mic_chunk(samples),
            Event::MicAudioEnd => self.on_mic_end(),
            Event::MicInterrupt(samples) => self.on_interrupt(samples),
            Event::MicInterruptWaitTimeout => self.on_interrupt_timeout(),
            Event::Connected => self.on_connected(),
            Event::ConnectFailed => self.on_connect_failed(),
            Event::ConnectionLost => self.on_connection_lost(),
        }
    }
}

impl SessionView {
    /// What holds of every session that `step` can reach: playback is
    /// blocked exactly while the end of speech is awaited, the device stays
    /// disengaged while it connects and greets, the volume is one the
    /// buttons reach, and the option shown is one that was offered.
    pub open spec fn coherent(self) -> bool {
        &&& self.state matches State::Speaking { blocked } ==> (blocked <==> self.playback is Some)
        &&& self.pending is Connect || self.pending is Hello ==> self.state is Idle
        &&& self.pending is InterruptAck || self.pending is BargeInConnect ==> self.state
            is Listening || self.state is Speaking
        &&& self.pending is Recover ==> !(self.state is Idle)
        &&& self.state is Idle ==> self.playback is None || self.busy()
        &&& MIN_VOLUME <= self.volume <= TOP_VOLUME
        &&& self.state matches State::Choices { index } ==> index == 0 || index
            < self.choice_count
    }
}

/// A session starts coherent.
pub proof fn lemma_initial_coherent(config: SessionConfig, now_ms: u64)
    ensures
        SessionView::initial(config, now_ms).coherent(),
        SessionView::initial(config, now_ms).state is Idle,
        !SessionView::initial(config, now_ms).busy(),
{
}

/// Every event leaves a coherent session coherent.
pub proof fn lemma_step_coherent(s: SessionView, event: EventView, now_ms: u64)
    requires
        s.coherent(),
    ensures
        s.step(event, now_ms).0.coherent(),
{
}

/// Engaging: from `Idle`, the main button asks for a connection; once the
/// transport is connected the greeting is played, with one completion
/// signal; when that signal fires the session is `Listening`. Until then it
/// stays `Idle`, and nothing else was asked for.
pub proof fn lemma_engage_reaches_listening(
    s: SessionView,
    button: Seq<char>,
    notify: Seq<char>,
    t1: u64,
    t2: u64,
    t3: u64,
)
    requires
        s.state is Idle,
        !s.busy(),
        signal_of(button) == Signal::Main,
        signal_of(notify) == Signal::Notify,
    ensures
        ({
            let pressed = s.step(EventView::Event(button), t1);
            let connected = pressed.0.step(EventView::Connected, t2);
            let greeted = connected.0.step(EventView::Event(notify), t3);
            &&& pressed.1 == seq![ActionView::Reconnect { retries: s.config.reconnect_retries }]
            &&& pressed.0.state is Idle
            &&& connected.1 == seq![ActionView::Player(AudioEventView::Hello(s.fresh_signal()))]
            &&& connected.0.state is Idle
            &&& connected.0.pending == Pending::Hello(s.fresh_signal())
            &&& greeted.1 == seq![ActionView::Status(LabelView::Listening)]
            &&& greeted.0.state is Listening
            &&& !greeted.0.busy()
            &&& greeted.0.submit == SubmitStateView::empty()
        }),
{
}

/// Failing to engage: from `Idle`, the main button followed by a failed
/// connection leaves the session `Idle`, with nothing awaited and the
/// failure shown.
pub proof fn lemma_engage_failure_stays_idle(s: SessionView, button: Seq<char>, t1: u64, t2: u64)
    requires
        s.state is Idle,
        !s.busy(),
        signal_of(button) == Signal::Main,
    ensures
        ({
            let pressed = s.step(EventView::Event(button), t1);
            let failed = pressed.0.step(EventView::ConnectFailed, t2);
            &&& pressed.0.state is Idle
            &&& failed.0.state is Idle
            &&& !failed.0.busy()
            &&& failed.1 == seq![ActionView::Status(LabelView::ConnectFailed)]
        }),
{
}

/// A segment heard during playback that is shorter than the minimum, or
/// heard while barge-in is switched off, changes nothing and asks for
/// nothing.
pub proof fn lemma_short_interrupt_ignored(s: SessionView, samples: Seq<i16>, now_ms: u64)
    requires
        samples.len() < s.config.min_interrupt_samples || !s.allow_interrupt,
    ensures
        s.step(EventView::MicInterrupt(samples), now_ms) == (s, Seq::<ActionView>::empty()),
{
}

/// One barge-in cycle: from `Speaking`, with barge-in switched on, a
/// segment of at least the minimum length stops the player; when the
/// player has acknowledged, the transport is connected anew; once it is,
/// the session is `Listening` and holds the segment as the opening of the
/// next turn.
pub proof fn lemma_barge_in_reaches_listening(
    s: SessionView,
    samples: Seq<i16>,
    notify: Seq<char>,
    t1: u64,
    t2: u64,
    t3: u64,
)
    requires
        s.state is Speaking,
        !s.busy(),
        s.allow_interrupt,
        samples.len() >= s.config.min_interrupt_samples,
        signal_of(notify) == Signal::Notify,
    ensures
        ({
            let heard = s.step(EventView::MicInterrupt(samples), t1);
            let acknowledged = heard.0.step(EventView::Event(notify), t2);
            let connected = acknowledged.0.step(EventView::Connected, t3);
            &&& heard.1 == seq![ActionView::Player(AudioEventView::Interrupt(s.fresh_signal()))]
            &&& heard.0.pending == Pending::InterruptAck(s.fresh_signal())
            &&& acknowledged.1 == seq![
                ActionView::Reconnect { retries: s.config.reconnect_retries },
            ]
            &&& connected.0.state is Listening
            &&& !connected.0.busy()
            &&& connected.0.timeout is InterruptWait
            &&& connected.0.submit.buffer == samples
            &&& !connected.0.submit.started
        }),
{
}

} // verus!
