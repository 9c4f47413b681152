//! The duplex transport to the inference server: where to connect, what
//! goes out, what an inbound message means, and when to try again.

use vstd::prelude::*;
use vstd::string::*;

use crate::app::{Event, EventView};
use crate::pcm::{encode_le, pcm_to_le_bytes};
use crate::protocol::{ClientCommand, ClientCommandView, ServerEvent, ServerEventView};
use crate::text::{chars_of, has_suffix};

verus! {

/// Milliseconds to wait between two connection attempts.
pub const RECONNECT_BACKOFF_MS: u64 = 300;

/// Milliseconds after which sending gives up, unless set otherwise.
pub const SEND_TIMEOUT_MS: u64 = 30_000;

/// What the connection asks of the server.
#[derive(Debug, Clone, Copy, PartialEq, Eq, Structural)]
pub struct ConnectOptions {
    /// Speech comes compressed.
    pub opus: bool,
    /// Speech comes with mouth shapes.
    pub viseme: bool,
}

/// `url` and `id` joined by exactly one more `/` than `url` ends with.
pub open spec fn endpoint(url: Seq<char>, id: Seq<char>) -> Seq<char> {
    if "/"@.is_suffix_of(url) {
        url + id
    } else {
        url + "/"@ + id
    }
}

/// `base` with one more query parameter; `first` says whether it is the
/// first.
pub open spec fn with_param(base: Seq<char>, first: bool, param: Seq<char>) -> Seq<char> {
    if first {
        base + "?"@ + param
    } else {
        base + "&"@ + param
    }
}

/// The address to connect to: the endpoint of the device, followed by the
/// reconnect marker and the options, where they are set.
pub open spec fn connect_url(
    url: Seq<char>,
    id: Seq<char>,
    reconnect: bool,
    options: ConnectOptions,
) -> Seq<char> {
    let base = endpoint(url, id);
    let marked = if reconnect {
        with_param(base, true, "reconnect=true"@)
    } else {
        base
    };
    let compressed = if options.opus {
        with_param(marked, !reconnect, "opus=true"@)
    } else {
        marked
    };
    if options.viseme {
        with_param(compressed, !reconnect && !options.opus, "viseme=true"@)
    } else {
        compressed
    }
}

/// Whether `http::Uri` accepts `address` as a URI.
pub uninterp spec fn uri_accepted(address: Seq<char>) -> bool;

/// `<http::Uri as FromStr>::from_str`, which the connection's builder
/// parses its address with. The contract claims only that whether the
/// parser accepts an address depends on the address alone.
#[verifier::external_body]
fn parses_as_uri(address: &str) -> (accepted: bool)
    ensures
        accepted == uri_accepted(address@),
{
    address.parse::<http::Uri>().is_ok()
}

/// The address to connect to, where the parser accepted it.
pub fn accepted_address(address: String, accepted: bool) -> (out: Option<String>)
    ensures
        accepted ==> out == Some(address),
        !accepted ==> out is None,
{
    if accepted {
        Some(address)
    } else {
        None
    }
}

fn add_param(base: &mut String, first: bool, param: &str)
    ensures
        final(base)@ == with_param(old(base)@, first, param@),
{
    if first {
        base.append("?");
    } else {
        base.append("&");
    }
    base.append(param);
}

/// Something to send, as the connection's writer takes it.
#[derive(Debug, Clone, PartialEq, Eq)]
pub enum SubmitItem {
    /// A control command, to go out as a text record.
    JSON(ClientCommand),
    /// Audio, to go out as one binary frame.
    AudioChunk(Vec<u8>),
    /// Close the connection.
    Close,
}

/// What a `SubmitItem` holds.
pub enum SubmitItemView {
    JSON(ClientCommandView),
    AudioChunk(Seq<u8>),
    Close,
}

impl View for SubmitItem {
    type V = SubmitItemView;

    open spec fn view(&self) -> SubmitItemView {
        match *self {
            SubmitItem::JSON(command) => SubmitItemView::JSON(command@),
            SubmitItem::AudioChunk(data) => SubmitItemView::AudioChunk(data@),
            SubmitItem::Close => SubmitItemView::Close,
        }
    }
}

/// Where the connection stands.
#[derive(Debug, Clone, Copy, PartialEq, Eq, Structural)]
pub enum Link {
    Disconnected,
    /// Connected, with no speech under way.
    Idle,
    /// Connected, between the start and the end of a piece of speech.
    Streaming,
}

/// Why the connection's manager stops.
#[derive(Debug, Clone, Copy, PartialEq, Eq, Structural)]
pub enum StopReason {
    /// The server closed the stream.
    Ended,
    /// Reading from the stream failed.
    ReceiveError,
    /// A binary frame did not decode: the two sides are out of step.
    Malformed,
    /// The client asked to close.
    Closed,
    /// Nobody is left to send anything.
    SenderGone,
}

/// One inbound message, as far as the manager reads it.
#[derive(Debug, Clone, PartialEq, Eq)]
pub enum Inbound {
    /// A binary frame that decoded into an event.
    Event(ServerEvent),
    /// A binary frame that did not decode.
    Malformed,
    /// A message that is not binary.
    NotBinary,
    /// The stream has ended.
    Ended,
    /// Reading failed.
    Failed,
}

/// What the manager does about an inbound message.
#[derive(Debug, Clone, PartialEq, Eq)]
pub enum Step {
    /// Hand the event to the orchestrator.
    Forward(ServerEvent),
    /// Reset the decompressor, then hand the event to the orchestrator.
    ResetAndForward(ServerEvent),
    /// Decompress the payload and come back with the samples.
    Decompress { data: Vec<u8>, viseme: Option<u8> },
    /// Drop the message and go on.
    Skip,
    /// Leave the loop.
    Stop(StopReason),
}

/// What a `Step` holds.
pub enum StepView {
    Forward(ServerEventView),
    ResetAndForward(ServerEventView),
    Decompress { data: Seq<u8>, viseme: Option<u8> },
    Skip,
    Stop(StopReason),
}

impl View for Step {
    type V = StepView;

    open spec fn view(&self) -> StepView {
        match *self {
            Step::Forward(event) => StepView::Forward(event@),
            Step::ResetAndForward(event) => StepView::ResetAndForward(event@),
            Step::Decompress { data, viseme } => StepView::Decompress { data: data@, viseme },
            Step::Skip => StepView::Skip,
            Step::Stop(reason) => StepView::Stop(reason),
        }
    }
}

/// What the manager does about something to send.
#[derive(Debug, Clone, PartialEq, Eq)]
pub enum Outbound {
    /// Send the command as a text record.
    Text(ClientCommand),
    /// Send the bytes as one binary frame.
    Binary(Vec<u8>),
    /// Close the stream, then leave the loop.
    CloseAndStop,
    /// Leave the loop.
    Stop(StopReason),
}

/// What an `Outbound` holds.
pub enum OutboundView {
    Text(ClientCommandView),
    Binary(Seq<u8>),
    CloseAndStop,
    Stop(StopReason),
}

impl View for Outbound {
    type V = OutboundView;

    open spec fn view(&self) -> OutboundView {
        match *self {
            Outbound::Text(command) => OutboundView::Text(command@),
            Outbound::Binary(data) => OutboundView::Binary(data@),
            Outbound::CloseAndStop => OutboundView::CloseAndStop,
            Outbound::Stop(reason) => OutboundView::Stop(reason),
        }
    }
}

/// The link after an inbound message, and what to do about the message.
/// `opus` says whether speech comes compressed.
pub open spec fn inbound_step(link: Link, opus: bool, input: InboundView) -> (Link, StepView) {
    match input {
        InboundView::Event(event) => match event {
            ServerEventView::StartAudio { .. } => (
                Link::Streaming,
                if opus {
                    StepView::ResetAndForward(event)
                } else {
                    StepView::Forward(event)
                },
            ),
            ServerEventView::AudioChunk { data, viseme } => (
                link,
                if opus {
                    StepView::Decompress { data, viseme }
                } else {
                    StepView::Forward(event)
                },
            ),
            ServerEventView::EndAudio => (Link::Idle, StepView::Forward(event)),
            _ => (link, StepView::Forward(event)),
        },
        InboundView::Malformed => (Link::Disconnected, StepView::Stop(StopReason::Malformed)),
        InboundView::NotBinary => (link, StepView::Skip),
        InboundView::Ended => (Link::Disconnected, StepView::Stop(StopReason::Ended)),
        InboundView::Failed => (Link::Disconnected, StepView::Stop(StopReason::ReceiveError)),
    }
}

/// What an `Inbound` holds.
pub enum InboundView {
    Event(ServerEventView),
    Malformed,
    NotBinary,
    Ended,
    Failed,
}

impl View for Inbound {
    type V = InboundView;

    open spec fn view(&self) -> InboundView {
        match *self {
            Inbound::Event(event) => InboundView::Event(event@),
            Inbound::Malformed => InboundView::Malformed,
            Inbound::NotBinary => InboundView::NotBinary,
            Inbound::Ended => InboundView::Ended,
            Inbound::Failed => InboundView::Failed,
        }
    }
}

/// What to do about decompressed speech: forward it as a chunk of
/// little-endian PCM; drop the frame where decompressing failed.
pub open spec fn decompressed_step(samples: Option<Seq<i16>>, viseme: Option<u8>) -> StepView {
    match samples {
        Some(pcm) if 2 * pcm.len() <= usize::MAX => StepView::Forward(
            ServerEventView::AudioChunk { data: encode_le(pcm), viseme },
        ),
        _ => StepView::Skip,
    }
}

/// The link after something to send was taken, and what to do about it.
pub open spec fn outbound_step(link: Link, item: Option<SubmitItemView>) -> (Link, OutboundView) {
    match item {
        Some(SubmitItemView::JSON(command)) => (link, OutboundView::Text(command)),
        Some(SubmitItemView::AudioChunk(data)) => (link, OutboundView::Binary(data)),
        Some(SubmitItemView::Close) => (Link::Disconnected, OutboundView::CloseAndStop),
        None => (Link::Disconnected, OutboundView::Stop(StopReason::SenderGone)),
    }
}

/// What to do next about connecting.
#[derive(Debug, Clone, Copy, PartialEq, Eq, Structural)]
pub enum RetryStep {
    /// Try to connect.
    Attempt,
    /// Wait, then ask again.
    Backoff { millis: u64 },
    /// The connection stands.
    Connected,
    /// Every attempt allowed has failed.
    Exhausted,
}

/// Bounded reconnecting: how many attempts have failed, of how many
/// allowed.
#[derive(Debug, Clone, Copy, PartialEq, Eq, Structural)]
pub struct Retry {
    pub failed: usize,
    pub retries: usize,
}

impl Retry {
    /// No more attempts have failed than are allowed.
    pub open spec fn wf(self) -> bool {
        self.failed <= self.retries
    }

    /// Starts a round of at most `retries` attempts.
    pub fn start(retries: usize) -> (out: (Self, RetryStep))
        ensures
            out.0 == (Retry { failed: 0, retries }),
            out.0.wf(),
            out.1 == if retries == 0 {
                RetryStep::Exhausted
            } else {
                RetryStep::Attempt
            },
    {
        let retry = Retry { failed: 0, retries };
        if retries == 0 {
            (retry, RetryStep::Exhausted)
        } else {
            (retry, RetryStep::Attempt)
        }
    }

    /// Takes the outcome of an attempt: a success ends the round, a failure
    /// is followed by the backoff.
    pub fn on_attempt(&mut self, connected: bool) -> (step: RetryStep)
        requires
            old(self).failed < old(self).retries,
        ensures
            connected ==> step == RetryStep::Connected && *final(self) == *old(self),
            !connected ==> step == (RetryStep::Backoff { millis: RECONNECT_BACKOFF_MS })
                && *final(self) == (Retry { failed: (old(self).failed + 1) as usize, ..*old(self) }),
            final(self).wf(),
    {
        if connected {
            RetryStep::Connected
        } else {
            self.failed = self.failed + 1;
            RetryStep::Backoff { millis: RECONNECT_BACKOFF_MS }
        }
    }

    /// After the backoff: another attempt while any is left.
    pub fn after_backoff(&self) -> (step: RetryStep)
        ensures
            step == if self.failed < self.retries {
                RetryStep::Attempt
            } else {
                RetryStep::Exhausted
            },
    {
        if self.failed < self.retries {
            RetryStep::Attempt
        } else {
            RetryStep::Exhausted
        }
    }
}

/// The connection to one server, as far as it is decided here.
#[derive(Debug, Clone, PartialEq, Eq)]
pub struct Server {
    pub url: String,
    pub id: String,
    pub options: ConnectOptions,
    timeout_ms: u64,
    link: Link,
}

/// What a `Server` holds.
pub struct ServerView {
    pub url: Seq<char>,
    pub id: Seq<char>,
    pub options: ConnectOptions,
    pub timeout_ms: u64,
    pub link: Link,
}

impl View for Server {
    type V = ServerView;

    closed spec fn view(&self) -> ServerView {
        ServerView {
            url: self.url@,
            id: self.id@,
            options: self.options,
            timeout_ms: self.timeout_ms,
            link: self.link,
        }
    }
}

impl Server {
    /// The connection of device `id` to the server at `url`, not connected
    /// yet.
    pub fn new(id: String, url: String, options: ConnectOptions) -> (server: Self)
        ensures
            server@ == (ServerView {
                url: url@,
                id: id@,
                options,
                timeout_ms: SEND_TIMEOUT_MS,
                link: Link::Disconnected,
            }),
    {
        Server { url, id, options, timeout_ms: SEND_TIMEOUT_MS, link: Link::Disconnected }
    }

    pub fn set_timeout(&mut self, timeout_ms: u64)
        ensures
            final(self)@ == (ServerView { timeout_ms, ..old(self)@ }),
    {
        self.timeout_ms = timeout_ms;
    }

    pub fn timeout_ms(&self) -> (ms: u64)
        ensures
            ms == self@.timeout_ms,
    {
        self.timeout_ms
    }

    pub fn link(&self) -> (link: Link)
        ensures
            link == self@.link,
    {
        self.link
    }

    /// The address for a first connection (`reconnect` false) or for one
    /// that takes the place of an earlier one.
    pub fn address(&self, reconnect: bool) -> (address: String)
        ensures
            address@ == connect_url(self@.url, self@.id, reconnect, self@.options),
    {
        let chars = chars_of(self.url.as_str());
        let mut address = String::from_str(self.url.as_str());
        if !has_suffix(&chars, "/") {
            address.append("/");
        }
        address.append(self.id.as_str());
        if reconnect {
            add_param(&mut address, true, "reconnect=true");
        }
        if self.options.opus {
            add_param(&mut address, !reconnect, "opus=true");
        }
        if self.options.viseme {
            add_param(&mut address, !reconnect && !self.options.opus, "viseme=true");
        }
        address
    }

    /// The address for a connection, or `None` where it is no URI: no
    /// connection is attempted then.
    pub fn checked_address(&self, reconnect: bool) -> (out: Option<String>)
        ensures
            uri_accepted(connect_url(self@.url, self@.id, reconnect, self@.options)) ==> out
                is Some && out->0@ == connect_url(
                self@.url,
                self@.id,
                reconnect,
                self@.options,
            ),
            !uri_accepted(connect_url(self@.url, self@.id, reconnect, self@.options)) ==> out
                is None,
    {
        let address = self.address(reconnect);
        let accepted = parses_as_uri(address.as_str());
        accepted_address(address, accepted)
    }

    /// The address that `reconnect` connects to.
    pub fn reconnect(&self) -> (address: String)
        ensures
            address@ == connect_url(self@.url, self@.id, true, self@.options),
    {
        self.address(true)
    }

    /// Starts a round of at most `retries` attempts to reconnect.
    pub fn reconnect_with_retry(&mut self, retries: usize) -> (out: (Retry, RetryStep))
        ensures
            final(self)@ == (ServerView { link: Link::Disconnected, ..old(self)@ }),
            out.0 == (Retry { failed: 0, retries }),
            out.1 == if retries == 0 {
                RetryStep::Exhausted
            } else {
                RetryStep::Attempt
            },
    {
        self.link = Link::Disconnected;
        Retry::start(retries)
    }

    /// Notes that the connection stands.
    pub fn connected(&mut self)
        ensures
            final(self)@ == (ServerView { link: Link::Idle, ..old(self)@ }),
    {
        self.link = Link::Idle;
    }

    /// The item that closes the connection.
    pub fn close(&self) -> (item: SubmitItem)
        ensures
            item@ == SubmitItemView::Close,
    {
        SubmitItem::Close
    }

    /// The item that sends a control command.
    pub fn send_client_command(&self, cmd: ClientCommand) -> (item: SubmitItem)
        ensures
            item@ == SubmitItemView::JSON(cmd@),
    {
        SubmitItem::JSON(cmd)
    }

    /// The item that sends audio given as bytes.
    pub fn send_client_audio_chunk(&self, chunk: Vec<u8>) -> (item: SubmitItem)
        ensures
            item@ == SubmitItemView::AudioChunk(chunk@),
    {
        SubmitItem::AudioChunk(chunk)
    }

    /// The item that sends audio given as samples: raw little-endian PCM.
    pub fn send_client_audio_chunk_i16(&self, chunk: Vec<i16>) -> (item: SubmitItem)
        requires
            2 * chunk@.len() <= usize::MAX,
        ensures
            item@ == SubmitItemView::AudioChunk(encode_le(chunk@)),
    {
        SubmitItem::AudioChunk(pcm_to_le_bytes(chunk.as_slice()))
    }

    /// The event that the orchestrator gets for an event of the server.
    pub fn recv(&self, msg: ServerEvent) -> (event: Event)
        ensures
            event@ == EventView::ServerEvent(msg@),
    {
        Event::ServerEvent(msg)
    }

    /// Takes one inbound message; see `inbound_step`.
    pub fn on_inbound(&mut self, input: Inbound) -> (step: Step)
        ensures
            final(self)@ == (ServerView {
                link: inbound_step(old(self)@.link, old(self)@.options.opus, input@).0,
                ..old(self)@
            }),
            step@ == inbound_step(old(self)@.link, old(self)@.options.opus, input@).1,
    {
        match input {
            Inbound::Event(event) => match event {
                ServerEvent::StartAudio { text } => {
                    self.link = Link::Streaming;
                    if self.options.opus {
                        Step::ResetAndForward(ServerEvent::StartAudio { text })
                    } else {
                        Step::Forward(ServerEvent::StartAudio { text })
                    }
                },
                ServerEvent::AudioChunk { data, viseme } => {
                    if self.options.opus {
                        Step::Decompress { data, viseme }
                    } else {
                        Step::Forward(ServerEvent::AudioChunk { data, viseme })
                    }
                },
                ServerEvent::EndAudio => {
                    self.link = Link::Idle;
                    Step::Forward(ServerEvent::EndAudio)
                },
                other => Step::Forward(other),
            },
            Inbound::Malformed => {
                self.link = Link::Disconnected;
                Step::Stop(StopReason::Malformed)
            },
            Inbound::NotBinary => Step::Skip,
            Inbound::Ended => {
                self.link = Link::Disconnected;
                Step::Stop(StopReason::Ended)
            },
            Inbound::Failed => {
                self.link = Link::Disconnected;
                Step::Stop(StopReason::ReceiveError)
            },
        }
    }

    /// Takes the outcome of decompressing one chunk of speech; see
    /// `decompressed_step`.
    pub fn on_decompressed(&self, samples: Option<Vec<i16>>, viseme: Option<u8>) -> (step: Step)
        ensures
            step@ == decompressed_step(
                match samples {
                    Some(pcm) => Some(pcm@),
                    None => None,
                },
                viseme,
            ),
    {
        match samples {
            Some(pcm) => {
                if pcm.len() <= usize::MAX / 2 {
                    Step::Forward(
                        ServerEvent::AudioChunk { data: pcm_to_le_bytes(pcm.as_slice()), viseme },
                    )
                } else {
                    Step::Skip
                }
            },
            None => Step::Skip,
        }
    }

    /// Takes the next thing to send, or `None` where nobody is left to send
    /// anything; see `outbound_step`.
    pub fn on_outbound(&mut self, item: Option<SubmitItem>) -> (out: Outbound)
        ensures
            final(self)@ == (ServerView {
                link: outbound_step(
                    old(self)@.link,
                    match item {
                        Some(i) => Some(i@),
                        None => None,
                    },
                ).0,
                ..old(self)@
            }),
            out@ == outbound_step(
                old(self)@.link,
                match item {
                    Some(i) => Some(i@),
                    None => None,
                },
            ).1,
    {
        match item {
            Some(SubmitItem::JSON(command)) => Outbound::Text(command),
            Some(SubmitItem::AudioChunk(data)) => Outbound::Binary(data),
            Some(SubmitItem::Close) => {
                self.link = Link::Disconnected;
                Outbound::CloseAndStop
            },
            None => {
                self.link = Link::Disconnected;
                Outbound::Stop(StopReason::SenderGone)
            },
        }
    }
}

} // verus!
