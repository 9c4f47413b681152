//! Records exchanged with the inference server.

use vstd::prelude::*;

verus! {

/// An event decoded from one inbound binary frame.
#[allow(clippy::upper_case_acronyms)]
#[derive(Debug, Clone, PartialEq, Eq)]
pub enum ServerEvent {
    /// A new greeting sound follows.
    HelloStart,
    /// A piece of the greeting sound.
    HelloChunk { data: Vec<u8> },
    /// The greeting sound is complete.
    HelloEnd,
    /// A new background image follows.
    BGStart,
    /// A piece of the background image.
    BGChunk { data: Vec<u8> },
    /// The background image is complete.
    BGEnd,
    /// The server's transcript of what the user said.
    ASR { text: String },
    /// An action the server took on the user's behalf.
    Action { action: String },
    /// The server offers discrete options to pick from.
    Choices { message: String, items: Vec<String> },
    /// Synthesized speech for `text` follows.
    StartAudio { text: String },
    /// A piece of synthesized speech, with the mouth shape that goes with it.
    AudioChunk { data: Vec<u8>, viseme: Option<u8> },
    /// The synthesized speech is complete.
    EndAudio,
    StartVideo,
    EndVideo,
    /// The server has answered the turn in full.
    EndResponse,
    /// The server heard the end of the user's speech.
    EndVad,
    /// The server holds a notification for this device.
    HasNotification,
}

/// What a `ServerEvent` holds.
pub enum ServerEventView {
    HelloStart,
    HelloChunk { data: Seq<u8> },
    HelloEnd,
    BGStart,
    BGChunk { data: Seq<u8> },
    BGEnd,
    ASR { text: Seq<char> },
    Action { action: Seq<char> },
    Choices { message: Seq<char>, items: Seq<Seq<char>> },
    StartAudio { text: Seq<char> },
    AudioChunk { data: Seq<u8>, viseme: Option<u8> },
    EndAudio,
    StartVideo,
    EndVideo,
    EndResponse,
    EndVad,
    HasNotification,
}

impl View for ServerEvent {
    type V = ServerEventView;

    open spec fn view(&self) -> ServerEventView {
        match *self {
            ServerEvent::HelloStart => ServerEventView::HelloStart,
            ServerEvent::HelloChunk { data } => ServerEventView::HelloChunk { data: data@ },
            ServerEvent::HelloEnd => ServerEventView::HelloEnd,
            ServerEvent::BGStart => ServerEventView::BGStart,
            ServerEvent::BGChunk { data } => ServerEventView::BGChunk { data: data@ },
            ServerEvent::BGEnd => ServerEventView::BGEnd,
            ServerEvent::ASR { text } => ServerEventView::ASR { text: text@ },
            ServerEvent::Action { action } => ServerEventView::Action { action: action@ },
            ServerEvent::Choices { message, items } => ServerEventView::Choices {
                message: message@,
                items: items@.map_values(|s: String| s@),
            },
            ServerEvent::StartAudio { text } => ServerEventView::StartAudio { text: text@ },
            ServerEvent::AudioChunk { data, viseme } => ServerEventView::AudioChunk {
                data: data@,
                viseme,
            },
            ServerEvent::EndAudio => ServerEventView::EndAudio,
            ServerEvent::StartVideo => ServerEventView::StartVideo,
            ServerEvent::EndVideo => ServerEventView::EndVideo,
            ServerEvent::EndResponse => ServerEventView::EndResponse,
            ServerEvent::EndVad => ServerEventView::EndVad,
            ServerEvent::HasNotification => ServerEventView::HasNotification,
        }
    }
}

/// A control command for the server.
#[derive(Debug, Clone, PartialEq, Eq)]
pub enum ClientCommand {
    /// Opens a chat turn; the audio of the turn follows.
    StartChat,
    /// Closes the audio of the turn.
    Submit,
    /// Picks one of the options the server offered.
    Select { index: usize },
    /// Sends typed text in place of speech.
    Text { input: String },
}

/// What a `ClientCommand` holds.
pub enum ClientCommandView {
    StartChat,
    Submit,
    Select { index: usize },
    Text { input: Seq<char> },
}

impl View for ClientCommand {
    type V = ClientCommandView;

    open spec fn view(&self) -> ClientCommandView {
        match *self {
            ClientCommand::StartChat => ClientCommandView::StartChat,
            ClientCommand::Submit => ClientCommandView::Submit,
            ClientCommand::Select { index } => ClientCommandView::Select { index },
            ClientCommand::Text { input } => ClientCommandView::Text { input: input@ },
        }
    }
}

} // verus!
