//! Typed events of the downlink wire protocol.
//!
//! Each inbound binary message decodes into one [`ServerEvent`]. The decode
//! itself happens outside the library, at the transport edge; the library
//! receives the typed event and drives the session from it. The
//! `HelloStart…HelloChunk…HelloEnd` and `BGStart…BGChunk…BGEnd` triplets
//! carry a bulk upload split into chunks, which the session reassembles.
use vstd::prelude::*;

verus! {

/// An event received from the remote service.
#[derive(Debug, Clone)]
pub enum ServerEvent {
    /// Recognized text of the user's utterance, for display.
    ASR { text: String },
    /// A named action the server asks the device to show.
    Action { action: String },
    /// Start of a spoken response; `text` is its transcript.
    StartAudio { text: String },
    /// One chunk of the spoken response's PCM audio.
    AudioChunk { data: Vec<u8> },
    /// End of the spoken response's audio.
    EndAudio,
    StartVideo,
    EndVideo,
    /// End of the whole response; the session returns to listening.
    EndResponse,
    /// Start of a wake-prompt replacement upload.
    HelloStart,
    /// One chunk of the wake-prompt replacement.
    HelloChunk { data: Vec<u8> },
    /// End of the wake-prompt replacement; the prompt is committed.
    HelloEnd,
    /// Start of a display-background replacement upload.
    BGStart,
    /// One chunk of the display-background replacement.
    BGChunk { data: Vec<u8> },
    /// End of the display-background replacement.
    BGEnd,
}

/// The mathematical shape of a [`ServerEvent`]: texts as character
/// sequences, payloads as byte sequences.
pub enum ServerEventView {
    ASR { text: Seq<char> },
    Action { action: Seq<char> },
    StartAudio { text: Seq<char> },
    AudioChunk { data: Seq<u8> },
    EndAudio,
    StartVideo,
    EndVideo,
    EndResponse,
    HelloStart,
    HelloChunk { data: Seq<u8> },
    HelloEnd,
    BGStart,
    BGChunk { data: Seq<u8> },
    BGEnd,
}

impl View for ServerEvent {
    type V = ServerEventView;

    open spec fn view(&self) -> ServerEventView {
        match self {
            ServerEvent::ASR { text } => ServerEventView::ASR { text: text@ },
            ServerEvent::Action { action } => ServerEventView::Action { action: action@ },
            ServerEvent::StartAudio { text } => ServerEventView::StartAudio { text: text@ },
            ServerEvent::AudioChunk { data } => ServerEventView::AudioChunk { data: data@ },
            ServerEvent::EndAudio => ServerEventView::EndAudio,
            ServerEvent::StartVideo => ServerEventView::StartVideo,
            ServerEvent::EndVideo => ServerEventView::EndVideo,
            ServerEvent::EndResponse => ServerEventView::EndResponse,
            ServerEvent::HelloStart => ServerEventView::HelloStart,
            ServerEvent::HelloChunk { data } => ServerEventView::HelloChunk { data: data@ },
            ServerEvent::HelloEnd => ServerEventView::HelloEnd,
            ServerEvent::BGStart => ServerEventView::BGStart,
            ServerEvent::BGChunk { data } => ServerEventView::BGChunk { data: data@ },
            ServerEvent::BGEnd => ServerEventView::BGEnd,
        }
    }
}

} // verus!
