//! The acoustic front-end adapter's decision logic.
//!
//! A worker feeds raw microphone frames to the opaque wake-word/VAD engine
//! and polls it for results. Each poll yields nothing (no data, or an
//! engine error, both non-fatal) or a PCM chunk classified as speech or
//! non-speech, possibly together with a wake-word match.
//! [`AfeAdapter::step`] translates one poll outcome into the session
//! events it implies: speech chunks stream out as they come, the
//! speech-to-non-speech transition marks the end of the utterance, and a
//! wake-word match surfaces as its own event.
use vstd::prelude::*;

use crate::session::{Event, EventView};

verus! {

/// Which trained keyword fired: the engine's model index and the word
/// index within that model.
#[derive(Clone, Copy, Debug, PartialEq, Eq, Structural)]
pub struct WakeWordResult {
    pub model_index: u8,
    pub word_index: u8,
}

/// One result fetched from the wake-word/VAD engine: a PCM chunk (possibly
/// empty), its speech classification, and a wake-word match if the engine
/// signalled one.
#[derive(Debug)]
pub struct AfeOutput {
    pub data: Vec<u8>,
    pub speech: bool,
    pub wake_word: Option<WakeWordResult>,
}

/// The mathematical shape of an [`AfeOutput`].
pub struct AfeOutputView {
    pub data: Seq<u8>,
    pub speech: bool,
    pub wake_word: Option<WakeWordResult>,
}

impl View for AfeOutput {
    type V = AfeOutputView;

    open spec fn view(&self) -> AfeOutputView {
        AfeOutputView { data: self.data@, speech: self.speech, wake_word: self.wake_word }
    }
}

/// The views of a sequence of events.
pub open spec fn event_views(s: Seq<Event>) -> Seq<EventView> {
    s.map_values(|e: Event| e@)
}

/// What one engine poll outcome does to the adapter: the new
/// speech-in-progress flag and the session events to emit, in order.
/// `None` stands for a poll that produced nothing — no data ready, or an
/// engine error, which is logged and never fatal.
pub open spec fn spec_afe_step(speech_active: bool, fetched: Option<AfeOutputView>) -> (
    bool,
    Seq<EventView>,
) {
    match fetched {
        Option::None => (speech_active, Seq::empty()),
        Option::Some(out) => {
            let wake = match out.wake_word {
                Option::Some(w) => seq![EventView::WakeWordDetec(w)],
                Option::None => Seq::<EventView>::empty(),
            };
            if out.data.len() == 0 {
                (speech_active, wake)
            } else if out.speech {
                (true, wake + seq![EventView::MicAudioChunk(out.data)])
            } else if speech_active {
                (false, wake + seq![EventView::MicAudioEnd])
            } else {
                (speech_active, wake)
            }
        },
    }
}

/// Tracks whether an utterance is in progress, so that the first
/// non-speech result after speech emits exactly one end-of-utterance
/// event.
pub struct AfeAdapter {
    pub speech_active: bool,
}

impl AfeAdapter {
    /// A fresh adapter: no utterance in progress.
    pub fn new() -> (a: AfeAdapter)
        ensures
            !a.speech_active,
    {
        AfeAdapter { speech_active: false }
    }

    /// Translate one engine poll outcome into session events, in order.
    pub fn step(&mut self, fetched: Option<AfeOutput>) -> (events: Vec<Event>)
        ensures
            ({
                let r = spec_afe_step(old(self).speech_active, view_of_fetched(fetched));
                &&& final(self).speech_active == r.0
                &&& event_views(events@) == r.1
                &&& events@.len() == r.1.len()
                &&& forall|i: int| 0 <= i < events@.len() ==> events@[i]@ == r.1[i]
            }),
    {
        let ghost prev = self.speech_active;
        let ghost fv = view_of_fetched(fetched);
        let mut events: Vec<Event> = Vec::new();
        match fetched {
            Option::None => {},
            Option::Some(out) => {
                if let Option::Some(w) = out.wake_word {
                    events.push(Event::WakeWordDetec(w));
                }
                if out.data.len() == 0 {
                    // nothing classified this poll; the flag is unchanged
                } else if out.speech {
                    self.speech_active = true;
                    events.push(Event::MicAudioChunk(out.data));
                } else if self.speech_active {
                    self.speech_active = false;
                    events.push(Event::MicAudioEnd);
                }
            },
        }
        proof {
            assert(event_views(events@) =~= spec_afe_step(prev, fv).1);
        }
        events
    }
}

/// The view of an optional fetched result.
pub open spec fn view_of_fetched(fetched: Option<AfeOutput>) -> Option<AfeOutputView> {
    match fetched {
        Option::None => Option::None,
        Option::Some(out) => Option::Some(out@),
    }
}

} // verus!
