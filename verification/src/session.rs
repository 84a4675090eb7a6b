//! The session orchestrator: the top-level state machine of a connected
//! session.
//!
//! The orchestrator merges events from three sources — the device's
//! buttons, the acoustic front end, and the transport — and decides, for
//! each event, the next session state and the commands to issue: uplink
//! sends, playback-pipeline commands, display updates. The decision
//! function is pure; the surrounding event loop performs the commands in
//! the order returned.
//!
//! The state machine is deliberately conservative: microphone audio is
//! only forwarded while `Listening` or `Recording`, playback chunks are
//! only accepted while `Speaking`, and stray events are ignored with a
//! warning, so no interleaving of the event sources can corrupt an
//! unrelated turn. Utterances of at most one second of audio are dropped
//! as false triggers.
use vstd::prelude::*;

use crate::afe::WakeWordResult;
use crate::metrics::{DownloadMetrics, Speed};
use crate::player::{AudioData, AudioDataView};
use crate::protocol::{ServerEvent, ServerEventView};

verus! {

/// Flush buffered microphone audio to the uplink once it reaches this many
/// bytes (about a quarter second of audio).
pub const MIC_FLUSH_THRESHOLD: usize = 8192;

/// An utterance must carry strictly more than this many bytes — one second
/// of audio — to be submitted; shorter ones are dropped as false triggers.
pub const MIN_UTTERANCE_BYTES: u64 = 32000;

/// The session orchestrator's state.
#[derive(Clone, Copy, Debug, PartialEq, Eq, Structural)]
pub enum State {
    /// Waiting for a wake word; microphone audio is not forwarded.
    Idle,
    /// Forwarding speech to the service, ended by voice-activity detection.
    Listening,
    /// Forwarding speech to the service, started by the hold trigger.
    Recording,
    /// An utterance was submitted; waiting for the service's response.
    Wait,
    /// A spoken response is being played.
    Speaking,
}

/// A discrete event from the device's input bus.
#[derive(Clone, Copy, Debug, PartialEq, Eq, Structural)]
pub enum DeviceEvent {
    /// Short press: toggle between `Idle` and `Listening`.
    Primary,
    /// Press and hold: start recording an utterance manually.
    Hold,
    /// Request a factory reset; must be confirmed by a second signal.
    Reset,
    /// Confirm an armed reset request.
    Confirm,
    /// Cancel an armed reset request.
    Cancel,
    /// An input the device layer could not classify.
    Unknown,
}

/// An event consumed by the orchestrator.
#[derive(Debug)]
pub enum Event {
    /// A device input event.
    Event(DeviceEvent),
    /// A decoded downlink message.
    ServerEvent(ServerEvent),
    /// One chunk of speech PCM from the acoustic front end.
    MicAudioChunk(Vec<u8>),
    /// The utterance ended: speech gave way to non-speech.
    MicAudioEnd,
    /// The engine matched a wake word.
    WakeWordDetec(WakeWordResult),
}

/// The mathematical shape of an [`Event`].
pub enum EventView {
    Event(DeviceEvent),
    ServerEvent(ServerEventView),
    MicAudioChunk(Seq<u8>),
    MicAudioEnd,
    WakeWordDetec(WakeWordResult),
}

impl View for Event {
    type V = EventView;

    open spec fn view(&self) -> EventView {
        match self {
            Event::Event(d) => EventView::Event(*d),
            Event::ServerEvent(se) => EventView::ServerEvent(se@),
            Event::MicAudioChunk(data) => EventView::MicAudioChunk(data@),
            Event::MicAudioEnd => EventView::MicAudioEnd,
            Event::WakeWordDetec(r) => EventView::WakeWordDetec(*r),
        }
    }
}

/// Which end-of-utterance control message to send on the uplink.
#[derive(Clone, Copy, Debug, PartialEq, Eq, Structural)]
pub enum EndKind {
    /// The utterance was ended by voice-activity detection.
    Normal,
    /// The utterance was recorded under the hold trigger.
    Recording,
}

/// The out-of-band uplink control message that marks the end of an
/// utterance: `"End:Normal"` for one ended by voice-activity detection,
/// `"End:Recording"` for one recorded under the hold trigger.
pub fn end_marker_text(kind: EndKind) -> (r: &'static str)
    ensures
        kind == EndKind::Normal ==> r@ == "End:Normal"@,
        kind == EndKind::Recording ==> r@ == "End:Recording"@,
{
    match kind {
        EndKind::Normal => "End:Normal",
        EndKind::Recording => "End:Recording",
    }
}

/// A non-fatal protocol or state violation, surfaced for logging.
#[derive(Clone, Copy, Debug, PartialEq, Eq, Structural)]
pub enum Warning {
    /// A wake word fired in a state that does not react to it.
    UnexpectedWakeWord,
    /// The hold trigger fired while a turn was already in progress.
    HoldUnavailable,
    /// A response audio chunk arrived outside `Speaking`.
    AudioChunkOutsideSpeaking,
    /// A background upload ended without carrying any data.
    EmptyBackground,
}

/// The status line shown on the display.
#[derive(Debug)]
pub enum StatusKind {
    Idle,
    Listening,
    Recording,
    /// Waiting for the wake word, after leaving `Listening`.
    AwaitWake,
    /// Showing recognized text.
    Asr,
    /// Showing a named action the server asked for.
    ActionLabel(String),
    /// A response is being spoken; carries the current speed factor.
    Speaking(Speed),
    /// A wake-prompt replacement was committed.
    HelloSet,
}

/// The mathematical shape of a [`StatusKind`].
pub enum StatusKindView {
    Idle,
    Listening,
    Recording,
    AwaitWake,
    Asr,
    ActionLabel(Seq<char>),
    Speaking(Speed),
    HelloSet,
}

impl View for StatusKind {
    type V = StatusKindView;

    open spec fn view(&self) -> StatusKindView {
        match self {
            StatusKind::Idle => StatusKindView::Idle,
            StatusKind::Listening => StatusKindView::Listening,
            StatusKind::Recording => StatusKindView::Recording,
            StatusKind::AwaitWake => StatusKindView::AwaitWake,
            StatusKind::Asr => StatusKindView::Asr,
            StatusKind::ActionLabel(a) => StatusKindView::ActionLabel(a@),
            StatusKind::Speaking(s) => StatusKindView::Speaking(*s),
            StatusKind::HelloSet => StatusKindView::HelloSet,
        }
    }
}

/// The body text shown on the display.
#[derive(Debug)]
pub enum BodyKind {
    /// The wake word was detected; listening has begun.
    WakeDetected,
    /// A hint that the device is waiting for its wake word.
    AwaitWakeHint,
    /// Clear the body.
    Clear,
    /// Server-provided text: a transcript or recognized utterance.
    Text(String),
}

/// The mathematical shape of a [`BodyKind`].
pub enum BodyKindView {
    WakeDetected,
    AwaitWakeHint,
    Clear,
    Text(Seq<char>),
}

impl View for BodyKind {
    type V = BodyKindView;

    open spec fn view(&self) -> BodyKindView {
        match self {
            BodyKind::WakeDetected => BodyKindView::WakeDetected,
            BodyKind::AwaitWakeHint => BodyKindView::AwaitWakeHint,
            BodyKind::Clear => BodyKindView::Clear,
            BodyKind::Text(t) => BodyKindView::Text(t@),
        }
    }
}

/// One command the event loop must perform, in the order returned.
#[derive(Debug)]
pub enum Action {
    /// Send these bytes as one binary uplink message.
    SendAudio(Vec<u8>),
    /// Send the end-of-utterance control message of this kind.
    SendEnd(EndKind),
    /// Send this command to the playback pipeline; `Hello` and `End`
    /// carry a rendezvous the loop awaits before going on.
    Player(AudioData),
    /// Update the display: set the status line, and the body if given.
    Display(StatusKind, Option<BodyKind>),
    /// Replace the display background with this uploaded image data.
    SetBackground(Vec<u8>),
    /// Perform the confirmed factory reset.
    FactoryReset,
    /// Log a non-fatal warning.
    Warn(Warning),
}

/// The mathematical shape of an [`Action`].
pub enum ActionView {
    SendAudio(Seq<u8>),
    SendEnd(EndKind),
    Player(AudioDataView),
    Display(StatusKindView, Option<BodyKindView>),
    SetBackground(Seq<u8>),
    FactoryReset,
    Warn(Warning),
}

impl View for Action {
    type V = ActionView;

    open spec fn view(&self) -> ActionView {
        match self {
            Action::SendAudio(data) => ActionView::SendAudio(data@),
            Action::SendEnd(kind) => ActionView::SendEnd(*kind),
            Action::Player(cmd) => ActionView::Player(cmd@),
            Action::Display(status, body) => ActionView::Display(
                status@,
                match body {
                    Option::Some(b) => Option::Some(b@),
                    Option::None => Option::None,
                },
            ),
            Action::SetBackground(data) => ActionView::SetBackground(data@),
            Action::FactoryReset => ActionView::FactoryReset,
            Action::Warn(w) => ActionView::Warn(*w),
        }
    }
}

/// The views of a sequence of actions.
pub open spec fn action_views(s: Seq<Action>) -> Seq<ActionView> {
    s.map_values(|a: Action| a@)
}

/// The session orchestrator's mutable state.
pub struct Session {
    pub state: State,
    /// A factory-reset request was received and awaits confirmation.
    pub reset_armed: bool,
    /// Microphone bytes submitted in the current turn; 32000 bytes are one
    /// second of audio.
    pub submitted_bytes: u64,
    /// Microphone audio buffered for the uplink, flushed at the threshold.
    pub mic_buffer: Vec<u8>,
    /// Response audio deferred while delivery is slower than real time,
    /// flushed to the playback pipeline when the response's audio ends.
    pub defer_buffer: Vec<u8>,
    /// Chunks of a background upload, committed on its end marker.
    pub bg_buffer: Vec<u8>,
    /// The download measurement of the current response.
    pub metrics: DownloadMetrics,
    /// The speed factor must be measured anew on the next response.
    pub need_compute: bool,
    /// The current speed factor, kept across responses until stale.
    pub speed: Speed,
}

/// The mathematical shape of a [`Session`].
pub struct SessionView {
    pub state: State,
    pub reset_armed: bool,
    pub submitted_bytes: u64,
    pub mic_buffer: Seq<u8>,
    pub defer_buffer: Seq<u8>,
    pub bg_buffer: Seq<u8>,
    pub metrics: DownloadMetrics,
    pub need_compute: bool,
    pub speed: Speed,
}

impl View for Session {
    type V = SessionView;

    open spec fn view(&self) -> SessionView {
        SessionView {
            state: self.state,
            reset_armed: self.reset_armed,
            submitted_bytes: self.submitted_bytes,
            mic_buffer: self.mic_buffer@,
            defer_buffer: self.defer_buffer@,
            bg_buffer: self.bg_buffer@,
            metrics: self.metrics,
            need_compute: self.need_compute,
            speed: self.speed,
        }
    }
}

/// Whether microphone audio is forwarded in this state.
pub open spec fn mic_active(st: State) -> bool {
    st == State::Listening || st == State::Recording
}

/// Which end-of-utterance message a state calls for.
pub open spec fn end_kind_of(st: State) -> EndKind {
    if st == State::Listening {
        EndKind::Normal
    } else {
        EndKind::Recording
    }
}

/// `a + n`, saturated to `u64::MAX`.
pub open spec fn sat_add_u64(a: u64, n: nat) -> u64 {
    if a + n > u64::MAX {
        u64::MAX
    } else {
        (a + n) as u64
    }
}

/// What a wake-word match does: model 0 wakes the device from `Idle`,
/// model 1 puts it back to sleep from `Listening`; both play the wake
/// prompt. Any other combination is ignored with a warning.
pub open spec fn spec_wake(s: SessionView, r: WakeWordResult) -> (SessionView, Seq<ActionView>) {
    if s.state == State::Idle && r.model_index == 0 {
        (
            SessionView { state: State::Listening, ..s },
            seq![
                ActionView::Display(
                    StatusKindView::Listening,
                    Option::Some(BodyKindView::WakeDetected),
                ),
                ActionView::Player(AudioDataView::Hello),
            ],
        )
    } else if s.state == State::Listening && r.model_index == 1 {
        (
            SessionView { state: State::Idle, ..s },
            seq![
                ActionView::Display(
                    StatusKindView::AwaitWake,
                    Option::Some(BodyKindView::AwaitWakeHint),
                ),
                ActionView::Player(AudioDataView::Hello),
            ],
        )
    } else {
        (s, seq![ActionView::Warn(Warning::UnexpectedWakeWord)])
    }
}

/// What a device event does. `Reset` and `Confirm` are handled by the
/// arming wrapper in [`spec_step`]; here they do nothing, as do `Cancel`
/// and unclassified inputs.
pub open spec fn spec_device(s: SessionView, d: DeviceEvent) -> (SessionView, Seq<ActionView>) {
    match d {
        DeviceEvent::Primary => {
            if s.state == State::Listening {
                (
                    SessionView { state: State::Idle, ..s },
                    seq![ActionView::Display(StatusKindView::Idle, Option::None)],
                )
            } else {
                (
                    SessionView { state: State::Listening, ..s },
                    seq![
                        ActionView::Player(AudioDataView::Hello),
                        ActionView::Display(StatusKindView::Listening, Option::None),
                    ],
                )
            }
        },
        DeviceEvent::Hold => {
            if s.state == State::Idle || s.state == State::Listening {
                (
                    SessionView { state: State::Recording, ..s },
                    seq![
                        ActionView::Display(
                            StatusKindView::Recording,
                            Option::Some(BodyKindView::Clear),
                        ),
                    ],
                )
            } else {
                (s, seq![ActionView::Warn(Warning::HoldUnavailable)])
            }
        },
        _ => (s, Seq::empty()),
    }
}

/// What one chunk of utterance speech does: while `Listening` or
/// `Recording` it counts toward the submitted total and is buffered, and
/// the buffer is flushed to the uplink once it reaches the threshold.
/// In any other state the chunk is ignored.
pub open spec fn spec_mic_chunk(s: SessionView, data: Seq<u8>) -> (SessionView, Seq<ActionView>) {
    if mic_active(s.state) {
        let submitted = sat_add_u64(s.submitted_bytes, data.len());
        let buffered = s.mic_buffer + data;
        if buffered.len() >= MIC_FLUSH_THRESHOLD {
            (
                SessionView { submitted_bytes: submitted, mic_buffer: Seq::empty(), ..s },
                seq![ActionView::SendAudio(buffered)],
            )
        } else {
            (SessionView { submitted_bytes: submitted, mic_buffer: buffered, ..s }, Seq::empty())
        }
    } else {
        (s, Seq::empty())
    }
}

/// What the end-of-utterance marker does: an utterance longer than one
/// second flushes the residual buffer, sends exactly one end-of-utterance
/// control message matching the state, refreshes the recompute flag from
/// the estimator's staleness, and waits for the response; a shorter one is
/// dropped silently as a false trigger. The submitted count resets either
/// way.
pub open spec fn spec_mic_end(s: SessionView, now_ms: u64) -> (SessionView, Seq<ActionView>) {
    if mic_active(s.state) && s.submitted_bytes > MIN_UTTERANCE_BYTES {
        let acts = if s.mic_buffer.len() > 0 {
            seq![
                ActionView::SendAudio(s.mic_buffer),
                ActionView::SendEnd(end_kind_of(s.state)),
            ]
        } else {
            seq![ActionView::SendEnd(end_kind_of(s.state))]
        };
        (
            SessionView {
                state: State::Wait,
                submitted_bytes: 0,
                mic_buffer: Seq::empty(),
                need_compute: s.metrics.is_timeout_spec(now_ms),
                ..s
            },
            acts,
        )
    } else if mic_active(s.state) {
        (
            SessionView { submitted_bytes: 0, mic_buffer: Seq::empty(), ..s },
            Seq::empty(),
        )
    } else {
        (SessionView { submitted_bytes: 0, ..s }, Seq::empty())
    }
}

/// What a decoded downlink event does; see the transition table in the
/// module documentation of [`crate::session`].
pub open spec fn spec_server(s: SessionView, e: ServerEventView, now_ms: u64) -> (
    SessionView,
    Seq<ActionView>,
) {
    match e {
        ServerEventView::ASR { text } => (
            s,
            seq![
                ActionView::Display(
                    StatusKindView::Asr,
                    Option::Some(BodyKindView::Text(text)),
                ),
            ],
        ),
        ServerEventView::Action { action } => (
            s,
            seq![ActionView::Display(StatusKindView::ActionLabel(action), Option::None)],
        ),
        ServerEventView::StartAudio { text } => (
            SessionView {
                state: State::Speaking,
                defer_buffer: Seq::empty(),
                metrics: if s.need_compute {
                    DownloadMetrics { start_ms: now_ms, data_size: 0, ..s.metrics }
                } else {
                    s.metrics
                },
                ..s
            },
            seq![
                ActionView::Display(
                    StatusKindView::Speaking(s.speed),
                    Option::Some(BodyKindView::Text(text)),
                ),
                ActionView::Player(AudioDataView::Start),
            ],
        ),
        ServerEventView::AudioChunk { data } => {
            if s.state != State::Speaking {
                (s, seq![ActionView::Warn(Warning::AudioChunkOutsideSpeaking)])
            } else {
                let metrics = if s.need_compute {
                    DownloadMetrics {
                        data_size: sat_add_u64(s.metrics.data_size, data.len()),
                        ..s.metrics
                    }
                } else {
                    s.metrics
                };
                if s.speed.slower_than_realtime_spec() {
                    (
                        SessionView { metrics, defer_buffer: s.defer_buffer + data, ..s },
                        Seq::empty(),
                    )
                } else {
                    (
                        SessionView { metrics, ..s },
                        seq![ActionView::Player(AudioDataView::Chunk(data))],
                    )
                }
            }
        },
        ServerEventView::EndAudio => {
            let speed = if s.need_compute {
                s.metrics.speed_spec(now_ms)
            } else {
                s.speed
            };
            if speed.slower_than_realtime_spec() && s.defer_buffer.len() > 0 {
                (
                    SessionView { speed, need_compute: false, defer_buffer: Seq::empty(), ..s },
                    seq![
                        ActionView::Player(AudioDataView::Chunk(s.defer_buffer)),
                        ActionView::Player(AudioDataView::End),
                    ],
                )
            } else {
                (
                    SessionView { speed, need_compute: false, ..s },
                    seq![ActionView::Player(AudioDataView::End)],
                )
            }
        },
        ServerEventView::EndResponse => (
            SessionView { state: State::Listening, ..s },
            seq![ActionView::Display(StatusKindView::Listening, Option::None)],
        ),
        ServerEventView::HelloStart => (
            s,
            seq![ActionView::Player(AudioDataView::SetHelloStart)],
        ),
        ServerEventView::HelloChunk { data } => (
            s,
            seq![ActionView::Player(AudioDataView::SetHelloChunk(data))],
        ),
        ServerEventView::HelloEnd => (
            s,
            seq![
                ActionView::Player(AudioDataView::SetHelloEnd),
                ActionView::Display(StatusKindView::HelloSet, Option::None),
            ],
        ),
        ServerEventView::BGStart => (SessionView { bg_buffer: Seq::empty(), ..s }, Seq::empty()),
        ServerEventView::BGChunk { data } => (
            SessionView { bg_buffer: s.bg_buffer + data, ..s },
            Seq::empty(),
        ),
        ServerEventView::BGEnd => {
            if s.bg_buffer.len() > 0 {
                (
                    SessionView { bg_buffer: Seq::empty(), ..s },
                    seq![ActionView::SetBackground(s.bg_buffer)],
                )
            } else {
                (s, seq![ActionView::Warn(Warning::EmptyBackground)])
            }
        },
        ServerEventView::StartVideo => (s, Seq::empty()),
        ServerEventView::EndVideo => (s, Seq::empty()),
    }
}

/// The transition table without the reset-arming rule.
pub open spec fn spec_core(s: SessionView, e: EventView, now_ms: u64) -> (
    SessionView,
    Seq<ActionView>,
) {
    match e {
        EventView::Event(d) => spec_device(s, d),
        EventView::ServerEvent(se) => spec_server(s, se, now_ms),
        EventView::MicAudioChunk(data) => spec_mic_chunk(s, data),
        EventView::MicAudioEnd => spec_mic_end(s, now_ms),
        EventView::WakeWordDetec(r) => spec_wake(s, r),
    }
}

/// What one event does to the session: the state after it and the
/// commands to perform, in order.
///
/// A factory reset takes two steps: a `Reset` while idle arms it, and a
/// `Confirm` while still idle and armed performs it. Any other event
/// clears the arm flag and is then handled by the transition table, so an
/// accidental reset request cannot fire.
pub open spec fn spec_step(s: SessionView, e: EventView, now_ms: u64) -> (
    SessionView,
    Seq<ActionView>,
) {
    if e == EventView::Event(DeviceEvent::Reset) && s.state == State::Idle {
        (SessionView { reset_armed: true, ..s }, Seq::empty())
    } else if e == EventView::Event(DeviceEvent::Confirm) && s.state == State::Idle
        && s.reset_armed {
        (SessionView { reset_armed: false, ..s }, seq![ActionView::FactoryReset])
    } else {
        spec_core(SessionView { reset_armed: false, ..s }, e, now_ms)
    }
}

impl Session {
    /// A fresh session: idle, nothing armed, nothing buffered, the speed
    /// factor at its optimistic initial value and due for measurement on
    /// the first response.
    pub fn new(now_ms: u64) -> (s: Session)
        ensures
            s@.state == State::Idle,
            !s@.reset_armed,
            s@.submitted_bytes == 0,
            s@.mic_buffer == Seq::<u8>::empty(),
            s@.defer_buffer == Seq::<u8>::empty(),
            s@.bg_buffer == Seq::<u8>::empty(),
            s@.metrics.start_ms == now_ms.saturating_sub(crate::metrics::STALE_AT_BIRTH_MS),
            s@.metrics.data_size == 0,
            s@.metrics.timeout_sec == crate::metrics::SPEED_VALID_SECS,
            s@.need_compute,
            s@.speed.num == 4 && s@.speed.den == 5,
    {
        Session {
            state: State::Idle,
            reset_armed: false,
            submitted_bytes: 0,
            mic_buffer: Vec::new(),
            defer_buffer: Vec::new(),
            bg_buffer: Vec::new(),
            metrics: DownloadMetrics::new(now_ms),
            need_compute: true,
            speed: Speed::initial(),
        }
    }

    /// Handle one event at the given clock reading: update the session and
    /// return the commands the event loop must perform, in order.
    pub fn handle_event(&mut self, evt: Event, now_ms: u64) -> (actions: Vec<Action>)
        ensures
            ({
                let r = spec_step(old(self)@, evt@, now_ms);
                &&& final(self)@ == r.0
                &&& action_views(actions@) == r.1
                &&& actions@.len() == r.1.len()
                &&& forall|i: int| 0 <= i < actions@.len() ==> actions@[i]@ == r.1[i]
            }),
    {
        match evt {
            Event::Event(DeviceEvent::Reset) => {
                if let State::Idle = self.state {
                    self.reset_armed = true;
                    let actions: Vec<Action> = Vec::new();
                    proof {
                        assert(action_views(actions@) =~= Seq::<ActionView>::empty());
                    }
                    actions
                } else {
                    self.reset_armed = false;
                    self.handle_device(DeviceEvent::Reset)
                }
            },
            Event::Event(DeviceEvent::Confirm) => {
                if self.reset_armed && self.state == State::Idle {
                    self.reset_armed = false;
                    let mut actions: Vec<Action> = Vec::new();
                    actions.push(Action::FactoryReset);
                    proof {
                        assert(action_views(actions@) =~= seq![ActionView::FactoryReset]);
                    }
                    actions
                } else {
                    self.reset_armed = false;
                    self.handle_device(DeviceEvent::Confirm)
                }
            },
            Event::Event(d) => {
                self.reset_armed = false;
                self.handle_device(d)
            },
            Event::ServerEvent(se) => {
                self.reset_armed = false;
                self.handle_server(se, now_ms)
            },
            Event::MicAudioChunk(data) => {
                self.reset_armed = false;
                self.handle_mic_chunk(data)
            },
            Event::MicAudioEnd => {
                self.reset_armed = false;
                self.handle_mic_end(now_ms)
            },
            Event::WakeWordDetec(r) => {
                self.reset_armed = false;
                self.handle_wake(r)
            },
        }
    }

    /// Apply a wake-word match; see [`spec_wake`].
    fn handle_wake(&mut self, r: WakeWordResult) -> (actions: Vec<Action>)
        ensures
            ({
                let t = spec_wake(old(self)@, r);
                final(self)@ == t.0 && action_views(actions@) == t.1
            }),
    {
        let ghost pre = self@;
        let mut actions: Vec<Action> = Vec::new();
        if self.state == State::Idle && r.model_index == 0 {
            self.state = State::Listening;
            actions.push(Action::Display(StatusKind::Listening, Some(BodyKind::WakeDetected)));
            actions.push(Action::Player(AudioData::Hello));
        } else if self.state == State::Listening && r.model_index == 1 {
            self.state = State::Idle;
            actions.push(Action::Display(StatusKind::AwaitWake, Some(BodyKind::AwaitWakeHint)));
            actions.push(Action::Player(AudioData::Hello));
        } else {
            actions.push(Action::Warn(Warning::UnexpectedWakeWord));
        }
        proof {
            assert(action_views(actions@) =~= spec_wake(pre, r).1);
        }
        actions
    }

    /// Apply a device event; see [`spec_device`].
    fn handle_device(&mut self, d: DeviceEvent) -> (actions: Vec<Action>)
        ensures
            ({
                let t = spec_device(old(self)@, d);
                final(self)@ == t.0 && action_views(actions@) == t.1
            }),
    {
        let ghost pre = self@;
        let mut actions: Vec<Action> = Vec::new();
        match d {
            DeviceEvent::Primary => {
                if self.state == State::Listening {
                    self.state = State::Idle;
                    actions.push(Action::Display(StatusKind::Idle, None));
                } else {
                    self.state = State::Listening;
                    actions.push(Action::Player(AudioData::Hello));
                    actions.push(Action::Display(StatusKind::Listening, None));
                }
            },
            DeviceEvent::Hold => {
                if self.state == State::Idle || self.state == State::Listening {
                    self.state = State::Recording;
                    actions.push(Action::Display(StatusKind::Recording, Some(BodyKind::Clear)));
                } else {
                    actions.push(Action::Warn(Warning::HoldUnavailable));
                }
            },
            _ => {},
        }
        proof {
            assert(action_views(actions@) =~= spec_device(pre, d).1);
        }
        actions
    }

    /// Buffer one chunk of utterance speech; see [`spec_mic_chunk`].
    fn handle_mic_chunk(&mut self, data: Vec<u8>) -> (actions: Vec<Action>)
        ensures
            ({
                let t = spec_mic_chunk(old(self)@, data@);
                final(self)@ == t.0 && action_views(actions@) == t.1
            }),
    {
        let ghost pre = self@;
        let ghost datav = data@;
        let mut actions: Vec<Action> = Vec::new();
        match self.state {
            State::Listening | State::Recording => {
                let len64: u64 = data.len() as u64;
                self.submitted_bytes = self.submitted_bytes.saturating_add(len64);
                let mut data = data;
                self.mic_buffer.append(&mut data);
                if self.mic_buffer.len() >= MIC_FLUSH_THRESHOLD {
                    let mut flushed: Vec<u8> = Vec::new();
                    core::mem::swap(&mut self.mic_buffer, &mut flushed);
                    actions.push(Action::SendAudio(flushed));
                }
            },
            _ => {},
        }
        proof {
            assert(action_views(actions@) =~= spec_mic_chunk(pre, datav).1);
        }
        actions
    }

    /// Apply the end-of-utterance marker; see [`spec_mic_end`].
    fn handle_mic_end(&mut self, now_ms: u64) -> (actions: Vec<Action>)
        ensures
            ({
                let t = spec_mic_end(old(self)@, now_ms);
                final(self)@ == t.0 && action_views(actions@) == t.1
            }),
    {
        let ghost pre = self@;
        let mut actions: Vec<Action> = Vec::new();
        let active = match self.state {
            State::Listening | State::Recording => true,
            _ => false,
        };
        if active && self.submitted_bytes > MIN_UTTERANCE_BYTES {
            if self.mic_buffer.len() > 0 {
                let mut flushed: Vec<u8> = Vec::new();
                core::mem::swap(&mut self.mic_buffer, &mut flushed);
                actions.push(Action::SendAudio(flushed));
            }
            let kind = if self.state == State::Listening {
                EndKind::Normal
            } else {
                EndKind::Recording
            };
            actions.push(Action::SendEnd(kind));
            self.need_compute = self.metrics.is_timeout(now_ms);
            self.state = State::Wait;
        } else if active {
            self.mic_buffer.clear();
        }
        self.submitted_bytes = 0;
        proof {
            assert(self.mic_buffer@.len() == 0 ==> self.mic_buffer@ =~= Seq::<u8>::empty());
            assert(action_views(actions@) =~= spec_mic_end(pre, now_ms).1);
        }
        actions
    }

    /// Apply a decoded downlink event; see [`spec_server`].
    fn handle_server(&mut self, evt: ServerEvent, now_ms: u64) -> (actions: Vec<Action>)
        ensures
            ({
                let t = spec_server(old(self)@, evt@, now_ms);
                final(self)@ == t.0 && action_views(actions@) == t.1
            }),
    {
        let ghost pre = self@;
        let ghost ev = evt@;
        let mut actions: Vec<Action> = Vec::new();
        match evt {
            ServerEvent::ASR { text } => {
                actions.push(Action::Display(StatusKind::Asr, Some(BodyKind::Text(text))));
            },
            ServerEvent::Action { action } => {
                actions.push(Action::Display(StatusKind::ActionLabel(action), None));
            },
            ServerEvent::StartAudio { text } => {
                if self.need_compute {
                    self.metrics.reset(now_ms);
                }
                self.state = State::Speaking;
                self.defer_buffer.clear();
                actions.push(
                    Action::Display(StatusKind::Speaking(self.speed), Some(BodyKind::Text(text))),
                );
                actions.push(Action::Player(AudioData::Start));
            },
            ServerEvent::AudioChunk { data } => {
                if self.state != State::Speaking {
                    actions.push(Action::Warn(Warning::AudioChunkOutsideSpeaking));
                } else {
                    if self.need_compute {
                        self.metrics.add_data(data.len());
                    }
                    if self.speed.slower_than_realtime() {
                        let mut data = data;
                        self.defer_buffer.append(&mut data);
                    } else {
                        actions.push(Action::Player(AudioData::Chunk(data)));
                    }
                }
            },
            ServerEvent::EndAudio => {
                if self.need_compute {
                    self.speed = self.metrics.speed(now_ms);
                    self.need_compute = false;
                }
                if self.speed.slower_than_realtime() && self.defer_buffer.len() > 0 {
                    let mut flushed: Vec<u8> = Vec::new();
                    core::mem::swap(&mut self.defer_buffer, &mut flushed);
                    actions.push(Action::Player(AudioData::Chunk(flushed)));
                }
                actions.push(Action::Player(AudioData::End));
            },
            ServerEvent::EndResponse => {
                self.state = State::Listening;
                actions.push(Action::Display(StatusKind::Listening, None));
            },
            ServerEvent::HelloStart => {
                actions.push(Action::Player(AudioData::SetHelloStart));
            },
            ServerEvent::HelloChunk { data } => {
                actions.push(Action::Player(AudioData::SetHelloChunk(data)));
            },
            ServerEvent::HelloEnd => {
                actions.push(Action::Player(AudioData::SetHelloEnd));
                actions.push(Action::Display(StatusKind::HelloSet, None));
            },
            ServerEvent::BGStart => {
                self.bg_buffer.clear();
            },
            ServerEvent::BGChunk { data } => {
                let mut data = data;
                self.bg_buffer.append(&mut data);
            },
            ServerEvent::BGEnd => {
                if self.bg_buffer.len() > 0 {
                    let mut committed: Vec<u8> = Vec::new();
                    core::mem::swap(&mut self.bg_buffer, &mut committed);
                    actions.push(Action::SetBackground(committed));
                } else {
                    actions.push(Action::Warn(Warning::EmptyBackground));
                }
            },
            ServerEvent::StartVideo => {},
            ServerEvent::EndVideo => {},
        }
        proof {
            assert(action_views(actions@) =~= spec_server(pre, ev, now_ms).1);
        }
        actions
    }
}

/// The session and accumulated actions after feeding one microphone chunk
/// event per element of `chunks`, in order.
pub open spec fn run_mic_chunks(s: SessionView, chunks: Seq<Seq<u8>>, now_ms: u64) -> (
    SessionView,
    Seq<ActionView>,
)
    decreases chunks.len(),
{
    if chunks.len() == 0 {
        (s, Seq::empty())
    } else {
        let first = spec_step(s, EventView::MicAudioChunk(chunks[0]), now_ms);
        let rest = run_mic_chunks(first.0, chunks.drop_first(), now_ms);
        (rest.0, first.1 + rest.1)
    }
}

/// The total byte count of a sequence of chunks.
pub open spec fn total_len(chunks: Seq<Seq<u8>>) -> nat
    decreases chunks.len(),
{
    if chunks.len() == 0 {
        0
    } else {
        chunks[0].len() + total_len(chunks.drop_first())
    }
}

/// How many end-of-utterance messages a sequence of actions sends.
pub open spec fn send_end_count(acts: Seq<ActionView>) -> nat
    decreases acts.len(),
{
    if acts.len() == 0 {
        0
    } else {
        (if acts[0] is SendEnd {
            1nat
        } else {
            0nat
        }) + send_end_count(acts.drop_first())
    }
}

proof fn lemma_send_end_count_single(a: ActionView)
    ensures
        send_end_count(seq![a]) == if a is SendEnd {
            1nat
        } else {
            0nat
        },
{
    assert(seq![a].drop_first() =~= Seq::<ActionView>::empty());
    assert(send_end_count(Seq::<ActionView>::empty()) == 0);
    assert(seq![a][0] == a);
}

proof fn lemma_send_end_count_concat(a: Seq<ActionView>, b: Seq<ActionView>)
    ensures
        send_end_count(a + b) == send_end_count(a) + send_end_count(b),
    decreases a.len(),
{
    if a.len() == 0 {
        assert(a + b =~= b);
    } else {
        assert((a + b).drop_first() =~= a.drop_first() + b);
        lemma_send_end_count_concat(a.drop_first(), b);
    }
}

/// Saturated addition composes: adding in two steps saturates the same as
/// adding once.
proof fn lemma_sat_add_compose(a: u64, x: nat, y: nat)
    ensures
        sat_add_u64(sat_add_u64(a, x), y) == sat_add_u64(a, x + y),
{
}

/// While listening or recording, feeding microphone chunks keeps the
/// state, the metrics and the recompute flag, accumulates the submitted
/// byte count (saturated), and never sends an end-of-utterance message.
proof fn lemma_mic_chunks_run(s: SessionView, chunks: Seq<Seq<u8>>, now_ms: u64)
    requires
        mic_active(s.state),
    ensures
        ({
            let r = run_mic_chunks(s, chunks, now_ms);
            &&& r.0.state == s.state
            &&& r.0.metrics == s.metrics
            &&& r.0.need_compute == s.need_compute
            &&& r.0.submitted_bytes == sat_add_u64(s.submitted_bytes, total_len(chunks))
            &&& send_end_count(r.1) == 0
        }),
    decreases chunks.len(),
{
    if chunks.len() == 0 {
    } else {
        let first = spec_step(s, EventView::MicAudioChunk(chunks[0]), now_ms);
        lemma_mic_chunks_run(first.0, chunks.drop_first(), now_ms);
        lemma_sat_add_compose(s.submitted_bytes, chunks[0].len(), total_len(chunks.drop_first()));
        let rest = run_mic_chunks(first.0, chunks.drop_first(), now_ms);
        let buffered = s.mic_buffer + chunks[0];
        if buffered.len() >= MIC_FLUSH_THRESHOLD {
            lemma_send_end_count_single(ActionView::SendAudio(buffered));
        }
        lemma_send_end_count_concat(first.1, rest.1);
    }
}

/// Law: an utterance of at most one second of audio is dropped as a false
/// trigger. Feeding, while listening or recording, any sequence of
/// microphone chunks whose total is at most `MIN_UTTERANCE_BYTES`,
/// followed by the end-of-utterance marker, sends no end-of-utterance
/// control message, and the submitted count resets to zero with the state
/// unchanged.
pub proof fn lemma_short_utterance_dropped(s: SessionView, chunks: Seq<Seq<u8>>, now_ms: u64)
    requires
        mic_active(s.state),
        s.submitted_bytes == 0,
        total_len(chunks) <= MIN_UTTERANCE_BYTES,
    ensures
        ({
            let fed = run_mic_chunks(s, chunks, now_ms);
            let ended = spec_step(fed.0, EventView::MicAudioEnd, now_ms);
            &&& send_end_count(fed.1 + ended.1) == 0
            &&& ended.0.submitted_bytes == 0
            &&& ended.0.state == s.state
        }),
{
    lemma_mic_chunks_run(s, chunks, now_ms);
    let fed = run_mic_chunks(s, chunks, now_ms);
    let ended = spec_step(fed.0, EventView::MicAudioEnd, now_ms);
    lemma_send_end_count_concat(fed.1, ended.1);
}

/// Law: an utterance of more than one second of audio is submitted exactly
/// once. Feeding, while listening or recording, chunks whose total exceeds
/// `MIN_UTTERANCE_BYTES`, followed by the end-of-utterance marker, sends
/// exactly one end-of-utterance control message, of the kind matching the
/// state; a non-empty residual buffer is flushed exactly once, directly
/// before it; and the session then waits for the response.
pub proof fn lemma_long_utterance_submits_once(s: SessionView, chunks: Seq<Seq<u8>>, now_ms: u64)
    requires
        mic_active(s.state),
        s.submitted_bytes == 0,
        total_len(chunks) > MIN_UTTERANCE_BYTES,
    ensures
        ({
            let fed = run_mic_chunks(s, chunks, now_ms);
            let ended = spec_step(fed.0, EventView::MicAudioEnd, now_ms);
            &&& send_end_count(fed.1) == 0
            &&& ended.1 == if fed.0.mic_buffer.len() > 0 {
                seq![
                    ActionView::SendAudio(fed.0.mic_buffer),
                    ActionView::SendEnd(end_kind_of(s.state)),
                ]
            } else {
                seq![ActionView::SendEnd(end_kind_of(s.state))]
            }
            &&& send_end_count(fed.1 + ended.1) == 1
            &&& ended.0.state == State::Wait
            &&& ended.0.submitted_bytes == 0
        }),
{
    lemma_mic_chunks_run(s, chunks, now_ms);
    let fed = run_mic_chunks(s, chunks, now_ms);
    let ended = spec_step(fed.0, EventView::MicAudioEnd, now_ms);
    lemma_send_end_count_concat(fed.1, ended.1);
    lemma_send_end_count_single(ActionView::SendEnd(end_kind_of(s.state)));
    assert(send_end_count(ended.1) == 1) by {
        if fed.0.mic_buffer.len() > 0 {
            assert(ended.1.drop_first() =~= seq![ActionView::SendEnd(end_kind_of(s.state))]);
        } else {
            assert(ended.1 =~= seq![ActionView::SendEnd(end_kind_of(s.state))]);
        }
    }
}

/// Law: the microphone buffer is capacity-bounded — if it holds less than
/// the flush threshold, it still does after any event, because a chunk
/// that carries it to the threshold flushes it whole.
pub proof fn lemma_mic_buffer_stays_bounded(s: SessionView, e: EventView, now_ms: u64)
    requires
        s.mic_buffer.len() < MIC_FLUSH_THRESHOLD,
    ensures
        spec_step(s, e, now_ms).0.mic_buffer.len() < MIC_FLUSH_THRESHOLD,
{
}

/// Law: nothing reaches the uplink outside a capturing state — whatever
/// event arrives, an uplink send (audio or end-of-utterance message) is
/// only ever issued while the session is `Listening` or `Recording`.
pub proof fn lemma_uplink_only_while_capturing(s: SessionView, e: EventView, now_ms: u64)
    ensures
        ({
            let r = spec_step(s, e, now_ms);
            forall|i: int|
                0 <= i < r.1.len() ==> ((r.1[i] is SendAudio || r.1[i] is SendEnd) ==> mic_active(
                    s.state,
                ))
        }),
{
}

/// Law: a background upload that ends without having carried any data is
/// harmless — the end marker leaves the session unchanged, apart from
/// clearing a pending reset arm, and only logs a warning; in particular no
/// background replacement is issued.
pub proof fn lemma_bg_end_without_data_harmless(s: SessionView, now_ms: u64)
    requires
        s.bg_buffer.len() == 0,
    ensures
        ({
            let r = spec_step(s, EventView::ServerEvent(ServerEventView::BGEnd), now_ms);
            &&& r.0 == SessionView { reset_armed: false, ..s }
            &&& r.1 == seq![ActionView::Warn(Warning::EmptyBackground)]
        }),
{
}

/// Law: a response chunk is deferred rather than streamed exactly when the
/// current speed factor is greater than one; at a factor of exactly one it
/// still streams.
pub proof fn lemma_chunk_buffered_only_when_slow(s: SessionView, data: Seq<u8>, now_ms: u64)
    requires
        s.state == State::Speaking,
    ensures
        ({
            let r = spec_step(
                s,
                EventView::ServerEvent(ServerEventView::AudioChunk { data }),
                now_ms,
            );
            &&& s.speed.slower_than_realtime_spec() ==> r.0.defer_buffer == s.defer_buffer + data
                && r.1 == Seq::<ActionView>::empty()
            &&& !s.speed.slower_than_realtime_spec() ==> r.0.defer_buffer == s.defer_buffer && r.1
                == seq![ActionView::Player(AudioDataView::Chunk(data))]
            &&& s.speed.slower_than_realtime_spec() <==> s.speed.num > s.speed.den
        }),
{
}

/// Law: when a response's audio ends, the deferred buffer is flushed to
/// the playback pipeline — as a single chunk, directly before the end
/// command — exactly when the speed factor in force is greater than one
/// and something was deferred; otherwise only the end command is sent. The
/// factor in force is the freshly measured one if a measurement was due,
/// and no measurement is due afterwards.
pub proof fn lemma_deferred_flushed_only_when_slow(s: SessionView, now_ms: u64)
    ensures
        ({
            let r = spec_step(s, EventView::ServerEvent(ServerEventView::EndAudio), now_ms);
            let sp = if s.need_compute {
                s.metrics.speed_spec(now_ms)
            } else {
                s.speed
            };
            &&& sp.slower_than_realtime_spec() && s.defer_buffer.len() > 0 ==> r.1 == seq![
                ActionView::Player(AudioDataView::Chunk(s.defer_buffer)),
                ActionView::Player(AudioDataView::End),
            ]
            &&& !(sp.slower_than_realtime_spec() && s.defer_buffer.len() > 0) ==> r.1 == seq![
                ActionView::Player(AudioDataView::End),
            ]
            &&& r.0.speed == sp
            &&& !r.0.need_compute
        }),
{
}

} // verus!
