//! The playback pipeline's decision logic.
//!
//! All speaker output is serialized through one queue of [`AudioData`]
//! commands. The pipeline owns the cached wake prompt and the `speaking`
//! flag exclusively; [`Player::handle`] turns each command into the
//! [`PlayerAction`]s the worker must perform, in order: write bytes to the
//! speaker, acknowledge a rendezvous, or let the output drain before
//! resuming capture.
use vstd::prelude::*;

verus! {

/// A command sent from the session orchestrator to the playback pipeline.
#[derive(Debug)]
pub enum AudioData {
    /// Play the cached wake prompt and acknowledge when it is committed.
    Hello,
    /// Begin replacing the cached wake prompt: clear the replacement.
    SetHelloStart,
    /// Append one chunk to the wake-prompt replacement.
    SetHelloChunk(Vec<u8>),
    /// Commit the replaced wake prompt and play it once.
    SetHelloEnd,
    /// A spoken response begins: open the speaker for chunks.
    Start,
    /// One chunk of response audio; played only while speaking.
    Chunk(Vec<u8>),
    /// The response ended: acknowledge and let the output drain.
    End,
}

/// The mathematical shape of an [`AudioData`] command.
pub enum AudioDataView {
    Hello,
    SetHelloStart,
    SetHelloChunk(Seq<u8>),
    SetHelloEnd,
    Start,
    Chunk(Seq<u8>),
    End,
}

impl View for AudioData {
    type V = AudioDataView;

    open spec fn view(&self) -> AudioDataView {
        match self {
            AudioData::Hello => AudioDataView::Hello,
            AudioData::SetHelloStart => AudioDataView::SetHelloStart,
            AudioData::SetHelloChunk(data) => AudioDataView::SetHelloChunk(data@),
            AudioData::SetHelloEnd => AudioDataView::SetHelloEnd,
            AudioData::Start => AudioDataView::Start,
            AudioData::Chunk(data) => AudioDataView::Chunk(data@),
            AudioData::End => AudioDataView::End,
        }
    }
}

/// One thing the playback worker must do, in the order returned.
#[derive(Debug)]
pub enum PlayerAction {
    /// Write these bytes to the speaker.
    Play(Vec<u8>),
    /// Acknowledge the command's rendezvous: the caller may proceed.
    Ack,
    /// Pause briefly so the output stage drains before capture resumes,
    /// keeping playback tail energy out of the acoustic front end.
    Drain,
}

/// The mathematical shape of a [`PlayerAction`].
pub enum PlayerActionView {
    Play(Seq<u8>),
    Ack,
    Drain,
}

impl View for PlayerAction {
    type V = PlayerActionView;

    open spec fn view(&self) -> PlayerActionView {
        match self {
            PlayerAction::Play(data) => PlayerActionView::Play(data@),
            PlayerAction::Ack => PlayerActionView::Ack,
            PlayerAction::Drain => PlayerActionView::Drain,
        }
    }
}

/// The views of a sequence of player actions.
pub open spec fn player_action_views(s: Seq<PlayerAction>) -> Seq<PlayerActionView> {
    s.map_values(|a: PlayerAction| a@)
}

/// The playback pipeline's state: whether a response is being spoken, and
/// the cached wake prompt.
pub struct Player {
    pub speaking: bool,
    pub hello_audio: Vec<u8>,
}

/// The mathematical shape of the [`Player`] state.
pub struct PlayerView {
    pub speaking: bool,
    pub hello_audio: Seq<u8>,
}

impl View for Player {
    type V = PlayerView;

    open spec fn view(&self) -> PlayerView {
        PlayerView { speaking: self.speaking, hello_audio: self.hello_audio@ }
    }
}

/// What one command does to the pipeline: the state after it, and the
/// actions the worker performs for it, in order.
pub open spec fn spec_player_step(p: PlayerView, cmd: AudioDataView) -> (PlayerView, Seq<
    PlayerActionView,
>) {
    match cmd {
        AudioDataView::Hello => (
            PlayerView { speaking: false, ..p },
            seq![PlayerActionView::Play(p.hello_audio), PlayerActionView::Ack],
        ),
        AudioDataView::SetHelloStart => (
            PlayerView { hello_audio: Seq::empty(), ..p },
            Seq::empty(),
        ),
        AudioDataView::SetHelloChunk(data) => (
            PlayerView { hello_audio: p.hello_audio + data, ..p },
            Seq::empty(),
        ),
        AudioDataView::SetHelloEnd => (p, seq![PlayerActionView::Play(p.hello_audio)]),
        AudioDataView::Start => (PlayerView { speaking: true, ..p }, Seq::empty()),
        AudioDataView::Chunk(data) => (
            p,
            if p.speaking {
                seq![PlayerActionView::Play(data)]
            } else {
                Seq::empty()
            },
        ),
        AudioDataView::End => (
            PlayerView { speaking: false, ..p },
            seq![PlayerActionView::Ack, PlayerActionView::Drain],
        ),
    }
}

/// A fresh copy of a byte vector.
fn copy_bytes(v: &Vec<u8>) -> (r: Vec<u8>)
    ensures
        r@ == v@,
{
    let mut r: Vec<u8> = Vec::new();
    let mut i: usize = 0;
    while i < v.len()
        invariant
            i <= v@.len(),
            r@ == v@.subrange(0, i as int),
        decreases v@.len() - i,
    {
        r.push(v[i]);
        i = i + 1;
        proof {
            assert(r@ =~= v@.subrange(0, i as int));
        }
    }
    proof {
        assert(r@ =~= v@);
    }
    r
}

impl Player {
    /// A pipeline that is not speaking and holds the given wake prompt.
    pub fn new(initial_prompt: Vec<u8>) -> (p: Player)
        ensures
            !p.speaking,
            p.hello_audio@ == initial_prompt@,
    {
        Player { speaking: false, hello_audio: initial_prompt }
    }

    /// Process one command: update the pipeline state and return the
    /// actions the worker performs for it, in order.
    pub fn handle(&mut self, cmd: AudioData) -> (actions: Vec<PlayerAction>)
        ensures
            ({
                let r = spec_player_step(old(self)@, cmd@);
                &&& final(self)@ == r.0
                &&& player_action_views(actions@) == r.1
                &&& actions@.len() == r.1.len()
                &&& forall|i: int| 0 <= i < actions@.len() ==> actions@[i]@ == r.1[i]
            }),
    {
        let ghost pre = self@;
        let ghost cmdv = cmd@;
        let mut actions: Vec<PlayerAction> = Vec::new();
        match cmd {
            AudioData::Hello => {
                actions.push(PlayerAction::Play(copy_bytes(&self.hello_audio)));
                actions.push(PlayerAction::Ack);
                self.speaking = false;
            },
            AudioData::SetHelloStart => {
                self.hello_audio.clear();
            },
            AudioData::SetHelloChunk(data) => {
                let mut data = data;
                self.hello_audio.append(&mut data);
            },
            AudioData::SetHelloEnd => {
                actions.push(PlayerAction::Play(copy_bytes(&self.hello_audio)));
            },
            AudioData::Start => {
                self.speaking = true;
            },
            AudioData::Chunk(data) => {
                if self.speaking {
                    actions.push(PlayerAction::Play(data));
                }
            },
            AudioData::End => {
                actions.push(PlayerAction::Ack);
                actions.push(PlayerAction::Drain);
                self.speaking = false;
            },
        }
        proof {
            assert(player_action_views(actions@) =~= spec_player_step(pre, cmdv).1);
        }
        actions
    }
}

/// The concatenation of a sequence of chunks, in order.
pub open spec fn concat_all(chunks: Seq<Seq<u8>>) -> Seq<u8>
    decreases chunks.len(),
{
    if chunks.len() == 0 {
        Seq::empty()
    } else {
        chunks[0] + concat_all(chunks.drop_first())
    }
}

/// The pipeline and accumulated actions after one `SetHelloChunk` command
/// per element of `chunks`, in order.
pub open spec fn run_hello_chunks(p: PlayerView, chunks: Seq<Seq<u8>>) -> (PlayerView, Seq<
    PlayerActionView,
>)
    decreases chunks.len(),
{
    if chunks.len() == 0 {
        (p, Seq::empty())
    } else {
        let first = spec_player_step(p, AudioDataView::SetHelloChunk(chunks[0]));
        let rest = run_hello_chunks(first.0, chunks.drop_first());
        (rest.0, first.1 + rest.1)
    }
}

/// Chunk commands append to the cached prompt, touch nothing else, and
/// perform no action.
proof fn lemma_hello_chunks_accumulate(p: PlayerView, chunks: Seq<Seq<u8>>)
    ensures
        ({
            let r = run_hello_chunks(p, chunks);
            &&& r.0.hello_audio == p.hello_audio + concat_all(chunks)
            &&& r.0.speaking == p.speaking
            &&& r.1 == Seq::<PlayerActionView>::empty()
        }),
    decreases chunks.len(),
{
    if chunks.len() == 0 {
        assert(p.hello_audio + concat_all(chunks) =~= p.hello_audio);
    } else {
        let first = spec_player_step(p, AudioDataView::SetHelloChunk(chunks[0]));
        lemma_hello_chunks_accumulate(first.0, chunks.drop_first());
        assert((p.hello_audio + chunks[0]) + concat_all(chunks.drop_first()) =~= p.hello_audio
            + concat_all(chunks));
        let rest = run_hello_chunks(first.0, chunks.drop_first());
        assert(first.1 + rest.1 =~= Seq::<PlayerActionView>::empty());
    }
}

/// Law: replacing the wake prompt round-trips. `SetHelloStart`, then one
/// `SetHelloChunk` per payload, then `SetHelloEnd` leaves the cached
/// prompt equal to the concatenation of the payloads in order, plays
/// exactly that concatenation exactly once, and performs no other action
/// along the way.
pub proof fn lemma_hello_replacement_round_trip(p: PlayerView, chunks: Seq<Seq<u8>>)
    ensures
        ({
            let started = spec_player_step(p, AudioDataView::SetHelloStart);
            let filled = run_hello_chunks(started.0, chunks);
            let committed = spec_player_step(filled.0, AudioDataView::SetHelloEnd);
            &&& committed.0.hello_audio == concat_all(chunks)
            &&& started.1 + filled.1 == Seq::<PlayerActionView>::empty()
            &&& committed.1 == seq![PlayerActionView::Play(concat_all(chunks))]
            &&& committed.0.speaking == p.speaking
        }),
{
    let started = spec_player_step(p, AudioDataView::SetHelloStart);
    lemma_hello_chunks_accumulate(started.0, chunks);
    let filled = run_hello_chunks(started.0, chunks);
    assert(Seq::<u8>::empty() + concat_all(chunks) =~= concat_all(chunks));
    assert(started.1 + filled.1 =~= Seq::<PlayerActionView>::empty());
}

} // verus!
