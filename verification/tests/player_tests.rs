use echokit::player::{AudioData, Player, PlayerAction};

fn play_count(actions: &[PlayerAction]) -> usize {
    actions.iter().filter(|a| matches!(a, PlayerAction::Play(_))).count()
}

#[test]
fn hello_plays_the_cached_prompt_and_acknowledges() {
    let mut p = Player::new(vec![5, 6, 7]);
    let actions = p.handle(AudioData::Hello);
    assert_eq!(actions.len(), 2);
    assert!(matches!(&actions[0], PlayerAction::Play(data) if data == &vec![5, 6, 7]));
    assert!(matches!(&actions[1], PlayerAction::Ack));
    assert!(!p.speaking);
}

#[test]
fn hello_replacement_round_trip() {
    // Replacing the prompt with chunks p1..pN caches exactly their
    // concatenation and plays it exactly once, on the end marker.
    let mut p = Player::new(vec![9, 9]);
    let mut all_actions: Vec<PlayerAction> = Vec::new();

    all_actions.extend(p.handle(AudioData::SetHelloStart));
    assert_eq!(p.hello_audio, Vec::<u8>::new());
    all_actions.extend(p.handle(AudioData::SetHelloChunk(vec![1, 2])));
    all_actions.extend(p.handle(AudioData::SetHelloChunk(vec![])));
    all_actions.extend(p.handle(AudioData::SetHelloChunk(vec![3])));
    assert_eq!(all_actions.len(), 0);

    let commit = p.handle(AudioData::SetHelloEnd);
    assert_eq!(p.hello_audio, vec![1, 2, 3]);
    assert_eq!(commit.len(), 1);
    assert!(matches!(&commit[0], PlayerAction::Play(data) if data == &vec![1, 2, 3]));
    all_actions.extend(commit);
    assert_eq!(play_count(&all_actions), 1);

    // The committed prompt is what a later Hello plays.
    let replay = p.handle(AudioData::Hello);
    assert!(matches!(&replay[0], PlayerAction::Play(data) if data == &vec![1, 2, 3]));
}

#[test]
fn chunks_play_only_while_speaking() {
    let mut p = Player::new(vec![]);
    let dropped = p.handle(AudioData::Chunk(vec![7, 8]));
    assert_eq!(dropped.len(), 0);

    let started = p.handle(AudioData::Start);
    assert_eq!(started.len(), 0);
    assert!(p.speaking);

    let played = p.handle(AudioData::Chunk(vec![7, 8]));
    assert_eq!(played.len(), 1);
    assert!(matches!(&played[0], PlayerAction::Play(data) if data == &vec![7, 8]));
}

#[test]
fn end_acknowledges_then_drains() {
    let mut p = Player::new(vec![]);
    p.handle(AudioData::Start);
    let actions = p.handle(AudioData::End);
    assert_eq!(actions.len(), 2);
    assert!(matches!(&actions[0], PlayerAction::Ack));
    assert!(matches!(&actions[1], PlayerAction::Drain));
    assert!(!p.speaking);

    let after = p.handle(AudioData::Chunk(vec![1]));
    assert_eq!(after.len(), 0);
}

#[test]
fn hello_interrupts_speaking() {
    let mut p = Player::new(vec![1]);
    p.handle(AudioData::Start);
    assert!(p.speaking);
    p.handle(AudioData::Hello);
    assert!(!p.speaking);
}
