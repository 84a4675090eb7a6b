use echokit::afe::{AfeAdapter, AfeOutput, WakeWordResult};
use echokit::session::Event;

#[test]
fn empty_poll_changes_nothing() {
    let mut a = AfeAdapter::new();
    let events = a.step(None);
    assert_eq!(events.len(), 0);
    assert!(!a.speech_active);
}

#[test]
fn speech_chunks_stream_out_and_the_transition_ends_the_utterance() {
    let mut a = AfeAdapter::new();

    let first = a.step(Some(AfeOutput { data: vec![1, 2], speech: true, wake_word: None }));
    assert_eq!(first.len(), 1);
    assert!(matches!(&first[0], Event::MicAudioChunk(data) if data == &vec![1, 2]));
    assert!(a.speech_active);

    let second = a.step(Some(AfeOutput { data: vec![3], speech: true, wake_word: None }));
    assert_eq!(second.len(), 1);
    assert!(matches!(&second[0], Event::MicAudioChunk(data) if data == &vec![3]));

    let ended = a.step(Some(AfeOutput { data: vec![0], speech: false, wake_word: None }));
    assert_eq!(ended.len(), 1);
    assert!(matches!(&ended[0], Event::MicAudioEnd));
    assert!(!a.speech_active);

    let silence = a.step(Some(AfeOutput { data: vec![0], speech: false, wake_word: None }));
    assert_eq!(silence.len(), 0);
}

#[test]
fn non_speech_without_an_utterance_emits_nothing() {
    let mut a = AfeAdapter::new();
    let events = a.step(Some(AfeOutput { data: vec![9], speech: false, wake_word: None }));
    assert_eq!(events.len(), 0);
    assert!(!a.speech_active);
}

#[test]
fn a_result_without_data_keeps_the_utterance_open() {
    let mut a = AfeAdapter::new();
    a.step(Some(AfeOutput { data: vec![1], speech: true, wake_word: None }));
    assert!(a.speech_active);
    let events = a.step(Some(AfeOutput { data: vec![], speech: false, wake_word: None }));
    assert_eq!(events.len(), 0);
    assert!(a.speech_active);
}

#[test]
fn wake_word_matches_surface_as_events() {
    let mut a = AfeAdapter::new();
    let alone = a.step(Some(AfeOutput {
        data: vec![],
        speech: false,
        wake_word: Some(WakeWordResult { model_index: 0, word_index: 2 }),
    }));
    assert_eq!(alone.len(), 1);
    assert!(matches!(
        &alone[0],
        Event::WakeWordDetec(WakeWordResult { model_index: 0, word_index: 2 })
    ));

    let with_speech = a.step(Some(AfeOutput {
        data: vec![4, 5],
        speech: true,
        wake_word: Some(WakeWordResult { model_index: 1, word_index: 0 }),
    }));
    assert_eq!(with_speech.len(), 2);
    assert!(matches!(
        &with_speech[0],
        Event::WakeWordDetec(WakeWordResult { model_index: 1, word_index: 0 })
    ));
    assert!(matches!(&with_speech[1], Event::MicAudioChunk(data) if data == &vec![4, 5]));
    assert!(a.speech_active);
}
