//! Tests for the audio command queue and the playback thread's sink table.

use dials_research::audio::{AudioCommand, AudioManager, SinkTable};

#[test]
fn cache_decodes_once_per_path() {
    let mut audio = AudioManager::new();
    let a = audio.preload_file(&"alarm.wav".to_owned());
    let b = audio.preload_file(&"alarm.wav".to_owned());
    let c = audio.preload_file(&"other.wav".to_owned());
    assert_eq!(a, b);
    assert_ne!(a, c);
}

#[test]
fn commands_come_out_in_submission_order() {
    let mut audio = AudioManager::new();
    audio.play(&"d1".to_owned(), &"alarm.wav".to_owned());
    audio.stop(&"d2".to_owned());
    audio.play(&"d3".to_owned(), &"alarm.wav".to_owned());

    match audio.pop_command() {
        Some(AudioCommand::Play(name, _)) => assert_eq!(name, "d1"),
        other => panic!("expected a play command for d1, got {:?}", other),
    }
    match audio.pop_command() {
        Some(AudioCommand::Stop(name)) => assert_eq!(name, "d2"),
        other => panic!("expected a stop command for d2, got {:?}", other),
    }
    match audio.pop_command() {
        Some(AudioCommand::Play(name, _)) => assert_eq!(name, "d3"),
        other => panic!("expected a play command for d3, got {:?}", other),
    }
    assert!(audio.pop_command().is_none());
}

#[test]
fn play_play_stop_supersedes_and_silences() {
    // Enqueue Play("d1", sample_a), Play("d1", sample_b), Stop("d1") and
    // run them through the playback thread's state in submission order:
    // sample_a's playback is superseded by sample_b, never mixed with it,
    // and after the stop nothing is rendered for either sample.
    let mut audio = AudioManager::new();
    let sample_a = audio.preload_file(&"a.wav".to_owned());
    let sample_b = audio.preload_file(&"b.wav".to_owned());
    assert_ne!(sample_a, sample_b);

    let d1 = "d1".to_owned();
    let mut table = SinkTable::new();

    table.apply_command(&AudioCommand::Play(d1.clone(), sample_a));
    assert_eq!(table.active_sample(&d1), Some(sample_a));
    assert_eq!(table.len(), 1);

    table.apply_command(&AudioCommand::Play(d1.clone(), sample_b));
    // One sink only: sample_b replaced sample_a rather than layering.
    assert_eq!(table.active_sample(&d1), Some(sample_b));
    assert_eq!(table.len(), 1);

    table.apply_command(&AudioCommand::Stop(d1.clone()));
    assert_eq!(table.active_sample(&d1), None);
    assert_eq!(table.len(), 0);
}

#[test]
fn sinks_are_independent_per_identity() {
    let mut table = SinkTable::new();
    table.apply_command(&AudioCommand::Play("d1".to_owned(), 0));
    table.apply_command(&AudioCommand::Play("d2".to_owned(), 1));
    assert_eq!(table.len(), 2);

    // Stopping one alarm never touches another's sink.
    table.apply_command(&AudioCommand::Stop("d1".to_owned()));
    assert_eq!(table.active_sample(&"d1".to_owned()), None);
    assert_eq!(table.active_sample(&"d2".to_owned()), Some(1));

    // Stopping an alarm that is not playing is a no-op.
    table.apply_command(&AudioCommand::Stop("d9".to_owned()));
    assert_eq!(table.len(), 1);
}
