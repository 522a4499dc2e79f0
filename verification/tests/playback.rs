use kma_audio_agent::playback::{ApplyResult, MixerRevision, PlaybackCoordinator};
use kma_audio_agent::protocol::{PlaybackAction, PlaybackCommand};

fn command(id: &str, epoch: u64) -> PlaybackCommand {
    PlaybackCommand {
        schema_version: 1,
        command_id: id.to_owned(),
        route_epoch: epoch,
        action: PlaybackAction::Play,
        queue_item_id: None,
        asset_id: None,
        media_url: None,
        position_ms: None,
        duration_ms: None,
        recording: None,
        recording_session_id: None,
        recording_disposition: None,
        previous_recording_session_id: None,
        previous_recording_disposition: None,
    }
}

#[test]
fn rejects_stale_epochs_and_deduplicates_commands() {
    let mut state = PlaybackCoordinator::default();
    assert_eq!(state.apply(&command("a", 4)), ApplyResult::Apply);
    assert_eq!(state.apply(&command("a", 4)), ApplyResult::Duplicate);
    assert_eq!(state.apply(&command("b", 3)), ApplyResult::StaleEpoch);
    assert_eq!(state.apply(&command("b", 5)), ApplyResult::Apply);
}

#[test]
fn rejects_old_mixer_revisions() {
    let mut revision = MixerRevision::default();
    assert_eq!(revision.apply(3), ApplyResult::Apply);
    assert_eq!(revision.apply(3), ApplyResult::Duplicate);
    assert_eq!(revision.apply(2), ApplyResult::StaleEpoch);
}

#[test]
fn revision_zero_is_applied_until_another_comes() {
    let mut revision = MixerRevision::default();
    assert_eq!(revision.apply(0), ApplyResult::Apply);
    assert_eq!(revision.apply(0), ApplyResult::Apply);
    assert_eq!(revision.apply(1), ApplyResult::Apply);
    assert_eq!(revision.apply(0), ApplyResult::StaleEpoch);
}

#[test]
fn the_oldest_of_many_commands_is_forgotten() {
    let mut state = PlaybackCoordinator::default();
    for i in 0..256 {
        assert_eq!(state.apply(&command(&format!("{i}"), 1)), ApplyResult::Apply);
    }
    assert_eq!(state.apply(&command("0", 1)), ApplyResult::Duplicate);
    assert_eq!(state.apply(&command("256", 1)), ApplyResult::Apply);
    assert_eq!(state.apply(&command("1", 1)), ApplyResult::Duplicate);
    assert_eq!(state.apply(&command("0", 1)), ApplyResult::Apply);
    assert_eq!(state.apply(&command("1", 1)), ApplyResult::Apply);
}

#[test]
fn a_later_epoch_forgets_every_command() {
    let mut state = PlaybackCoordinator::default();
    assert_eq!(state.route_epoch(), 0);
    assert_eq!(state.apply(&command("a", 0)), ApplyResult::Apply);
    assert_eq!(state.apply(&command("a", 9)), ApplyResult::Apply);
    assert_eq!(state.route_epoch(), 9);
    assert_eq!(state.apply(&command("c", 8)), ApplyResult::StaleEpoch);
    assert_eq!(state.route_epoch(), 9);
    assert_eq!(state.apply(&command("a", 9)), ApplyResult::Duplicate);
}
