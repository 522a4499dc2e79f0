use kma_audio_agent::player::{
    frame_of_ms, frame_of_ns, has_frame, has_position, media_cache_path, media_request, media_uri, Download, MediaNeed,
    PipelineState, PlaybackFailure, Player, PlayerOp,
};
use kma_audio_agent::protocol::{PlaybackAction, PlaybackCommand};

fn command(action: PlaybackAction) -> PlaybackCommand {
    PlaybackCommand {
        schema_version: 1,
        command_id: "command".to_owned(),
        route_epoch: 1,
        action,
        queue_item_id: None,
        asset_id: None,
        media_url: Some("/media/song.mp3".to_owned()),
        position_ms: None,
        duration_ms: None,
        recording: None,
        recording_session_id: None,
        recording_disposition: None,
        previous_recording_session_id: None,
        previous_recording_disposition: None,
    }
}

fn perform(player: &mut Player, ops: Vec<PlayerOp>) -> Vec<String> {
    ops.into_iter()
        .map(|op| {
            player.done(&op);
            format!("{op:?}")
        })
        .collect()
}

fn play(player: &mut Player) -> Vec<String> {
    let ops = player.playback(&command(PlaybackAction::Play), "/cache/song.mp3", true, None);
    perform(player, ops)
}

#[test]
fn play_stops_what_was_heard_and_begins_anew() {
    let mut player = Player::default();
    assert_eq!(player.playback_state(), "paused");
    assert_eq!(
        play(&mut player),
        vec![
            "Prepare { path: \"/cache/song.mp3\", position_ms: 0, paused: false, audible: true }",
            "SeekCaptures { frame: 0 }",
            "NotePaused { paused: false }",
            "PauseCaptures { paused: false }",
            "NoteCommand { command_id: \"command\" }",
            "TakeActive",
        ]
    );
    assert!(player.is_active());
    assert_eq!(player.playback_state(), "playing");
    let again = play(&mut player);
    assert_eq!(again[0], "StopActive");
    assert_eq!(again.len(), 7);
}

#[test]
fn a_cached_switch_waits_until_it_is_ready() {
    let mut player = Player::default();
    play(&mut player);
    let ops = player.playback(
        &command(PlaybackAction::Switch),
        "/cache/other.mp3",
        true,
        Some(1_500),
    );
    assert_eq!(
        perform(&mut player, ops),
        vec![
            "Prepare { path: \"/cache/other.mp3\", position_ms: 1500, paused: false, audible: false }",
            "NotePosition { position_ms: 1500 }",
            "TakePending",
            "NoteCommand { command_id: \"command\" }",
        ]
    );
    assert!(player.is_active() && player.is_pending());
    assert_eq!(player.playback_state(), "buffering");
    assert!(player
        .promote_pending_player(Some(PipelineState::Idle), Some(1_600))
        .is_empty());
    assert!(player
        .promote_pending_player(Some(PipelineState::Paused), Some(1_600))
        .is_empty());
    let ops = player.promote_pending_player(Some(PipelineState::Playing), Some(2_000));
    assert_eq!(
        perform(&mut player, ops),
        vec![
            "SeekPending { position_ms: 2000 }",
            "RaisePending",
            "MuteActive",
            "StopActive",
            "PromotePending",
            "SeekCaptures { frame: 96000 }",
        ]
    );
    assert!(player.is_active() && !player.is_pending());
    assert!(player
        .promote_pending_player(Some(PipelineState::Playing), None)
        .is_empty());
}

#[test]
fn a_switch_that_is_not_cached_waits_for_its_download() {
    let mut player = Player::default();
    play(&mut player);
    let mut switch = command(PlaybackAction::Switch);
    switch.position_ms = Some(3_000);
    let ops = player.playback(&switch, "/cache/other.mp3", false, Some(1));
    assert_eq!(
        perform(&mut player, ops),
        vec![
            "StartDownload { position_ms: 3000 }",
            "NoteCommand { command_id: \"command\" }",
        ]
    );
    assert!(player.downloads() && !player.is_pending());
    assert!(player.poll_pending_switch(Download::Running).is_empty());
    assert!(player.downloads());
    let ops = player.poll_pending_switch(Download::Finished("/cache/other.mp3".to_owned()));
    assert!(!player.downloads());
    assert_eq!(
        perform(&mut player, ops),
        vec![
            "Prepare { path: \"/cache/other.mp3\", position_ms: 3000, paused: false, audible: false }",
            "TakePending",
        ]
    );
    assert!(player.is_pending());
    assert!(player
        .poll_pending_switch(Download::Finished("/x".to_owned()))
        .is_empty());
    assert_eq!(player.handoff_position(None), 0);
    assert_eq!(player.handoff_position(Some(9)), 9);
}

#[test]
fn a_download_that_fails_is_given_up() {
    let mut player = Player::default();
    let ops = player.playback(&command(PlaybackAction::Switch), "/c", false, Some(7));
    assert_eq!(
        perform(&mut player, ops)[0],
        "StartDownload { position_ms: 0 }"
    );
    assert!(player.poll_pending_switch(Download::Failed).is_empty());
    assert!(!player.downloads());
}

#[test]
fn a_second_switch_replaces_the_first() {
    let mut player = Player::default();
    let ops = player.playback(&command(PlaybackAction::Switch), "/c", false, None);
    perform(&mut player, ops);
    let ops = player.playback(&command(PlaybackAction::Switch), "/c", true, None);
    assert_eq!(perform(&mut player, ops)[0], "AbortDownload");
    let ops = player.playback(&command(PlaybackAction::Switch), "/c", true, None);
    assert_eq!(perform(&mut player, ops)[0], "StopPending");
}

#[test]
fn pausing_reaches_every_player() {
    let mut player = Player::default();
    play(&mut player);
    let ops = player.playback(&command(PlaybackAction::Switch), "/c", true, None);
    perform(&mut player, ops);
    let ops = player.playback(&command(PlaybackAction::Pause), "", false, None);
    assert_eq!(
        perform(&mut player, ops),
        vec![
            "NotePaused { paused: true }",
            "SetActive { paused: true }",
            "SetPending { paused: true }",
            "PauseCaptures { paused: true }",
        ]
    );
    assert!(!player
        .promote_pending_player(Some(PipelineState::Paused), None)
        .is_empty());
    let ops = player.playback(&command(PlaybackAction::Resume), "", false, None);
    assert_eq!(
        perform(&mut player, ops)[3],
        "PauseCaptures { paused: false }"
    );
    let mut idle = Player::default();
    let ops = idle.playback(&command(PlaybackAction::Resume), "", false, None);
    assert_eq!(
        perform(&mut idle, ops),
        vec![
            "NotePaused { paused: false }",
            "PauseCaptures { paused: false }"
        ]
    );
    assert_eq!(idle.playback_state(), "playing");
}

#[test]
fn seeking_moves_the_captures_too() {
    let mut player = Player::default();
    let mut seek = command(PlaybackAction::Seek);
    seek.position_ms = Some(250);
    let ops = player.playback(&seek, "", false, None);
    assert_eq!(
        perform(&mut player, ops),
        vec!["SeekCaptures { frame: 12000 }"]
    );
    play(&mut player);
    let ops = player.playback(&seek, "", false, None);
    assert_eq!(
        perform(&mut player, ops),
        vec![
            "SeekActive { position_ms: 250 }",
            "SeekCaptures { frame: 12000 }"
        ]
    );
}

#[test]
fn stop_and_next_end_everything() {
    for action in [PlaybackAction::Stop, PlaybackAction::Next] {
        let mut player = Player::default();
        play(&mut player);
        let ops = player.playback(&command(PlaybackAction::Switch), "/c", true, None);
        perform(&mut player, ops);
        let ops = player.playback(&command(action), "", false, None);
        assert_eq!(
            perform(&mut player, ops),
            vec![
                "StopPending",
                "StopActive",
                "NotePaused { paused: true }",
                "PauseCaptures { paused: true }",
            ]
        );
        assert!(!player.is_active() && !player.is_pending() && !player.downloads());
    }
}

#[test]
fn a_waiting_player_that_fails_is_stopped() {
    let mut player = Player::default();
    let ops = player.playback(&command(PlaybackAction::Switch), "/c", true, None);
    perform(&mut player, ops);
    let ops = player.promote_pending_player(None, None);
    assert_eq!(perform(&mut player, ops), vec!["StopPending"]);
    assert!(!player.is_pending());
    let ops = Player::failed(&PlayerOp::SeekPending { position_ms: 1 });
    assert_eq!(perform(&mut player, ops), vec!["StopPending"]);
    assert!(Player::failed(&PlayerOp::SeekActive { position_ms: 1 }).is_empty());
}

#[test]
fn only_play_and_switch_need_media() {
    let mut play = command(PlaybackAction::Play);
    play.media_url = None;
    assert_eq!(Player::needs_media(&play).unwrap(), MediaNeed::Before);
    assert_eq!(
        Player::needs_media(&command(PlaybackAction::Switch)).unwrap(),
        MediaNeed::Meanwhile
    );
    let mut switch = command(PlaybackAction::Switch);
    switch.media_url = None;
    assert_eq!(
        Player::needs_media(&switch).unwrap_err().to_string(),
        "switch command is missing mediaUrl"
    );
    assert_eq!(
        Player::needs_media(&command(PlaybackAction::Stop)).unwrap(),
        MediaNeed::Nothing
    );
}

#[test]
fn media_is_cached_by_its_asset() {
    let mut play = command(PlaybackAction::Play);
    assert_eq!(media_cache_path("/data", &play), "/data/cache/command.mp3");
    play.asset_id = Some("asset".to_owned());
    play.media_url = Some("/media/song.flac".to_owned());
    assert_eq!(media_cache_path("/data", &play), "/data/cache/asset.audio");
    play.media_url = None;
    assert_eq!(media_cache_path("/data", &play), "/data/cache/asset.audio");
}

#[test]
fn media_is_fetched_from_the_server() {
    let relative = Some("/media/a b?x=1".to_owned());
    let request = media_request("http://server:8080/base", &relative, "/c/asset.mp3").unwrap();
    assert_eq!(request.url, "http://server:8080/media/a%20b?x=1");
    assert_eq!(request.part, "/c/asset.part");
    let absolute = Some("https://cdn/x".to_owned());
    assert_eq!(
        media_request("http://server", &absolute, "/c/a.mp3").unwrap().url,
        "https://cdn/x"
    );
    let missing = media_request("http://server", &None, "/c").unwrap_err();
    assert!(matches!(missing, PlaybackFailure::PlayWithoutMedia));
    assert_eq!(missing.to_string(), "play command is missing mediaUrl");
    let invalid = media_request("server", &absolute, "/c").unwrap_err();
    assert!(matches!(invalid, PlaybackFailure::InvalidMediaUrl(_)));
    assert_eq!(invalid.to_string(), "relative URL without a base");
}

#[test]
fn players_open_cached_media_by_its_url() {
    assert_eq!(media_uri("/c/a b.mp3").unwrap(), "file:///c/a%20b.mp3");
    let error = media_uri("relative.mp3").unwrap_err();
    assert_eq!(error.to_string(), "invalid cache path");
}

#[test]
fn positions_are_turned_into_frames() {
    assert_eq!(frame_of_ms(1), 48);
    assert_eq!(frame_of_ms(1_001), 48_048);
    assert_eq!(frame_of_ns(1_000_000_000), 48_000);
    assert_eq!(frame_of_ns(20_833), 0);
    assert_eq!(frame_of_ns(20_834), 1);
    assert!(has_frame(u64::MAX / 48_000));
    assert!(!has_frame(u64::MAX / 48_000 + 1));
    let mut far = command(PlaybackAction::Seek);
    far.position_ms = Some(u64::MAX);
    assert!(!has_position(&far));
    far.action = PlaybackAction::Switch;
    assert!(has_position(&far));
    let ops = Player::default().playback(&far, "/c", false, None);
    assert!(matches!(
        ops[0],
        PlayerOp::StartDownload {
            position_ms: u64::MAX
        }
    ));
}
