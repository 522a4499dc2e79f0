use kma_audio_agent::config::Config;
use kma_audio_agent::credentials::Credentials;
use kma_audio_agent::device::{Calibration, ProbeReport, RecordingArtifact};
use kma_audio_agent::protocol::{
    AgentMessage, ChannelState, InputLevelState, LevelState, MixerState, PlaybackAction,
    PlaybackCommand, RecordingDirective, ReverbPreset, ReverbState, ServerMessage,
};
use kma_audio_agent::session::{synthetic_stop, Action, Anchor, Flow, Link, Reply, Session};

fn link(calibrated: bool) -> Link {
    let config = Config {
        data_dir: "/data".to_owned(),
        snapshot_slot: 6,
        ..Config::default()
    };
    let credentials = Credentials {
        agent_id: 5,
        room_id: "room".to_owned(),
        token: "token".to_owned(),
    };
    let calibration = if calibrated {
        Some(Calibration::measured(-12, 0))
    } else {
        None
    };
    Link::new(
        &config,
        "http://server",
        &credentials,
        &calibration,
        ProbeReport::unsupported(calibrated, 6),
    )
}

fn artifact(id: &str, interrupted: bool) -> RecordingArtifact {
    RecordingArtifact {
        recording_session_id: id.to_owned(),
        raw_path: format!("/spool/{id}.s32le"),
        flac_path: format!("/spool/{id}.flac"),
        manifest_path: format!("/spool/{id}.json"),
        max_frame: 42,
        interrupted,
    }
}

fn command(id: &str, epoch: u64, action: PlaybackAction) -> PlaybackCommand {
    PlaybackCommand {
        schema_version: 1,
        command_id: id.to_owned(),
        route_epoch: epoch,
        action,
        queue_item_id: Some("item".to_owned()),
        asset_id: None,
        media_url: None,
        position_ms: None,
        duration_ms: Some(1_000),
        recording: None,
        recording_session_id: None,
        recording_disposition: None,
        previous_recording_session_id: None,
        previous_recording_disposition: None,
    }
}

fn recorded(id: &str, epoch: u64, take: &str) -> PlaybackCommand {
    PlaybackCommand {
        recording: Some(RecordingDirective {
            enabled: true,
            recording_session_id: Some(take.to_owned()),
        }),
        ..command(id, epoch, PlaybackAction::Play)
    }
}

fn say(session: &mut Session, link: &Link, command: PlaybackCommand) {
    let message = ServerMessage::PlaybackCommand(Box::new(command));
    session.on_message(link, &message).unwrap();
}

fn next(session: &Session) -> String {
    match session.action() {
        None => "nothing".to_owned(),
        Some(Action::Send(AgentMessage::RecordingStatus {
            recording_session_id,
            state,
            max_frame,
            error,
            ..
        })) => format!("status {recording_session_id} {state} {max_frame} {error:?}"),
        Some(Action::Send(AgentMessage::PlaybackError {
            command_id,
            route_epoch,
            error,
            ..
        })) => format!("error {command_id} {route_epoch} {error}"),
        Some(Action::Send(AgentMessage::RecordingUploadRequest {
            recording_session_id,
            sha256,
            size_bytes,
            ..
        })) => format!("request {recording_session_id} {sha256} {size_bytes}"),
        Some(Action::Send(AgentMessage::PlaybackStatus {
            command_id,
            route_epoch,
            state,
            sample_frame,
            sample_rate,
            duration_ms,
            anchor_monotonic_ms,
            ..
        })) => format!(
            "playback {command_id} {route_epoch} {state} {sample_frame} {sample_rate} {duration_ms} {anchor_monotonic_ms}"
        ),
        Some(Action::Send(AgentMessage::Hello {
            agent_id,
            version,
            snapshot_slot,
            capabilities,
            ..
        })) => format!(
            "hello {agent_id} {version} {snapshot_slot} {} {:?}",
            capabilities.platform, capabilities.formats
        ),
        Some(Action::Send(AgentMessage::Heartbeat { agent_id, .. })) => {
            format!("heartbeat {agent_id}")
        }
        Some(Action::Send(AgentMessage::MixerSent { revision, .. })) => format!("sent {revision}"),
        Some(Action::Send(AgentMessage::MixerError {
            revision, error, ..
        })) => format!("mixer error {revision} {error}"),
        Some(Action::Digest {
            recording_session_id,
            flac_path,
        }) => format!("digest {recording_session_id} {flac_path}"),
        Some(Action::Finish {
            recording_session_id,
        }) => format!("finish {recording_session_id}"),
        Some(Action::Preserve {
            recording_session_id,
        }) => format!("preserve {recording_session_id}"),
        Some(Action::Cancel {
            recording_session_id,
        }) => format!("cancel {recording_session_id}"),
        Some(Action::Start(request)) => format!(
            "start {} {} {} {}",
            request.recording_session_id,
            request.queue_item_id,
            request.spool_dir,
            request.playback_to_capture_offset_frames
        ),
        Some(Action::Playback(command)) => format!("play {}", command.command_id),
        Some(Action::Halt(command)) => format!("halt {}", command.command_id),
        Some(Action::Mix {
            revision,
            snapshot_slot,
            ..
        }) => format!("mix {revision} {snapshot_slot}"),
        Some(Action::Upload { url, flac_path }) => format!("upload {url} {flac_path}"),
        Some(Action::Cleanup { paths }) => format!("cleanup {}", paths.join(" ")),
    }
}

fn done(session: &mut Session) -> String {
    assert_eq!(session.resume(Reply::Done), Flow::Continue);
    next(session)
}

fn digested(session: &mut Session) -> String {
    let reply = Reply::Digest {
        sha256: "ab".to_owned(),
        size_bytes: 7,
    };
    assert_eq!(session.resume(reply), Flow::Continue);
    next(session)
}

fn failed(session: &mut Session) -> Flow {
    session.resume(Reply::Failed("broken".to_owned()))
}

#[test]
fn a_connection_begins_with_hello_and_the_takes_held() {
    let mut session = Session::new(vec![
        artifact("one", false),
        artifact("two", false),
        artifact("one", true),
    ]);
    let link = link(true);
    assert_eq!(next(&session), "nothing");
    session.on_connected(&link);
    assert_eq!(
        next(&session),
        "hello 00000000-0000-0000-0000-000000000005 0.0.0 6 linux-amd64 [\"mp3\", \"flac\"]"
    );
    assert_eq!(done(&mut session), "status two encoding 42 None");
    assert_eq!(done(&mut session), "digest two /spool/two.flac");
    assert_eq!(digested(&mut session), "request two ab 7");
    assert_eq!(done(&mut session), "status one interrupted 42 None");
    assert_eq!(done(&mut session), "digest one /spool/one.flac");
    assert_eq!(digested(&mut session), "request one ab 7");
    assert_eq!(done(&mut session), "nothing");
    session.on_heartbeat(&link);
    assert_eq!(
        next(&session),
        "heartbeat 00000000-0000-0000-0000-000000000005"
    );
}

#[test]
fn a_reply_that_answers_nothing_is_ignored() {
    let mut session = Session::new(vec![]);
    assert_eq!(session.resume(Reply::Done), Flow::Ignored);
    say(
        &mut session,
        &link(true),
        command("a", 1, PlaybackAction::Play),
    );
    assert_eq!(session.resume(Reply::Finished(None)), Flow::Ignored);
    assert_eq!(next(&session), "play a");
}

#[test]
fn a_recorded_song_is_captured_played_and_offered() {
    let mut session = Session::new(vec![]);
    let link = link(true);
    say(&mut session, &link, recorded("a", 1, "take"));
    assert_eq!(next(&session), "start take item /data/spool -12");
    assert_eq!(done(&mut session), "status take recording 0 None");
    assert_eq!(done(&mut session), "play a");
    assert_eq!(done(&mut session), "nothing");

    let anchor = |frame| {
        Some(Anchor {
            frame,
            rate: 48_000,
            monotonic_ms: 3,
        })
    };
    session.on_status(None);
    assert_eq!(next(&session), "nothing");
    session.on_status(anchor(47_999));
    assert_eq!(next(&session), "playback a 1 playing 47999 48000 1000 3");
    assert_eq!(done(&mut session), "nothing");
    session.on_status(anchor(48_000));
    assert_eq!(next(&session), "playback a 1 ended 48000 48000 1000 3");
    assert_eq!(done(&mut session), "finish take");
    let finished = Reply::Finished(Some(artifact("take", false)));
    assert_eq!(session.resume(finished), Flow::Continue);
    assert_eq!(next(&session), "status take encoding 42 None");
    assert_eq!(done(&mut session), "digest take /spool/take.flac");
    assert_eq!(digested(&mut session), "request take ab 7");
    assert_eq!(done(&mut session), "nothing");
    session.on_status(anchor(48_001));
    assert_eq!(next(&session), "nothing");

    let authorized = ServerMessage::RecordingUploadAuthorized {
        schema_version: 1,
        recording_session_id: "take".to_owned(),
        upload_url: Some("/upload?x=1".to_owned()),
        error: None,
    };
    session.on_message(&link, &authorized).unwrap();
    assert_eq!(
        next(&session),
        "upload http://server/upload?x=1 /spool/take.flac"
    );
    assert_eq!(
        done(&mut session),
        "cleanup /spool/take.json /spool/take.s32le /spool/take.flac"
    );
    assert_eq!(done(&mut session), "nothing");
    session.on_message(&link, &authorized).unwrap();
    assert_eq!(next(&session), "nothing");
}

#[test]
fn a_failed_upload_keeps_the_take() {
    let mut session = Session::new(vec![artifact("take", false)]);
    let url = Ok("http://server/up".to_owned());
    session
        .on_upload_authorized(&"take".to_owned(), url.clone())
        .unwrap();
    assert_eq!(next(&session), "upload http://server/up /spool/take.flac");
    assert_eq!(failed(&mut session), Flow::Abort);
    assert_eq!(next(&session), "nothing");
    session
        .on_upload_authorized(&"take".to_owned(), url)
        .unwrap();
    assert_eq!(next(&session), "upload http://server/up /spool/take.flac");
}

#[test]
fn uploads_that_are_refused_or_unknown_do_nothing() {
    let mut session = Session::new(vec![artifact("take", false)]);
    let link = link(true);
    let authorized = |id: &str, url: Option<&str>, error: Option<&str>| {
        ServerMessage::RecordingUploadAuthorized {
            schema_version: 1,
            recording_session_id: id.to_owned(),
            upload_url: url.map(|url| url.to_owned()),
            error: error.map(|error| error.to_owned()),
        }
    };
    for message in [
        authorized("take", Some("/u"), Some("quota")),
        authorized("take", None, None),
        authorized("other", Some("/u"), None),
        authorized("other", Some("http://["), None),
        ServerMessage::Unknown,
        ServerMessage::HelloAck {
            schema_version: 1,
            route_epoch: 3,
        },
    ] {
        session.on_message(&link, &message).unwrap();
        assert_eq!(next(&session), "nothing");
    }
    let error = session
        .on_message(&link, &authorized("take", Some("http://["), None))
        .unwrap_err();
    assert_eq!(error, "invalid IPv6 address");
}

#[test]
fn a_take_needs_a_calibrated_device() {
    let mut session = Session::new(vec![]);
    let link = link(false);
    say(&mut session, &link, recorded("a", 1, "take"));
    assert_eq!(
        next(&session),
        "status take failed 0 Some(\"calibration_missing\")"
    );
    assert_eq!(done(&mut session), "play a");
    assert_eq!(done(&mut session), "nothing");
    session.on_interrupted();
    assert_eq!(next(&session), "halt disconnect-timeout");
    assert_eq!(done(&mut session), "nothing");
}

#[test]
fn stale_and_repeated_commands_reach_no_device() {
    let mut session = Session::new(vec![]);
    let link = link(true);
    say(&mut session, &link, command("a", 5, PlaybackAction::Play));
    assert_eq!(next(&session), "play a");
    assert_eq!(done(&mut session), "nothing");
    say(&mut session, &link, command("a", 5, PlaybackAction::Play));
    assert_eq!(next(&session), "nothing");
    say(&mut session, &link, recorded("b", 4, "take"));
    assert_eq!(next(&session), "error b 4 stale_route_epoch");
    assert_eq!(done(&mut session), "nothing");
}

#[test]
fn a_command_may_save_one_take_and_discard_another() {
    let mut session = Session::new(vec![]);
    let link = link(true);
    let mut next_song = recorded("b", 1, "new");
    next_song.previous_recording_disposition = Some("save".to_owned());
    next_song.previous_recording_session_id = Some("old".to_owned());
    next_song.recording_disposition = Some("discard".to_owned());
    next_song.recording_session_id = Some("bad".to_owned());
    say(&mut session, &link, next_song);
    assert_eq!(next(&session), "finish old");
    assert_eq!(session.resume(Reply::Finished(None)), Flow::Continue);
    assert_eq!(next(&session), "cancel bad");
    assert_eq!(done(&mut session), "status bad discarded 0 None");
    assert_eq!(done(&mut session), "start new item /data/spool -12");
    assert_eq!(done(&mut session), "status new recording 0 None");
    assert_eq!(done(&mut session), "play b");
    assert_eq!(done(&mut session), "nothing");
}

#[test]
fn dispositions_without_a_take_end_the_one_that_is_captured() {
    for field in 0..2 {
        let mut session = Session::new(vec![]);
        let link = link(true);
        say(&mut session, &link, recorded("a", 1, "take"));
        done(&mut session);
        done(&mut session);
        assert_eq!(done(&mut session), "nothing");
        let mut stop = command("b", 1, PlaybackAction::Stop);
        if field == 0 {
            stop.previous_recording_disposition = Some("save".to_owned());
        } else {
            stop.recording_disposition = Some("discard".to_owned());
        }
        say(&mut session, &link, stop);
        assert_eq!(next(&session), "play b");
        assert_eq!(done(&mut session), "nothing");
        session.on_interrupted();
        assert_eq!(next(&session), "halt disconnect-timeout");
        assert_eq!(done(&mut session), "nothing");
    }
}

#[test]
fn other_dispositions_mean_nothing() {
    let mut session = Session::new(vec![]);
    let mut stop = command("b", 1, PlaybackAction::Stop);
    stop.previous_recording_disposition = Some("discard".to_owned());
    stop.previous_recording_session_id = Some("old".to_owned());
    stop.recording_disposition = Some("save".to_owned());
    stop.recording_session_id = Some("bad".to_owned());
    say(&mut session, &link(true), stop);
    assert_eq!(next(&session), "play b");
}

#[test]
fn only_play_begins_a_take() {
    for action in [
        PlaybackAction::Switch,
        PlaybackAction::Resume,
        PlaybackAction::Next,
    ] {
        let mut session = Session::new(vec![]);
        let mut other = recorded("a", 1, "take");
        other.action = action;
        say(&mut session, &link(true), other);
        assert_eq!(next(&session), "play a");
    }
    for directive in [
        RecordingDirective {
            enabled: false,
            recording_session_id: Some("take".to_owned()),
        },
        RecordingDirective {
            enabled: true,
            recording_session_id: None,
        },
    ] {
        let mut session = Session::new(vec![]);
        let mut play = command("a", 1, PlaybackAction::Play);
        play.recording = Some(directive);
        say(&mut session, &link(true), play);
        assert_eq!(next(&session), "play a");
    }
}

#[test]
fn a_command_that_fails_is_told_and_the_connection_stays() {
    let mut session = Session::new(vec![]);
    say(
        &mut session,
        &link(true),
        command("a", 2, PlaybackAction::Play),
    );
    assert_eq!(failed(&mut session), Flow::Continue);
    assert_eq!(next(&session), "error a 2 broken");
    assert_eq!(done(&mut session), "nothing");
    session.on_status(Some(Anchor::at(0, 0)));
    assert_eq!(next(&session), "nothing");
}

#[test]
fn failures_of_the_connection_or_of_a_take_end_it() {
    let mut session = Session::new(vec![artifact("held", false)]);
    let link = link(true);
    session.on_connected(&link);
    assert_eq!(failed(&mut session), Flow::Abort);
    session.on_connected(&link);
    done(&mut session);
    assert_eq!(done(&mut session), "digest held /spool/held.flac");
    assert_eq!(failed(&mut session), Flow::Abort);
    say(&mut session, &link, recorded("a", 1, "take"));
    assert_eq!(failed(&mut session), Flow::Abort);
    assert_eq!(next(&session), "nothing");
    let cancel = ServerMessage::RecordingCancel {
        schema_version: 1,
        recording_session_id: "take".to_owned(),
        reason: "gone".to_owned(),
    };
    session.on_message(&link, &cancel).unwrap();
    assert_eq!(next(&session), "cancel take");
    assert_eq!(failed(&mut session), Flow::Abort);
    session.on_message(&link, &cancel).unwrap();
    assert_eq!(done(&mut session), "status take discarded 0 None");
    session.on_lost();
    assert_eq!(next(&session), "nothing");
}

#[test]
fn a_lost_connection_preserves_the_take() {
    for halted in [true, false] {
        let mut session = Session::new(vec![]);
        let link = link(true);
        say(&mut session, &link, recorded("a", 1, "take"));
        done(&mut session);
        done(&mut session);
        done(&mut session);
        session.on_interrupted();
        assert_eq!(next(&session), "halt disconnect-timeout");
        if halted {
            done(&mut session);
        } else {
            assert_eq!(failed(&mut session), Flow::Continue);
        }
        assert_eq!(next(&session), "preserve take");
        let finished = Reply::Finished(Some(artifact("take", true)));
        assert_eq!(session.resume(finished), Flow::Continue);
        assert_eq!(next(&session), "nothing");
        session.on_connected(&link);
        assert_eq!(done(&mut session), "status take interrupted 42 None");
        session.on_lost();
        session.on_interrupted();
        assert_eq!(done(&mut session), "nothing");
    }
    let stop = synthetic_stop();
    assert_eq!(stop.action, PlaybackAction::Stop);
    assert_eq!((stop.route_epoch, stop.schema_version), (0, 1));
}

#[test]
fn a_take_that_cannot_be_preserved_is_let_go() {
    let mut session = Session::new(vec![]);
    let link = link(true);
    say(&mut session, &link, recorded("a", 1, "take"));
    done(&mut session);
    session.on_lost();
    session.on_interrupted();
    done(&mut session);
    assert_eq!(next(&session), "preserve take");
    assert_eq!(failed(&mut session), Flow::Continue);
    assert_eq!(next(&session), "nothing");
    session.on_connected(&link);
    assert_eq!(done(&mut session), "nothing");
}

fn mixer() -> MixerState {
    let mic = ChannelState {
        level_cc: 1,
        muted: false,
        compressor_cc: 2,
        reverb_send_cc: 3,
    };
    let level = LevelState {
        level_cc: 4,
        muted: false,
    };
    MixerState {
        mic1: mic,
        mic2: mic,
        music: InputLevelState {
            level_cc: 5,
            muted: false,
        },
        main: level,
        mon1: None,
        mon2: Some(level),
        reverb: ReverbState {
            preset: ReverbPreset::Default,
            decay_cc: 6,
            return_level_cc: 7,
        },
    }
}

#[test]
fn the_mixer_is_set_once_per_revision() {
    let mut session = Session::new(vec![]);
    let link = link(true);
    let mut apply = |revision| {
        session
            .on_message(
                &link,
                &ServerMessage::MixerApply {
                    schema_version: 1,
                    revision,
                    desired: mixer(),
                },
            )
            .unwrap();
        let first = next(&session);
        if first == "nothing" {
            return first;
        }
        match session.action() {
            Some(Action::Mix { desired, .. }) => assert_eq!(*desired, mixer()),
            _ => panic!("no mixer"),
        }
        format!("{first}, {}", done(&mut session))
    };
    assert_eq!(apply(3), "mix 3 6, sent 3");
    assert_eq!(apply(3), "nothing");
    assert_eq!(apply(2), "nothing");
    assert_eq!(apply(4), "mix 4 6, sent 4");
}

#[test]
fn a_mixer_that_fails_is_told() {
    let mut session = Session::new(vec![]);
    let message = ServerMessage::MixerApply {
        schema_version: 1,
        revision: 9,
        desired: mixer(),
    };
    session.on_message(&link(true), &message).unwrap();
    assert_eq!(failed(&mut session), Flow::Continue);
    assert_eq!(next(&session), "mixer error 9 broken");
}

#[test]
fn songs_without_a_duration_do_not_end() {
    let mut session = Session::new(vec![]);
    let mut play = command("a", 1, PlaybackAction::Play);
    play.duration_ms = None;
    say(&mut session, &link(true), play);
    done(&mut session);
    session.on_status(Some(Anchor::at(3_600_000_000_000, 9)));
    assert_eq!(next(&session), "playback a 1 playing 172800000 48000 0 9");
}

#[test]
fn stop_ends_the_status_and_pause_does_not() {
    let mut session = Session::new(vec![]);
    let link = link(true);
    say(&mut session, &link, command("a", 1, PlaybackAction::Play));
    done(&mut session);
    say(&mut session, &link, command("b", 1, PlaybackAction::Pause));
    done(&mut session);
    session.on_status(Some(Anchor::at(0, 0)));
    assert_eq!(next(&session), "playback a 1 playing 0 48000 1000 0");
    say(&mut session, &link, command("c", 1, PlaybackAction::Resume));
    done(&mut session);
    session.on_status(Some(Anchor::at(0, 0)));
    assert_eq!(next(&session), "playback c 1 playing 0 48000 1000 0");
    say(&mut session, &link, command("d", 1, PlaybackAction::Stop));
    done(&mut session);
    session.on_status(Some(Anchor::at(0, 0)));
    assert_eq!(next(&session), "nothing");
}
