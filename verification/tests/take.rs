use kma_audio_agent::device::{RecordingArtifact, RecordingStart};
use kma_audio_agent::recording::RecordingState;
use kma_audio_agent::take::{
    abandoned_files, capture_pipeline, cleanup_artifact, flac_part, flac_pipeline, json_part,
    recovered_artifact, Take,
};

fn request() -> RecordingStart {
    RecordingStart {
        recording_session_id: "take".to_owned(),
        queue_item_id: "queue".to_owned(),
        spool_dir: "/data/spool".to_owned(),
        playback_to_capture_offset_frames: -5,
    }
}

#[test]
fn completed_upload_cleans_all_spool_files() {
    let artifact = RecordingArtifact {
        recording_session_id: "take".to_owned(),
        raw_path: "/data/spool/take.s32le".to_owned(),
        flac_path: "/data/spool/take.flac".to_owned(),
        manifest_path: "/data/spool/take.json".to_owned(),
        max_frame: 42,
        interrupted: false,
    };
    let mut files = vec![
        artifact.raw_path.clone(),
        artifact.flac_path.clone(),
        artifact.manifest_path.clone(),
    ];
    for path in cleanup_artifact(&artifact) {
        files.retain(|file| *file != path);
    }
    assert!(!files.contains(&artifact.raw_path));
    assert!(!files.contains(&artifact.flac_path));
    assert!(!files.contains(&artifact.manifest_path));
    assert_eq!(
        cleanup_artifact(&artifact),
        vec![
            "/data/spool/take.json",
            "/data/spool/take.s32le",
            "/data/spool/take.flac"
        ]
    );
}

#[test]
fn a_started_take_has_its_files_in_the_spool() {
    let take = Take::start(&request());
    assert_eq!(take.manifest.raw_path, "/data/spool/take.s32le");
    assert_eq!(take.manifest.flac_path, "/data/spool/take.flac");
    assert_eq!(take.manifest_path, "/data/spool/take.json");
    assert_eq!(take.manifest.state, RecordingState::Recording);
    assert_eq!(take.manifest.queue_item_id, "queue");
    assert_eq!(take.manifest.max_frame, 0);
    assert_eq!(take.manifest.playback_to_capture_offset_frames, -5);
    assert_eq!((take.manifest.sample_rate, take.manifest.channels), (48_000, 2));
    assert_eq!(
        take.files(),
        vec![
            "/data/spool/take.s32le",
            "/data/spool/take.flac",
            "/data/spool/take.json"
        ]
    );
}

#[test]
fn an_ended_take_is_handed_over_with_its_frames() {
    let mut take = Take::start(&request());
    take.end(1_234, true);
    assert_eq!(take.manifest.state, RecordingState::Interrupted);
    take.encoded();
    assert_eq!(take.manifest.state, RecordingState::Uploading);
    let artifact = take.into_artifact();
    assert_eq!(artifact.recording_session_id, "take");
    assert_eq!(artifact.max_frame, 1_234);
    assert!(artifact.interrupted);
    assert_eq!(artifact.manifest_path, "/data/spool/take.json");
}

#[test]
fn a_take_without_frames_is_abandoned() {
    let manifest = Take::start(&request()).manifest;
    let files = vec![
        "/data/spool/take.s32le".to_owned(),
        "/data/spool/take.flac".to_owned(),
        "/data/spool/take.flac.part".to_owned(),
        "/data/spool/take.json".to_owned(),
    ];
    assert_eq!(abandoned_files(&manifest, None), Some(files.clone()));
    assert_eq!(abandoned_files(&manifest, Some(0)), Some(files));
    assert_eq!(abandoned_files(&manifest, Some(1)), None);
}

#[test]
fn a_recovered_take_has_every_frame_of_its_file() {
    let mut manifest = Take::start(&request()).manifest;
    manifest.interrupted = true;
    let artifact = recovered_artifact(&manifest, Some(8 * 9 + 7));
    assert_eq!(artifact.max_frame, 9);
    assert!(artifact.interrupted);
    assert_eq!(artifact.manifest_path, "/data/spool/take.json");
    assert_eq!(artifact.raw_path, "/data/spool/take.s32le");
    manifest.max_frame = 20;
    assert_eq!(recovered_artifact(&manifest, Some(80)).max_frame, 20);
    assert_eq!(recovered_artifact(&manifest, None).max_frame, 20);
}

#[test]
fn files_are_written_beside_their_place() {
    assert_eq!(json_part("/data/credentials.json"), "/data/credentials.json.part");
    assert_eq!(json_part("/data.d/name"), "/data.d/name.json.part");
    assert_eq!(flac_part("/data/spool/a.b.flac"), "/data/spool/a.b.flac.part");
}

#[test]
fn pipelines_name_their_files_and_devices() {
    assert_eq!(
        flac_pipeline("/a.s32le", "/a.flac.part"),
        "filesrc location=\"/a.s32le\" ! rawaudioparse format=pcm pcm-format=s32le sample-rate=48000 num-channels=2 interleaved=true ! audioconvert ! flacenc ! filesink location=\"/a.flac.part\""
    );
    assert_eq!(
        capture_pipeline("hw:F8"),
        "alsasrc device=\"hw:F8\" provide-clock=true ! audio/x-raw,format=S32LE,rate=48000,channels=10,layout=interleaved ! appsink name=capture sync=false max-buffers=16 drop=false"
    );
}
