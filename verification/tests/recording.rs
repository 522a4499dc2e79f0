use kma_audio_agent::recording::{
    capture_to_song_frame, captured_frames, place_capture, recover_spool, select_mic_channels,
    transition, RecordingEffect, RecordingEvent, RecordingState, RecoveredTake, SparseTimeline, SpoolFile,
    SpoolManifest, TimelineError,
    CHANNELS, SAMPLE_RATE,
};
use kma_audio_agent::sample::from_le_bytes;

struct MemoryFile {
    contents: Vec<u8>,
}

impl MemoryFile {
    fn write(&mut self, offset: u64, bytes: &[u8]) {
        let start = offset as usize;
        if self.contents.len() < start + bytes.len() {
            self.contents.resize(start + bytes.len(), 0);
        }
        self.contents[start..start + bytes.len()].copy_from_slice(bytes);
    }

    fn set_len(&mut self, length: u64) {
        self.contents.resize(length as usize, 0);
    }
}

fn write_at(timeline: &mut SparseTimeline, file: &mut MemoryFile, frame: u64, samples: &[i32]) -> u64 {
    let write = timeline.write_interleaved_at(frame, samples).unwrap();
    file.write(write.offset, &write.bytes);
    timeline.wrote(&write)
}

#[test]
fn forward_seek_leaves_silence_and_backward_seek_overwrites() {
    let mut file = MemoryFile {
        contents: Vec::new(),
    };
    let mut timeline = SparseTimeline::create("take.s32le", 0);
    write_at(&mut timeline, &mut file, 0, &[1, 2, 3, 4]);
    write_at(&mut timeline, &mut file, 4, &[9, 10]);
    write_at(&mut timeline, &mut file, 1, &[7, 8]);
    file.set_len(timeline.sync());
    let frames = from_le_bytes(&file.contents);
    assert_eq!(frames, vec![1, 2, 7, 8, 0, 0, 0, 0, 9, 10]);
    assert_eq!(timeline.max_frame(), 5);
}

#[test]
fn signed_capture_offset_maps_to_song_frames() {
    assert_eq!(capture_to_song_frame(1_000, 256), 744);
    assert_eq!(capture_to_song_frame(1_000, -256), 1_256);
    assert_eq!(capture_to_song_frame(100, 256), 0);
}

#[test]
fn stop_discards_but_next_and_end_save() {
    assert_eq!(
        transition(RecordingState::Recording, RecordingEvent::Stop),
        (RecordingState::Discarded, RecordingEffect::Discard)
    );
    assert_eq!(
        transition(RecordingState::Recording, RecordingEvent::Next),
        (RecordingState::Encoding, RecordingEffect::Save)
    );
    assert_eq!(
        transition(RecordingState::Paused, RecordingEvent::NaturalEnd),
        (RecordingState::Encoding, RecordingEffect::Save)
    );
    assert_eq!(
        transition(RecordingState::Recording, RecordingEvent::Disable),
        (RecordingState::Discarded, RecordingEffect::Discard)
    );
}

fn manifest(state: RecordingState) -> SpoolManifest {
    SpoolManifest {
        recording_session_id: "take".to_owned(),
        queue_item_id: "queue".to_owned(),
        raw_path: "/spool/take.s32le".to_owned(),
        flac_path: "/spool/take.flac".to_owned(),
        state,
        sample_rate: SAMPLE_RATE,
        channels: CHANNELS,
        max_frame: 42,
        playback_to_capture_offset_frames: 0,
        interrupted: false,
    }
}

#[test]
fn crash_recovery_marks_live_take_interrupted() {
    let spool = vec![SpoolFile {
        name: "take.json".to_owned(),
        manifest: Some(manifest(RecordingState::Recording)),
    }];
    let recovered = recover_spool(spool).takes;
    assert_eq!(recovered.len(), 1);
    assert_eq!(recovered[0].manifest.state, RecordingState::Interrupted);
    assert!(recovered[0].store);
}

#[test]
fn selects_mic_one_and_two_from_ten_channel_frames() {
    let mut bytes = Vec::new();
    let frames: [[i32; 10]; 2] = [
        [11, 12, 13, 14, 15, 16, 17, 18, 19, 20],
        [21, 22, 23, 24, 25, 26, 27, 28, 29, 30],
    ];
    for frame in frames {
        for sample in frame {
            bytes.extend_from_slice(&sample.to_le_bytes());
        }
    }

    assert_eq!(select_mic_channels(&bytes), vec![11, 12, 21, 22]);
}

#[test]
fn offsets_stop_at_the_ends_of_the_frames() {
    assert_eq!(capture_to_song_frame(0, i64::MAX), 0);
    assert_eq!(capture_to_song_frame(0, i64::MIN), 1 << 63);
    assert_eq!(capture_to_song_frame(u64::MAX, -1), u64::MAX);
    assert_eq!(capture_to_song_frame(u64::MAX, 1), u64::MAX - 1);
}

#[test]
fn samples_that_are_not_stereo_are_refused() {
    let timeline = SparseTimeline::create("take.s32le", 0);
    let error = timeline.write_interleaved_at(0, &[1, 2, 3]).unwrap_err();
    assert_eq!(error, TimelineError::NotStereo);
    assert_eq!(
        error.to_string(),
        "capture buffer must contain interleaved stereo samples"
    );
}

#[test]
fn a_timeline_goes_on_where_its_file_ends() {
    let mut timeline = SparseTimeline::create("take.s32le", 8 * 10 + 3);
    assert_eq!(timeline.path(), "take.s32le");
    assert_eq!(timeline.max_frame(), 10);
    let write = timeline.write_interleaved_at(2, &[1, -1]).unwrap();
    assert_eq!(write.offset, 16);
    assert_eq!(write.bytes, vec![1, 0, 0, 0, 255, 255, 255, 255]);
    assert_eq!(write.end_frame, 3);
    assert_eq!(timeline.wrote(&write), 10);
    let write = timeline.write_interleaved_at(12, &[]).unwrap();
    assert_eq!(timeline.wrote(&write), 12);
    assert_eq!(timeline.sync(), 96);
}

#[test]
fn a_paused_take_keeps_nothing() {
    let mut bytes = vec![0_u8; 85];
    bytes[0] = 1;
    bytes[44] = 2;
    assert_eq!(captured_frames(false, bytes.len()), 2);
    assert_eq!(captured_frames(true, bytes.len()), 0);
    assert!(place_capture(true, 5, 0, &bytes).is_none());
    let placement = place_capture(false, 5, 3, &bytes).unwrap();
    assert_eq!(placement.song_frame, 2);
    assert_eq!(placement.samples, vec![1, 0, 0, 2]);
}

#[test]
fn a_take_goes_through_its_life() {
    let mut state = RecordingState::Starting;
    for (event, next, effect) in [
        (
            RecordingEvent::Started,
            RecordingState::Recording,
            RecordingEffect::Nothing,
        ),
        (
            RecordingEvent::Pause,
            RecordingState::Paused,
            RecordingEffect::Nothing,
        ),
        (
            RecordingEvent::Resume,
            RecordingState::Recording,
            RecordingEffect::Nothing,
        ),
        (
            RecordingEvent::NaturalEnd,
            RecordingState::Encoding,
            RecordingEffect::Save,
        ),
        (
            RecordingEvent::Encoded,
            RecordingState::Uploading,
            RecordingEffect::Save,
        ),
        (
            RecordingEvent::Uploaded,
            RecordingState::Completed,
            RecordingEffect::Nothing,
        ),
        (
            RecordingEvent::Stop,
            RecordingState::Completed,
            RecordingEffect::Nothing,
        ),
        (
            RecordingEvent::Fail,
            RecordingState::Failed,
            RecordingEffect::Nothing,
        ),
    ] {
        assert_eq!(transition(state, event), (next, effect));
        state = next;
    }
    assert_eq!(
        transition(RecordingState::Starting, RecordingEvent::DisconnectTimeout),
        (
            RecordingState::Interrupted,
            RecordingEffect::PreserveInterrupted
        )
    );
    assert_eq!(
        transition(RecordingState::Starting, RecordingEvent::NaturalEnd),
        (RecordingState::Starting, RecordingEffect::Nothing)
    );
}

fn spool_file(name: &str, state: Option<RecordingState>) -> SpoolFile {
    SpoolFile {
        name: name.to_owned(),
        manifest: state.map(manifest),
    }
}

#[test]
fn every_take_of_the_spool_is_recovered_once() {
    let spool = || {
        vec![
            spool_file("a.json", Some(RecordingState::Completed)),
            spool_file("b.json", Some(RecordingState::Paused)),
            spool_file("b.s32le", None),
            spool_file("c.json.part", Some(RecordingState::Recording)),
            spool_file(".json", Some(RecordingState::Recording)),
            spool_file("d.json", Some(RecordingState::Uploading)),
            spool_file("e.json", Some(RecordingState::Discarded)),
            spool_file("f.flac", None),
            spool_file("g.json", Some(RecordingState::Failed)),
        ]
    };
    let recovery = recover_spool(spool());
    assert_eq!(recovery.unreadable, None);
    let takes = recovery.takes;
    let found = |takes: &Vec<RecoveredTake>| {
        takes
            .iter()
            .map(|take| (take.file, take.manifest.state, take.manifest.interrupted))
            .collect::<Vec<_>>()
    };
    let expected = vec![
        (1, RecordingState::Interrupted, true),
        (5, RecordingState::Uploading, false),
        (8, RecordingState::Failed, false),
    ];
    assert_eq!(found(&takes), expected);
    assert_eq!(
        takes.iter().map(|take| take.store).collect::<Vec<_>>(),
        vec![true, false, false]
    );
    let mut stored = spool();
    for take in takes {
        stored[take.file].manifest = Some(take.manifest);
    }
    let again = recover_spool(stored).takes;
    assert_eq!(found(&again), expected);
    assert!(again.iter().all(|take| !take.store));
    let empty = recover_spool(Vec::new());
    assert!(empty.takes.is_empty());
    assert_eq!(empty.unreadable, None);
}

#[test]
fn recovery_ends_at_a_manifest_that_cannot_be_read() {
    let recovery = recover_spool(vec![
        spool_file("a.json", Some(RecordingState::Recording)),
        spool_file("a.flac", None),
        spool_file("b.json", None),
        spool_file("c.json", Some(RecordingState::Recording)),
    ]);
    assert_eq!(recovery.unreadable, Some(2));
    assert_eq!(recovery.takes.len(), 1);
    assert_eq!(recovery.takes[0].file, 0);
    assert!(recovery.takes[0].store);
}

#[test]
fn recovery_leaves_finished_takes_alone() {
    for (state, deliver) in [
        (RecordingState::Encoding, true),
        (RecordingState::Uploading, true),
        (RecordingState::Interrupted, true),
        (RecordingState::Failed, true),
        (RecordingState::Completed, false),
        (RecordingState::Discarded, false),
    ] {
        let mut manifest = manifest(state);
        let verdict = manifest.recover();
        assert!(!verdict.store);
        assert_eq!(verdict.deliver, deliver);
        assert_eq!(manifest.state, state);
        assert!(!manifest.interrupted);
    }
    let mut live = manifest(RecordingState::Paused);
    assert!(live.recover().store);
    assert!(live.interrupted);
    assert!(!live.recover().store);
}

#[test]
fn an_ended_take_survives_a_restart() {
    for interrupted in [false, true] {
        let mut manifest = manifest(RecordingState::Recording);
        manifest.finish(77, interrupted);
        let verdict = manifest.recover();
        assert!(!verdict.store && verdict.deliver);
        assert_eq!((manifest.max_frame, manifest.interrupted), (77, interrupted));
        manifest.mark_encoded();
        let verdict = manifest.recover();
        assert!(!verdict.store && verdict.deliver);
        assert_eq!(manifest.state, RecordingState::Uploading);
    }
}

#[test]
fn a_manifest_follows_its_take() {
    let mut manifest = manifest(RecordingState::Recording);
    manifest.finish(77, false);
    assert_eq!(
        (manifest.state, manifest.max_frame, manifest.interrupted),
        (RecordingState::Encoding, 77, false)
    );
    manifest.mark_encoded();
    assert_eq!(manifest.state, RecordingState::Uploading);
    manifest.finish(78, true);
    assert_eq!(
        (manifest.state, manifest.max_frame, manifest.interrupted),
        (RecordingState::Interrupted, 78, true)
    );
}
