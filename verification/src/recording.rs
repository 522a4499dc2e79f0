//! The timeline of a take, its life cycle and its spool manifest.

use vstd::prelude::*;

use crate::path::{is_manifest_name, manifest_name};
use crate::sample::{from_le_bytes_at, law_sample_round_trip, sample_at, sample_byte, samples_bytes, to_le_bytes};

verus! {

/// Frames per second of every stream.
pub const SAMPLE_RATE: u32 = 48_000;

/// Channels of a recorded take.
pub const CHANNELS: u16 = 2;

/// Channels that the device captures.
pub const DEVICE_CAPTURE_CHANNELS: u16 = 10;

/// Bytes of one frame of a recorded take.
pub const BYTES_PER_FRAME: u64 = 8;

/// Bytes of one frame as the device captures it.
pub const DEVICE_CAPTURE_FRAME_BYTES: usize = 40;

/// `frame` kept within the frames that can be numbered.
pub open spec fn clamped_frame(frame: int) -> u64 {
    if frame < 0 {
        0
    } else if frame > u64::MAX {
        u64::MAX
    } else {
        frame as u64
    }
}

/// The frame of the song that sounded when `capture_frame` was captured, where
/// captures lag playback by `offset_frames`.
pub fn capture_to_song_frame(capture_frame: u64, offset_frames: i64) -> (frame: u64)
    ensures
        frame == clamped_frame(capture_frame - offset_frames),
{
    if offset_frames >= 0 {
        capture_frame.saturating_sub(offset_frames as u64)
    } else {
        let lead: u64 = (-(offset_frames as i128)) as u64;
        capture_frame.saturating_add(lead)
    }
}

/// Why samples were not taken into a timeline.
#[derive(Debug, Clone, Copy, PartialEq, Eq, Structural)]
pub enum TimelineError {
    /// The samples do not fill whole stereo frames.
    NotStereo,
}

impl TimelineError {
    /// The error in words.
    pub fn to_string(&self) -> (text: String)
        ensures
            text@ == "capture buffer must contain interleaved stereo samples"@,
    {
        "capture buffer must contain interleaved stereo samples".to_string()
    }
}

/// Bytes to be written to the file of a timeline.
#[derive(Debug)]
pub struct TimelineWrite {
    /// Where the bytes go, counted from the start of the file.
    pub offset: u64,
    pub bytes: Vec<u8>,
    /// The frame after the last one that is written.
    pub end_frame: u64,
}

/// A take's file of interleaved frames, in which any frame may be written.
#[derive(Debug)]
pub struct SparseTimeline {
    path: String,
    max_frame: u64,
}

/// The path of a timeline's file, and the frame after its last one.
pub struct TimelineView {
    pub path: Seq<char>,
    pub max_frame: u64,
}

impl View for SparseTimeline {
    type V = TimelineView;

    closed spec fn view(&self) -> TimelineView {
        TimelineView { path: self.path@, max_frame: self.max_frame }
    }
}

impl SparseTimeline {
    /// The timeline over a file at `path` that holds `file_length` bytes.
    pub fn create(path: &str, file_length: u64) -> (timeline: Self)
        ensures
            timeline@.path == path@,
            timeline@.max_frame == file_length / BYTES_PER_FRAME,
    {
        SparseTimeline { path: path.to_string(), max_frame: file_length / BYTES_PER_FRAME }
    }

    /// The write that puts `samples` at `song_frame`.
    pub fn write_interleaved_at(&self, song_frame: u64, samples: &[i32]) -> (result: Result<
        TimelineWrite,
        TimelineError,
    >)
        requires
            samples@.len() % 2 == 0 ==> song_frame * BYTES_PER_FRAME <= u64::MAX && song_frame
                + samples@.len() / 2 <= u64::MAX,
        ensures
            samples@.len() % 2 != 0 ==> result == Err::<TimelineWrite, TimelineError>(
                TimelineError::NotStereo,
            ),
            samples@.len() % 2 == 0 ==> result is Ok,
            result matches Ok(write) ==> {
                &&& write.offset == song_frame * BYTES_PER_FRAME
                &&& write.bytes@ == samples_bytes(samples@)
                &&& write.end_frame == song_frame + samples@.len() / 2
            },
    {
        if samples.len() % 2 != 0 {
            return Err(TimelineError::NotStereo);
        }
        let frames: u64 = samples.len() as u64 / 2;
        Ok(
            TimelineWrite {
                offset: song_frame * BYTES_PER_FRAME,
                bytes: to_le_bytes(samples),
                end_frame: song_frame + frames,
            },
        )
    }

    /// Takes note of a write that was carried out.
    pub fn wrote(&mut self, write: &TimelineWrite) -> (max_frame: u64)
        ensures
            final(self)@.path == old(self)@.path,
            max_frame == final(self)@.max_frame,
            max_frame == vstd::math::max(old(self)@.max_frame as int, write.end_frame as int),
    {
        if write.end_frame > self.max_frame {
            self.max_frame = write.end_frame;
        }
        self.max_frame
    }

    /// The length that the file is to have.
    pub fn sync(&self) -> (file_length: u64)
        requires
            self@.max_frame * BYTES_PER_FRAME <= u64::MAX,
        ensures
            file_length == self@.max_frame * BYTES_PER_FRAME,
    {
        self.max_frame * BYTES_PER_FRAME
    }

    /// The frame after the last one.
    pub fn max_frame(&self) -> (frame: u64)
        ensures
            frame == self@.max_frame,
    {
        self.max_frame
    }

    /// The path of the file.
    pub fn path(&self) -> (path: &str)
        ensures
            path@ == self@.path,
    {
        self.path.as_str()
    }
}

/// Contents of a file after `bytes` were written at `offset`. A gap between the
/// old end and the bytes is filled with zeros.
pub open spec fn file_after_write(contents: Seq<u8>, offset: int, bytes: Seq<u8>) -> Seq<u8> {
    let length = if bytes.len() > 0 && offset + bytes.len() > contents.len() {
        (offset + bytes.len()) as nat
    } else {
        contents.len()
    };
    Seq::new(
        length,
        |i: int|
            if offset <= i < offset + bytes.len() {
                bytes[i - offset]
            } else if i < contents.len() {
                contents[i]
            } else {
                0u8
            },
    )
}

/// Contents of a file after its length was set. It is cut or filled with zeros.
pub open spec fn file_of_length(contents: Seq<u8>, length: nat) -> Seq<u8> {
    Seq::new(
        length,
        |i: int|
            if i < contents.len() {
                contents[i]
            } else {
                0u8
            },
    )
}

/// The two samples of frame `frame`.
pub open spec fn frame_at(contents: Seq<u8>, frame: int) -> (i32, i32) {
    (sample_at(contents, frame * 8), sample_at(contents, frame * 8 + 4))
}

/// The file of a timeline holds no whole frame past the timeline's last one.
pub open spec fn timeline_covers(max_frame: int, contents: Seq<u8>) -> bool {
    contents.len() < (max_frame + 1) * 8
}

/// A frame that was written holds the samples written there, whatever the file
/// held before.
pub proof fn law_written_frames_read_back(
    contents: Seq<u8>,
    song_frame: int,
    samples: Seq<i32>,
    frame: int,
)
    requires
        0 <= song_frame <= frame < song_frame + samples.len() / 2,
    ensures
        frame_at(file_after_write(contents, song_frame * 8, samples_bytes(samples)), frame) == (
            samples[(frame - song_frame) * 2],
            samples[(frame - song_frame) * 2 + 1],
        ),
{
    let after = file_after_write(contents, song_frame * 8, samples_bytes(samples));
    let k = (frame - song_frame) * 2;
    let left = samples[k];
    let right = samples[k + 1];
    assert forall|i: int| 0 <= i < 4 implies after[frame * 8 + i] == #[trigger] sample_byte(
        left,
        i,
    ) by {
        assert((k * 4 + i) / 4 == k);
    }
    law_sample_round_trip(after, frame * 8, left);
    assert forall|i: int| 0 <= i < 4 implies after[frame * 8 + 4 + i] == #[trigger] sample_byte(
        right,
        i,
    ) by {
        assert(((k + 1) * 4 + i) / 4 == k + 1);
    }
    law_sample_round_trip(after, frame * 8 + 4, right);
}

/// A write leaves every other frame of the file as it was.
pub proof fn law_write_keeps_other_frames(
    contents: Seq<u8>,
    song_frame: int,
    samples: Seq<i32>,
    frame: int,
)
    requires
        0 <= song_frame,
        samples.len() % 2 == 0,
        0 <= frame,
        (frame + 1) * 8 <= contents.len(),
        frame < song_frame || frame >= song_frame + samples.len() / 2,
    ensures
        frame_at(file_after_write(contents, song_frame * 8, samples_bytes(samples)), frame)
            == frame_at(contents, frame),
{
    let after = file_after_write(contents, song_frame * 8, samples_bytes(samples));
    assert forall|i: int| frame * 8 <= i < frame * 8 + 8 implies after[i] == contents[i] by {}
    assert(after[frame * 8 + 4 + 1] == contents[frame * 8 + 4 + 1]);
    assert(after[frame * 8 + 4 + 2] == contents[frame * 8 + 4 + 2]);
    assert(after[frame * 8 + 4 + 3] == contents[frame * 8 + 4 + 3]);
}

/// A write past the end of the file leaves silence in between.
pub proof fn law_forward_seek_leaves_silence(
    contents: Seq<u8>,
    song_frame: int,
    samples: Seq<i32>,
    frame: int,
)
    requires
        samples.len() >= 2,
        contents.len() <= frame * 8,
        0 <= frame < song_frame,
    ensures
        frame_at(file_after_write(contents, song_frame * 8, samples_bytes(samples)), frame) == (
            0i32,
            0i32,
        ),
{
    let after = file_after_write(contents, song_frame * 8, samples_bytes(samples));
    assert forall|i: int| frame * 8 <= i < frame * 8 + 8 implies after[i] == 0u8 by {}
    assert(after[frame * 8 + 4 + 1] == 0u8);
    assert(after[frame * 8 + 4 + 2] == 0u8);
    assert(after[frame * 8 + 4 + 3] == 0u8);
}

/// A timeline covers its file when it is made over it and after every write that
/// it takes note of.
pub proof fn law_timeline_covers_its_file(
    max_frame: int,
    contents: Seq<u8>,
    song_frame: int,
    samples: Seq<i32>,
)
    requires
        0 <= max_frame,
        0 <= song_frame,
        samples.len() % 2 == 0,
    ensures
        timeline_covers(contents.len() as int / 8, contents),
        timeline_covers(max_frame, contents) ==> timeline_covers(
            vstd::math::max(max_frame, (song_frame + samples.len() / 2) as int),
            file_after_write(contents, song_frame * 8, samples_bytes(samples)),
        ),
{
}

/// Once its length is set, the file holds exactly the frames of the timeline:
/// those that it held before, and silence.
pub proof fn law_sync_keeps_every_frame(max_frame: int, contents: Seq<u8>, frame: int)
    requires
        timeline_covers(max_frame, contents),
        0 <= frame < max_frame,
    ensures
        file_of_length(contents, (max_frame * 8) as nat).len() == max_frame * 8,
        (frame + 1) * 8 <= contents.len() ==> frame_at(
            file_of_length(contents, (max_frame * 8) as nat),
            frame,
        ) == frame_at(contents, frame),
        contents.len() <= frame * 8 ==> frame_at(
            file_of_length(contents, (max_frame * 8) as nat),
            frame,
        ) == (0i32, 0i32),
{
    let after = file_of_length(contents, (max_frame * 8) as nat);
    if (frame + 1) * 8 <= contents.len() {
        assert forall|i: int| frame * 8 <= i < frame * 8 + 8 implies after[i] == contents[i] by {}
        assert(after[frame * 8 + 4 + 1] == contents[frame * 8 + 4 + 1]);
        assert(after[frame * 8 + 4 + 2] == contents[frame * 8 + 4 + 2]);
        assert(after[frame * 8 + 4 + 3] == contents[frame * 8 + 4 + 3]);
    }
    if contents.len() <= frame * 8 {
        assert forall|i: int| frame * 8 <= i < frame * 8 + 8 implies after[i] == 0u8 by {}
        assert(after[frame * 8 + 4 + 1] == 0u8);
        assert(after[frame * 8 + 4 + 2] == 0u8);
        assert(after[frame * 8 + 4 + 3] == 0u8);
    }
}

/// The first two channels of every whole frame that the device captured.
pub open spec fn mic_channels(bytes: Seq<u8>) -> Seq<i32> {
    Seq::new(
        bytes.len() / 40 * 2,
        |i: int| sample_at(bytes, i / 2 * 40 + i % 2 * 4),
    )
}

/// The first two channels of every whole frame that the device captured: the
/// microphones. The other channels are mixer returns.
pub fn select_mic_channels(bytes: &[u8]) -> (samples: Vec<i32>)
    ensures
        samples@ == mic_channels(bytes@),
{
    let length: usize = bytes.len();
    let frames: usize = length / DEVICE_CAPTURE_FRAME_BYTES;
    let mut samples: Vec<i32> = Vec::new();
    let mut frame: usize = 0;
    while frame < frames
        invariant
            length == bytes@.len(),
            frame <= frames == length / 40,
            samples@ == mic_channels(bytes@).take(frame * 2),
        decreases frames - frame,
    {
        let start: usize = frame * DEVICE_CAPTURE_FRAME_BYTES;
        samples.push(from_le_bytes_at(bytes, start));
        samples.push(from_le_bytes_at(bytes, start + 4));
        assert(samples@ =~= mic_channels(bytes@).take((frame + 1) * 2));
        frame = frame + 1;
    }
    assert(mic_channels(bytes@).take(frames * 2) =~= mic_channels(bytes@));
    samples
}

/// Where captured bytes belong in a take.
#[derive(Debug)]
pub struct CapturePlacement {
    pub song_frame: u64,
    pub samples: Vec<i32>,
}

/// How many frames a take goes on by for `length` captured bytes: the whole frames
/// that they hold, or none while it is paused.
pub fn captured_frames(paused: bool, length: usize) -> (frames: u64)
    ensures
        frames == if paused {
            0
        } else {
            length / 40
        },
{
    if paused {
        0
    } else {
        (length / DEVICE_CAPTURE_FRAME_BYTES) as u64
    }
}

/// Places the bytes captured from `capture_frame` on. Nothing is kept while the
/// take is paused.
pub fn place_capture(
    paused: bool,
    capture_frame: u64,
    offset_frames: i64,
    bytes: &[u8],
) -> (placement: Option<CapturePlacement>)
    ensures
        placement is None <==> paused,
        placement matches Some(placement) ==> {
            &&& placement.song_frame == clamped_frame(capture_frame - offset_frames)
            &&& placement.samples@ == mic_channels(bytes@)
        },
{
    if paused {
        None
    } else {
        Some(
            CapturePlacement {
                song_frame: capture_to_song_frame(capture_frame, offset_frames),
                samples: select_mic_channels(bytes),
            },
        )
    }
}

/// A captured frame whose place is not before the song is found in the take at that
/// place, with its two microphones: the frame `frame` of the captured bytes stands as
/// many frames behind the first one as it was captured.
pub proof fn law_captured_frames_are_found(
    contents: Seq<u8>,
    capture_frame: u64,
    offset_frames: i64,
    bytes: Seq<u8>,
    frame: int,
)
    requires
        0 <= capture_frame - offset_frames <= u64::MAX,
        0 <= frame < bytes.len() / 40,
    ensures
        ({
            let song_frame = clamped_frame(capture_frame - offset_frames) as int;
            let after = file_after_write(
                contents,
                song_frame * 8,
                samples_bytes(mic_channels(bytes)),
            );
            &&& song_frame == capture_frame - offset_frames
            &&& frame_at(after, song_frame + frame) == (
                sample_at(bytes, frame * 40),
                sample_at(bytes, frame * 40 + 4),
            )
        }),
{
    let song_frame = clamped_frame(capture_frame - offset_frames) as int;
    let samples = mic_channels(bytes);
    law_written_frames_read_back(contents, song_frame, samples, song_frame + frame);
    assert((frame * 2) / 2 == frame && (frame * 2) % 2 == 0);
    assert((frame * 2 + 1) / 2 == frame && (frame * 2 + 1) % 2 == 1);
}

/// Where a take stands.
#[derive(Debug, Clone, Copy, PartialEq, Eq, Structural)]
pub enum RecordingState {
    Starting,
    Recording,
    Paused,
    Encoding,
    Uploading,
    Interrupted,
    Discarded,
    Completed,
    Failed,
}

/// What happens to a take.
#[derive(Debug, Clone, Copy, PartialEq, Eq, Structural)]
pub enum RecordingEvent {
    Started,
    Pause,
    Resume,
    NaturalEnd,
    Next,
    Stop,
    Disable,
    DisconnectTimeout,
    Encoded,
    Uploaded,
    Fail,
}

/// What is to be done with the frames of a take.
#[derive(Debug, Clone, Copy, PartialEq, Eq, Structural)]
pub enum RecordingEffect {
    Nothing,
    Save,
    Discard,
    PreserveInterrupted,
}

/// The take is still being captured.
pub open spec fn is_live(state: RecordingState) -> bool {
    state == RecordingState::Starting || state == RecordingState::Recording || state
        == RecordingState::Paused
}

/// The state after `event`, and what it calls for.
pub open spec fn transition_of(state: RecordingState, event: RecordingEvent) -> (
    RecordingState,
    RecordingEffect,
) {
    let unchanged = (state, RecordingEffect::Nothing);
    let running_or_paused = state == RecordingState::Recording || state == RecordingState::Paused;
    match event {
        RecordingEvent::Started => if state == RecordingState::Starting {
            (RecordingState::Recording, RecordingEffect::Nothing)
        } else {
            unchanged
        },
        RecordingEvent::Pause => if state == RecordingState::Recording {
            (RecordingState::Paused, RecordingEffect::Nothing)
        } else {
            unchanged
        },
        RecordingEvent::Resume => if state == RecordingState::Paused {
            (RecordingState::Recording, RecordingEffect::Nothing)
        } else {
            unchanged
        },
        RecordingEvent::NaturalEnd | RecordingEvent::Next => if running_or_paused {
            (RecordingState::Encoding, RecordingEffect::Save)
        } else {
            unchanged
        },
        RecordingEvent::Stop | RecordingEvent::Disable => if is_live(state) {
            (RecordingState::Discarded, RecordingEffect::Discard)
        } else {
            unchanged
        },
        RecordingEvent::DisconnectTimeout => if is_live(state) {
            (RecordingState::Interrupted, RecordingEffect::PreserveInterrupted)
        } else {
            unchanged
        },
        RecordingEvent::Encoded => if state == RecordingState::Encoding || state
            == RecordingState::Interrupted {
            (RecordingState::Uploading, RecordingEffect::Save)
        } else {
            unchanged
        },
        RecordingEvent::Uploaded => if state == RecordingState::Uploading {
            (RecordingState::Completed, RecordingEffect::Nothing)
        } else {
            unchanged
        },
        RecordingEvent::Fail => (RecordingState::Failed, RecordingEffect::Nothing),
    }
}

/// The state after `event`, and what it calls for.
pub fn transition(state: RecordingState, event: RecordingEvent) -> (next: (
    RecordingState,
    RecordingEffect,
))
    ensures
        next == transition_of(state, event),
{
    match (state, event) {
        (RecordingState::Starting, RecordingEvent::Started) => (
            RecordingState::Recording,
            RecordingEffect::Nothing,
        ),
        (RecordingState::Recording, RecordingEvent::Pause) => (
            RecordingState::Paused,
            RecordingEffect::Nothing,
        ),
        (RecordingState::Paused, RecordingEvent::Resume) => (
            RecordingState::Recording,
            RecordingEffect::Nothing,
        ),
        (
            RecordingState::Recording | RecordingState::Paused,
            RecordingEvent::NaturalEnd | RecordingEvent::Next,
        ) => (RecordingState::Encoding, RecordingEffect::Save),
        (
            RecordingState::Starting | RecordingState::Recording | RecordingState::Paused,
            RecordingEvent::Stop | RecordingEvent::Disable,
        ) => (RecordingState::Discarded, RecordingEffect::Discard),
        (
            RecordingState::Starting | RecordingState::Recording | RecordingState::Paused,
            RecordingEvent::DisconnectTimeout,
        ) => (RecordingState::Interrupted, RecordingEffect::PreserveInterrupted),
        (RecordingState::Encoding | RecordingState::Interrupted, RecordingEvent::Encoded) => (
            RecordingState::Uploading,
            RecordingEffect::Save,
        ),
        (RecordingState::Uploading, RecordingEvent::Uploaded) => (
            RecordingState::Completed,
            RecordingEffect::Nothing,
        ),
        (_, RecordingEvent::Fail) => (RecordingState::Failed, RecordingEffect::Nothing),
        _ => (state, RecordingEffect::Nothing),
    }
}

/// Stopping or disabling discards a live take, and nothing else discards one.
pub proof fn law_only_stop_and_disable_discard(state: RecordingState, event: RecordingEvent)
    ensures
        transition_of(state, event).1 == RecordingEffect::Discard <==> (is_live(state) && (event
            == RecordingEvent::Stop || event == RecordingEvent::Disable)),
        transition_of(state, event).1 == RecordingEffect::Discard ==> transition_of(state, event).0
            == RecordingState::Discarded,
        transition_of(state, event).0 == RecordingState::Discarded && state
            != RecordingState::Discarded ==> transition_of(state, event).1
            == RecordingEffect::Discard,
{
}

/// The end of the song and the next song save a take that is running or paused.
pub proof fn law_next_and_end_save(state: RecordingState, event: RecordingEvent)
    requires
        state == RecordingState::Recording || state == RecordingState::Paused,
        event == RecordingEvent::NaturalEnd || event == RecordingEvent::Next,
    ensures
        transition_of(state, event) == (RecordingState::Encoding, RecordingEffect::Save),
{
}

/// A take that is discarded, completed or failed stays so, but that a failure is
/// always noted.
pub proof fn law_final_states_stay(state: RecordingState, event: RecordingEvent)
    requires
        state == RecordingState::Discarded || state == RecordingState::Completed || state
            == RecordingState::Failed,
        event != RecordingEvent::Fail,
    ensures
        transition_of(state, event) == (state, RecordingEffect::Nothing),
{
}

/// A paused take that is resumed is where it was.
pub proof fn law_resume_undoes_pause(state: RecordingState)
    requires
        state == RecordingState::Recording,
    ensures
        transition_of(transition_of(state, RecordingEvent::Pause).0, RecordingEvent::Resume).0
            == state,
{
}

/// What the spool keeps on disk about a take.
#[derive(Debug)]
pub struct SpoolManifest {
    pub recording_session_id: String,
    pub queue_item_id: String,
    pub raw_path: String,
    pub flac_path: String,
    pub state: RecordingState,
    pub sample_rate: u32,
    pub channels: u16,
    pub max_frame: u64,
    pub playback_to_capture_offset_frames: i64,
    pub interrupted: bool,
}

/// What the spool keeps on disk about a take, over texts.
pub struct ManifestView {
    pub recording_session_id: Seq<char>,
    pub queue_item_id: Seq<char>,
    pub raw_path: Seq<char>,
    pub flac_path: Seq<char>,
    pub state: RecordingState,
    pub sample_rate: u32,
    pub channels: u16,
    pub max_frame: u64,
    pub playback_to_capture_offset_frames: i64,
    pub interrupted: bool,
}

impl View for SpoolManifest {
    type V = ManifestView;

    open spec fn view(&self) -> ManifestView {
        ManifestView {
            recording_session_id: self.recording_session_id@,
            queue_item_id: self.queue_item_id@,
            raw_path: self.raw_path@,
            flac_path: self.flac_path@,
            state: self.state,
            sample_rate: self.sample_rate,
            channels: self.channels,
            max_frame: self.max_frame,
            playback_to_capture_offset_frames: self.playback_to_capture_offset_frames,
            interrupted: self.interrupted,
        }
    }
}

impl Clone for SpoolManifest {
    fn clone(&self) -> (copy: Self)
        ensures
            copy == *self,
    {
        SpoolManifest {
            recording_session_id: self.recording_session_id.clone(),
            queue_item_id: self.queue_item_id.clone(),
            raw_path: self.raw_path.clone(),
            flac_path: self.flac_path.clone(),
            state: self.state,
            sample_rate: self.sample_rate,
            channels: self.channels,
            max_frame: self.max_frame,
            playback_to_capture_offset_frames: self.playback_to_capture_offset_frames,
            interrupted: self.interrupted,
        }
    }
}

/// What becomes of a manifest that is found in the spool.
#[derive(Debug, Clone, Copy, PartialEq, Eq, Structural)]
pub struct SpoolVerdict {
    /// The manifest was changed and has to be stored again.
    pub store: bool,
    /// The take is still to be delivered.
    pub deliver: bool,
}

impl ManifestView {
    /// The manifest as recovery leaves it: a live take was interrupted.
    pub open spec fn recovered(self) -> Self {
        if is_live(self.state) {
            ManifestView { state: RecordingState::Interrupted, interrupted: true, ..self }
        } else {
            self
        }
    }

    /// What becomes of the take.
    pub open spec fn spool_verdict(self) -> SpoolVerdict {
        SpoolVerdict {
            store: is_live(self.state),
            deliver: self.state != RecordingState::Completed && self.state
                != RecordingState::Discarded,
        }
    }

    /// The manifest of a take whose capture ended with `max_frame` frames.
    pub open spec fn finished(self, max_frame: u64, interrupted: bool) -> Self {
        ManifestView {
            max_frame,
            interrupted,
            state: if interrupted {
                RecordingState::Interrupted
            } else {
                RecordingState::Encoding
            },
            ..self
        }
    }

    /// The manifest of a take whose frames are encoded.
    pub open spec fn encoded(self) -> Self {
        ManifestView { state: RecordingState::Uploading, ..self }
    }
}

impl SpoolManifest {
    /// Brings a manifest that was found in the spool up to date.
    pub fn recover(&mut self) -> (verdict: SpoolVerdict)
        ensures
            final(self)@ == old(self)@.recovered(),
            verdict == old(self)@.spool_verdict(),
    {
        let live = match self.state {
            RecordingState::Starting | RecordingState::Recording | RecordingState::Paused => true,
            _ => false,
        };
        if live {
            self.state = RecordingState::Interrupted;
            self.interrupted = true;
        }
        let deliver = match self.state {
            RecordingState::Completed | RecordingState::Discarded => false,
            _ => true,
        };
        SpoolVerdict { store: live, deliver }
    }

    /// Notes that the capture ended with `max_frame` frames.
    pub fn finish(&mut self, max_frame: u64, interrupted: bool)
        ensures
            final(self)@ == old(self)@.finished(max_frame, interrupted),
    {
        self.max_frame = max_frame;
        self.state = if interrupted {
            RecordingState::Interrupted
        } else {
            RecordingState::Encoding
        };
        self.interrupted = interrupted;
    }

    /// Notes that the frames are encoded.
    pub fn mark_encoded(&mut self)
        ensures
            final(self)@ == old(self)@.encoded(),
    {
        self.state = RecordingState::Uploading;
    }
}

/// Recovery does to a live take what a lost connection does to it.
pub proof fn law_recovery_is_a_disconnect(manifest: ManifestView)
    requires
        is_live(manifest.state),
    ensures
        manifest.recovered().state == transition_of(
            manifest.state,
            RecordingEvent::DisconnectTimeout,
        ).0,
        manifest.recovered().interrupted,
        manifest.spool_verdict().deliver,
{
}

/// A manifest that was recovered and stored needs no change when it is found
/// again, and is still to be delivered.
pub proof fn law_recovery_is_idempotent(manifest: ManifestView)
    ensures
        manifest.recovered().recovered() == manifest.recovered(),
        !manifest.recovered().spool_verdict().store,
        manifest.recovered().spool_verdict().deliver == manifest.spool_verdict().deliver,
{
}

/// A file that is found in the spool.
#[derive(Debug)]
pub struct SpoolFile {
    pub name: String,
    /// What the file holds, where it could be read as a manifest.
    pub manifest: Option<SpoolManifest>,
}

/// A file that is found in the spool, over texts.
pub struct SpoolFileView {
    pub name: Seq<char>,
    pub manifest: Option<ManifestView>,
}

impl View for SpoolFile {
    type V = SpoolFileView;

    open spec fn view(&self) -> SpoolFileView {
        SpoolFileView {
            name: self.name@,
            manifest: match self.manifest {
                Some(manifest) => Some(manifest@),
                None => None,
            },
        }
    }
}

/// A take of the spool that is still to be delivered.
#[derive(Debug)]
pub struct RecoveredTake {
    /// Which of the files holds the manifest.
    pub file: usize,
    pub manifest: SpoolManifest,
    /// The manifest was changed and has to be stored again.
    pub store: bool,
}

/// A take of the spool that is still to be delivered, over texts.
pub struct RecoveredTakeView {
    pub file: int,
    pub manifest: ManifestView,
    pub store: bool,
}

impl View for RecoveredTake {
    type V = RecoveredTakeView;

    open spec fn view(&self) -> RecoveredTakeView {
        RecoveredTakeView {
            file: self.file as int,
            manifest: self.manifest@,
            store: self.store,
        }
    }
}

/// Files of the spool, over texts.
pub open spec fn file_views(files: Seq<SpoolFile>) -> Seq<SpoolFileView> {
    files.map_values(|file: SpoolFile| file@)
}

/// Takes of the spool, over texts.
pub open spec fn take_views(takes: Seq<RecoveredTake>) -> Seq<RecoveredTakeView> {
    takes.map_values(|take: RecoveredTake| take@)
}

/// The file is a manifest whose take is still to be delivered.
pub open spec fn delivers(file: SpoolFileView) -> bool {
    is_manifest_name(file.name) && (file.manifest matches Some(manifest)
        && manifest.spool_verdict().deliver)
}

/// The takes of the spool that are still to be delivered, in the order of the files.
pub open spec fn recovered_takes(files: Seq<SpoolFileView>) -> Seq<RecoveredTakeView>
    decreases files.len(),
{
    if files.len() == 0 {
        seq![]
    } else {
        let before = recovered_takes(files.drop_last());
        let file = files.last();
        if delivers(file) {
            before.push(
                RecoveredTakeView {
                    file: files.len() - 1,
                    manifest: file.manifest->0.recovered(),
                    store: file.manifest->0.spool_verdict().store,
                },
            )
        } else {
            before
        }
    }
}

/// The file has the name of a manifest, and could not be read as one.
pub open spec fn is_unreadable(file: SpoolFileView) -> bool {
    is_manifest_name(file.name) && file.manifest is None
}

/// What was recovered of the spool.
#[derive(Debug)]
pub struct SpoolRecovery {
    /// The takes that are still to be delivered.
    pub takes: Vec<RecoveredTake>,
    /// The first manifest that could not be read. Nothing behind it is recovered.
    pub unreadable: Option<usize>,
}

/// The takes of the spool that are still to be delivered. Files that are no manifest
/// do not count, nor do takes that are completed or discarded. Recovery ends at the
/// first manifest that could not be read.
pub fn recover_spool(files: Vec<SpoolFile>) -> (recovery: SpoolRecovery)
    ensures
        ({
            let all = file_views(files@);
            let end = match recovery.unreadable {
                Some(file) => file as int,
                None => all.len() as int,
            };
            &&& recovery.unreadable matches Some(file) ==> file < all.len() && is_unreadable(
                all[file as int],
            )
            &&& forall|i: int| 0 <= i < end ==> !is_unreadable(#[trigger] all[i])
            &&& take_views(recovery.takes@) == recovered_takes(all.take(end))
        }),
{
    let ghost all = file_views(files@);
    let mut takes: Vec<RecoveredTake> = Vec::new();
    let mut file: usize = 0;
    assert(all.take(0) =~= seq![]);
    assert(take_views(takes@) =~= seq![]);
    while file < files.len()
        invariant
            all == file_views(files@),
            file <= files@.len(),
            forall|i: int| 0 <= i < file ==> !is_unreadable(#[trigger] all[i]),
            take_views(takes@) == recovered_takes(all.take(file as int)),
        decreases files@.len() - file,
    {
        let ghost before = take_views(takes@);
        assert(all.take(file + 1).drop_last() =~= all.take(file as int));
        assert(all[file as int] == files@[file as int]@);
        if manifest_name(files[file].name.as_str()) {
            match &files[file].manifest {
                Some(found) => {
                    let mut manifest = found.clone();
                    let verdict = manifest.recover();
                    if verdict.deliver {
                        takes.push(RecoveredTake { file, manifest, store: verdict.store });
                        assert(take_views(takes@) =~= before.push(takes@.last()@));
                    }
                },
                None => {
                    return SpoolRecovery { takes, unreadable: Some(file) };
                },
            }
        }
        file = file + 1;
    }
    SpoolRecovery { takes, unreadable: None }
}

/// `take` is that of one of the files, as recovery leaves it.
pub open spec fn is_take_of(take: RecoveredTakeView, files: Seq<SpoolFileView>) -> bool {
    let file = files[take.file];
    &&& 0 <= take.file < files.len()
    &&& delivers(file)
    &&& take.manifest == file.manifest->0.recovered()
    &&& take.store == is_live(file.manifest->0.state)
    &&& !take.store ==> take.manifest == file.manifest->0
}

/// Of the whole spool, exactly the takes that are neither completed nor discarded are
/// delivered, each once: every take stands for a manifest of the spool, no two for the
/// same one, and none is left out. A take that was still captured is interrupted and
/// has to be stored again; the others stay as they are.
pub proof fn law_every_take_of_the_spool_is_recovered_once(files: Seq<SpoolFileView>)
    ensures
        ({
            let takes = recovered_takes(files);
            &&& forall|k: int| 0 <= k < takes.len() ==> is_take_of(#[trigger] takes[k], files)
            &&& forall|j: int, k: int|
                0 <= j < k < takes.len() ==> (#[trigger] takes[j]).file < (
                #[trigger] takes[k]).file
            &&& forall|i: int|
                0 <= i < files.len() && delivers(#[trigger] files[i]) ==> exists|k: int|
                    0 <= k < takes.len() && (#[trigger] takes[k]).file == i
        }),
    decreases files.len(),
{
    if files.len() > 0 {
        let fewer = files.drop_last();
        let before = recovered_takes(fewer);
        let takes = recovered_takes(files);
        law_every_take_of_the_spool_is_recovered_once(fewer);
        assert forall|k: int| 0 <= k < takes.len() implies is_take_of(
            #[trigger] takes[k],
            files,
        ) by {
            if k < before.len() {
                assert(takes[k] == before[k]);
                assert(is_take_of(before[k], fewer));
                assert(fewer[before[k].file] == files[before[k].file]);
            }
        }
        assert forall|j: int, k: int| 0 <= j < k < takes.len() implies (#[trigger] takes[j]).file < (
        #[trigger] takes[k]).file by {
            assert(takes[j] == before[j]);
            assert(is_take_of(before[j], fewer));
            if k < before.len() {
                assert(takes[k] == before[k]);
            }
        }
        assert forall|i: int| 0 <= i < files.len() && delivers(#[trigger] files[i]) implies exists|
            k: int,
        |
            0 <= k < takes.len() && (#[trigger] takes[k]).file == i by {
            if i < fewer.len() {
                assert(fewer[i] == files[i]);
                let k = choose|k: int| 0 <= k < before.len() && (#[trigger] before[k]).file == i;
                assert(takes[k] == before[k]);
            } else {
                assert(takes[before.len() as int].file == i);
            }
        }
    }
}

/// The spool once every manifest that was changed is stored again.
pub open spec fn stored_spool(files: Seq<SpoolFileView>) -> Seq<SpoolFileView> {
    files.map_values(
        |file: SpoolFileView|
            if delivers(file) {
                SpoolFileView { manifest: Some(file.manifest->0.recovered()), ..file }
            } else {
                file
            },
    )
}

/// A spool that is recovered once more gives the same takes, and nothing is left to
/// store.
pub proof fn law_recovering_the_spool_again_gives_the_same(files: Seq<SpoolFileView>)
    ensures
        ({
            let takes = recovered_takes(files);
            recovered_takes(stored_spool(files)) == takes.map_values(
                |take: RecoveredTakeView| RecoveredTakeView { store: false, ..take },
            )
        }),
    decreases files.len(),
{
    let stored = stored_spool(files);
    let takes = recovered_takes(files);
    let settled = takes.map_values(
        |take: RecoveredTakeView| RecoveredTakeView { store: false, ..take },
    );
    if files.len() > 0 {
        let fewer = files.drop_last();
        law_recovering_the_spool_again_gives_the_same(fewer);
        assert(stored.drop_last() =~= stored_spool(fewer));
        assert(recovered_takes(stored) =~= settled);
    } else {
        assert(stored =~= seq![]);
        assert(settled =~= seq![]);
    }
}

/// A take that has ended is not lost when the agent stops before its upload, encoded
/// or not: recovery leaves its manifest as it is, and delivers it.
pub proof fn law_ended_take_survives_a_restart(
    manifest: ManifestView,
    max_frame: u64,
    interrupted: bool,
)
    ensures
        ({
            let ended = manifest.finished(max_frame, interrupted);
            &&& ended.recovered() == ended
            &&& ended.spool_verdict() == SpoolVerdict { store: false, deliver: true }
            &&& ended.encoded().recovered() == ended.encoded()
            &&& ended.encoded().spool_verdict() == SpoolVerdict { store: false, deliver: true }
        }),
{
}

/// A finished take goes through the states of the life cycle: it ends or is
/// interrupted, and is then encoded.
pub proof fn law_finish_follows_the_life_cycle(
    manifest: ManifestView,
    max_frame: u64,
    interrupted: bool,
)
    requires
        manifest.state == RecordingState::Recording || manifest.state == RecordingState::Paused,
    ensures
        ({
            let ended = manifest.finished(max_frame, interrupted);
            let event = if interrupted {
                RecordingEvent::DisconnectTimeout
            } else {
                RecordingEvent::NaturalEnd
            };
            &&& ended.state == transition_of(manifest.state, event).0
            &&& ended.encoded().state == transition_of(ended.state, RecordingEvent::Encoded).0
            &&& ended.encoded().max_frame == max_frame
            &&& ended.encoded().interrupted == interrupted
        }),
{
}

/// A frame has a sample of four bytes for every channel: two channels in a take, ten
/// as the device captures it.
pub proof fn law_frames_hold_their_channels()
    ensures
        SAMPLE_RATE == 48_000,
        CHANNELS == 2,
        BYTES_PER_FRAME == 4 * CHANNELS,
        DEVICE_CAPTURE_CHANNELS == 10,
        DEVICE_CAPTURE_FRAME_BYTES == 4 * DEVICE_CAPTURE_CHANNELS,
{
}

/// A frame of the song stands as far before its capture as captures lag; what was
/// captured before the song began counts to its first frame.
pub proof fn law_song_frame_lags_the_capture(capture_frame: u64, offset_frames: i64)
    ensures
        ({
            let frame = clamped_frame(capture_frame - offset_frames);
            &&& capture_frame < offset_frames ==> frame == 0
            &&& 0 <= capture_frame - offset_frames <= u64::MAX ==> frame + offset_frames
                == capture_frame
            &&& capture_frame - offset_frames > u64::MAX ==> frame == u64::MAX
        }),
{
}

/// Of every whole frame that the device captured, the first and the second sample are
/// kept, and nothing else.
pub proof fn law_first_two_channels_are_kept(bytes: Seq<u8>, frame: int)
    requires
        0 <= frame,
    ensures
        ({
            let kept = mic_channels(bytes);
            &&& 20 * kept.len() <= bytes.len() < 20 * kept.len() + 40
            &&& kept.len() % 2 == 0
            &&& 40 * frame + 40 <= bytes.len() ==> kept[2 * frame] == sample_at(bytes, 40 * frame)
                && kept[2 * frame + 1] == sample_at(bytes, 40 * frame + 4)
        }),
{
    assert((2 * frame) / 2 == frame && (2 * frame) % 2 == 0);
    assert((2 * frame + 1) / 2 == frame && (2 * frame + 1) % 2 == 1);
}

/// Every event that a take waits for moves it on: what has started runs, pause and
/// resume go to and fro, the end and the next song lead to encoding, what is encoded
/// is uploaded, and what is uploaded is completed.
pub proof fn law_expected_events_move_a_take_on(state: RecordingState)
    ensures
        transition_of(RecordingState::Starting, RecordingEvent::Started) == (
            RecordingState::Recording,
            RecordingEffect::Nothing,
        ),
        transition_of(RecordingState::Recording, RecordingEvent::Pause) == (
            RecordingState::Paused,
            RecordingEffect::Nothing,
        ),
        transition_of(RecordingState::Paused, RecordingEvent::Resume) == (
            RecordingState::Recording,
            RecordingEffect::Nothing,
        ),
        state == RecordingState::Encoding || state == RecordingState::Interrupted ==> transition_of(
            state,
            RecordingEvent::Encoded,
        ) == (RecordingState::Uploading, RecordingEffect::Save),
        transition_of(RecordingState::Uploading, RecordingEvent::Uploaded) == (
            RecordingState::Completed,
            RecordingEffect::Nothing,
        ),
        transition_of(state, RecordingEvent::Fail) == (
            RecordingState::Failed,
            RecordingEffect::Nothing,
        ),
        state == RecordingState::Starting || state == RecordingState::Recording || state
            == RecordingState::Paused ==> {
            &&& transition_of(state, RecordingEvent::Stop) == (
                RecordingState::Discarded,
                RecordingEffect::Discard,
            )
            &&& transition_of(state, RecordingEvent::Disable) == (
                RecordingState::Discarded,
                RecordingEffect::Discard,
            )
            &&& transition_of(state, RecordingEvent::DisconnectTimeout) == (
                RecordingState::Interrupted,
                RecordingEffect::PreserveInterrupted,
            )
        },
{
}

/// An event that a take does not wait for changes nothing and calls for nothing.
pub proof fn law_other_events_change_nothing(state: RecordingState, event: RecordingEvent)
    requires
        event == RecordingEvent::Started ==> state != RecordingState::Starting,
        event == RecordingEvent::Pause ==> state != RecordingState::Recording,
        event == RecordingEvent::Resume ==> state != RecordingState::Paused,
        event == RecordingEvent::NaturalEnd || event == RecordingEvent::Next ==> state
            != RecordingState::Recording && state != RecordingState::Paused,
        event == RecordingEvent::Stop || event == RecordingEvent::Disable || event
            == RecordingEvent::DisconnectTimeout ==> state != RecordingState::Starting && state
            != RecordingState::Recording && state != RecordingState::Paused,
        event == RecordingEvent::Encoded ==> state != RecordingState::Encoding && state
            != RecordingState::Interrupted,
        event == RecordingEvent::Uploaded ==> state != RecordingState::Uploading,
        event != RecordingEvent::Fail,
    ensures
        transition_of(state, event) == (state, RecordingEffect::Nothing),
{
}

/// Recovery changes nothing of a manifest but its state and whether the take was
/// interrupted, and those only where the take was still captured.
pub proof fn law_recovery_changes_the_state_alone(manifest: ManifestView)
    ensures
        ({
            let recovered = manifest.recovered();
            let captured = manifest.state == RecordingState::Starting || manifest.state
                == RecordingState::Recording || manifest.state == RecordingState::Paused;
            &&& recovered.recording_session_id == manifest.recording_session_id
            &&& recovered.queue_item_id == manifest.queue_item_id
            &&& recovered.raw_path == manifest.raw_path
            &&& recovered.flac_path == manifest.flac_path
            &&& recovered.sample_rate == manifest.sample_rate
            &&& recovered.channels == manifest.channels
            &&& recovered.max_frame == manifest.max_frame
            &&& recovered.playback_to_capture_offset_frames
                == manifest.playback_to_capture_offset_frames
            &&& captured ==> recovered.state == RecordingState::Interrupted
                && recovered.interrupted
            &&& !captured ==> recovered.state == manifest.state && recovered.interrupted
                == manifest.interrupted
        }),
{
}

/// A manifest is stored again exactly where recovery changed its state, and its take is
/// delivered unless it is completed or discarded.
pub proof fn law_changed_manifests_are_stored(manifest: ManifestView)
    ensures
        manifest.spool_verdict().store <==> manifest.recovered().state != manifest.state,
        manifest.spool_verdict().store <==> (manifest.state == RecordingState::Starting
            || manifest.state == RecordingState::Recording || manifest.state
            == RecordingState::Paused),
        !manifest.spool_verdict().deliver <==> (manifest.state == RecordingState::Completed
            || manifest.state == RecordingState::Discarded),
{
}

/// The end of the capture changes nothing of a manifest but its state, its frames and
/// whether the take was interrupted, and encoding nothing but its state.
pub proof fn law_ending_a_take_keeps_its_identity(
    manifest: ManifestView,
    max_frame: u64,
    interrupted: bool,
)
    ensures
        ({
            let ended = manifest.finished(max_frame, interrupted);
            &&& ended.recording_session_id == manifest.recording_session_id
            &&& ended.queue_item_id == manifest.queue_item_id
            &&& ended.raw_path == manifest.raw_path
            &&& ended.flac_path == manifest.flac_path
            &&& ended.sample_rate == manifest.sample_rate
            &&& ended.channels == manifest.channels
            &&& ended.max_frame == max_frame
            &&& ended.playback_to_capture_offset_frames
                == manifest.playback_to_capture_offset_frames
            &&& ended.interrupted == interrupted
            &&& interrupted ==> ended.state == RecordingState::Interrupted
            &&& !interrupted ==> ended.state == RecordingState::Encoding
        }),
        ({
            let encoded = manifest.encoded();
            &&& encoded.recording_session_id == manifest.recording_session_id
            &&& encoded.queue_item_id == manifest.queue_item_id
            &&& encoded.raw_path == manifest.raw_path
            &&& encoded.flac_path == manifest.flac_path
            &&& encoded.sample_rate == manifest.sample_rate
            &&& encoded.channels == manifest.channels
            &&& encoded.max_frame == manifest.max_frame
            &&& encoded.playback_to_capture_offset_frames
                == manifest.playback_to_capture_offset_frames
            &&& encoded.interrupted == manifest.interrupted
            &&& encoded.state == RecordingState::Uploading
        }),
{
}

/// A take is recovered from exactly those files that are named as a manifest, hold one,
/// and are neither completed nor discarded. It is the take of the file: all but its
/// state and its interruption is as the file has it.
pub proof fn law_recovered_takes_are_those_of_the_files(files: Seq<SpoolFileView>, i: int)
    requires
        0 <= i < files.len(),
    ensures
        ({
            let takes = recovered_takes(files);
            let named = files[i].name.len() > 5 && ".json"@.is_suffix_of(files[i].name);
            let due = files[i].manifest matches Some(manifest) && manifest.state
                != RecordingState::Completed && manifest.state != RecordingState::Discarded;
            &&& named && due <==> exists|k: int|
                0 <= k < takes.len() && (#[trigger] takes[k]).file == i
            &&& forall|k: int|
                0 <= k < takes.len() && (#[trigger] takes[k]).file == i ==> {
                    let found = files[i].manifest->0;
                    let captured = found.state == RecordingState::Starting || found.state
                        == RecordingState::Recording || found.state == RecordingState::Paused;
                    &&& takes[k].store == captured
                    &&& takes[k].manifest.recording_session_id == found.recording_session_id
                    &&& takes[k].manifest.queue_item_id == found.queue_item_id
                    &&& takes[k].manifest.raw_path == found.raw_path
                    &&& takes[k].manifest.flac_path == found.flac_path
                    &&& takes[k].manifest.max_frame == found.max_frame
                    &&& takes[k].manifest.sample_rate == found.sample_rate
                    &&& takes[k].manifest.channels == found.channels
                    &&& takes[k].manifest.playback_to_capture_offset_frames
                        == found.playback_to_capture_offset_frames
                    &&& takes[k].manifest.interrupted == (captured || found.interrupted)
                    &&& takes[k].manifest.state == if captured {
                        RecordingState::Interrupted
                    } else {
                        found.state
                    }
                }
        }),
{
    law_every_take_of_the_spool_is_recovered_once(files);
    let takes = recovered_takes(files);
    assert forall|k: int| 0 <= k < takes.len() && (#[trigger] takes[k]).file == i implies delivers(
        files[i],
    ) && takes[k].manifest == files[i].manifest->0.recovered() && takes[k].store == is_live(
        files[i].manifest->0.state,
    ) by {
        assert(is_take_of(takes[k], files));
    }
}

/// Recovery ends at a file exactly where it is named as a manifest and holds none.
pub proof fn law_unreadable_manifests(file: SpoolFileView)
    ensures
        is_unreadable(file) <==> (file.manifest is None && file.name.len() > 5
            && ".json"@.is_suffix_of(file.name)),
{
}

/// A manifest is seen with what it holds, each part in its place.
pub proof fn law_manifest_is_seen_as_it_is(manifest: SpoolManifest)
    ensures
        manifest@.recording_session_id == manifest.recording_session_id@,
        manifest@.queue_item_id == manifest.queue_item_id@,
        manifest@.raw_path == manifest.raw_path@,
        manifest@.flac_path == manifest.flac_path@,
        manifest@.state == manifest.state,
        manifest@.sample_rate == manifest.sample_rate,
        manifest@.channels == manifest.channels,
        manifest@.max_frame == manifest.max_frame,
        manifest@.playback_to_capture_offset_frames == manifest.playback_to_capture_offset_frames,
        manifest@.interrupted == manifest.interrupted,
{
}

} // verus!
