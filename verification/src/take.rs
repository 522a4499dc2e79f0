//! The files of a take: where they stand, when they are kept and when they go.

use vstd::prelude::*;
use vstd::string::StringExecFns;

use crate::device::{ArtifactView, RecordingArtifact, RecordingStart, RecordingStartView};
use crate::path::{is_file_in, join, joined, path_with_extension, with_extension};
use crate::recording::{ManifestView, RecordingState, SpoolManifest, CHANNELS, SAMPLE_RATE};

verus! {

/// The texts of strings.
pub open spec fn texts(strings: Seq<String>) -> Seq<Seq<char>> {
    strings.map_values(|string: String| string@)
}

/// A take that is being captured: its manifest and where that is stored.
#[derive(Debug)]
pub struct Take {
    pub manifest: SpoolManifest,
    pub manifest_path: String,
}

/// A take that is being captured, over texts.
pub struct TakeView {
    pub manifest: ManifestView,
    pub manifest_path: Seq<char>,
}

impl View for Take {
    type V = TakeView;

    open spec fn view(&self) -> TakeView {
        TakeView { manifest: self.manifest@, manifest_path: self.manifest_path@ }
    }
}

/// The file of the take `id` with the given ending, in the spool.
pub open spec fn take_file(spool_dir: Seq<char>, id: Seq<char>, ending: Seq<char>) -> Seq<char> {
    joined(spool_dir, id + ending)
}

impl TakeView {
    /// The take that `request` starts.
    pub open spec fn started(request: RecordingStartView) -> Self {
        let id = request.recording_session_id;
        TakeView {
            manifest: ManifestView {
                recording_session_id: id,
                queue_item_id: request.queue_item_id,
                raw_path: take_file(request.spool_dir, id, ".s32le"@),
                flac_path: take_file(request.spool_dir, id, ".flac"@),
                state: RecordingState::Recording,
                sample_rate: SAMPLE_RATE,
                channels: CHANNELS,
                max_frame: 0,
                playback_to_capture_offset_frames: request.playback_to_capture_offset_frames,
                interrupted: false,
            },
            manifest_path: take_file(request.spool_dir, id, ".json"@),
        }
    }

    /// The files of the take.
    pub open spec fn files(self) -> Seq<Seq<char>> {
        seq![self.manifest.raw_path, self.manifest.flac_path, self.manifest_path]
    }

    /// The take as it is handed over for upload.
    pub open spec fn artifact(self) -> ArtifactView {
        ArtifactView {
            recording_session_id: self.manifest.recording_session_id,
            raw_path: self.manifest.raw_path,
            flac_path: self.manifest.flac_path,
            manifest_path: self.manifest_path,
            max_frame: self.manifest.max_frame,
            interrupted: self.manifest.interrupted,
        }
    }
}

fn take_path(spool_dir: &str, id: &str, ending: &str) -> (path: String)
    ensures
        path@ == take_file(spool_dir@, id@, ending@),
{
    let mut name: String = id.to_string();
    name.append(ending);
    join(spool_dir, name.as_str())
}

fn three_paths(first: &String, second: &String, third: &String) -> (paths: Vec<String>)
    ensures
        texts(paths@) == seq![first@, second@, third@],
{
    let mut paths: Vec<String> = Vec::new();
    paths.push(first.clone());
    paths.push(second.clone());
    paths.push(third.clone());
    assert(texts(paths@) =~= seq![first@, second@, third@]);
    paths
}

impl Take {
    /// The take that `request` starts.
    pub fn start(request: &RecordingStart) -> (take: Self)
        ensures
            take@ == TakeView::started(request@),
    {
        let spool_dir = request.spool_dir.as_str();
        let id = request.recording_session_id.as_str();
        Take {
            manifest: SpoolManifest {
                recording_session_id: request.recording_session_id.clone(),
                queue_item_id: request.queue_item_id.clone(),
                raw_path: take_path(spool_dir, id, ".s32le"),
                flac_path: take_path(spool_dir, id, ".flac"),
                state: RecordingState::Recording,
                sample_rate: SAMPLE_RATE,
                channels: CHANNELS,
                max_frame: 0,
                playback_to_capture_offset_frames: request.playback_to_capture_offset_frames,
                interrupted: false,
            },
            manifest_path: take_path(spool_dir, id, ".json"),
        }
    }

    /// The files that go when the take is cancelled or cannot be captured.
    pub fn files(&self) -> (paths: Vec<String>)
        ensures
            texts(paths@) == self@.files(),
    {
        three_paths(&self.manifest.raw_path, &self.manifest.flac_path, &self.manifest_path)
    }

    /// The capture ended with `max_frame` frames. The manifest is then to be
    /// stored, and the frames are to be encoded.
    pub fn end(&mut self, max_frame: u64, interrupted: bool)
        ensures
            final(self)@ == (TakeView {
                manifest: old(self)@.manifest.finished(max_frame, interrupted),
                ..old(self)@
            }),
    {
        self.manifest.finish(max_frame, interrupted);
    }

    /// The frames are encoded. The manifest is then to be stored again.
    pub fn encoded(&mut self)
        ensures
            final(self)@ == (TakeView {
                manifest: old(self)@.manifest.encoded(),
                ..old(self)@
            }),
    {
        self.manifest.mark_encoded();
    }

    /// The take as it is handed over for upload.
    pub fn into_artifact(self) -> (artifact: RecordingArtifact)
        ensures
            artifact@ == self@.artifact(),
    {
        RecordingArtifact {
            recording_session_id: self.manifest.recording_session_id,
            raw_path: self.manifest.raw_path,
            flac_path: self.manifest.flac_path,
            manifest_path: self.manifest_path,
            max_frame: self.manifest.max_frame,
            interrupted: self.manifest.interrupted,
        }
    }
}

/// The files that go once a take is uploaded.
pub open spec fn spool_files(artifact: ArtifactView) -> Seq<Seq<char>> {
    seq![artifact.manifest_path, artifact.raw_path, artifact.flac_path]
}

/// The files that go once a take is uploaded.
pub fn cleanup_artifact(artifact: &RecordingArtifact) -> (paths: Vec<String>)
    ensures
        texts(paths@) == spool_files(artifact@),
{
    three_paths(&artifact.manifest_path, &artifact.raw_path, &artifact.flac_path)
}

/// Nothing was captured: the raw file is missing or empty.
pub open spec fn nothing_captured(raw_length: Option<u64>) -> bool {
    raw_length matches Some(length) ==> length == 0
}

/// The files to remove for a manifest found in the spool, where nothing was
/// captured; `raw_length` is the length of its raw file, where there is one.
pub fn abandoned_files(manifest: &SpoolManifest, raw_length: Option<u64>) -> (paths: Option<
    Vec<String>,
>)
    ensures
        paths is Some <==> nothing_captured(raw_length),
        paths matches Some(paths) ==> texts(paths@) == seq![
            manifest@.raw_path,
            manifest@.flac_path,
            path_with_extension(manifest@.raw_path, "flac.part"@),
            path_with_extension(manifest@.raw_path, "json"@),
        ],
{
    let captured = match raw_length {
        Some(length) => length != 0,
        None => false,
    };
    if captured {
        return None;
    }
    proof {
        reveal_strlit("flac.part");
        reveal_strlit("json");
    }
    let mut paths = three_paths(
        &manifest.raw_path,
        &manifest.flac_path,
        &with_extension(manifest.raw_path.as_str(), "flac.part"),
    );
    let ghost three = texts(paths@);
    let manifest_path = with_extension(manifest.raw_path.as_str(), "json");
    paths.push(manifest_path);
    assert(texts(paths@) =~= three.push(manifest_path@));
    assert(texts(paths@) =~= seq![
        manifest@.raw_path,
        manifest@.flac_path,
        path_with_extension(manifest@.raw_path, "flac.part"@),
        path_with_extension(manifest@.raw_path, "json"@),
    ]);
    Some(paths)
}

/// The frames of a take found in the spool: what its manifest says, or what its
/// raw file holds where that is more.
pub open spec fn recovered_frames(max_frame: u64, raw_length: Option<u64>) -> int {
    let held = match raw_length {
        Some(length) => length as int / 8,
        None => 0,
    };
    vstd::math::max(max_frame as int, held)
}

/// The take of a manifest found in the spool, as it is handed over for upload.
/// Where the raw file has the extension of its kind, the manifest stands beside it
/// under the same name.
pub fn recovered_artifact(manifest: &SpoolManifest, raw_length: Option<u64>) -> (artifact:
    RecordingArtifact)
    ensures
        artifact@.recording_session_id == manifest@.recording_session_id,
        artifact@.raw_path == manifest@.raw_path,
        artifact@.flac_path == manifest@.flac_path,
        artifact@.manifest_path == path_with_extension(manifest@.raw_path, "json"@),
        artifact@.max_frame == recovered_frames(manifest@.max_frame, raw_length),
        artifact@.interrupted == manifest@.interrupted,
        forall|directory: Seq<char>, stem: Seq<char>, extension: Seq<char>|
            #[trigger] is_file_in(manifest@.raw_path, directory, stem, extension)
                ==> artifact@.manifest_path == directory + stem + ".json"@,
{
    proof {
        reveal_strlit("json");
        reveal_strlit(".json");
        assert(seq!['.'] + "json"@ =~= ".json"@);
    }
    let held: u64 = match raw_length {
        Some(length) => length / 8,
        None => 0,
    };
    let manifest_path = with_extension(manifest.raw_path.as_str(), "json");
    assert forall|directory: Seq<char>, stem: Seq<char>, extension: Seq<char>| #[trigger]
        is_file_in(manifest@.raw_path, directory, stem, extension) implies manifest_path@
        == directory + stem + ".json"@ by {
        assert(directory + stem + seq!['.'] + "json"@ =~= directory + stem + ".json"@);
    }
    RecordingArtifact {
        recording_session_id: manifest.recording_session_id.clone(),
        raw_path: manifest.raw_path.clone(),
        flac_path: manifest.flac_path.clone(),
        manifest_path,
        max_frame: if manifest.max_frame > held {
            manifest.max_frame
        } else {
            held
        },
        interrupted: manifest.interrupted,
    }
}

/// The path with the extension `json.part`: where a file with the extension `json` is written
/// before it takes its place.
pub fn json_part(path: &str) -> (part: String)
    ensures
        part@ == path_with_extension(path@, "json.part"@),
{
    proof {
        reveal_strlit("json.part");
    }
    with_extension(path, "json.part")
}

/// The path with the extension `flac.part`: where frames are encoded before the
/// file takes its place.
pub fn flac_part(path: &str) -> (part: String)
    ensures
        part@ == path_with_extension(path@, "flac.part"@),
{
    proof {
        reveal_strlit("flac.part");
    }
    with_extension(path, "flac.part")
}

/// The pipeline that encodes the frames in `raw_path` into `target`.
pub fn flac_pipeline(raw_path: &str, target: &str) -> (description: String)
    ensures
        description@ == "filesrc location=\""@ + raw_path@
            + "\" ! rawaudioparse format=pcm pcm-format=s32le sample-rate=48000 num-channels=2 interleaved=true ! audioconvert ! flacenc ! filesink location=\""@
            + target@ + "\""@,
{
    let mut description: String = "filesrc location=\"".to_string();
    description.append(raw_path);
    description.append(
        "\" ! rawaudioparse format=pcm pcm-format=s32le sample-rate=48000 num-channels=2 interleaved=true ! audioconvert ! flacenc ! filesink location=\"",
    );
    description.append(target);
    description.append("\"");
    description
}

/// The pipeline that captures from `device`.
pub fn capture_pipeline(device: &str) -> (description: String)
    ensures
        description@ == "alsasrc device=\""@ + device@
            + "\" provide-clock=true ! audio/x-raw,format=S32LE,rate=48000,channels=10,layout=interleaved ! appsink name=capture sync=false max-buffers=16 drop=false"@,
{
    let mut description: String = "alsasrc device=\"".to_string();
    description.append(device);
    description.append(
        "\" provide-clock=true ! audio/x-raw,format=S32LE,rate=48000,channels=10,layout=interleaved ! appsink name=capture sync=false max-buffers=16 drop=false",
    );
    description
}

/// The directory in front of the files of a take.
pub open spec fn take_directory(spool_dir: Seq<char>) -> Seq<char> {
    if spool_dir.len() == 0 || spool_dir.last() == '/' {
        spool_dir
    } else {
        spool_dir.push('/')
    }
}

/// The files of a started take stand side by side in the spool, under the take's
/// id. So recovery finds the manifest of a raw file where it was stored.
pub proof fn law_files_of_a_take_share_their_name(request: RecordingStartView)
    requires
        request.recording_session_id.len() > 0,
        !request.recording_session_id.contains('/'),
        request.recording_session_id != seq!['.'],
    ensures
        ({
            let take = TakeView::started(request);
            let directory = take_directory(request.spool_dir);
            let id = request.recording_session_id;
            &&& is_file_in(take.manifest.raw_path, directory, id, "s32le"@)
            &&& is_file_in(take.manifest.flac_path, directory, id, "flac"@)
            &&& is_file_in(take.manifest_path, directory, id, "json"@)
            &&& take.manifest_path == directory + id + ".json"@
        }),
{
    reveal_strlit("s32le");
    reveal_strlit("flac");
    reveal_strlit("json");
    reveal_strlit(".s32le");
    reveal_strlit(".flac");
    reveal_strlit(".json");
    let take = TakeView::started(request);
    let directory = take_directory(request.spool_dir);
    let id = request.recording_session_id;
    assert(id.contains(id[0]));
    assert((id + ".s32le"@)[0] == id[0] && (id + ".flac"@)[0] == id[0] && (id + ".json"@)[0]
        == id[0]);
    assert(take.manifest.raw_path =~= directory + id + seq!['.'] + "s32le"@);
    assert(take.manifest.flac_path =~= directory + id + seq!['.'] + "flac"@);
    assert(take.manifest_path =~= directory + id + seq!['.'] + "json"@);
    assert(take.manifest_path =~= directory + id + ".json"@);
}

/// A take that ends and is encoded is handed over with the files it was started
/// with and the frames it ended with, and exactly its files go once it is uploaded.
pub proof fn law_artifact_keeps_the_files_of_the_take(
    take: TakeView,
    max_frame: u64,
    interrupted: bool,
)
    ensures
        ({
            let ended = TakeView { manifest: take.manifest.finished(max_frame, interrupted), ..take };
            let artifact = TakeView { manifest: ended.manifest.encoded(), ..ended }.artifact();
            &&& artifact.recording_session_id == take.manifest.recording_session_id
            &&& artifact.max_frame == max_frame
            &&& artifact.interrupted == interrupted
            &&& spool_files(artifact).to_set() == take.files().to_set()
        }),
{
    let ended = TakeView { manifest: take.manifest.finished(max_frame, interrupted), ..take };
    let artifact = TakeView { manifest: ended.manifest.encoded(), ..ended }.artifact();
    let gone = spool_files(artifact);
    let files = take.files();
    assert(gone[0] == files[2] && gone[1] == files[0] && gone[2] == files[1]);
    assert forall|path: Seq<char>| gone.contains(path) == files.contains(path) by {
        if gone.contains(path) {
            let i = choose|i: int| 0 <= i < 3 && gone[i] == path;
            assert(files[(i + 2) % 3] == path);
        }
        if files.contains(path) {
            let i = choose|i: int| 0 <= i < 3 && files[i] == path;
            assert(gone[(i + 1) % 3] == path);
        }
    }
    assert(gone.to_set() =~= files.to_set());
}

/// A take that is started is recorded as two channels of 48000 frames a second, holds no
/// frame yet, and belongs to what was asked for.
pub proof fn law_started_take_is_what_was_asked_for(request: RecordingStartView)
    ensures
        ({
            let manifest = TakeView::started(request).manifest;
            &&& manifest.recording_session_id == request.recording_session_id
            &&& manifest.queue_item_id == request.queue_item_id
            &&& manifest.playback_to_capture_offset_frames
                == request.playback_to_capture_offset_frames
            &&& manifest.state == RecordingState::Recording
            &&& manifest.sample_rate == 48_000
            &&& manifest.channels == 2
            &&& manifest.max_frame == 0
            &&& !manifest.interrupted
        }),
{
}

/// The files of a take in a spool directory are named by its id, with an ending of their
/// own each.
pub proof fn law_files_of_a_take_are_named_by_its_id(
    request: RecordingStartView,
    directory: Seq<char>,
)
    requires
        request.spool_dir == directory + seq!['/'],
        !(request.recording_session_id.len() > 0 && request.recording_session_id[0] == '/'),
    ensures
        ({
            let take = TakeView::started(request);
            let id = request.recording_session_id;
            &&& take.manifest.raw_path == directory + seq!['/'] + id + ".s32le"@
            &&& take.manifest.flac_path == directory + seq!['/'] + id + ".flac"@
            &&& take.manifest_path == directory + seq!['/'] + id + ".json"@
        }),
{
    reveal_strlit(".s32le");
    reveal_strlit(".flac");
    reveal_strlit(".json");
    let take = TakeView::started(request);
    let id = request.recording_session_id;
    assert(request.spool_dir.last() == '/');
    if id.len() > 0 {
        assert((id + ".s32le"@)[0] == id[0]);
        assert((id + ".flac"@)[0] == id[0]);
        assert((id + ".json"@)[0] == id[0]);
    } else {
        assert((id + ".s32le"@)[0] == '.');
        assert((id + ".flac"@)[0] == '.');
        assert((id + ".json"@)[0] == '.');
    }
    assert(take.manifest.raw_path =~= directory + seq!['/'] + id + ".s32le"@);
    assert(take.manifest.flac_path =~= directory + seq!['/'] + id + ".flac"@);
    assert(take.manifest_path =~= directory + seq!['/'] + id + ".json"@);
}

/// A take is handed over as its manifest has it, with its own files. Three files go with
/// a take, whether it is cancelled or uploaded.
pub proof fn law_take_is_handed_over_as_it_is(take: TakeView, artifact: ArtifactView, path: Seq<char>)
    ensures
        take.artifact().recording_session_id == take.manifest.recording_session_id,
        take.artifact().raw_path == take.manifest.raw_path,
        take.artifact().flac_path == take.manifest.flac_path,
        take.artifact().manifest_path == take.manifest_path,
        take.artifact().max_frame == take.manifest.max_frame,
        take.artifact().interrupted == take.manifest.interrupted,
        take.files().len() == 3,
        take.files().contains(path) <==> (path == take.manifest.raw_path || path
            == take.manifest.flac_path || path == take.manifest_path),
        spool_files(artifact).len() == 3,
        spool_files(artifact).contains(path) <==> (path == artifact.manifest_path || path
            == artifact.raw_path || path == artifact.flac_path),
{
    let files = take.files();
    assert(files[0] == take.manifest.raw_path);
    assert(files[1] == take.manifest.flac_path);
    assert(files[2] == take.manifest_path);
    let gone = spool_files(artifact);
    assert(gone[0] == artifact.manifest_path);
    assert(gone[1] == artifact.raw_path);
    assert(gone[2] == artifact.flac_path);
}

/// A recovered take has at least the frames of its manifest and all the whole frames of
/// its raw file, and no more than one of the two says.
pub proof fn law_recovered_take_loses_no_frame(max_frame: u64, raw_length: Option<u64>)
    ensures
        ({
            let frames = recovered_frames(max_frame, raw_length);
            &&& frames >= max_frame
            &&& raw_length is None ==> frames == max_frame
            &&& raw_length matches Some(length) ==> length < 8 * frames + 8 && (frames == max_frame
                || 8 * frames <= length)
        }),
{
}

/// A take is abandoned only where its raw file is missing or holds not one byte.
pub proof fn law_only_empty_takes_are_abandoned(length: u64)
    ensures
        nothing_captured(None),
        nothing_captured(Some(length)) <==> length == 0,
{
}

} // verus!
