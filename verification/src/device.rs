//! The audio device: health, calibration and the artifacts of a take.

use vstd::prelude::*;

use crate::protocol::optional_text;
use crate::recording::{DEVICE_CAPTURE_CHANNELS, SAMPLE_RATE};
use crate::text::{append_decimal, decimal};

verus! {

/// Health of one part of the device.
#[derive(Debug)]
pub struct HealthItem {
    pub ok: bool,
    pub reason: Option<String>,
}

/// Health of one part of the device over texts.
pub struct HealthItemView {
    pub ok: bool,
    pub reason: Option<Seq<char>>,
}

impl View for HealthItem {
    type V = HealthItemView;

    open spec fn view(&self) -> HealthItemView {
        HealthItemView { ok: self.ok, reason: optional_text(self.reason) }
    }
}

impl Clone for HealthItem {
    fn clone(&self) -> (copy: Self)
        ensures
            copy == *self,
    {
        HealthItem { ok: self.ok, reason: self.reason.clone() }
    }
}

/// A part that works.
pub open spec fn healthy() -> HealthItemView {
    HealthItemView { ok: true, reason: None }
}

/// A part that does not work, for `reason`.
pub open spec fn unhealthy(reason: Seq<char>) -> HealthItemView {
    HealthItemView { ok: false, reason: Some(reason) }
}

impl HealthItem {
    /// A part that works.
    pub fn ok() -> (item: Self)
        ensures
            item@ == healthy(),
    {
        HealthItem { ok: true, reason: None }
    }

    /// A part that does not work, for `reason`.
    pub fn failed(reason: &str) -> (item: Self)
        ensures
            item@ == unhealthy(reason@),
    {
        HealthItem { ok: false, reason: Some(reason.to_string()) }
    }
}

/// What a probe of the device found.
#[derive(Debug)]
pub struct ProbeReport {
    pub playback: HealthItem,
    pub capture: HealthItem,
    pub midi: HealthItem,
    pub recording: HealthItem,
    pub sample_rate: u32,
    pub playback_channels: u16,
    pub capture_channels: u16,
    pub snapshot_slot: u8,
}

/// What a probe of the device found, over texts.
pub struct ProbeReportView {
    pub playback: HealthItemView,
    pub capture: HealthItemView,
    pub midi: HealthItemView,
    pub recording: HealthItemView,
    pub sample_rate: u32,
    pub playback_channels: u16,
    pub capture_channels: u16,
    pub snapshot_slot: u8,
}

impl View for ProbeReport {
    type V = ProbeReportView;

    open spec fn view(&self) -> ProbeReportView {
        ProbeReportView {
            playback: self.playback@,
            capture: self.capture@,
            midi: self.midi@,
            recording: self.recording@,
            sample_rate: self.sample_rate,
            playback_channels: self.playback_channels,
            capture_channels: self.capture_channels,
            snapshot_slot: self.snapshot_slot,
        }
    }
}

impl Clone for ProbeReport {
    fn clone(&self) -> (copy: Self)
        ensures
            copy == *self,
    {
        ProbeReport {
            playback: self.playback.clone(),
            capture: self.capture.clone(),
            midi: self.midi.clone(),
            recording: self.recording.clone(),
            sample_rate: self.sample_rate,
            playback_channels: self.playback_channels,
            capture_channels: self.capture_channels,
            snapshot_slot: self.snapshot_slot,
        }
    }
}

/// The report of a device with the given parts.
pub open spec fn device_report(
    playback: HealthItemView,
    capture: HealthItemView,
    midi: HealthItemView,
    calibrated: bool,
    snapshot_slot: u8,
) -> ProbeReportView {
    ProbeReportView {
        playback,
        capture,
        midi,
        recording: if !calibrated {
            unhealthy("calibration_missing"@)
        } else if capture.ok {
            healthy()
        } else {
            unhealthy("capture_unavailable"@)
        },
        sample_rate: SAMPLE_RATE,
        playback_channels: 2,
        capture_channels: DEVICE_CAPTURE_CHANNELS,
        snapshot_slot,
    }
}

/// The report of a build without audio.
pub open spec fn unsupported_report(calibrated: bool, snapshot_slot: u8) -> ProbeReportView {
    let reason = unhealthy("binary was built without the linux-audio feature"@);
    ProbeReportView {
        playback: reason,
        capture: reason,
        midi: reason,
        recording: if calibrated {
            reason
        } else {
            unhealthy("calibration_missing"@)
        },
        sample_rate: SAMPLE_RATE,
        playback_channels: 0,
        capture_channels: 0,
        snapshot_slot,
    }
}

impl ProbeReport {
    /// The report of a device with the given parts. A take can be recorded where
    /// the device is calibrated and captures.
    pub fn of_device(
        playback: HealthItem,
        capture: HealthItem,
        midi: HealthItem,
        calibrated: bool,
        snapshot_slot: u8,
    ) -> (report: Self)
        ensures
            report@ == device_report(playback@, capture@, midi@, calibrated, snapshot_slot),
    {
        let recording = if !calibrated {
            HealthItem::failed("calibration_missing")
        } else if capture.ok {
            HealthItem::ok()
        } else {
            HealthItem::failed("capture_unavailable")
        };
        ProbeReport {
            playback,
            capture,
            midi,
            recording,
            sample_rate: SAMPLE_RATE,
            playback_channels: 2,
            capture_channels: DEVICE_CAPTURE_CHANNELS,
            snapshot_slot,
        }
    }

    /// The report of a build without audio.
    pub fn unsupported(calibrated: bool, snapshot_slot: u8) -> (report: Self)
        ensures
            report@ == unsupported_report(calibrated, snapshot_slot),
    {
        let reason = "binary was built without the linux-audio feature";
        ProbeReport {
            playback: HealthItem::failed(reason),
            capture: HealthItem::failed(reason),
            midi: HealthItem::failed(reason),
            recording: if calibrated {
                HealthItem::failed(reason)
            } else {
                HealthItem::failed("calibration_missing")
            },
            sample_rate: SAMPLE_RATE,
            playback_channels: 0,
            capture_channels: 0,
            snapshot_slot,
        }
    }
}

/// Why a device cannot be calibrated.
#[derive(Debug, Clone, Copy, PartialEq, Eq, Structural)]
pub enum CalibrationRefusal {
    PlaybackUnavailable,
    CaptureUnavailable,
}

impl CalibrationRefusal {
    /// The refusal in words.
    pub fn to_string(&self) -> (text: String)
        ensures
            text@ == match *self {
                CalibrationRefusal::PlaybackUnavailable => "FLOW 8 playback is unavailable"@,
                CalibrationRefusal::CaptureUnavailable => "FLOW 8 capture is unavailable"@,
            },
    {
        match self {
            CalibrationRefusal::PlaybackUnavailable => "FLOW 8 playback is unavailable".to_string(),
            CalibrationRefusal::CaptureUnavailable => "FLOW 8 capture is unavailable".to_string(),
        }
    }
}

impl ProbeReport {
    /// Whether the device can be calibrated: it has to play and to capture.
    pub fn can_calibrate(&self) -> (verdict: Result<(), CalibrationRefusal>)
        ensures
            verdict == if !self@.playback.ok {
                Err::<(), CalibrationRefusal>(CalibrationRefusal::PlaybackUnavailable)
            } else if !self@.capture.ok {
                Err::<(), CalibrationRefusal>(CalibrationRefusal::CaptureUnavailable)
            } else {
                Ok::<(), CalibrationRefusal>(())
            },
    {
        if !self.playback.ok {
            Err(CalibrationRefusal::PlaybackUnavailable)
        } else if !self.capture.ok {
            Err(CalibrationRefusal::CaptureUnavailable)
        } else {
            Ok(())
        }
    }
}

/// The lag of captures behind playback, as it was measured.
#[derive(Debug)]
pub struct Calibration {
    pub playback_to_capture_offset_frames: i64,
    pub sample_rate: u32,
    pub measured_at: String,
}

impl Calibration {
    /// The lag measured `seconds` after the epoch.
    pub fn measured(offset_frames: i64, seconds: u64) -> (calibration: Self)
        ensures
            calibration.playback_to_capture_offset_frames == offset_frames,
            calibration.sample_rate == 48_000,
            calibration.measured_at@ == decimal(seconds as nat),
    {
        let mut measured_at: String = "".to_string();
        append_decimal(&mut measured_at, seconds);
        proof {
            reveal_strlit("");
            assert(""@ + decimal(seconds as nat) =~= decimal(seconds as nat));
        }
        Calibration {
            playback_to_capture_offset_frames: offset_frames,
            sample_rate: SAMPLE_RATE,
            measured_at,
        }
    }
}

/// A take that is to be started.
#[derive(Debug)]
pub struct RecordingStart {
    pub recording_session_id: String,
    pub queue_item_id: String,
    pub spool_dir: String,
    pub playback_to_capture_offset_frames: i64,
}

/// A take that is to be started, over texts.
pub struct RecordingStartView {
    pub recording_session_id: Seq<char>,
    pub queue_item_id: Seq<char>,
    pub spool_dir: Seq<char>,
    pub playback_to_capture_offset_frames: i64,
}

impl View for RecordingStart {
    type V = RecordingStartView;

    open spec fn view(&self) -> RecordingStartView {
        RecordingStartView {
            recording_session_id: self.recording_session_id@,
            queue_item_id: self.queue_item_id@,
            spool_dir: self.spool_dir@,
            playback_to_capture_offset_frames: self.playback_to_capture_offset_frames,
        }
    }
}

/// A take that is encoded and waits for its upload.
#[derive(Debug)]
pub struct RecordingArtifact {
    pub recording_session_id: String,
    pub raw_path: String,
    pub flac_path: String,
    pub manifest_path: String,
    pub max_frame: u64,
    pub interrupted: bool,
}

/// A take that is encoded and waits for its upload, over texts.
pub struct ArtifactView {
    pub recording_session_id: Seq<char>,
    pub raw_path: Seq<char>,
    pub flac_path: Seq<char>,
    pub manifest_path: Seq<char>,
    pub max_frame: u64,
    pub interrupted: bool,
}

impl View for RecordingArtifact {
    type V = ArtifactView;

    open spec fn view(&self) -> ArtifactView {
        ArtifactView {
            recording_session_id: self.recording_session_id@,
            raw_path: self.raw_path@,
            flac_path: self.flac_path@,
            manifest_path: self.manifest_path@,
            max_frame: self.max_frame,
            interrupted: self.interrupted,
        }
    }
}

impl Clone for RecordingArtifact {
    fn clone(&self) -> (copy: Self)
        ensures
            copy == *self,
    {
        RecordingArtifact {
            recording_session_id: self.recording_session_id.clone(),
            raw_path: self.raw_path.clone(),
            flac_path: self.flac_path.clone(),
            manifest_path: self.manifest_path.clone(),
            max_frame: self.max_frame,
            interrupted: self.interrupted,
        }
    }
}

/// A take can be recorded exactly where the device is calibrated and captures; otherwise
/// the report says which of the two is missing, calibration first. The other parts are
/// reported as they were found.
pub proof fn law_recording_needs_calibration_and_capture(
    playback: HealthItemView,
    capture: HealthItemView,
    midi: HealthItemView,
    calibrated: bool,
    snapshot_slot: u8,
)
    ensures
        ({
            let report = device_report(playback, capture, midi, calibrated, snapshot_slot);
            &&& report.playback == playback
            &&& report.capture == capture
            &&& report.midi == midi
            &&& report.snapshot_slot == snapshot_slot
            &&& report.sample_rate == 48_000
            &&& report.playback_channels == 2
            &&& report.capture_channels == 10
            &&& report.recording.ok <==> calibrated && capture.ok
            &&& report.recording.ok ==> report.recording.reason is None
            &&& !calibrated ==> report.recording.reason == Some("calibration_missing"@)
            &&& calibrated && !capture.ok ==> report.recording.reason == Some(
                "capture_unavailable"@,
            )
        }),
{
}

/// Of a build without audio no part works: it plays and captures no channel, and the
/// report says why.
pub proof fn law_build_without_audio_does_nothing(calibrated: bool, snapshot_slot: u8)
    ensures
        ({
            let report = unsupported_report(calibrated, snapshot_slot);
            let reason = Some("binary was built without the linux-audio feature"@);
            &&& !report.playback.ok && report.playback.reason == reason
            &&& !report.capture.ok && report.capture.reason == reason
            &&& !report.midi.ok && report.midi.reason == reason
            &&& !report.recording.ok
            &&& calibrated ==> report.recording.reason == reason
            &&& !calibrated ==> report.recording.reason == Some("calibration_missing"@)
            &&& report.sample_rate == 48_000
            &&& report.playback_channels == 0
            &&& report.capture_channels == 0
            &&& report.snapshot_slot == snapshot_slot
        }),
{
}

/// A part that works has no reason, and one that does not has the reason given.
pub proof fn law_only_what_fails_has_a_reason(reason: Seq<char>)
    ensures
        healthy().ok && healthy().reason is None,
        !unhealthy(reason).ok && unhealthy(reason).reason == Some(reason),
{
}

/// Takes are seen with what they hold, each part in its place.
pub proof fn law_takes_are_seen_as_they_are(artifact: RecordingArtifact, request: RecordingStart)
    ensures
        artifact@.recording_session_id == artifact.recording_session_id@,
        artifact@.raw_path == artifact.raw_path@,
        artifact@.flac_path == artifact.flac_path@,
        artifact@.manifest_path == artifact.manifest_path@,
        artifact@.max_frame == artifact.max_frame,
        artifact@.interrupted == artifact.interrupted,
        request@.recording_session_id == request.recording_session_id@,
        request@.queue_item_id == request.queue_item_id@,
        request@.spool_dir == request.spool_dir@,
        request@.playback_to_capture_offset_frames == request.playback_to_capture_offset_frames,
{
}

} // verus!
