//! Messages exchanged with the server, as plain values.

use vstd::prelude::*;

use crate::device::{ProbeReport, ProbeReportView};

verus! {

/// Version of the message schema that the agent speaks.
pub const SCHEMA_VERSION: u8 = 1;

/// The text of an optional string.
pub open spec fn optional_text(value: Option<String>) -> Option<Seq<char>> {
    match value {
        Some(text) => Some(text@),
        None => None,
    }
}

/// State of one microphone channel. Levels and percentages are MIDI
/// controller values.
#[derive(Debug, Clone, Copy, PartialEq, Eq, Structural)]
pub struct ChannelState {
    pub level_cc: u8,
    pub muted: bool,
    pub compressor_cc: u8,
    pub reverb_send_cc: u8,
}

/// Desired state of the mixer.
#[derive(Debug, Clone, Copy, PartialEq, Eq, Structural)]
pub struct MixerState {
    pub mic1: ChannelState,
    pub mic2: ChannelState,
    pub music: InputLevelState,
    pub main: LevelState,
    pub mon1: Option<LevelState>,
    pub mon2: Option<LevelState>,
    pub reverb: ReverbState,
}

/// Level of an output bus, as a MIDI controller value.
#[derive(Debug, Clone, Copy, PartialEq, Eq, Structural)]
pub struct LevelState {
    pub level_cc: u8,
    pub muted: bool,
}

/// Level of the music input, as a MIDI controller value.
#[derive(Debug, Clone, Copy, PartialEq, Eq, Structural)]
pub struct InputLevelState {
    pub level_cc: u8,
    pub muted: bool,
}

/// State of the reverb effect, with MIDI controller values.
#[derive(Debug, Clone, Copy, PartialEq, Eq, Structural)]
pub struct ReverbState {
    pub preset: ReverbPreset,
    pub decay_cc: u8,
    pub return_level_cc: u8,
}

/// Reverb programs that the server may ask for.
#[derive(Debug, Clone, Copy, PartialEq, Eq, Structural)]
pub enum ReverbPreset {
    Default,
    MaleVocal,
    FemaleVocal,
    Chorus,
}

/// Whether a play command is to be recorded, and under which session.
#[derive(Debug)]
pub struct RecordingDirective {
    pub enabled: bool,
    pub recording_session_id: Option<String>,
}

/// A recording directive over texts.
pub struct RecordingDirectiveView {
    pub enabled: bool,
    pub recording_session_id: Option<Seq<char>>,
}

impl View for RecordingDirective {
    type V = RecordingDirectiveView;

    open spec fn view(&self) -> RecordingDirectiveView {
        RecordingDirectiveView {
            enabled: self.enabled,
            recording_session_id: optional_text(self.recording_session_id),
        }
    }
}

impl Clone for RecordingDirective {
    fn clone(&self) -> (copy: Self)
        ensures
            copy == *self,
    {
        RecordingDirective {
            enabled: self.enabled,
            recording_session_id: self.recording_session_id.clone(),
        }
    }
}

/// What a playback command asks of the player.
#[derive(Debug, Clone, Copy, PartialEq, Eq, Structural)]
pub enum PlaybackAction {
    Play,
    Pause,
    Resume,
    Stop,
    Seek,
    Next,
    Switch,
}

/// A playback command from the server.
#[derive(Debug)]
pub struct PlaybackCommand {
    pub schema_version: u8,
    pub command_id: String,
    pub route_epoch: u64,
    pub action: PlaybackAction,
    pub queue_item_id: Option<String>,
    pub asset_id: Option<String>,
    pub media_url: Option<String>,
    pub position_ms: Option<u64>,
    pub duration_ms: Option<u64>,
    pub recording: Option<RecordingDirective>,
    pub recording_session_id: Option<String>,
    pub recording_disposition: Option<String>,
    pub previous_recording_session_id: Option<String>,
    pub previous_recording_disposition: Option<String>,
}

/// A playback command over texts.
pub struct PlaybackCommandView {
    pub schema_version: u8,
    pub command_id: Seq<char>,
    pub route_epoch: u64,
    pub action: PlaybackAction,
    pub queue_item_id: Option<Seq<char>>,
    pub asset_id: Option<Seq<char>>,
    pub media_url: Option<Seq<char>>,
    pub position_ms: Option<u64>,
    pub duration_ms: Option<u64>,
    pub recording: Option<RecordingDirectiveView>,
    pub recording_session_id: Option<Seq<char>>,
    pub recording_disposition: Option<Seq<char>>,
    pub previous_recording_session_id: Option<Seq<char>>,
    pub previous_recording_disposition: Option<Seq<char>>,
}

impl View for PlaybackCommand {
    type V = PlaybackCommandView;

    open spec fn view(&self) -> PlaybackCommandView {
        PlaybackCommandView {
            schema_version: self.schema_version,
            command_id: self.command_id@,
            route_epoch: self.route_epoch,
            action: self.action,
            queue_item_id: optional_text(self.queue_item_id),
            asset_id: optional_text(self.asset_id),
            media_url: optional_text(self.media_url),
            position_ms: self.position_ms,
            duration_ms: self.duration_ms,
            recording: match self.recording {
                Some(directive) => Some(directive@),
                None => None,
            },
            recording_session_id: optional_text(self.recording_session_id),
            recording_disposition: optional_text(self.recording_disposition),
            previous_recording_session_id: optional_text(self.previous_recording_session_id),
            previous_recording_disposition: optional_text(self.previous_recording_disposition),
        }
    }
}

impl Clone for PlaybackCommand {
    fn clone(&self) -> (copy: Self)
        ensures
            copy == *self,
    {
        PlaybackCommand {
            schema_version: self.schema_version,
            command_id: self.command_id.clone(),
            route_epoch: self.route_epoch,
            action: self.action,
            queue_item_id: self.queue_item_id.clone(),
            asset_id: self.asset_id.clone(),
            media_url: self.media_url.clone(),
            position_ms: self.position_ms,
            duration_ms: self.duration_ms,
            recording: self.recording.clone(),
            recording_session_id: self.recording_session_id.clone(),
            recording_disposition: self.recording_disposition.clone(),
            previous_recording_session_id: self.previous_recording_session_id.clone(),
            previous_recording_disposition: self.previous_recording_disposition.clone(),
        }
    }
}

/// A message from the server.
#[derive(Debug)]
pub enum ServerMessage {
    HelloAck { schema_version: u8, route_epoch: u64 },
    PlaybackCommand(Box<PlaybackCommand>),
    MixerApply { schema_version: u8, revision: u64, desired: MixerState },
    RecordingCancel { schema_version: u8, recording_session_id: String, reason: String },
    RecordingUploadAuthorized {
        schema_version: u8,
        recording_session_id: String,
        upload_url: Option<String>,
        error: Option<String>,
    },
    Unknown,
}

/// What the agent tells the server of itself.
#[derive(Debug)]
pub struct Capabilities {
    pub version: String,
    pub platform: String,
    pub sample_rate: u32,
    pub capture_channels: u16,
    pub formats: Vec<String>,
}

/// Capabilities over texts.
pub struct CapabilitiesView {
    pub version: Seq<char>,
    pub platform: Seq<char>,
    pub sample_rate: u32,
    pub capture_channels: u16,
    pub formats: Seq<Seq<char>>,
}

impl View for Capabilities {
    type V = CapabilitiesView;

    open spec fn view(&self) -> CapabilitiesView {
        CapabilitiesView {
            version: self.version@,
            platform: self.platform@,
            sample_rate: self.sample_rate,
            capture_channels: self.capture_channels,
            formats: self.formats@.map_values(|format: String| format@),
        }
    }
}

/// The capabilities of this agent.
pub open spec fn agent_capabilities() -> CapabilitiesView {
    CapabilitiesView {
        version: crate::VERSION@,
        platform: "linux-amd64"@,
        sample_rate: 48_000,
        capture_channels: 2,
        formats: seq!["mp3"@, "flac"@],
    }
}

/// The capabilities of this agent.
pub fn capabilities() -> (capabilities: Capabilities)
    ensures
        capabilities@ == agent_capabilities(),
{
    let mut formats: Vec<String> = Vec::new();
    formats.push("mp3".to_string());
    formats.push("flac".to_string());
    let capabilities = Capabilities {
        version: crate::VERSION.to_string(),
        platform: "linux-amd64".to_string(),
        sample_rate: 48_000,
        capture_channels: 2,
        formats,
    };
    assert(capabilities@.formats =~= seq!["mp3"@, "flac"@]);
    capabilities
}

/// A message to the server.
#[derive(Debug)]
#[allow(inconsistent_fields)]
pub enum AgentMessage {
    Hello {
        schema_version: u8,
        agent_id: String,
        version: String,
        snapshot_slot: u8,
        capabilities: Capabilities,
        health: ProbeReport,
    },
    Heartbeat { schema_version: u8, agent_id: String, health: ProbeReport },
    PlaybackStatus {
        schema_version: u8,
        command_id: String,
        route_epoch: u64,
        state: String,
        sample_frame: u64,
        sample_rate: u32,
        duration_ms: u64,
        anchor_monotonic_ms: u64,
    },
    PlaybackError { schema_version: u8, command_id: String, route_epoch: u64, error: String },
    MixerSent { schema_version: u8, revision: u64 },
    MixerError { schema_version: u8, revision: u64, error: String },
    RecordingStatus {
        schema_version: u8,
        recording_session_id: String,
        state: String,
        max_frame: u64,
        error: Option<String>,
    },
    RecordingUploadRequest {
        schema_version: u8,
        recording_session_id: String,
        sha256: String,
        size_bytes: u64,
    },
}

/// A message to the server over texts.
#[allow(inconsistent_fields)]
pub enum AgentMessageView {
    Hello {
        schema_version: u8,
        agent_id: Seq<char>,
        version: Seq<char>,
        snapshot_slot: u8,
        capabilities: CapabilitiesView,
        health: ProbeReportView,
    },
    Heartbeat { schema_version: u8, agent_id: Seq<char>, health: ProbeReportView },
    PlaybackStatus {
        schema_version: u8,
        command_id: Seq<char>,
        route_epoch: u64,
        state: Seq<char>,
        sample_frame: u64,
        sample_rate: u32,
        duration_ms: u64,
        anchor_monotonic_ms: u64,
    },
    PlaybackError {
        schema_version: u8,
        command_id: Seq<char>,
        route_epoch: u64,
        error: Seq<char>,
    },
    MixerSent { schema_version: u8, revision: u64 },
    MixerError { schema_version: u8, revision: u64, error: Seq<char> },
    RecordingStatus {
        schema_version: u8,
        recording_session_id: Seq<char>,
        state: Seq<char>,
        max_frame: u64,
        error: Option<Seq<char>>,
    },
    RecordingUploadRequest {
        schema_version: u8,
        recording_session_id: Seq<char>,
        sha256: Seq<char>,
        size_bytes: u64,
    },
}

impl View for AgentMessage {
    type V = AgentMessageView;

    open spec fn view(&self) -> AgentMessageView {
        match *self {
            AgentMessage::Hello {
                schema_version,
                agent_id,
                version,
                snapshot_slot,
                capabilities,
                health,
            } => AgentMessageView::Hello {
                schema_version,
                agent_id: agent_id@,
                version: version@,
                snapshot_slot,
                capabilities: capabilities@,
                health: health@,
            },
            AgentMessage::Heartbeat { schema_version, agent_id, health } => {
                AgentMessageView::Heartbeat {
                    schema_version,
                    agent_id: agent_id@,
                    health: health@,
                }
            },
            AgentMessage::PlaybackStatus {
                schema_version,
                command_id,
                route_epoch,
                state,
                sample_frame,
                sample_rate,
                duration_ms,
                anchor_monotonic_ms,
            } => AgentMessageView::PlaybackStatus {
                schema_version,
                command_id: command_id@,
                route_epoch,
                state: state@,
                sample_frame,
                sample_rate,
                duration_ms,
                anchor_monotonic_ms,
            },
            AgentMessage::PlaybackError { schema_version, command_id, route_epoch, error } => {
                AgentMessageView::PlaybackError {
                    schema_version,
                    command_id: command_id@,
                    route_epoch,
                    error: error@,
                }
            },
            AgentMessage::MixerSent { schema_version, revision } => {
                AgentMessageView::MixerSent { schema_version, revision }
            },
            AgentMessage::MixerError { schema_version, revision, error } => {
                AgentMessageView::MixerError { schema_version, revision, error: error@ }
            },
            AgentMessage::RecordingStatus {
                schema_version,
                recording_session_id,
                state,
                max_frame,
                error,
            } => AgentMessageView::RecordingStatus {
                schema_version,
                recording_session_id: recording_session_id@,
                state: state@,
                max_frame,
                error: optional_text(error),
            },
            AgentMessage::RecordingUploadRequest {
                schema_version,
                recording_session_id,
                sha256,
                size_bytes,
            } => AgentMessageView::RecordingUploadRequest {
                schema_version,
                recording_session_id: recording_session_id@,
                sha256: sha256@,
                size_bytes,
            },
        }
    }
}

/// A command is seen with what it holds, each part in its place.
pub proof fn law_command_is_seen_as_it_is(command: PlaybackCommand)
    ensures
        command@.schema_version == command.schema_version,
        command@.command_id == command.command_id@,
        command@.route_epoch == command.route_epoch,
        command@.action == command.action,
        command@.position_ms == command.position_ms,
        command@.duration_ms == command.duration_ms,
        command.queue_item_id matches Some(text) ==> command@.queue_item_id == Some(text@),
        command.queue_item_id is None ==> command@.queue_item_id is None,
        command.asset_id matches Some(text) ==> command@.asset_id == Some(text@),
        command.asset_id is None ==> command@.asset_id is None,
        command.media_url matches Some(text) ==> command@.media_url == Some(text@),
        command.media_url is None ==> command@.media_url is None,
        command.recording matches Some(directive) ==> {
            &&& command@.recording is Some
            &&& command@.recording->0.enabled == directive.enabled
            &&& directive.recording_session_id matches Some(text)
                ==> command@.recording->0.recording_session_id == Some(text@)
            &&& directive.recording_session_id is None
                ==> command@.recording->0.recording_session_id is None
        },
        command.recording is None ==> command@.recording is None,
        command.recording_session_id matches Some(text) ==> command@.recording_session_id == Some(
            text@,
        ),
        command.recording_session_id is None ==> command@.recording_session_id is None,
        command.recording_disposition matches Some(text) ==> command@.recording_disposition == Some(
            text@,
        ),
        command.recording_disposition is None ==> command@.recording_disposition is None,
        command.previous_recording_session_id matches Some(text)
            ==> command@.previous_recording_session_id == Some(text@),
        command.previous_recording_session_id is None
            ==> command@.previous_recording_session_id is None,
        command.previous_recording_disposition matches Some(text)
            ==> command@.previous_recording_disposition == Some(text@),
        command.previous_recording_disposition is None
            ==> command@.previous_recording_disposition is None,
{
}

/// The agent speaks the first version of the schema, and says that it plays MP3 and FLAC
/// and captures two channels of 48000 frames a second.
pub proof fn law_capabilities()
    ensures
        SCHEMA_VERSION == 1,
        agent_capabilities().version == crate::VERSION@,
        agent_capabilities().platform == "linux-amd64"@,
        agent_capabilities().sample_rate == 48_000,
        agent_capabilities().capture_channels == 2,
        agent_capabilities().formats.len() == 2,
        agent_capabilities().formats[0] == "mp3"@,
        agent_capabilities().formats[1] == "flac"@,
{
}

/// A message to the server is seen with what it says, each part in its place.
pub proof fn law_message_is_seen_as_it_is(message: AgentMessage)
    ensures
        message matches AgentMessage::Hello {
            schema_version,
            agent_id,
            version,
            snapshot_slot,
            capabilities,
            health,
        } ==> message@ == (AgentMessageView::Hello {
            schema_version,
            agent_id: agent_id@,
            version: version@,
            snapshot_slot,
            capabilities: capabilities@,
            health: health@,
        }),
        message matches AgentMessage::Heartbeat { schema_version, agent_id, health } ==> message@
            == (AgentMessageView::Heartbeat { schema_version, agent_id: agent_id@, health: health@ }),
        message matches AgentMessage::PlaybackStatus {
            schema_version,
            command_id,
            route_epoch,
            state,
            sample_frame,
            sample_rate,
            duration_ms,
            anchor_monotonic_ms,
        } ==> message@ == (AgentMessageView::PlaybackStatus {
            schema_version,
            command_id: command_id@,
            route_epoch,
            state: state@,
            sample_frame,
            sample_rate,
            duration_ms,
            anchor_monotonic_ms,
        }),
        message matches AgentMessage::PlaybackError {
            schema_version,
            command_id,
            route_epoch,
            error,
        } ==> message@ == (AgentMessageView::PlaybackError {
            schema_version,
            command_id: command_id@,
            route_epoch,
            error: error@,
        }),
        message matches AgentMessage::MixerSent { schema_version, revision } ==> message@
            == (AgentMessageView::MixerSent { schema_version, revision }),
        message matches AgentMessage::MixerError { schema_version, revision, error } ==> message@
            == (AgentMessageView::MixerError { schema_version, revision, error: error@ }),
        message matches AgentMessage::RecordingStatus {
            schema_version,
            recording_session_id,
            state,
            max_frame,
            error,
        } ==> message@ == (AgentMessageView::RecordingStatus {
            schema_version,
            recording_session_id: recording_session_id@,
            state: state@,
            max_frame,
            error: if error is Some {
                Some(error->0@)
            } else {
                None
            },
        }),
        message matches AgentMessage::RecordingUploadRequest {
            schema_version,
            recording_session_id,
            sha256,
            size_bytes,
        } ==> message@ == (AgentMessageView::RecordingUploadRequest {
            schema_version,
            recording_session_id: recording_session_id@,
            sha256: sha256@,
            size_bytes,
        }),
{
}

} // verus!
