//! The conversation with the server: what each message and each tick calls for.
//!
//! A session never acts itself. It holds an agenda of what is to be done; the
//! first thing on it is done outside, and the outcome is handed back.

use std::collections::VecDeque;

use vstd::prelude::*;

use crate::config::{Config, ConfigView};
use crate::credentials::{Credentials, CredentialsView};
use crate::device::{
    ArtifactView, Calibration, ProbeReport, ProbeReportView, RecordingArtifact, RecordingStart,
    RecordingStartView,
};
use crate::identity::id_text;
use crate::path::joined;
use crate::player::frame_of_ns;
use crate::playback::{mixer_step, ApplyResult, CoordinatorView, MixerRevision, PlaybackCoordinator};
use crate::protocol::{
    agent_capabilities, capabilities, optional_text, AgentMessage, AgentMessageView, MixerState,
    PlaybackAction, PlaybackCommand, PlaybackCommandView, ServerMessage, SCHEMA_VERSION,
};
use crate::recording::SAMPLE_RATE;
use crate::take::{cleanup_artifact, spool_files, texts};
use crate::text::equals;
use crate::web::{join_url, result_text, url_joined, URL_READ_LIMIT};

verus! {

/// What a session knows of the agent and of its connection.
#[derive(Debug)]
pub struct Link {
    pub agent_id: String,
    pub server_url: String,
    pub snapshot_slot: u8,
    pub spool_dir: String,
    /// The lag of captures behind playback, where the device is calibrated.
    pub offset_frames: Option<i64>,
    pub health: ProbeReport,
}

/// What a session knows of the agent and of its connection, over texts.
pub struct LinkView {
    pub agent_id: Seq<char>,
    pub server_url: Seq<char>,
    pub snapshot_slot: u8,
    pub spool_dir: Seq<char>,
    pub offset_frames: Option<i64>,
    pub health: ProbeReportView,
}

impl View for Link {
    type V = LinkView;

    open spec fn view(&self) -> LinkView {
        LinkView {
            agent_id: self.agent_id@,
            server_url: self.server_url@,
            snapshot_slot: self.snapshot_slot,
            spool_dir: self.spool_dir@,
            offset_frames: self.offset_frames,
            health: self.health@,
        }
    }
}

/// The link of an agent with the given configuration and credentials.
pub open spec fn link_of(
    config: ConfigView,
    server_url: Seq<char>,
    credentials: CredentialsView,
    offset_frames: Option<i64>,
    health: ProbeReportView,
) -> LinkView {
    LinkView {
        agent_id: id_text(credentials.agent_id),
        server_url,
        snapshot_slot: config.snapshot_slot,
        spool_dir: joined(config.data_dir, "spool"@),
        offset_frames,
        health,
    }
}

impl Link {
    /// The link of an agent with the given configuration and credentials.
    pub fn new(
        config: &Config,
        server_url: &str,
        credentials: &Credentials,
        calibration: &Option<Calibration>,
        health: ProbeReport,
    ) -> (link: Self)
        ensures
            link@ == link_of(
                config@,
                server_url@,
                credentials@,
                match calibration {
                    Some(calibration) => Some(calibration.playback_to_capture_offset_frames),
                    None => None,
                },
                health@,
            ),
    {
        Link {
            agent_id: credentials.agent_id_text(),
            server_url: server_url.to_string(),
            snapshot_slot: config.snapshot_slot,
            spool_dir: config.spool_dir(),
            offset_frames: match calibration {
                Some(calibration) => Some(calibration.playback_to_capture_offset_frames),
                None => None,
            },
            health,
        }
    }
}

/// Something that is done outside of the session.
#[derive(Debug)]
#[allow(inconsistent_fields)]
pub enum Action {
    /// Sends a message to the server.
    Send(AgentMessage),
    /// Finds the digest and the size of an encoded take.
    Digest { recording_session_id: String, flac_path: String },
    /// Has the device end a take.
    Finish { recording_session_id: String },
    /// Has the device end a take that the lost connection interrupts.
    Preserve { recording_session_id: String },
    /// Has the device drop a take.
    Cancel { recording_session_id: String },
    /// Has the device begin a take.
    Start(RecordingStart),
    /// Hands a command to the device.
    Playback(PlaybackCommand),
    /// Hands the device the command that ends playback after a lost connection.
    Halt(PlaybackCommand),
    /// Has the device set its mixer.
    Mix { revision: u64, desired: MixerState, snapshot_slot: u8 },
    /// Uploads an encoded take.
    Upload { url: String, flac_path: String },
    /// Removes files that are needed no longer.
    Cleanup { paths: Vec<String> },
}

/// Something that is done outside of the session, over texts.
#[allow(inconsistent_fields)]
pub enum ActionView {
    Send(AgentMessageView),
    Digest { recording_session_id: Seq<char>, flac_path: Seq<char> },
    Finish { recording_session_id: Seq<char> },
    Preserve { recording_session_id: Seq<char> },
    Cancel { recording_session_id: Seq<char> },
    Start(RecordingStartView),
    Playback(PlaybackCommandView),
    Halt(PlaybackCommandView),
    Mix { revision: u64, desired: MixerState, snapshot_slot: u8 },
    Upload { url: Seq<char>, flac_path: Seq<char> },
    Cleanup { paths: Seq<Seq<char>> },
}

impl View for Action {
    type V = ActionView;

    open spec fn view(&self) -> ActionView {
        match *self {
            Action::Send(message) => ActionView::Send(message@),
            Action::Digest { recording_session_id, flac_path } => ActionView::Digest {
                recording_session_id: recording_session_id@,
                flac_path: flac_path@,
            },
            Action::Finish { recording_session_id } => ActionView::Finish {
                recording_session_id: recording_session_id@,
            },
            Action::Preserve { recording_session_id } => ActionView::Preserve {
                recording_session_id: recording_session_id@,
            },
            Action::Cancel { recording_session_id } => ActionView::Cancel {
                recording_session_id: recording_session_id@,
            },
            Action::Start(request) => ActionView::Start(request@),
            Action::Playback(command) => ActionView::Playback(command@),
            Action::Halt(command) => ActionView::Halt(command@),
            Action::Mix { revision, desired, snapshot_slot } => ActionView::Mix {
                revision,
                desired,
                snapshot_slot,
            },
            Action::Upload { url, flac_path } => ActionView::Upload {
                url: url@,
                flac_path: flac_path@,
            },
            Action::Cleanup { paths } => ActionView::Cleanup { paths: texts(paths@) },
        }
    }
}

/// Something that the session notes once what stood before it is done.
#[derive(Debug)]
pub enum Note {
    /// No command is played.
    ClearCommand,
    /// No take is captured.
    ClearRecording,
    /// The take is captured.
    SetRecording(String),
    /// The take is uploaded.
    Forget(String),
}

/// Something that the session notes, over texts.
pub enum NoteView {
    ClearCommand,
    ClearRecording,
    SetRecording(Seq<char>),
    Forget(Seq<char>),
}

impl View for Note {
    type V = NoteView;

    open spec fn view(&self) -> NoteView {
        match *self {
            Note::ClearCommand => NoteView::ClearCommand,
            Note::ClearRecording => NoteView::ClearRecording,
            Note::SetRecording(id) => NoteView::SetRecording(id@),
            Note::Forget(id) => NoteView::Forget(id@),
        }
    }
}

/// One thing on the agenda.
#[derive(Debug)]
pub enum Task {
    Do(Action),
    Then(Note),
}

/// One thing on the agenda, over texts.
pub enum TaskView {
    Do(ActionView),
    Then(NoteView),
}

impl View for Task {
    type V = TaskView;

    open spec fn view(&self) -> TaskView {
        match *self {
            Task::Do(action) => TaskView::Do(action@),
            Task::Then(note) => TaskView::Then(note@),
        }
    }
}

/// Things on an agenda, over texts.
pub open spec fn task_views(tasks: Seq<Task>) -> Seq<TaskView> {
    tasks.map_values(|task: Task| task@)
}

/// How the first thing on the agenda turned out.
#[derive(Debug)]
pub enum Reply {
    Done,
    /// The digest and the size of the take.
    Digest { sha256: String, size_bytes: u64 },
    /// The take that was ended, where the device captured it.
    Finished(Option<RecordingArtifact>),
    /// It failed, for the reason given.
    Failed(String),
}

/// How the first thing on the agenda turned out, over texts.
pub enum ReplyView {
    Done,
    Digest { sha256: Seq<char>, size_bytes: u64 },
    Finished(Option<ArtifactView>),
    Failed(Seq<char>),
}

impl View for Reply {
    type V = ReplyView;

    open spec fn view(&self) -> ReplyView {
        match *self {
            Reply::Done => ReplyView::Done,
            Reply::Digest { sha256, size_bytes } => ReplyView::Digest {
                sha256: sha256@,
                size_bytes,
            },
            Reply::Finished(Some(artifact)) => ReplyView::Finished(Some(artifact@)),
            Reply::Finished(None) => ReplyView::Finished(None),
            Reply::Failed(reason) => ReplyView::Failed(reason@),
        }
    }
}

/// How a connection goes on.
#[derive(Debug, Clone, Copy, PartialEq, Eq, Structural)]
pub enum Flow {
    /// The agenda is carried on.
    Continue,
    /// The connection is given up.
    Abort,
    /// The reply answers nothing on the agenda, and changes nothing.
    Ignored,
}

/// A command that is played.
#[derive(Debug)]
pub struct ActiveCommand {
    pub command_id: String,
    pub route_epoch: u64,
    pub duration_ms: u64,
}

/// A command that is played, over texts.
pub struct ActiveCommandView {
    pub command_id: Seq<char>,
    pub route_epoch: u64,
    pub duration_ms: u64,
}

impl View for ActiveCommand {
    type V = ActiveCommandView;

    open spec fn view(&self) -> ActiveCommandView {
        ActiveCommandView {
            command_id: self.command_id@,
            route_epoch: self.route_epoch,
            duration_ms: self.duration_ms,
        }
    }
}

/// Where playback stands.
#[derive(Debug, Clone, Copy, PartialEq, Eq, Structural)]
pub struct Anchor {
    pub frame: u64,
    pub rate: u32,
    pub monotonic_ms: u64,
}

impl Anchor {
    /// Playback stands at `position_ns`.
    pub fn at(position_ns: u64, monotonic_ms: u64) -> (anchor: Self)
        requires
            position_ns * 48_000 <= u64::MAX,
        ensures
            anchor == (Anchor {
                frame: (position_ns as int * 48_000 / 1_000_000_000) as u64,
                rate: 48_000,
                monotonic_ms,
            }),
    {
        Anchor { frame: frame_of_ns(position_ns), rate: SAMPLE_RATE, monotonic_ms }
    }
}

/// The takes that wait for their upload, each under its id.
pub type Held = Seq<(Seq<char>, ArtifactView)>;

/// The take held under `id`.
pub open spec fn held_under(held: Held, id: Seq<char>) -> Option<ArtifactView>
    decreases held.len(),
{
    if held.len() == 0 {
        None
    } else if held.last().0 == id {
        Some(held.last().1)
    } else {
        held_under(held.drop_last(), id)
    }
}

/// The takes but that under `id`.
pub open spec fn without(held: Held, id: Seq<char>) -> Held
    decreases held.len(),
{
    if held.len() == 0 {
        held
    } else if held.last().0 == id {
        without(held.drop_last(), id)
    } else {
        without(held.drop_last(), id).push(held.last())
    }
}

/// The takes with `artifact` under `id`, in place of what was there.
pub open spec fn with_artifact(held: Held, id: Seq<char>, artifact: ArtifactView) -> Held {
    without(held, id).push((id, artifact))
}

/// No two takes are held under one id.
pub open spec fn distinct_ids(held: Held) -> bool {
    forall|i: int, j: int| 0 <= i < j < held.len() ==> (#[trigger] held[i]).0 != (#[trigger] held[j]).0
}

/// The message on the state of a take.
pub open spec fn status_message(
    id: Seq<char>,
    state: Seq<char>,
    max_frame: u64,
    error: Option<Seq<char>>,
) -> TaskView {
    TaskView::Do(
        ActionView::Send(
            AgentMessageView::RecordingStatus {
                schema_version: SCHEMA_VERSION,
                recording_session_id: id,
                state,
                max_frame,
                error,
            },
        ),
    )
}

/// Tells the server of a take and asks for its upload.
pub open spec fn announce(artifact: ArtifactView, state: Seq<char>) -> Seq<TaskView> {
    seq![
        status_message(artifact.recording_session_id, state, artifact.max_frame, None),
        TaskView::Do(
            ActionView::Digest {
                recording_session_id: artifact.recording_session_id,
                flac_path: artifact.flac_path,
            },
        ),
    ]
}

/// Tells the server of takes from before the connection.
pub open spec fn announce_all(held: Held) -> Seq<TaskView>
    decreases held.len(),
{
    if held.len() == 0 {
        seq![]
    } else {
        let artifact = held.last().1;
        announce_all(held.drop_last()) + announce(
            artifact,
            if artifact.interrupted {
                "interrupted"@
            } else {
                "encoding"@
            },
        )
    }
}

/// Tells the server of a command that was not carried out.
pub open spec fn playback_error(command: PlaybackCommandView, error: Seq<char>) -> TaskView {
    TaskView::Do(
        ActionView::Send(
            AgentMessageView::PlaybackError {
                schema_version: SCHEMA_VERSION,
                command_id: command.command_id,
                route_epoch: command.route_epoch,
                error,
            },
        ),
    )
}

/// The song has sounded to its end.
pub open spec fn has_ended(duration_ms: u64, anchor: Anchor) -> bool {
    duration_ms > 0 && anchor.frame >= duration_ms as int * anchor.rate as int / 1_000
}

/// The command that ends playback after a lost connection.
pub open spec fn stop_command() -> PlaybackCommandView {
    PlaybackCommandView {
        schema_version: SCHEMA_VERSION,
        command_id: "disconnect-timeout"@,
        route_epoch: 0,
        action: PlaybackAction::Stop,
        queue_item_id: None,
        asset_id: None,
        media_url: None,
        position_ms: None,
        duration_ms: None,
        recording: None,
        recording_session_id: None,
        recording_disposition: None,
        previous_recording_session_id: None,
        previous_recording_disposition: None,
    }
}

/// Saves the take before, where the command asks for it.
pub open spec fn save_previous(command: PlaybackCommandView) -> Seq<TaskView> {
    if command.previous_recording_disposition != Some("save"@) {
        seq![]
    } else {
        (match command.previous_recording_session_id {
            Some(id) => seq![TaskView::Do(ActionView::Finish { recording_session_id: id })],
            None => seq![],
        }).push(TaskView::Then(NoteView::ClearRecording))
    }
}

/// Drops the take, where the command asks for it.
pub open spec fn discard_current(command: PlaybackCommandView) -> Seq<TaskView> {
    if command.recording_disposition != Some("discard"@) {
        seq![]
    } else {
        (match command.recording_session_id {
            Some(id) => seq![
                TaskView::Do(ActionView::Cancel { recording_session_id: id }),
                status_message(id, "discarded"@, 0, None),
            ],
            None => seq![],
        }).push(TaskView::Then(NoteView::ClearRecording))
    }
}

/// The take that a play command asks for.
pub open spec fn wanted_take(command: PlaybackCommandView) -> Option<Seq<char>> {
    match command.recording {
        Some(directive) if command.action == PlaybackAction::Play && directive.enabled => {
            directive.recording_session_id
        },
        _ => None,
    }
}

/// Begins the take that a play command asks for. There is none where the device is
/// not calibrated.
pub open spec fn begin_take(link: LinkView, command: PlaybackCommandView) -> Seq<TaskView> {
    match wanted_take(command) {
        None => seq![],
        Some(id) => match link.offset_frames {
            Some(offset_frames) => seq![
                TaskView::Do(
                    ActionView::Start(
                        RecordingStartView {
                            recording_session_id: id,
                            queue_item_id: match command.queue_item_id {
                                Some(queue_item_id) => queue_item_id,
                                None => seq![],
                            },
                            spool_dir: link.spool_dir,
                            playback_to_capture_offset_frames: offset_frames,
                        },
                    ),
                ),
                TaskView::Then(NoteView::SetRecording(id)),
                status_message(id, "recording"@, 0, None),
            ],
            None => seq![status_message(id, "failed"@, 0, Some("calibration_missing"@))],
        },
    }
}

/// What a command calls for that is to be applied.
pub open spec fn command_tasks(link: LinkView, command: PlaybackCommandView) -> Seq<TaskView> {
    save_previous(command) + discard_current(command) + begin_take(link, command) + seq![
        TaskView::Do(ActionView::Playback(command)),
    ]
}

/// Where `message` allows an upload, no text is too long to be read as a URL.
pub open spec fn urls_fit(link: LinkView, message: ServerMessage) -> bool {
    message matches ServerMessage::RecordingUploadAuthorized {
        upload_url: Some(upload_url),
        error: None,
        ..
    } ==> link.server_url.len() <= URL_READ_LIMIT && upload_url@.len() <= URL_READ_LIMIT
}

/// A conversation with the server, over texts.
#[verifier::ext_equal]
pub struct SessionView {
    /// The commands that came.
    pub playback: CoordinatorView,
    /// The mixer revision applied last.
    pub mixer: u64,
    pub active_command: Option<ActiveCommandView>,
    /// The take that is captured.
    pub active_recording: Option<Seq<char>>,
    /// The takes that wait for their upload.
    pub artifacts: Held,
    pub agenda: Seq<TaskView>,
}

impl SessionView {
    /// Nothing was said yet, and the takes in `artifacts` wait for their upload.
    pub open spec fn initial(artifacts: Held) -> Self {
        SessionView {
            playback: CoordinatorView::initial(),
            mixer: 0,
            active_command: None,
            active_recording: None,
            artifacts,
            agenda: seq![],
        }
    }

    /// The session after `note`.
    pub open spec fn noted(self, note: NoteView) -> Self {
        match note {
            NoteView::ClearCommand => SessionView { active_command: None, ..self },
            NoteView::ClearRecording => SessionView { active_recording: None, ..self },
            NoteView::SetRecording(id) => SessionView { active_recording: Some(id), ..self },
            NoteView::Forget(id) => SessionView { artifacts: without(self.artifacts, id), ..self },
        }
    }

    /// The session with the notes in front of its agenda noted.
    pub open spec fn settled(self) -> Self
        decreases self.agenda.len(),
    {
        if self.agenda.len() == 0 {
            self
        } else {
            match self.agenda[0] {
                TaskView::Do(_) => self,
                TaskView::Then(note) => SessionView {
                    agenda: self.agenda.drop_first(),
                    ..self.noted(note)
                }.settled(),
            }
        }
    }

    /// The session with `tasks` for its agenda.
    pub open spec fn facing(self, tasks: Seq<TaskView>) -> Self {
        SessionView { agenda: tasks, ..self }.settled()
    }

    /// The session once the connection stands: the agent says who it is, and which
    /// takes it still holds.
    pub open spec fn connected(self, link: LinkView) -> Self {
        self.facing(
            seq![
                TaskView::Do(
                    ActionView::Send(
                        AgentMessageView::Hello {
                            schema_version: SCHEMA_VERSION,
                            agent_id: link.agent_id,
                            version: crate::VERSION@,
                            snapshot_slot: link.snapshot_slot,
                            capabilities: agent_capabilities(),
                            health: link.health,
                        },
                    ),
                ),
            ] + announce_all(self.artifacts),
        )
    }

    /// The session once a heartbeat is due.
    pub open spec fn beating(self, link: LinkView) -> Self {
        self.facing(
            seq![
                TaskView::Do(
                    ActionView::Send(
                        AgentMessageView::Heartbeat {
                            schema_version: SCHEMA_VERSION,
                            agent_id: link.agent_id,
                            health: link.health,
                        },
                    ),
                ),
            ],
        )
    }

    /// Ends the take that is captured.
    pub open spec fn finish_current(self) -> Seq<TaskView> {
        match self.active_recording {
            Some(id) => seq![
                TaskView::Then(NoteView::ClearRecording),
                TaskView::Do(ActionView::Finish { recording_session_id: id }),
            ],
            None => seq![],
        }
    }

    /// The session once the state of playback is due, with playback at `anchor`.
    pub open spec fn reporting(self, anchor: Option<Anchor>) -> Self {
        match (self.active_command, anchor) {
            (Some(command), Some(anchor)) => {
                let ended = has_ended(command.duration_ms, anchor);
                let status = TaskView::Do(
                    ActionView::Send(
                        AgentMessageView::PlaybackStatus {
                            schema_version: SCHEMA_VERSION,
                            command_id: command.command_id,
                            route_epoch: command.route_epoch,
                            state: if ended {
                                "ended"@
                            } else {
                                "playing"@
                            },
                            sample_frame: anchor.frame,
                            sample_rate: anchor.rate,
                            duration_ms: command.duration_ms,
                            anchor_monotonic_ms: anchor.monotonic_ms,
                        },
                    ),
                );
                self.facing(
                    if ended {
                        seq![status] + self.finish_current() + seq![
                            TaskView::Then(NoteView::ClearCommand),
                        ]
                    } else {
                        seq![status]
                    },
                )
            },
            _ => self.facing(seq![]),
        }
    }

    /// The session once the upload of the take `id` to `url` is allowed, and why the
    /// connection has to be given up, where it has: there is no such URL.
    pub open spec fn authorized(self, id: Seq<char>, url: Result<Seq<char>, Seq<char>>) -> (
        Self,
        Option<Seq<char>>,
    ) {
        match (held_under(self.artifacts, id), url) {
            (Some(artifact), Ok(url)) => (
                self.facing(
                    seq![
                        TaskView::Do(ActionView::Upload { url, flac_path: artifact.flac_path }),
                        TaskView::Do(ActionView::Cleanup { paths: spool_files(artifact) }),
                        TaskView::Then(NoteView::Forget(id)),
                    ],
                ),
                None,
            ),
            (Some(_), Err(reason)) => (self.facing(seq![]), Some(reason)),
            _ => (self.facing(seq![]), None),
        }
    }

    /// The session once `message` came, and why the connection has to be given up,
    /// where it has.
    pub open spec fn received(self, link: LinkView, message: ServerMessage) -> (
        Self,
        Option<Seq<char>>,
    ) {
        match message {
            ServerMessage::PlaybackCommand(command) => {
                let command = command@;
                let (result, playback) = self.playback.step(
                    command.command_id,
                    command.route_epoch,
                );
                let next = SessionView { playback, ..self };
                match result {
                    ApplyResult::Duplicate => (next.facing(seq![]), None),
                    ApplyResult::StaleEpoch => (
                        next.facing(seq![playback_error(command, "stale_route_epoch"@)]),
                        None,
                    ),
                    ApplyResult::Apply => (next.facing(command_tasks(link, command)), None),
                }
            },
            ServerMessage::MixerApply { revision, desired, .. } => {
                let (result, mixer) = mixer_step(self.mixer, revision);
                let next = SessionView { mixer, ..self };
                if result == ApplyResult::Apply {
                    (
                        next.facing(
                            seq![
                                TaskView::Do(
                                    ActionView::Mix {
                                        revision,
                                        desired,
                                        snapshot_slot: link.snapshot_slot,
                                    },
                                ),
                            ],
                        ),
                        None,
                    )
                } else {
                    (next.facing(seq![]), None)
                }
            },
            ServerMessage::RecordingCancel { recording_session_id, .. } => (
                self.facing(
                    seq![
                        TaskView::Do(
                            ActionView::Cancel { recording_session_id: recording_session_id@ },
                        ),
                        TaskView::Then(NoteView::ClearRecording),
                        status_message(recording_session_id@, "discarded"@, 0, None),
                    ],
                ),
                None,
            ),
            ServerMessage::RecordingUploadAuthorized {
                recording_session_id,
                upload_url,
                error,
                ..
            } => {
                match (error, optional_text(upload_url)) {
                    (None, Some(upload_url)) => self.authorized(
                        recording_session_id@,
                        url_joined(link.server_url, upload_url),
                    ),
                    _ => (self.facing(seq![]), None),
                }
            },
            ServerMessage::HelloAck { .. } | ServerMessage::Unknown => (
                self.facing(seq![]),
                None,
            ),
        }
    }

    /// The session once the connection was lost for too long, or for good: playback
    /// stops, and the take is kept.
    pub open spec fn interrupted(self) -> Self {
        self.facing(
            seq![
                TaskView::Do(ActionView::Halt(stop_command())),
                TaskView::Then(NoteView::ClearCommand),
            ] + (match self.active_recording {
                Some(id) => seq![
                    TaskView::Then(NoteView::ClearRecording),
                    TaskView::Do(ActionView::Preserve { recording_session_id: id }),
                ],
                None => seq![],
            }),
        )
    }

    /// The session with the first thing on its agenda done, and `tasks` in its place.
    pub open spec fn carried_on(self, tasks: Seq<TaskView>) -> (Self, Flow) {
        (self.facing(tasks + self.agenda.drop_first()), Flow::Continue)
    }

    /// The session once `reply` came to the first thing on its agenda, and how the
    /// connection goes on.
    pub open spec fn resumed(self, reply: ReplyView) -> (Self, Flow) {
        let abort = (SessionView { agenda: seq![], ..self }, Flow::Abort);
        if self.agenda.len() == 0 || !(self.agenda[0] is Do) {
            (self, Flow::Ignored)
        } else {
            match (self.agenda[0]->Do_0, reply) {
                (ActionView::Digest { recording_session_id, .. }, ReplyView::Digest {
                    sha256,
                    size_bytes,
                }) => self.carried_on(
                    seq![
                        TaskView::Do(
                            ActionView::Send(
                                AgentMessageView::RecordingUploadRequest {
                                    schema_version: SCHEMA_VERSION,
                                    recording_session_id,
                                    sha256,
                                    size_bytes,
                                },
                            ),
                        ),
                    ],
                ),
                (
                    ActionView::Finish { recording_session_id },
                    ReplyView::Finished(Some(artifact)),
                ) => SessionView {
                    artifacts: with_artifact(self.artifacts, recording_session_id, artifact),
                    ..self
                }.carried_on(announce(artifact, "encoding"@)),
                (ActionView::Finish { .. }, ReplyView::Finished(None)) => self.carried_on(seq![]),
                (
                    ActionView::Preserve { recording_session_id },
                    ReplyView::Finished(Some(artifact)),
                ) => SessionView {
                    artifacts: with_artifact(self.artifacts, recording_session_id, artifact),
                    ..self
                }.carried_on(seq![]),
                (ActionView::Preserve { .. }, ReplyView::Finished(None)) => self.carried_on(seq![]),
                (ActionView::Preserve { .. }, ReplyView::Failed(_)) => self.carried_on(seq![]),
                (ActionView::Halt(_), ReplyView::Done) => self.carried_on(seq![]),
                (ActionView::Halt(_), ReplyView::Failed(_)) => self.carried_on(seq![]),
                (ActionView::Playback(command), ReplyView::Done) => SessionView {
                    active_command: match command.action {
                        PlaybackAction::Play | PlaybackAction::Switch | PlaybackAction::Resume => {
                            Some(
                                ActiveCommandView {
                                    command_id: command.command_id,
                                    route_epoch: command.route_epoch,
                                    duration_ms: match command.duration_ms {
                                        Some(duration_ms) => duration_ms,
                                        None => 0,
                                    },
                                },
                            )
                        },
                        PlaybackAction::Stop => None,
                        _ => self.active_command,
                    },
                    ..self
                }.carried_on(seq![]),
                (ActionView::Playback(command), ReplyView::Failed(error)) => self.carried_on(
                    seq![playback_error(command, error)],
                ),
                (ActionView::Mix { revision, .. }, ReplyView::Done) => self.carried_on(
                    seq![
                        TaskView::Do(
                            ActionView::Send(
                                AgentMessageView::MixerSent {
                                    schema_version: SCHEMA_VERSION,
                                    revision,
                                },
                            ),
                        ),
                    ],
                ),
                (ActionView::Mix { revision, .. }, ReplyView::Failed(error)) => self.carried_on(
                    seq![
                        TaskView::Do(
                            ActionView::Send(
                                AgentMessageView::MixerError {
                                    schema_version: SCHEMA_VERSION,
                                    revision,
                                    error,
                                },
                            ),
                        ),
                    ],
                ),
                (ActionView::Cleanup { .. }, ReplyView::Done) => self.carried_on(seq![]),
                (ActionView::Cleanup { .. }, ReplyView::Failed(_)) => self.carried_on(seq![]),
                (ActionView::Send(_), ReplyView::Done) => self.carried_on(seq![]),
                (ActionView::Cancel { .. }, ReplyView::Done) => self.carried_on(seq![]),
                (ActionView::Start(_), ReplyView::Done) => self.carried_on(seq![]),
                (ActionView::Upload { .. }, ReplyView::Done) => self.carried_on(seq![]),
                (ActionView::Send(_), ReplyView::Failed(_)) => abort,
                (ActionView::Digest { .. }, ReplyView::Failed(_)) => abort,
                (ActionView::Finish { .. }, ReplyView::Failed(_)) => abort,
                (ActionView::Cancel { .. }, ReplyView::Failed(_)) => abort,
                (ActionView::Start(_), ReplyView::Failed(_)) => abort,
                (ActionView::Upload { .. }, ReplyView::Failed(_)) => abort,
                _ => (self, Flow::Ignored),
            }
        }
    }
}

/// A conversation with the server.
#[derive(Debug)]
pub struct Session {
    playback: PlaybackCoordinator,
    mixer: MixerRevision,
    active_command: Option<ActiveCommand>,
    active_recording: Option<String>,
    artifacts: Vec<(String, RecordingArtifact)>,
    agenda: VecDeque<Task>,
}

/// Takes under their ids, over texts.
pub open spec fn held_views(artifacts: Seq<(String, RecordingArtifact)>) -> Held {
    artifacts.map_values(|entry: (String, RecordingArtifact)| (entry.0@, entry.1@))
}

impl View for Session {
    type V = SessionView;

    closed spec fn view(&self) -> SessionView {
        SessionView {
            playback: self.playback@,
            mixer: self.mixer@,
            active_command: match self.active_command {
                Some(command) => Some(command@),
                None => None,
            },
            active_recording: optional_text(self.active_recording),
            artifacts: held_views(self.artifacts@),
            agenda: task_views(self.agenda@),
        }
    }
}

fn push_task(tasks: &mut VecDeque<Task>, task: Task)
    ensures
        task_views(final(tasks)@) == task_views(old(tasks)@).push(task@),
{
    let ghost before = task_views(tasks@);
    tasks.push_back(task);
    assert(task_views(tasks@) =~= before.push(task@));
}

/// The message on the state of a take.
fn recording_status(id: &String, state: &str, max_frame: u64, error: Option<&str>) -> (task: Task)
    ensures
        task@ == status_message(
            id@,
            state@,
            max_frame,
            match error {
                Some(error) => Some(error@),
                None => None,
            },
        ),
{
    Task::Do(
        Action::Send(
            AgentMessage::RecordingStatus {
                schema_version: SCHEMA_VERSION,
                recording_session_id: id.clone(),
                state: state.to_string(),
                max_frame,
                error: match error {
                    Some(error) => Some(error.to_string()),
                    None => None,
                },
            },
        ),
    )
}

/// Finds what the server has to know to allow the upload of a take.
fn request_upload(artifact: &RecordingArtifact) -> (task: Task)
    ensures
        task@ == TaskView::Do(
            ActionView::Digest {
                recording_session_id: artifact@.recording_session_id,
                flac_path: artifact@.flac_path,
            },
        ),
{
    Task::Do(
        Action::Digest {
            recording_session_id: artifact.recording_session_id.clone(),
            flac_path: artifact.flac_path.clone(),
        },
    )
}

/// Tells the server of a command that was not carried out.
fn error_message(command: &PlaybackCommand, error: &str) -> (task: Task)
    ensures
        task@ == playback_error(command@, error@),
{
    Task::Do(
        Action::Send(
            AgentMessage::PlaybackError {
                schema_version: SCHEMA_VERSION,
                command_id: command.command_id.clone(),
                route_epoch: command.route_epoch,
                error: error.to_string(),
            },
        ),
    )
}

/// The command that ends playback after a lost connection.
pub fn synthetic_stop() -> (command: PlaybackCommand)
    ensures
        command@ == stop_command(),
{
    PlaybackCommand {
        schema_version: SCHEMA_VERSION,
        command_id: "disconnect-timeout".to_string(),
        route_epoch: 0,
        action: PlaybackAction::Stop,
        queue_item_id: None,
        asset_id: None,
        media_url: None,
        position_ms: None,
        duration_ms: None,
        recording: None,
        recording_session_id: None,
        recording_disposition: None,
        previous_recording_session_id: None,
        previous_recording_disposition: None,
    }
}

/// Whether an optional text is there and is `wanted`.
fn is_text(value: &Option<String>, wanted: &str) -> (found: bool)
    ensures
        found == (optional_text(*value) == Some(wanted@)),
{
    match value {
        Some(value) => equals(value.as_str(), wanted),
        None => false,
    }
}

/// Adds what saves the take before, where the command asks for it.
fn push_save_previous(tasks: &mut VecDeque<Task>, command: &PlaybackCommand)
    ensures
        task_views(final(tasks)@) == task_views(old(tasks)@) + save_previous(command@),
{
    if is_text(&command.previous_recording_disposition, "save") {
        if let Some(id) = &command.previous_recording_session_id {
            push_task(tasks, Task::Do(Action::Finish { recording_session_id: id.clone() }));
        }
        push_task(tasks, Task::Then(Note::ClearRecording));
    }
    assert(task_views(tasks@) =~= task_views(old(tasks)@) + save_previous(command@));
}

/// Adds what drops the take, where the command asks for it.
fn push_discard_current(tasks: &mut VecDeque<Task>, command: &PlaybackCommand)
    ensures
        task_views(final(tasks)@) == task_views(old(tasks)@) + discard_current(command@),
{
    if is_text(&command.recording_disposition, "discard") {
        if let Some(id) = &command.recording_session_id {
            push_task(tasks, Task::Do(Action::Cancel { recording_session_id: id.clone() }));
            push_task(tasks, recording_status(id, "discarded", 0, None));
        }
        push_task(tasks, Task::Then(Note::ClearRecording));
    }
    assert(task_views(tasks@) =~= task_views(old(tasks)@) + discard_current(command@));
}

/// Adds what begins the take that a play command asks for.
fn push_begin_take(tasks: &mut VecDeque<Task>, link: &Link, command: &PlaybackCommand)
    ensures
        task_views(final(tasks)@) == task_views(old(tasks)@) + begin_take(link@, command@),
{
    let wanted: Option<&String> = match &command.recording {
        Some(directive) => if command.action == PlaybackAction::Play && directive.enabled {
            directive.recording_session_id.as_ref()
        } else {
            None
        },
        None => None,
    };
    if let Some(id) = wanted {
        match link.offset_frames {
            Some(offset_frames) => {
                proof {
                    reveal_strlit("");
                    assert(""@ =~= seq![]);
                }
                let request = RecordingStart {
                    recording_session_id: id.clone(),
                    queue_item_id: match &command.queue_item_id {
                        Some(queue_item_id) => queue_item_id.clone(),
                        None => "".to_string(),
                    },
                    spool_dir: link.spool_dir.clone(),
                    playback_to_capture_offset_frames: offset_frames,
                };
                push_task(tasks, Task::Do(Action::Start(request)));
                push_task(tasks, Task::Then(Note::SetRecording(id.clone())));
                push_task(tasks, recording_status(id, "recording", 0, None));
            },
            None => {
                push_task(tasks, recording_status(id, "failed", 0, Some("calibration_missing")));
            },
        }
    }
    assert(task_views(tasks@) =~= task_views(old(tasks)@) + begin_take(link@, command@));
}

impl Session {
    /// A session that says nothing yet. The takes in `artifacts` wait for their
    /// upload; of two with one id the later one counts.
    pub fn new(artifacts: Vec<RecordingArtifact>) -> (session: Self)
        ensures
            session@ == SessionView::initial(held_by_id(artifacts@)),
    {
        let mut session = Session {
            playback: PlaybackCoordinator::default(),
            mixer: MixerRevision::default(),
            active_command: None,
            active_recording: None,
            artifacts: Vec::new(),
            agenda: VecDeque::new(),
        };
        assert(session@.artifacts =~= seq![]);
        assert(session@.agenda =~= seq![]);
        let mut i: usize = 0;
        while i < artifacts.len()
            invariant
                i <= artifacts@.len(),
                session@ == SessionView::initial(held_by_id(artifacts@.take(i as int))),
            decreases artifacts@.len() - i,
        {
            let id = artifacts[i].recording_session_id.clone();
            let artifact = artifacts[i].clone();
            session.hold(id, artifact);
            proof {
                let more = artifacts@.take(i + 1);
                assert(more.drop_last() =~= artifacts@.take(i as int));
            }
            i = i + 1;
        }
        assert(artifacts@.take(i as int) =~= artifacts@);
        session
    }

    /// Holds `artifact` under `id`, in place of what was there.
    fn hold(&mut self, id: String, artifact: RecordingArtifact)
        ensures
            final(self)@ == (SessionView {
                artifacts: with_artifact(old(self)@.artifacts, id@, artifact@),
                ..old(self)@
            }),
    {
        self.forget(&id);
        let ghost before = self@.artifacts;
        self.artifacts.push((id, artifact));
        assert(self@.artifacts =~= before.push((id@, artifact@)));
    }

    /// Holds no take under `id` any longer.
    fn forget(&mut self, id: &String)
        ensures
            final(self)@ == (SessionView {
                artifacts: without(old(self)@.artifacts, id@),
                ..old(self)@
            }),
    {
        let ghost all = self@.artifacts;
        let ghost mut seen: int = 0;
        let mut i: usize = 0;
        assert(all.take(0) =~= seq![]);
        assert(all.skip(0) =~= all);
        while i < self.artifacts.len()
            invariant
                all == old(self)@.artifacts,
                0 <= seen <= all.len(),
                i <= self.artifacts@.len(),
                i == without(all.take(seen), id@).len(),
                self@.artifacts == without(all.take(seen), id@) + all.skip(seen),
                self@ == (SessionView { artifacts: self@.artifacts, ..old(self)@ }),
            decreases self.artifacts@.len() - i,
        {
            let ghost kept = without(all.take(seen), id@);
            let ghost held = self@.artifacts;
            assert(held[i as int] == all[seen]);
            assert(all.take(seen + 1).drop_last() =~= all.take(seen));
            assert(all.take(seen + 1).last() == all[seen]);
            if self.artifacts[i].0 == *id {
                let gone = self.artifacts.remove(i);
                assert(self@.artifacts =~= held.remove(i as int));
                assert(held.remove(i as int) =~= kept + all.skip(seen + 1));
            } else {
                assert(held =~= kept.push(all[seen]) + all.skip(seen + 1));
                i = i + 1;
            }
            proof {
                seen = seen + 1;
            }
        }
        assert(seen == all.len());
        assert(all.take(seen) =~= all);
        assert(self@.artifacts =~= without(all, id@));
    }

    /// The take held under `id`.
    fn held(&self, id: &String) -> (artifact: Option<&RecordingArtifact>)
        ensures
            match artifact {
                Some(artifact) => held_under(self@.artifacts, id@) == Some(artifact@),
                None => held_under(self@.artifacts, id@) is None,
            },
    {
        let mut i: usize = self.artifacts.len();
        assert(self@.artifacts.take(i as int) =~= self@.artifacts);
        while i > 0
            invariant
                i <= self.artifacts@.len(),
                held_under(self@.artifacts.take(i as int), id@) == held_under(
                    self@.artifacts,
                    id@,
                ),
            decreases i,
        {
            let ghost part = self@.artifacts.take(i as int);
            assert(part.drop_last() =~= self@.artifacts.take(i - 1));
            assert(part.last() == self@.artifacts[i - 1]);
            if self.artifacts[i - 1].0 == *id {
                return Some(&self.artifacts[i - 1].1);
            }
            i = i - 1;
        }
        None
    }

    /// Notes what stands in front of the agenda, up to what is to be done outside.
    fn settle(&mut self)
        ensures
            final(self)@ == old(self)@.settled(),
    {
        loop
            invariant
                self@.settled() == old(self)@.settled(),
            ensures
                self@ == old(self)@.settled(),
            decreases self.agenda@.len(),
        {
            if self.agenda.len() == 0 {
                break;
            }
            match &self.agenda[0] {
                Task::Do(_) => {
                    assert(self@.agenda[0] is Do);
                    break;
                },
                Task::Then(_) => {},
            }
            let ghost before = self@;
            let task = self.agenda.pop_front();
            assert(task_views(self.agenda@) =~= before.agenda.drop_first());
            match task {
                Some(Task::Then(note)) => {
                    assert(before.agenda[0] == TaskView::Then(note@));
                    match note {
                        Note::ClearCommand => {
                            self.active_command = None;
                        },
                        Note::ClearRecording => {
                            self.active_recording = None;
                        },
                        Note::SetRecording(id) => {
                            self.active_recording = Some(id);
                        },
                        Note::Forget(id) => {
                            self.forget(&id);
                        },
                    }
                },
                _ => {},
            }
        }
    }

    /// Takes `tasks` for the agenda.
    fn face(&mut self, tasks: VecDeque<Task>)
        ensures
            final(self)@ == old(self)@.facing(task_views(tasks@)),
    {
        self.agenda = tasks;
        self.settle();
    }
}

impl Session {
    /// The connection stands: the agent says who it is, and which takes it still
    /// holds.
    pub fn on_connected(&mut self, link: &Link)
        ensures
            final(self)@ == old(self)@.connected(link@),
    {
        let mut tasks: VecDeque<Task> = VecDeque::new();
        assert(task_views(tasks@) =~= seq![]);
        push_task(
            &mut tasks,
            Task::Do(
                Action::Send(
                    AgentMessage::Hello {
                        schema_version: SCHEMA_VERSION,
                        agent_id: link.agent_id.clone(),
                        version: crate::VERSION.to_string(),
                        snapshot_slot: link.snapshot_slot,
                        capabilities: capabilities(),
                        health: link.health.clone(),
                    },
                ),
            ),
        );
        let ghost hello = task_views(tasks@);
        let mut i: usize = 0;
        assert(self@.artifacts.take(0) =~= seq![]);
        assert(hello + announce_all(seq![]) =~= hello);
        while i < self.artifacts.len()
            invariant
                i <= self.artifacts@.len(),
                task_views(tasks@) == hello + announce_all(self@.artifacts.take(i as int)),
            decreases self.artifacts@.len() - i,
        {
            let artifact = &self.artifacts[i].1;
            let state = if artifact.interrupted {
                "interrupted"
            } else {
                "encoding"
            };
            let ghost before = task_views(tasks@);
            push_task(
                &mut tasks,
                recording_status(
                    &artifact.recording_session_id,
                    state,
                    artifact.max_frame,
                    None,
                ),
            );
            push_task(&mut tasks, request_upload(artifact));
            proof {
                let more = self@.artifacts.take(i + 1);
                assert(more.drop_last() =~= self@.artifacts.take(i as int));
                assert(more.last().1 == artifact@);
                assert(task_views(tasks@) =~= before + announce(artifact@, state@));
                assert(task_views(tasks@) =~= hello + announce_all(more));
            }
            i = i + 1;
        }
        assert(self@.artifacts.take(i as int) =~= self@.artifacts);
        assert(hello =~= seq![hello[0]]);
        self.face(tasks);
    }

    /// A heartbeat is due.
    pub fn on_heartbeat(&mut self, link: &Link)
        ensures
            final(self)@ == old(self)@.beating(link@),
    {
        let mut tasks: VecDeque<Task> = VecDeque::new();
        push_task(
            &mut tasks,
            Task::Do(
                Action::Send(
                    AgentMessage::Heartbeat {
                        schema_version: SCHEMA_VERSION,
                        agent_id: link.agent_id.clone(),
                        health: link.health.clone(),
                    },
                ),
            ),
        );
        assert(task_views(tasks@) =~= seq![task_views(tasks@)[0]]);
        self.face(tasks);
    }

    /// The state of playback is due, with playback at `anchor`.
    pub fn on_status(&mut self, anchor: Option<Anchor>)
        ensures
            final(self)@ == old(self)@.reporting(anchor),
    {
        let mut tasks: VecDeque<Task> = VecDeque::new();
        assert(task_views(tasks@) =~= seq![]);
        if let (Some(command), Some(anchor)) = (&self.active_command, anchor) {
            let duration: u128 = command.duration_ms as u128;
            let rate: u128 = anchor.rate as u128;
            assert(duration * rate <= 0xffff_ffff_ffff_ffff * 0xffff_ffff) by (nonlinear_arith)
                requires
                    duration <= 0xffff_ffff_ffff_ffff,
                    rate <= 0xffff_ffff,
            ;
            let product: u128 = duration * rate;
            let ended = command.duration_ms > 0 && anchor.frame as u128 >= product / 1_000;
            push_task(
                &mut tasks,
                Task::Do(
                    Action::Send(
                        AgentMessage::PlaybackStatus {
                            schema_version: SCHEMA_VERSION,
                            command_id: command.command_id.clone(),
                            route_epoch: command.route_epoch,
                            state: if ended {
                                "ended".to_string()
                            } else {
                                "playing".to_string()
                            },
                            sample_frame: anchor.frame,
                            sample_rate: anchor.rate,
                            duration_ms: command.duration_ms,
                            anchor_monotonic_ms: anchor.monotonic_ms,
                        },
                    ),
                ),
            );
            let ghost status = task_views(tasks@)[0];
            assert(task_views(tasks@) =~= seq![status]);
            if ended {
                if let Some(id) = &self.active_recording {
                    push_task(&mut tasks, Task::Then(Note::ClearRecording));
                    push_task(
                        &mut tasks,
                        Task::Do(Action::Finish { recording_session_id: id.clone() }),
                    );
                }
                push_task(&mut tasks, Task::Then(Note::ClearCommand));
                assert(task_views(tasks@) =~= seq![status] + self@.finish_current() + seq![
                    TaskView::Then(NoteView::ClearCommand),
                ]);
            }
        }
        self.face(tasks);
    }

    /// A message came. Where the connection has to be given up for it, the reason is
    /// the error.
    pub fn on_message(&mut self, link: &Link, message: &ServerMessage) -> (result: Result<
        (),
        String,
    >)
        requires
            urls_fit(link@, *message),
        ensures
            ({
                let (next, reason) = old(self)@.received(link@, *message);
                &&& final(self)@ == next
                &&& match result {
                    Ok(_) => reason is None,
                    Err(error) => reason == Some(error@),
                }
            }),
    {
        let mut tasks: VecDeque<Task> = VecDeque::new();
        assert(task_views(tasks@) =~= seq![]);
        match message {
            ServerMessage::PlaybackCommand(command) => match self.playback.apply(command) {
                ApplyResult::Duplicate => {},
                ApplyResult::StaleEpoch => {
                    push_task(&mut tasks, error_message(command, "stale_route_epoch"));
                    assert(task_views(tasks@) =~= seq![
                        playback_error(command@, "stale_route_epoch"@),
                    ]);
                },
                ApplyResult::Apply => {
                    push_save_previous(&mut tasks, command);
                    push_discard_current(&mut tasks, command);
                    push_begin_take(&mut tasks, link, command);
                    let copy: PlaybackCommand = (**command).clone();
                    push_task(&mut tasks, Task::Do(Action::Playback(copy)));
                    assert(task_views(tasks@) =~= command_tasks(link@, command@));
                },
            },
            ServerMessage::MixerApply { revision, desired, .. } => {
                match self.mixer.apply(*revision) {
                    ApplyResult::StaleEpoch | ApplyResult::Duplicate => {},
                    ApplyResult::Apply => {
                        push_task(
                            &mut tasks,
                            Task::Do(
                                Action::Mix {
                                    revision: *revision,
                                    desired: *desired,
                                    snapshot_slot: link.snapshot_slot,
                                },
                            ),
                        );
                        assert(task_views(tasks@) =~= seq![task_views(tasks@)[0]]);
                    },
                }
            },
            ServerMessage::RecordingCancel { recording_session_id, .. } => {
                push_task(
                    &mut tasks,
                    Task::Do(
                        Action::Cancel { recording_session_id: recording_session_id.clone() },
                    ),
                );
                push_task(&mut tasks, Task::Then(Note::ClearRecording));
                push_task(&mut tasks, recording_status(recording_session_id, "discarded", 0, None));
                assert(task_views(tasks@) =~= seq![
                    TaskView::Do(
                        ActionView::Cancel { recording_session_id: recording_session_id@ },
                    ),
                    TaskView::Then(NoteView::ClearRecording),
                    status_message(recording_session_id@, "discarded"@, 0, None),
                ]);
            },
            ServerMessage::RecordingUploadAuthorized {
                recording_session_id,
                upload_url,
                error,
                ..
            } => {
                if error.is_none() {
                    if let Some(upload_url) = upload_url {
                        let url = join_url(link.server_url.as_str(), upload_url.as_str());
                        return self.on_upload_authorized(recording_session_id, url);
                    }
                }
            },
            ServerMessage::HelloAck { .. } | ServerMessage::Unknown => {},
        }
        self.face(tasks);
        Ok(())
    }

    /// The upload of a take is allowed to `url`, or there is no such URL for the reason
    /// given. Where the connection has to be given up for it, the reason is the error.
    pub fn on_upload_authorized(
        &mut self,
        recording_session_id: &String,
        url: Result<String, String>,
    ) -> (result: Result<(), String>)
        ensures
            ({
                let (next, reason) = old(self)@.authorized(recording_session_id@, result_text(url));
                &&& final(self)@ == next
                &&& match result {
                    Ok(_) => reason is None,
                    Err(error) => reason == Some(error@),
                }
            }),
    {
        let mut tasks: VecDeque<Task> = VecDeque::new();
        assert(task_views(tasks@) =~= seq![]);
        let mut result: Result<(), String> = Ok(());
        if let Some(artifact) = self.held(recording_session_id) {
            match url {
                Ok(url) => {
                    let ghost place = url@;
                    push_task(
                        &mut tasks,
                        Task::Do(Action::Upload { url, flac_path: artifact.flac_path.clone() }),
                    );
                    let paths = cleanup_artifact(artifact);
                    push_task(&mut tasks, Task::Do(Action::Cleanup { paths }));
                    push_task(&mut tasks, Task::Then(Note::Forget(recording_session_id.clone())));
                    assert(task_views(tasks@) =~= seq![
                        TaskView::Do(
                            ActionView::Upload { url: place, flac_path: artifact@.flac_path },
                        ),
                        TaskView::Do(ActionView::Cleanup { paths: spool_files(artifact@) }),
                        TaskView::Then(NoteView::Forget(recording_session_id@)),
                    ]);
                },
                Err(reason) => {
                    result = Err(reason);
                },
            }
        }
        self.face(tasks);
        result
    }

    /// The connection was lost for too long, or for good: playback stops, and the take
    /// is kept.
    pub fn on_interrupted(&mut self)
        ensures
            final(self)@ == old(self)@.interrupted(),
    {
        let mut tasks: VecDeque<Task> = VecDeque::new();
        push_task(&mut tasks, Task::Do(Action::Halt(synthetic_stop())));
        push_task(&mut tasks, Task::Then(Note::ClearCommand));
        let ghost halt = seq![
            TaskView::Do(ActionView::Halt(stop_command())),
            TaskView::Then(NoteView::ClearCommand),
        ];
        assert(task_views(tasks@) =~= halt);
        if let Some(id) = &self.active_recording {
            push_task(&mut tasks, Task::Then(Note::ClearRecording));
            push_task(&mut tasks, Task::Do(Action::Preserve { recording_session_id: id.clone() }));
            assert(task_views(tasks@) =~= halt + seq![
                TaskView::Then(NoteView::ClearRecording),
                TaskView::Do(ActionView::Preserve { recording_session_id: id@ }),
            ]);
        } else {
            assert(halt =~= halt + seq![]);
        }
        self.face(tasks);
    }

    /// The connection is gone: what was still to be done is dropped.
    pub fn on_lost(&mut self)
        ensures
            final(self)@ == (SessionView { agenda: seq![], ..old(self)@ }),
    {
        self.agenda = VecDeque::new();
        assert(task_views(self.agenda@) =~= seq![]);
    }

    /// What is to be done next.
    pub fn action(&self) -> (action: Option<&Action>)
        ensures
            match action {
                Some(action) => self@.agenda.len() > 0 && self@.agenda[0] == TaskView::Do(action@),
                None => self@.agenda.len() == 0 || !(self@.agenda[0] is Do),
            },
    {
        if self.agenda.len() == 0 {
            return None;
        }
        assert(self@.agenda[0] == self.agenda@[0]@);
        match &self.agenda[0] {
            Task::Do(action) => Some(action),
            Task::Then(_) => None,
        }
    }

    /// Goes on with `tasks`, and then with the agenda.
    fn carry_on(&mut self, mut tasks: VecDeque<Task>) -> (flow: Flow)
        ensures
            final(self)@ == old(self)@.facing(task_views(tasks@) + old(self)@.agenda),
            flow == Flow::Continue,
    {
        let ghost first = task_views(tasks@);
        tasks.append(&mut self.agenda);
        assert(task_views(tasks@) =~= first + old(self)@.agenda);
        self.face(tasks);
        Flow::Continue
    }

    /// Gives up the connection.
    fn abort(&mut self) -> (flow: Flow)
        ensures
            final(self)@ == (SessionView { agenda: seq![], ..old(self)@ }),
            flow == Flow::Abort,
    {
        self.on_lost();
        Flow::Abort
    }

    /// The first thing on the agenda turned out as `reply` says.
    #[verifier::rlimit(60)]
    pub fn resume(&mut self, reply: Reply) -> (flow: Flow)
        ensures
            (final(self)@, flow) == old(self)@.resumed(reply@),
    {
        let ghost before = self@;
        let task = match self.agenda.pop_front() {
            Some(task) => task,
            None => {
                return Flow::Ignored;
            },
        };
        assert(before.agenda[0] == task@);
        assert(self@.agenda =~= before.agenda.drop_first());
        let action = match task {
            Task::Do(action) => action,
            Task::Then(note) => {
                self.agenda.push_front(Task::Then(note));
                assert(self@.agenda =~= before.agenda);
                return Flow::Ignored;
            },
        };
        let mut tasks: VecDeque<Task> = VecDeque::new();
        assert(task_views(tasks@) =~= seq![]);
        match (action, reply) {
            (Action::Digest { recording_session_id, .. }, Reply::Digest { sha256, size_bytes }) => {
                push_task(
                    &mut tasks,
                    Task::Do(
                        Action::Send(
                            AgentMessage::RecordingUploadRequest {
                                schema_version: SCHEMA_VERSION,
                                recording_session_id,
                                sha256,
                                size_bytes,
                            },
                        ),
                    ),
                );
                assert(task_views(tasks@) =~= seq![task_views(tasks@)[0]]);
                self.carry_on(tasks)
            },
            (Action::Finish { recording_session_id }, Reply::Finished(Some(artifact))) => {
                push_task(
                    &mut tasks,
                    recording_status(
                        &artifact.recording_session_id,
                        "encoding",
                        artifact.max_frame,
                        None,
                    ),
                );
                push_task(&mut tasks, request_upload(&artifact));
                assert(task_views(tasks@) =~= announce(artifact@, "encoding"@));
                self.hold(recording_session_id, artifact);
                self.carry_on(tasks)
            },
            (Action::Finish { .. }, Reply::Finished(None)) => self.carry_on(tasks),
            (Action::Preserve { recording_session_id }, Reply::Finished(Some(artifact))) => {
                self.hold(recording_session_id, artifact);
                self.carry_on(tasks)
            },
            (Action::Preserve { .. }, Reply::Finished(None)) => self.carry_on(tasks),
            (Action::Preserve { .. }, Reply::Failed(_)) => self.carry_on(tasks),
            (Action::Halt(_), Reply::Done) => self.carry_on(tasks),
            (Action::Halt(_), Reply::Failed(_)) => self.carry_on(tasks),
            (Action::Playback(command), Reply::Done) => {
                match command.action {
                    PlaybackAction::Play | PlaybackAction::Switch | PlaybackAction::Resume => {
                        self.active_command = Some(
                            ActiveCommand {
                                command_id: command.command_id,
                                route_epoch: command.route_epoch,
                                duration_ms: match command.duration_ms {
                                    Some(duration_ms) => duration_ms,
                                    None => 0,
                                },
                            },
                        );
                    },
                    PlaybackAction::Stop => {
                        self.active_command = None;
                    },
                    _ => {},
                }
                self.carry_on(tasks)
            },
            (Action::Playback(command), Reply::Failed(error)) => {
                push_task(&mut tasks, error_message(&command, error.as_str()));
                assert(task_views(tasks@) =~= seq![playback_error(command@, error@)]);
                self.carry_on(tasks)
            },
            (Action::Mix { revision, .. }, Reply::Done) => {
                push_task(
                    &mut tasks,
                    Task::Do(
                        Action::Send(
                            AgentMessage::MixerSent { schema_version: SCHEMA_VERSION, revision },
                        ),
                    ),
                );
                assert(task_views(tasks@) =~= seq![task_views(tasks@)[0]]);
                self.carry_on(tasks)
            },
            (Action::Mix { revision, .. }, Reply::Failed(error)) => {
                push_task(
                    &mut tasks,
                    Task::Do(
                        Action::Send(
                            AgentMessage::MixerError {
                                schema_version: SCHEMA_VERSION,
                                revision,
                                error,
                            },
                        ),
                    ),
                );
                assert(task_views(tasks@) =~= seq![task_views(tasks@)[0]]);
                self.carry_on(tasks)
            },
            (Action::Cleanup { .. }, Reply::Done) => self.carry_on(tasks),
            (Action::Cleanup { .. }, Reply::Failed(_)) => self.carry_on(tasks),
            (Action::Send(_), Reply::Done) => self.carry_on(tasks),
            (Action::Cancel { .. }, Reply::Done) => self.carry_on(tasks),
            (Action::Start(_), Reply::Done) => self.carry_on(tasks),
            (Action::Upload { .. }, Reply::Done) => self.carry_on(tasks),
            (Action::Send(_), Reply::Failed(_)) => self.abort(),
            (Action::Digest { .. }, Reply::Failed(_)) => self.abort(),
            (Action::Finish { .. }, Reply::Failed(_)) => self.abort(),
            (Action::Cancel { .. }, Reply::Failed(_)) => self.abort(),
            (Action::Start(_), Reply::Failed(_)) => self.abort(),
            (Action::Upload { .. }, Reply::Failed(_)) => self.abort(),
            (action, _) => {
                self.agenda.push_front(Task::Do(action));
                assert(self@.agenda =~= before.agenda);
                Flow::Ignored
            },
        }
    }
}

/// Takes under their ids; of two with one id the later one counts.
pub open spec fn held_by_id(artifacts: Seq<RecordingArtifact>) -> Held
    decreases artifacts.len(),
{
    if artifacts.len() == 0 {
        seq![]
    } else {
        with_artifact(
            held_by_id(artifacts.drop_last()),
            artifacts.last()@.recording_session_id,
            artifacts.last()@,
        )
    }
}

/// A take is found under the id it is held under, and it alone has changed.
pub proof fn law_held_take_is_found(
    held: Held,
    id: Seq<char>,
    artifact: ArtifactView,
    other: Seq<char>,
)
    ensures
        held_under(with_artifact(held, id, artifact), id) == Some(artifact),
        held_under(without(held, id), id) is None,
        other != id ==> held_under(with_artifact(held, id, artifact), other) == held_under(
            held,
            other,
        ),
        other != id ==> held_under(without(held, id), other) == held_under(held, other),
{
    lemma_without(held, id, other);
    assert(with_artifact(held, id, artifact).drop_last() =~= without(held, id));
}

proof fn lemma_without(held: Held, id: Seq<char>, other: Seq<char>)
    ensures
        held_under(without(held, id), id) is None,
        other != id ==> held_under(without(held, id), other) == held_under(held, other),
        forall|i: int|
            0 <= i < without(held, id).len() ==> (#[trigger] without(held, id)[i]).0 != id,
    decreases held.len(),
{
    if held.len() > 0 {
        lemma_without(held.drop_last(), id, other);
        if held.last().0 != id {
            assert(without(held, id).drop_last() =~= without(held.drop_last(), id));
        }
    }
}

/// What is left was there before, in the same order.
proof fn lemma_without_is_part(held: Held, id: Seq<char>)
    requires
        distinct_ids(held),
    ensures
        distinct_ids(without(held, id)),
        forall|i: int|
            0 <= i < without(held, id).len() ==> exists|j: int|
                0 <= j < held.len() && (#[trigger] held[j]) == (#[trigger] without(held, id)[i]),
    decreases held.len(),
{
    if held.len() > 0 {
        let fewer = held.drop_last();
        lemma_without_is_part(fewer, id);
        assert forall|i: int| 0 <= i < without(held, id).len() implies exists|j: int|
            0 <= j < held.len() && (#[trigger] held[j]) == (#[trigger] without(held, id)[i]) by {
            if i < without(fewer, id).len() {
                assert(without(held, id)[i] == without(fewer, id)[i]);
                let j = choose|j: int|
                    0 <= j < fewer.len() && (#[trigger] fewer[j]) == without(fewer, id)[i];
                assert(held[j] == fewer[j]);
            } else {
                assert(held[held.len() - 1] == without(held, id)[i]);
            }
        }
        let left = without(held, id);
        assert forall|i: int, j: int| 0 <= i < j < left.len() implies (#[trigger] left[i]).0 != (
        #[trigger] left[j]).0 by {
            assert(left[i] == without(fewer, id)[i]);
            let m = choose|m: int|
                0 <= m < fewer.len() && (#[trigger] fewer[m]) == without(fewer, id)[i];
            assert(held[m] == fewer[m]);
            if j < without(fewer, id).len() {
                assert(left[j] == without(fewer, id)[j]);
            } else {
                assert(left[j] == held[held.len() - 1]);
            }
        }
    }
}

/// However takes come and go, no two are held under one id.
pub proof fn law_ids_stay_distinct(held: Held, id: Seq<char>, artifact: ArtifactView)
    requires
        distinct_ids(held),
    ensures
        distinct_ids(without(held, id)),
        distinct_ids(with_artifact(held, id, artifact)),
{
    lemma_without_is_part(held, id);
    lemma_without(held, id, id);
    let more = with_artifact(held, id, artifact);
    assert forall|i: int, j: int| 0 <= i < j < more.len() implies (#[trigger] more[i]).0 != (
    #[trigger] more[j]).0 by {
        assert(more[i] == without(held, id)[i]);
        if j < without(held, id).len() {
            assert(more[j] == without(held, id)[j]);
        }
    }
}

/// What is left of the agenda stood on it, behind the notes.
proof fn lemma_settled_is_suffix(session: SessionView) -> (noted: int)
    ensures
        0 <= noted <= session.agenda.len(),
        session.settled().agenda == session.agenda.skip(noted),
        forall|i: int| 0 <= i < noted ==> (#[trigger] session.agenda[i]) is Then,
        session.settled().agenda.len() > 0 ==> session.settled().agenda[0] is Do,
        session.settled().playback == session.playback,
        session.settled().mixer == session.mixer,
    decreases session.agenda.len(),
{
    if session.agenda.len() == 0 {
        assert(session.agenda.skip(0) =~= session.agenda);
        0
    } else {
        match session.agenda[0] {
            TaskView::Do(_) => {
                assert(session.agenda.skip(0) =~= session.agenda);
                0
            },
            TaskView::Then(note) => {
                let next = SessionView {
                    agenda: session.agenda.drop_first(),
                    ..session.noted(note)
                };
                let noted = lemma_settled_is_suffix(next);
                assert(next.agenda.skip(noted) =~= session.agenda.skip(noted + 1));
                assert forall|i: int| 0 <= i < noted + 1 implies (
                #[trigger] session.agenda[i]) is Then by {
                    if i > 0 {
                        assert(next.agenda[i - 1] == session.agenda[i]);
                    }
                }
                noted + 1
            },
        }
    }
}

/// A command that is stale or came before reaches the device in no form. The one is
/// answered with an error, the other with nothing.
pub proof fn law_refused_commands_do_nothing(
    session: SessionView,
    link: LinkView,
    command: Box<PlaybackCommand>,
)
    requires
        session.playback.step(command@.command_id, command@.route_epoch).0 != ApplyResult::Apply,
    ensures
        ({
            let (result, playback) = session.playback.step(
                command@.command_id,
                command@.route_epoch,
            );
            session.received(link, ServerMessage::PlaybackCommand(command)) == (
                SessionView {
                    playback,
                    agenda: if result == ApplyResult::StaleEpoch {
                        seq![playback_error(command@, "stale_route_epoch"@)]
                    } else {
                        seq![]
                    },
                    ..session
                },
                None::<Seq<char>>,
            )
        }),
{
}

/// No take is begun where the device is not calibrated, whatever the server says;
/// the server is told why.
#[verifier::rlimit(60)]
pub proof fn law_no_take_without_calibration(
    session: SessionView,
    link: LinkView,
    message: ServerMessage,
)
    requires
        link.offset_frames is None,
    ensures
        ({
            let agenda = session.received(link, message).0.agenda;
            &&& forall|i: int|
                0 <= i < agenda.len() ==> !((#[trigger] agenda[i]) matches TaskView::Do(
                    ActionView::Start(_),
                ))
            &&& message matches ServerMessage::PlaybackCommand(command) ==> (
            session.playback.step(command@.command_id, command@.route_epoch).0
                == ApplyResult::Apply ==> (wanted_take(command@) matches Some(id)
                ==> agenda.contains(
                status_message(id, "failed"@, 0, Some("calibration_missing"@)),
            )))
        }),
{
    let next = session.received(link, message).0;
    if let ServerMessage::PlaybackCommand(command) = message {
        let (result, playback) = session.playback.step(command@.command_id, command@.route_epoch);
        if result == ApplyResult::Apply {
            let tasks = command_tasks(link, command@);
            let facing = SessionView { playback, agenda: tasks, ..session };
            let noted = lemma_settled_is_suffix(facing);
            assert(next.agenda == tasks.skip(noted));
            assert forall|i: int| 0 <= i < tasks.len() implies !((
            #[trigger] tasks[i]) matches TaskView::Do(ActionView::Start(_))) by {}
            assert forall|i: int| 0 <= i < next.agenda.len() implies !((
            #[trigger] next.agenda[i]) matches TaskView::Do(ActionView::Start(_))) by {
                assert(next.agenda[i] == tasks[noted + i]);
            }
            if let Some(id) = wanted_take(command@) {
                let at = save_previous(command@).len() + discard_current(command@).len();
                let told = status_message(id, "failed"@, 0, Some("calibration_missing"@));
                assert(tasks[at as int] == told);
                assert(at >= noted) by {
                    if at < noted {
                        assert(tasks[at as int] is Then);
                    }
                }
                assert(next.agenda[at - noted] == told);
            }
        }
    }
}

proof fn lemma_announce_length(held: Held)
    ensures
        announce_all(held).len() == 2 * held.len(),
    decreases held.len(),
{
    if held.len() > 0 {
        lemma_announce_length(held.drop_last());
    }
}

proof fn lemma_announce_all(held: Held, i: int)
    requires
        0 <= i < held.len(),
    ensures
        announce_all(held).len() == 2 * held.len(),
        ({
            let artifact = held[i].1;
            let state = if artifact.interrupted {
                "interrupted"@
            } else {
                "encoding"@
            };
            &&& announce_all(held)[2 * i] == announce(artifact, state)[0]
            &&& announce_all(held)[2 * i + 1] == announce(artifact, state)[1]
        }),
    decreases held.len(),
{
    let fewer = held.drop_last();
    lemma_announce_length(fewer);
    if i < fewer.len() {
        lemma_announce_all(fewer, i);
    }
}

/// Once the connection stands, the agent says who it is, tells the server of every
/// take that it holds, and asks for its upload.
pub proof fn law_reconnect_announces_every_take(session: SessionView, link: LinkView, i: int)
    requires
        0 <= i < session.artifacts.len(),
    ensures
        ({
            let agenda = session.connected(link).agenda;
            let artifact = session.artifacts[i].1;
            let state = if artifact.interrupted {
                "interrupted"@
            } else {
                "encoding"@
            };
            &&& agenda.len() == 1 + 2 * session.artifacts.len()
            &&& agenda[0] matches TaskView::Do(ActionView::Send(AgentMessageView::Hello { .. }))
            &&& agenda[1 + 2 * i] == announce(artifact, state)[0]
            &&& agenda[2 + 2 * i] == announce(artifact, state)[1]
            &&& session.connected(link).artifacts == session.artifacts
        }),
{
    lemma_announce_all(session.artifacts, i);
}

/// When the connection was lost for too long, playback stops and the take is ended,
/// whatever fails on the way. A take that the device hands over is kept.
pub proof fn law_interruption_preserves_the_take(
    session: SessionView,
    halted: ReplyView,
    ended: ReplyView,
)
    requires
        halted is Done || halted is Failed,
        ended is Finished || ended is Failed,
    ensures
        ({
            let stopping = session.interrupted();
            let stopped = stopping.resumed(halted).0;
            &&& stopping.agenda[0] == TaskView::Do(ActionView::Halt(stop_command()))
            &&& stopped.active_command is None
            &&& stopped.active_recording is None
            &&& session.active_recording is None ==> stopped == (SessionView {
                active_command: None,
                agenda: seq![],
                ..session
            })
            &&& session.active_recording matches Some(id) ==> {
                &&& stopped.agenda == seq![
                    TaskView::Do(ActionView::Preserve { recording_session_id: id }),
                ]
                &&& stopped.resumed(ended).0 == (SessionView {
                    active_command: None,
                    active_recording: None,
                    artifacts: match ended {
                        ReplyView::Finished(Some(artifact)) => with_artifact(
                            session.artifacts,
                            id,
                            artifact,
                        ),
                        _ => session.artifacts,
                    },
                    agenda: seq![],
                    ..session
                })
            }
        }),
{
    reveal_with_fuel(SessionView::settled, 4);
    let stopping = session.interrupted();
    let rest = match session.active_recording {
        Some(id) => seq![
            TaskView::Then(NoteView::ClearRecording),
            TaskView::Do(ActionView::Preserve { recording_session_id: id }),
        ],
        None => seq![],
    };
    assert(stopping.agenda.drop_first() =~= seq![TaskView::Then(NoteView::ClearCommand)] + rest);
    let after = SessionView {
        agenda: seq![] + stopping.agenda.drop_first(),
        ..stopping
    };
    assert(after.agenda.drop_first() =~= rest);
    let stopped = stopping.resumed(halted).0;
    if let Some(id) = session.active_recording {
        let preserve = seq![TaskView::Do(ActionView::Preserve { recording_session_id: id })];
        assert(rest.drop_first() =~= preserve);
        assert(stopped.agenda =~= preserve);
        assert(seq![] + preserve.drop_first() =~= seq![]);
    } else {
        assert(rest =~= seq![]);
    }
}

/// Forgets a take.
pub open spec fn is_forget(task: TaskView) -> bool {
    task matches TaskView::Then(NoteView::Forget(_))
}

/// Removes the files of a take.
pub open spec fn is_cleanup(task: TaskView) -> bool {
    task matches TaskView::Do(ActionView::Cleanup { .. })
}

/// Uploads a take.
pub open spec fn is_upload(task: TaskView) -> bool {
    task matches TaskView::Do(ActionView::Upload { .. })
}

/// A take is forgotten only behind the removal of its files, and its files are
/// removed only behind its upload. What is to be done outside stands in front.
pub open spec fn uploads_come_first(agenda: Seq<TaskView>) -> bool {
    &&& agenda.len() > 0 ==> agenda[0] is Do
    &&& forall|i: int|
        0 < i < agenda.len() ==> {
            &&& is_forget(#[trigger] agenda[i]) ==> is_cleanup(agenda[i - 1])
            &&& is_cleanup(agenda[i]) ==> is_upload(agenda[i - 1])
        }
}

/// Neither forgets a take nor removes files.
spec fn is_harmless(task: TaskView) -> bool {
    !is_forget(task) && !is_cleanup(task)
}

/// Notes that stand in front of an agenda are noted; what is behind them stays in
/// order, and no take goes unless one of them says so.
proof fn lemma_facing_keeps_order(session: SessionView, tasks: Seq<TaskView>)
    requires
        forall|i: int|
            0 < i < tasks.len() ==> {
                &&& is_forget(#[trigger] tasks[i]) ==> is_cleanup(tasks[i - 1])
                &&& is_cleanup(tasks[i]) ==> is_upload(tasks[i - 1])
            },
    ensures
        uploads_come_first(session.facing(tasks).agenda),
        !(tasks.len() > 0 && is_forget(tasks[0]))
            ==> session.facing(tasks).artifacts == session.artifacts,
        session.facing(tasks).agenda.len() > 0 && is_cleanup(session.facing(tasks).agenda[0])
            ==> tasks[0] == session.facing(tasks).agenda[0],
{
    let facing = SessionView { agenda: tasks, ..session };
    let noted = lemma_settled_is_suffix(facing);
    let left = session.facing(tasks).agenda;
    assert(left == tasks.skip(noted));
    assert forall|i: int| 0 < i < left.len() implies {
        &&& is_forget(#[trigger] left[i]) ==> is_cleanup(left[i - 1])
        &&& is_cleanup(left[i]) ==> is_upload(left[i - 1])
    } by {
        assert(left[i] == tasks[noted + i]);
        assert(left[i - 1] == tasks[noted + i - 1]);
    }
    if left.len() > 0 {
        assert(left[0] == tasks[noted]);
        if noted > 0 {
            assert(tasks[noted - 1] is Then);
        }
    }
    if !(tasks.len() > 0 && is_forget(tasks[0])) {
        lemma_settled_keeps_takes(facing);
    }
}

/// Without a take to forget in front, settling forgets none.
proof fn lemma_settled_keeps_takes(session: SessionView)
    requires
        session.agenda.len() > 0 ==> !is_forget(session.agenda[0]),
        forall|i: int|
            0 < i < session.agenda.len() ==> (is_forget(#[trigger] session.agenda[i])
                ==> is_cleanup(session.agenda[i - 1])),
    ensures
        session.settled().artifacts == session.artifacts,
    decreases session.agenda.len(),
{
    if session.agenda.len() > 0 {
        if let TaskView::Then(note) = session.agenda[0] {
            let next = SessionView { agenda: session.agenda.drop_first(), ..session.noted(note) };
            if next.agenda.len() > 0 {
                assert(next.agenda[0] == session.agenda[1]);
            }
            assert forall|i: int|
                0 < i < next.agenda.len() && is_forget(#[trigger] next.agenda[i]) implies is_cleanup(
                next.agenda[i - 1],
            ) by {
                assert(next.agenda[i] == session.agenda[i + 1]);
                assert(next.agenda[i - 1] == session.agenda[i]);
            }
            lemma_settled_keeps_takes(next);
        }
    }
}

/// Whatever happens on a connection, no take goes but by an upload: neither what
/// the server says nor what is due removes one.
pub proof fn law_events_keep_every_take(
    session: SessionView,
    link: LinkView,
    message: ServerMessage,
    anchor: Option<Anchor>,
)
    ensures
        session.connected(link).artifacts == session.artifacts,
        session.beating(link).artifacts == session.artifacts,
        session.reporting(anchor).artifacts == session.artifacts,
        session.received(link, message).0.artifacts == session.artifacts,
        session.interrupted().artifacts == session.artifacts,
        uploads_come_first(session.connected(link).agenda),
        uploads_come_first(session.beating(link).agenda),
        uploads_come_first(session.reporting(anchor).agenda),
        uploads_come_first(session.received(link, message).0.agenda),
        uploads_come_first(session.interrupted().agenda),
{
    lemma_announce_length(session.artifacts);
    assert forall|i: int| 0 <= i < announce_all(session.artifacts).len() implies is_harmless(
        #[trigger] announce_all(session.artifacts)[i],
    ) by {
        lemma_announce_all(session.artifacts, i / 2);
    }
    assert forall|i: int|
        0 < i < session.connected(link).agenda.len() implies is_harmless(
        #[trigger] session.connected(link).agenda[i],
    ) by {
        assert(session.connected(link).agenda[i] == announce_all(session.artifacts)[i - 1]);
    }
    match (session.active_command, anchor) {
        (Some(command), Some(anchor)) => {
            let tasks = session.reporting(Some(anchor)).agenda;
            assert forall|i: int| 0 <= i < tasks.len() implies is_harmless(#[trigger] tasks[i]) by {}
        },
        _ => {},
    }
    let stopping = session.interrupted().agenda;
    assert forall|i: int| 0 <= i < stopping.len() implies is_harmless(#[trigger] stopping[i]) by {}
    if let ServerMessage::PlaybackCommand(command) = message {
        let (result, playback) = session.playback.step(command@.command_id, command@.route_epoch);
        if result == ApplyResult::Apply {
            let tasks = command_tasks(link, command@);
            assert forall|i: int| 0 <= i < tasks.len() implies is_harmless(#[trigger] tasks[i]) by {}
            lemma_facing_keeps_order(SessionView { playback, ..session }, tasks);
        }
    }
}

/// The tasks that take the place of the first thing on the agenda.
spec fn replacement(action: ActionView, reply: ReplyView) -> Seq<TaskView> {
    match (action, reply) {
        (ActionView::Finish { .. }, ReplyView::Finished(Some(artifact))) => announce(
            artifact,
            "encoding"@,
        ),
        (ActionView::Playback(command), ReplyView::Failed(error)) => seq![
            playback_error(command, error),
        ],
        (ActionView::Digest { recording_session_id, .. }, ReplyView::Digest {
            sha256,
            size_bytes,
        }) => seq![
            TaskView::Do(
                ActionView::Send(
                    AgentMessageView::RecordingUploadRequest {
                        schema_version: SCHEMA_VERSION,
                        recording_session_id,
                        sha256,
                        size_bytes,
                    },
                ),
            ),
        ],
        (ActionView::Mix { revision, .. }, ReplyView::Done) => seq![
            TaskView::Do(
                ActionView::Send(
                    AgentMessageView::MixerSent { schema_version: SCHEMA_VERSION, revision },
                ),
            ),
        ],
        (ActionView::Mix { revision, .. }, ReplyView::Failed(error)) => seq![
            TaskView::Do(
                ActionView::Send(
                    AgentMessageView::MixerError {
                        schema_version: SCHEMA_VERSION,
                        revision,
                        error,
                    },
                ),
            ),
        ],
        _ => seq![],
    }
}

/// The state that the first thing on the agenda leaves, before the agenda goes on.
spec fn marked(session: SessionView, reply: ReplyView) -> SessionView {
    match (session.agenda[0]->Do_0, reply) {
        (ActionView::Finish { recording_session_id }, ReplyView::Finished(Some(artifact))) => {
            SessionView {
                artifacts: with_artifact(session.artifacts, recording_session_id, artifact),
                ..session
            }
        },
        (ActionView::Preserve { recording_session_id }, ReplyView::Finished(Some(artifact))) => {
            SessionView {
                artifacts: with_artifact(session.artifacts, recording_session_id, artifact),
                ..session
            }
        },
        (ActionView::Playback(command), ReplyView::Done) => SessionView {
            active_command: session.resumed(reply).0.active_command,
            ..session
        },
        _ => session,
    }
}

proof fn lemma_resumed(session: SessionView, reply: ReplyView)
    requires
        uploads_come_first(session.agenda),
        session.resumed(reply).1 == Flow::Continue,
    ensures
        ({
            let tasks = replacement(session.agenda[0]->Do_0, reply) + session.agenda.drop_first();
            let next = session.resumed(reply).0;
            let after = marked(session, reply).facing(tasks);
            &&& next.agenda == after.agenda
            &&& next.artifacts == after.artifacts
        }),
{
    let tasks = replacement(session.agenda[0]->Do_0, reply) + session.agenda.drop_first();
    if let (ActionView::Playback(command), ReplyView::Done) = (session.agenda[0]->Do_0, reply) {
        let one = marked(session, reply);
        let two = SessionView {
            active_command: match command.action {
                PlaybackAction::Play | PlaybackAction::Switch | PlaybackAction::Resume => {
                    Some(
                        ActiveCommandView {
                            command_id: command.command_id,
                            route_epoch: command.route_epoch,
                            duration_ms: match command.duration_ms {
                                Some(duration_ms) => duration_ms,
                                None => 0,
                            },
                        },
                    )
                },
                PlaybackAction::Stop => None,
                _ => session.active_command,
            },
            ..session
        };
        lemma_settled_alike(
            SessionView { agenda: tasks, ..one },
            SessionView { agenda: tasks, ..two },
        );
    }
}

/// What is played has no part in how an agenda settles.
proof fn lemma_settled_alike(one: SessionView, two: SessionView)
    requires
        one.agenda == two.agenda,
        one.artifacts == two.artifacts,
    ensures
        one.settled().agenda == two.settled().agenda,
        one.settled().artifacts == two.settled().artifacts,
    decreases one.agenda.len(),
{
    if one.agenda.len() > 0 {
        if let TaskView::Then(note) = one.agenda[0] {
            lemma_settled_alike(
                SessionView { agenda: one.agenda.drop_first(), ..one.noted(note) },
                SessionView { agenda: two.agenda.drop_first(), ..two.noted(note) },
            );
        }
    }
}

/// A take goes only once its upload is done: it is forgotten when its files are
/// removed, and they are removed when the server has taken it. So a take whose
/// upload fails is kept.
pub proof fn law_take_goes_only_after_its_upload(
    session: SessionView,
    reply: ReplyView,
    id: Seq<char>,
)
    requires
        uploads_come_first(session.agenda),
    ensures
        ({
            let next = session.resumed(reply).0;
            let cleaning = session.agenda.len() > 0 && is_cleanup(session.agenda[0]);
            let uploading = session.agenda.len() > 0 && is_upload(session.agenda[0]);
            &&& uploads_come_first(next.agenda)
            &&& held_under(session.artifacts, id) is Some && !cleaning ==> held_under(
                next.artifacts,
                id,
            ) is Some
            &&& !cleaning && next.agenda.len() > 0 && is_cleanup(next.agenda[0]) ==> uploading
                && reply is Done
            &&& uploading && reply is Failed ==> next == (SessionView {
                agenda: seq![],
                ..session
            })
        }),
{
    let (next, flow) = session.resumed(reply);
    if flow == Flow::Continue {
        lemma_resumed(session, reply);
        lemma_replaced(session, reply);
        if held_under(session.artifacts, id) is Some {
            lemma_marked_keeps_takes(session, reply, id);
        }
    } else {
        lemma_not_continued(session, reply);
    }
    lemma_failed_upload(session, reply);
}

proof fn lemma_failed_upload(session: SessionView, reply: ReplyView)
    requires
        uploads_come_first(session.agenda),
    ensures
        session.agenda.len() > 0 && is_upload(session.agenda[0]) && reply is Failed
            ==> session.resumed(reply) == (SessionView { agenda: seq![], ..session }, Flow::Abort),
        session.agenda.len() > 0 && is_upload(session.agenda[0]) && session.resumed(reply).1
            == Flow::Continue ==> reply is Done,
{
}

proof fn lemma_not_continued(session: SessionView, reply: ReplyView)
    requires
        session.resumed(reply).1 != Flow::Continue,
    ensures
        session.resumed(reply).0.artifacts == session.artifacts,
        session.resumed(reply).0.agenda == Seq::<TaskView>::empty() || session.resumed(
            reply,
        ).0.agenda == session.agenda,
{
}

proof fn lemma_marked_keeps_takes(session: SessionView, reply: ReplyView, id: Seq<char>)
    requires
        session.agenda.len() > 0,
        session.agenda[0] is Do,
        held_under(session.artifacts, id) is Some,
    ensures
        held_under(marked(session, reply).artifacts, id) is Some,
{
    match (session.agenda[0]->Do_0, reply) {
        (ActionView::Finish { recording_session_id }, ReplyView::Finished(Some(artifact))) => {
            law_held_take_is_found(session.artifacts, recording_session_id, artifact, id);
        },
        (ActionView::Preserve { recording_session_id }, ReplyView::Finished(Some(artifact))) => {
            law_held_take_is_found(session.artifacts, recording_session_id, artifact, id);
        },
        _ => {},
    }
}

/// What takes the place of the first thing on the agenda keeps the order of the
/// rest.
proof fn lemma_replaced(session: SessionView, reply: ReplyView)
    requires
        session.agenda.len() > 0,
        uploads_come_first(session.agenda),
    ensures
        ({
            let action = session.agenda[0]->Do_0;
            let before = marked(session, reply);
            let after = before.facing(replacement(action, reply) + session.agenda.drop_first());
            &&& uploads_come_first(after.agenda)
            &&& !is_cleanup(session.agenda[0]) ==> after.artifacts == before.artifacts
            &&& !is_cleanup(session.agenda[0]) && after.agenda.len() > 0 && is_cleanup(
                after.agenda[0],
            ) ==> is_upload(session.agenda[0])
        }),
{
    let action = session.agenda[0]->Do_0;
    let rest = session.agenda.drop_first();
    let first = replacement(action, reply);
    let tasks = first + rest;
    assert forall|i: int| 0 <= i < first.len() implies is_harmless(#[trigger] first[i]) by {}
    assert(is_upload(session.agenda[0]) || is_cleanup(session.agenda[0]) ==> first.len() == 0);
    assert forall|i: int| 0 < i < tasks.len() implies {
        &&& is_forget(#[trigger] tasks[i]) ==> is_cleanup(tasks[i - 1])
        &&& is_cleanup(tasks[i]) ==> is_upload(tasks[i - 1])
    } by {
        if i < first.len() {
            assert(tasks[i] == first[i]);
        } else {
            let j = i - first.len() + 1;
            assert(tasks[i] == session.agenda[j]);
            if i > first.len() {
                assert(tasks[i - 1] == session.agenda[j - 1]);
            } else {
                assert(j == 1);
            }
        }
    }
    if first.len() > 0 {
        assert(tasks[0] == first[0]);
    } else if rest.len() > 0 {
        assert(tasks[0] == session.agenda[1]);
    }
    lemma_facing_keeps_order(marked(session, reply), tasks);
}

/// How many outcomes a task can still wait for.
pub open spec fn task_work(task: TaskView) -> nat {
    match task {
        TaskView::Then(_) => 0,
        TaskView::Do(ActionView::Finish { .. }) => 4,
        TaskView::Do(ActionView::Digest { .. }) => 2,
        TaskView::Do(ActionView::Playback(_)) => 2,
        TaskView::Do(ActionView::Mix { .. }) => 2,
        TaskView::Do(_) => 1,
    }
}

/// How many outcomes an agenda can still wait for.
pub open spec fn work(agenda: Seq<TaskView>) -> nat
    decreases agenda.len(),
{
    if agenda.len() == 0 {
        0
    } else {
        task_work(agenda[0]) + work(agenda.drop_first())
    }
}

proof fn lemma_work_append(first: Seq<TaskView>, second: Seq<TaskView>)
    ensures
        work(first + second) == work(first) + work(second),
    decreases first.len(),
{
    if first.len() == 0 {
        assert(first + second =~= second);
    } else {
        lemma_work_append(first.drop_first(), second);
        assert((first + second).drop_first() =~= first.drop_first() + second);
    }
}

/// Every outcome leaves less to wait for, so every agenda comes to its end and the
/// agent listens to the server again.
pub proof fn law_every_agenda_ends(session: SessionView, reply: ReplyView)
    requires
        uploads_come_first(session.agenda),
        session.resumed(reply).1 != Flow::Ignored,
    ensures
        work(session.resumed(reply).0.agenda) < work(session.agenda),
{
    let (next, flow) = session.resumed(reply);
    assert(session.agenda[0] is Do);
    assert(work(session.agenda) == task_work(session.agenda[0]) + work(
        session.agenda.drop_first(),
    ));
    if flow == Flow::Continue {
        let first = replacement(session.agenda[0]->Do_0, reply);
        let rest = session.agenda.drop_first();
        lemma_resumed(session, reply);
        let facing = SessionView { agenda: first + rest, ..marked(session, reply) };
        let noted = lemma_settled_is_suffix(facing);
        let tasks = first + rest;
        assert(tasks =~= tasks.take(noted) + tasks.skip(noted));
        lemma_work_append(tasks.take(noted), tasks.skip(noted));
        lemma_work_append(first, rest);
        reveal_with_fuel(work, 4);
    }
}

/// A song that ends while it is recorded: its take is saved and offered to the
/// server, and nothing is played or captured any longer.
pub proof fn law_end_of_song_saves_the_take(
    session: SessionView,
    anchor: Anchor,
    id: Seq<char>,
    artifact: ArtifactView,
    sha256: Seq<char>,
    size_bytes: u64,
)
    requires
        session.active_recording == Some(id),
        session.active_command matches Some(command) && has_ended(command.duration_ms, anchor),
    ensures
        ({
            let told = session.reporting(Some(anchor)).resumed(ReplyView::Done).0;
            let ended = told.resumed(ReplyView::Finished(Some(artifact))).0;
            let offered = ended.resumed(ReplyView::Done).0.resumed(
                ReplyView::Digest { sha256, size_bytes },
            ).0;
            &&& told.agenda[0] == TaskView::Do(ActionView::Finish { recording_session_id: id })
            &&& held_under(ended.artifacts, id) == Some(artifact)
            &&& ended.agenda[0] == announce(artifact, "encoding"@)[0]
            &&& offered.agenda[0] == TaskView::Do(
                ActionView::Send(
                    AgentMessageView::RecordingUploadRequest {
                        schema_version: SCHEMA_VERSION,
                        recording_session_id: artifact.recording_session_id,
                        sha256,
                        size_bytes,
                    },
                ),
            )
            &&& offered.resumed(ReplyView::Done).0 == (SessionView {
                active_command: None,
                active_recording: None,
                artifacts: with_artifact(session.artifacts, id, artifact),
                agenda: seq![],
                ..session
            })
        }),
{
    reveal_with_fuel(SessionView::settled, 3);
    let clear = TaskView::Then(NoteView::ClearCommand);
    let finish = TaskView::Do(ActionView::Finish { recording_session_id: id });
    let reporting = session.reporting(Some(anchor));
    assert(reporting.agenda.drop_first() =~= seq![
        TaskView::Then(NoteView::ClearRecording),
        finish,
        clear,
    ]);
    let told = reporting.resumed(ReplyView::Done).0;
    assert(told.agenda =~= seq![finish, clear]);
    assert(told.agenda.drop_first() =~= seq![clear]);
    let ended = told.resumed(ReplyView::Finished(Some(artifact))).0;
    assert(ended.agenda =~= announce(artifact, "encoding"@).push(clear));
    let sent = ended.resumed(ReplyView::Done).0;
    assert(sent.agenda =~= seq![announce(artifact, "encoding"@)[1], clear]);
    let offered = sent.resumed(ReplyView::Digest { sha256, size_bytes }).0;
    assert(offered.agenda.drop_first() =~= seq![clear]);
    assert(seq![clear].drop_first() =~= seq![]);
    law_held_take_is_found(session.artifacts, id, artifact, id);
    let last = offered.resumed(ReplyView::Done).0;
    assert(last.agenda =~= seq![]);
}

/// A play command that is to be recorded: the take is begun before playback, and
/// once both stand the session knows them.
pub proof fn law_recorded_song_is_captured_and_played(
    session: SessionView,
    link: LinkView,
    command: Box<PlaybackCommand>,
    id: Seq<char>,
)
    requires
        session.playback.step(command@.command_id, command@.route_epoch).0 == ApplyResult::Apply,
        link.offset_frames is Some,
        wanted_take(command@) == Some(id),
        save_previous(command@).len() == 0,
        discard_current(command@).len() == 0,
    ensures
        ({
            let asked = session.received(link, ServerMessage::PlaybackCommand(command)).0;
            let begun = asked.resumed(ReplyView::Done).0;
            let playing = begun.resumed(ReplyView::Done).0.resumed(ReplyView::Done).0;
            &&& asked.agenda[0] matches TaskView::Do(ActionView::Start(request))
                && request.recording_session_id == id && request.spool_dir == link.spool_dir
                && Some(request.playback_to_capture_offset_frames) == link.offset_frames
            &&& begun.active_recording == Some(id)
            &&& begun.agenda == seq![
                status_message(id, "recording"@, 0, None),
                TaskView::Do(ActionView::Playback(command@)),
            ]
            &&& playing.agenda == Seq::<TaskView>::empty()
            &&& playing.active_recording == Some(id)
            &&& playing.active_command matches Some(active)
            &&& active.command_id == command@.command_id
            &&& active.route_epoch == command@.route_epoch
        }),
{
    reveal_with_fuel(SessionView::settled, 3);
    let play = TaskView::Do(ActionView::Playback(command@));
    let begin = begin_take(link, command@);
    let tasks = command_tasks(link, command@);
    assert(tasks =~= seq![begin[0], begin[1], begin[2], play]);
    let asked = session.received(link, ServerMessage::PlaybackCommand(command)).0;
    assert(asked.agenda == tasks);
    assert(seq![] + tasks.drop_first() =~= seq![begin[1], begin[2], play]);
    assert(seq![begin[1], begin[2], play].drop_first() =~= seq![begin[2], play]);
    let begun = asked.resumed(ReplyView::Done).0;
    assert(begun.agenda =~= seq![begin[2], play]);
    assert(seq![] + begun.agenda.drop_first() =~= seq![play]);
    let told = begun.resumed(ReplyView::Done).0;
    assert(told.agenda =~= seq![play]);
    assert(seq![] + told.agenda.drop_first() =~= seq![]);
}

/// A take whose upload is allowed is uploaded, its files are removed, and only then
/// is it forgotten.
pub proof fn law_uploaded_take_is_removed(
    session: SessionView,
    id: Seq<char>,
    url: Seq<char>,
    artifact: ArtifactView,
    cleaned: ReplyView,
)
    requires
        held_under(session.artifacts, id) == Some(artifact),
        cleaned is Done || cleaned is Failed,
    ensures
        ({
            let allowed = session.authorized(id, Ok(url)).0;
            let uploaded = allowed.resumed(ReplyView::Done).0;
            let removed = uploaded.resumed(cleaned).0;
            &&& allowed.agenda[0] == TaskView::Do(
                ActionView::Upload { url, flac_path: artifact.flac_path },
            )
            &&& uploaded.agenda[0] == TaskView::Do(
                ActionView::Cleanup { paths: spool_files(artifact) },
            )
            &&& held_under(uploaded.artifacts, id) == Some(artifact)
            &&& removed == (SessionView {
                artifacts: without(session.artifacts, id),
                agenda: seq![],
                ..session
            })
            &&& held_under(removed.artifacts, id) is None
        }),
{
    reveal_with_fuel(SessionView::settled, 3);
    let cleanup = TaskView::Do(ActionView::Cleanup { paths: spool_files(artifact) });
    let forget = TaskView::Then(NoteView::Forget(id));
    let allowed = session.authorized(id, Ok(url)).0;
    assert(seq![] + allowed.agenda.drop_first() =~= seq![cleanup, forget]);
    let uploaded = allowed.resumed(ReplyView::Done).0;
    assert(uploaded.agenda =~= seq![cleanup, forget]);
    assert(seq![] + uploaded.agenda.drop_first() =~= seq![forget]);
    assert(seq![forget].drop_first() =~= seq![]);
    law_held_take_is_found(session.artifacts, id, artifact, id);
}

/// The song is told to have ended from the frame on at which its duration is over, and
/// to be playing before: at 48000 frames a second that is 48 frames for every
/// millisecond. A song without a duration never ends. While it plays nothing else
/// happens; once it has ended the take that is captured is finished, and nothing is
/// played any longer.
pub proof fn law_song_ends_when_its_duration_is_over(
    session: SessionView,
    command: ActiveCommandView,
    anchor: Anchor,
)
    requires
        session.active_command == Some(command),
    ensures
        ({
            let told = session.reporting(Some(anchor));
            let (next, flow) = told.resumed(ReplyView::Done);
            let over = command.duration_ms > 0 && anchor.frame * 1_000 > command.duration_ms
                * anchor.rate - 1_000;
            let state = if over {
                "ended"@
            } else {
                "playing"@
            };
            &&& told.agenda[0] == TaskView::Do(
                ActionView::Send(
                    AgentMessageView::PlaybackStatus {
                        schema_version: 1,
                        command_id: command.command_id,
                        route_epoch: command.route_epoch,
                        state,
                        sample_frame: anchor.frame,
                        sample_rate: anchor.rate,
                        duration_ms: command.duration_ms,
                        anchor_monotonic_ms: anchor.monotonic_ms,
                    },
                ),
            )
            &&& anchor.rate == 48_000 ==> (over <==> command.duration_ms > 0 && anchor.frame
                >= command.duration_ms * 48)
            &&& told.active_command == session.active_command
            &&& told.active_recording == session.active_recording
            &&& flow == Flow::Continue
            &&& !over ==> told.agenda.len() == 1 && next == (SessionView {
                agenda: seq![],
                ..session
            })
            &&& over ==> next.active_recording is None
            &&& over && session.active_recording is None ==> next == (SessionView {
                active_command: None,
                agenda: seq![],
                ..session
            })
            &&& over ==> (session.active_recording matches Some(id) ==> next.agenda == seq![
                TaskView::Do(ActionView::Finish { recording_session_id: id }),
                TaskView::Then(NoteView::ClearCommand),
            ])
        }),
{
    reveal_with_fuel(SessionView::settled, 3);
    let told = session.reporting(Some(anchor));
    let frames = command.duration_ms * anchor.rate;
    assert(command.duration_ms as int * anchor.rate as int == frames);
    assert(anchor.frame >= frames / 1_000 <==> anchor.frame * 1_000 > frames - 1_000);
    assert(anchor.rate == 48_000 ==> frames == command.duration_ms * 48 * 1_000);
    let over = command.duration_ms > 0 && anchor.frame * 1_000 > frames - 1_000;
    let clear = TaskView::Then(NoteView::ClearCommand);
    if !over {
        assert(seq![] + told.agenda.drop_first() =~= seq![]);
    } else if let Some(id) = session.active_recording {
        let finish = TaskView::Do(ActionView::Finish { recording_session_id: id });
        assert(seq![] + told.agenda.drop_first() =~= seq![
            TaskView::Then(NoteView::ClearRecording),
            finish,
            clear,
        ]);
        assert(seq![TaskView::Then(NoteView::ClearRecording), finish, clear].drop_first() =~= seq![
            finish,
            clear,
        ]);
    } else {
        assert(seq![] + told.agenda.drop_first() =~= seq![clear]);
        assert(seq![clear].drop_first() =~= seq![]);
    }
}

/// Where nothing is played, or the device does not say where playback stands, nothing
/// is told and nothing changes.
pub proof fn law_silence_is_not_reported(session: SessionView, anchor: Option<Anchor>)
    requires
        session.active_command is None || anchor is None,
    ensures
        session.reporting(anchor) == (SessionView { agenda: seq![], ..session }),
{
}

/// Settling changes what is played only by the note that says so.
proof fn lemma_settled_keeps_command(session: SessionView)
    requires
        forall|i: int|
            0 <= i < session.agenda.len() ==> #[trigger] session.agenda[i] != TaskView::Then(
                NoteView::ClearCommand,
            ),
    ensures
        session.settled().active_command == session.active_command,
    decreases session.agenda.len(),
{
    if session.agenda.len() > 0 {
        if let TaskView::Then(note) = session.agenda[0] {
            let next = SessionView { agenda: session.agenda.drop_first(), ..session.noted(note) };
            assert(note != NoteView::ClearCommand);
            assert forall|i: int| 0 <= i < next.agenda.len() implies #[trigger] next.agenda[i]
                != TaskView::Then(NoteView::ClearCommand) by {
                assert(next.agenda[i] == session.agenda[i + 1]);
            }
            lemma_settled_keeps_command(next);
        }
    }
}

/// A command that the device carried out is the one that is played, if it plays, switches
/// or resumes; stop ends it, and pause, seek and next leave what is played as it is. A
/// command that the device did not carry out leaves it as well.
pub proof fn law_carried_out_command_is_what_is_played(
    session: SessionView,
    command: PlaybackCommandView,
    error: Seq<char>,
)
    requires
        session.agenda.len() > 0,
        session.agenda[0] == TaskView::Do(ActionView::Playback(command)),
        forall|i: int|
            1 <= i < session.agenda.len() ==> #[trigger] session.agenda[i] != TaskView::Then(
                NoteView::ClearCommand,
            ),
    ensures
        ({
            let (next, flow) = session.resumed(ReplyView::Done);
            let (failed, failed_flow) = session.resumed(ReplyView::Failed(error));
            let duration_ms: u64 = match command.duration_ms {
                Some(duration_ms) => duration_ms,
                None => 0,
            };
            let playing = next.active_command matches Some(active) && active.command_id
                == command.command_id && active.route_epoch == command.route_epoch
                && active.duration_ms == duration_ms;
            &&& flow == Flow::Continue
            &&& command.action == PlaybackAction::Play ==> playing
            &&& command.action == PlaybackAction::Switch ==> playing
            &&& command.action == PlaybackAction::Resume ==> playing
            &&& command.action == PlaybackAction::Stop ==> next.active_command is None
            &&& command.action == PlaybackAction::Pause ==> next.active_command
                == session.active_command
            &&& command.action == PlaybackAction::Seek ==> next.active_command
                == session.active_command
            &&& command.action == PlaybackAction::Next ==> next.active_command
                == session.active_command
            &&& failed_flow == Flow::Continue
            &&& failed.active_command == session.active_command
            &&& failed.agenda[0] == TaskView::Do(
                ActionView::Send(
                    AgentMessageView::PlaybackError {
                        schema_version: 1,
                        command_id: command.command_id,
                        route_epoch: command.route_epoch,
                        error,
                    },
                ),
            )
            &&& failed.agenda.skip(1) == session.agenda.skip(1)
        }),
{
    let rest = session.agenda.drop_first();
    assert(seq![] + rest =~= rest);
    assert forall|i: int| 0 <= i < rest.len() implies #[trigger] rest[i] != TaskView::Then(
        NoteView::ClearCommand,
    ) by {
        assert(rest[i] == session.agenda[i + 1]);
    }
    let playing = Some(
        ActiveCommandView {
            command_id: command.command_id,
            route_epoch: command.route_epoch,
            duration_ms: match command.duration_ms {
                Some(duration_ms) => duration_ms,
                None => 0,
            },
        },
    );
    lemma_settled_keeps_command(SessionView { active_command: playing, agenda: rest, ..session });
    lemma_settled_keeps_command(SessionView { active_command: None, agenda: rest, ..session });
    lemma_settled_keeps_command(SessionView { agenda: rest, ..session });
    let failed = session.resumed(ReplyView::Failed(error)).0;
    assert(failed.agenda.skip(1) =~= session.agenda.skip(1));
}

/// While the device carries out a command, and once it has, nothing else of the session
/// changes: the takes, what is captured and what came before are as they were.
pub proof fn law_playback_leaves_the_takes_alone(
    session: SessionView,
    command: PlaybackCommandView,
    reply: ReplyView,
)
    requires
        session.agenda.len() > 0,
        session.agenda[0] == TaskView::Do(ActionView::Playback(command)),
        session.agenda.len() > 1 ==> session.agenda[1] is Do,
    ensures
        ({
            let next = session.resumed(reply).0;
            &&& next.artifacts == session.artifacts
            &&& next.active_recording == session.active_recording
            &&& next.playback == session.playback
            &&& next.mixer == session.mixer
            &&& reply is Done ==> next.agenda == session.agenda.skip(1)
        }),
{
    let rest = session.agenda.drop_first();
    assert(seq![] + rest =~= rest);
    assert(rest =~= session.agenda.skip(1));
    if rest.len() > 0 {
        assert(rest[0] == session.agenda[1]);
    }
}

/// What is done outside and goes well leaves the session as it was, and the agenda goes
/// on: so it is with a message that was sent, a take that was dropped or begun, an upload,
/// and the end of playback. The end of playback, the removal of files and the end of an
/// interrupted take go on even where they fail.
pub proof fn law_agenda_goes_on(session: SessionView, action: ActionView, reason: Seq<char>)
    requires
        session.agenda.len() > 0,
        session.agenda[0] == TaskView::Do(action),
        session.agenda.len() > 1 ==> session.agenda[1] is Do,
    ensures
        ({
            let on = (SessionView { agenda: session.agenda.skip(1), ..session }, Flow::Continue);
            let failed = session.resumed(ReplyView::Failed(reason));
            &&& action is Send || action is Cancel || action is Start || action is Upload
                || action is Halt || action is Cleanup ==> session.resumed(ReplyView::Done) == on
            &&& action is Halt || action is Cleanup || action is Preserve ==> failed == on
            &&& action is Finish || action is Preserve ==> session.resumed(
                ReplyView::Finished(None),
            ) == on
        }),
{
    let rest = session.agenda.drop_first();
    assert(seq![] + rest =~= session.agenda.skip(1));
    if rest.len() > 0 {
        assert(rest[0] == session.agenda[1]);
    }
}

/// A message, a digest, the end, the drop or the begin of a take, or an upload that fails
/// gives up the connection: what was to come is dropped, and nothing else changes.
pub proof fn law_failure_gives_up_the_connection(
    session: SessionView,
    action: ActionView,
    reason: Seq<char>,
)
    requires
        session.agenda.len() > 0,
        session.agenda[0] == TaskView::Do(action),
        action is Send || action is Digest || action is Finish || action is Cancel || action is Start
            || action is Upload,
    ensures
        session.resumed(ReplyView::Failed(reason)) == (
            SessionView { agenda: seq![], ..session },
            Flow::Abort,
        ),
{
}

/// A reply that answers nothing on the agenda changes nothing: there is nothing on it, or
/// what is first on it has outcomes of another kind.
pub proof fn law_unexpected_reply_changes_nothing(session: SessionView, reply: ReplyView)
    ensures
        session.agenda.len() == 0 ==> session.resumed(reply) == (session, Flow::Ignored),
        session.agenda.len() > 0 && session.agenda[0] is Then ==> session.resumed(reply) == (
            session,
            Flow::Ignored,
        ),
        session.agenda.len() > 0 ==> (session.agenda[0] matches TaskView::Do(action) ==> {
            let expected = reply is Failed || (if action is Digest {
                reply is Digest
            } else if action is Finish || action is Preserve {
                reply is Finished
            } else {
                reply is Done
            });
            &&& !expected ==> session.resumed(reply) == (session, Flow::Ignored)
            &&& expected ==> session.resumed(reply).1 != Flow::Ignored
        }),
{
}

/// The mixer is answered for with the revision that was set: that it was sent, or why it
/// was not. Nothing else changes.
pub proof fn law_mixer_outcome_is_told(
    session: SessionView,
    revision: u64,
    desired: MixerState,
    snapshot_slot: u8,
    error: Seq<char>,
)
    requires
        session.agenda.len() > 0,
        session.agenda[0] == TaskView::Do(ActionView::Mix { revision, desired, snapshot_slot }),
    ensures
        session.resumed(ReplyView::Done) == (
            SessionView {
                agenda: seq![
                    TaskView::Do(
                        ActionView::Send(
                            AgentMessageView::MixerSent { schema_version: 1, revision },
                        ),
                    ),
                ] + session.agenda.skip(1),
                ..session
            },
            Flow::Continue,
        ),
        session.resumed(ReplyView::Failed(error)) == (
            SessionView {
                agenda: seq![
                    TaskView::Do(
                        ActionView::Send(
                            AgentMessageView::MixerError { schema_version: 1, revision, error },
                        ),
                    ),
                ] + session.agenda.skip(1),
                ..session
            },
            Flow::Continue,
        ),
{
    assert(session.agenda.drop_first() =~= session.agenda.skip(1));
}

/// A take that was ended is held under the id it was asked for by, told to be encoding
/// with the frames it has, and its digest is looked for. One that the lost connection
/// ended is held as well, and told of later.
pub proof fn law_ended_take_is_held_and_told(
    session: SessionView,
    id: Seq<char>,
    artifact: ArtifactView,
    other: Seq<char>,
)
    requires
        session.agenda.len() > 0,
        session.agenda[0] == TaskView::Do(ActionView::Finish { recording_session_id: id })
            || session.agenda[0] == TaskView::Do(ActionView::Preserve { recording_session_id: id }),
        session.agenda.len() > 1 ==> session.agenda[1] is Do,
        other != id,
    ensures
        ({
            let (next, flow) = session.resumed(ReplyView::Finished(Some(artifact)));
            let finished = session.agenda[0] == TaskView::Do(
                ActionView::Finish { recording_session_id: id },
            );
            &&& flow == Flow::Continue
            &&& held_under(next.artifacts, id) == Some(artifact)
            &&& held_under(next.artifacts, other) == held_under(session.artifacts, other)
            &&& next.active_command == session.active_command
            &&& next.active_recording == session.active_recording
            &&& next.playback == session.playback
            &&& next.mixer == session.mixer
            &&& !finished ==> next.agenda == session.agenda.skip(1)
            &&& finished ==> next.agenda == seq![
                TaskView::Do(
                    ActionView::Send(
                        AgentMessageView::RecordingStatus {
                            schema_version: 1,
                            recording_session_id: artifact.recording_session_id,
                            state: "encoding"@,
                            max_frame: artifact.max_frame,
                            error: None,
                        },
                    ),
                ),
                TaskView::Do(
                    ActionView::Digest {
                        recording_session_id: artifact.recording_session_id,
                        flac_path: artifact.flac_path,
                    },
                ),
            ] + session.agenda.skip(1)
        }),
{
    let rest = session.agenda.drop_first();
    assert(rest =~= session.agenda.skip(1));
    assert(seq![] + rest =~= rest);
    if rest.len() > 0 {
        assert(rest[0] == session.agenda[1]);
    }
    law_held_take_is_found(session.artifacts, id, artifact, other);
    let told = announce(artifact, "encoding"@);
    assert((told + rest)[0] == told[0]);
}

/// The upload of a take is asked for with the digest and the size that were found.
pub proof fn law_upload_is_asked_for_with_the_digest(
    session: SessionView,
    id: Seq<char>,
    flac_path: Seq<char>,
    sha256: Seq<char>,
    size_bytes: u64,
)
    requires
        session.agenda.len() > 0,
        session.agenda[0] == TaskView::Do(
            ActionView::Digest { recording_session_id: id, flac_path },
        ),
    ensures
        session.resumed(ReplyView::Digest { sha256, size_bytes }) == (
            SessionView {
                agenda: seq![
                    TaskView::Do(
                        ActionView::Send(
                            AgentMessageView::RecordingUploadRequest {
                                schema_version: 1,
                                recording_session_id: id,
                                sha256,
                                size_bytes,
                            },
                        ),
                    ),
                ] + session.agenda.skip(1),
                ..session
            },
            Flow::Continue,
        ),
{
    assert(session.agenda.drop_first() =~= session.agenda.skip(1));
}

/// A note changes what it speaks of and nothing else.
pub proof fn law_notes_change_what_they_speak_of(
    session: SessionView,
    id: Seq<char>,
    other: Seq<char>,
)
    requires
        other != id,
    ensures
        session.noted(NoteView::ClearCommand) == (SessionView { active_command: None, ..session }),
        session.noted(NoteView::ClearRecording) == (SessionView {
            active_recording: None,
            ..session
        }),
        session.noted(NoteView::SetRecording(id)) == (SessionView {
            active_recording: Some(id),
            ..session
        }),
        ({
            let next = session.noted(NoteView::Forget(id));
            &&& held_under(next.artifacts, id) is None
            &&& held_under(next.artifacts, other) == held_under(session.artifacts, other)
            &&& next == (SessionView { artifacts: next.artifacts, ..session })
        }),
{
    lemma_without(session.artifacts, id, other);
}

/// Notes are noted as soon as they come first, one after the other; what is to be done
/// outside waits for its outcome.
pub proof fn law_notes_wait_for_nothing(
    session: SessionView,
    note: NoteView,
    action: ActionView,
    rest: Seq<TaskView>,
)
    ensures
        session.facing(seq![TaskView::Then(note)] + rest) == session.noted(note).facing(rest),
        session.facing(seq![TaskView::Do(action)] + rest) == (SessionView {
            agenda: seq![TaskView::Do(action)] + rest,
            ..session
        }),
        session.facing(seq![]) == (SessionView { agenda: seq![], ..session }),
{
    assert((seq![TaskView::Then(note)] + rest).drop_first() =~= rest);
}

/// A session begins with the takes that are held, and with nothing said, played or
/// captured.
pub proof fn law_session_begins_with_its_takes(artifacts: Held)
    ensures
        ({
            let session = SessionView::initial(artifacts);
            &&& session.artifacts == artifacts
            &&& session.active_command is None
            &&& session.active_recording is None
            &&& session.agenda.len() == 0
            &&& session.mixer == 0
            &&& session.playback.route_epoch == 0
            &&& session.playback.recent.len() == 0
        }),
{
}

/// Once the connection stands the agent says hello with its own id, version, slot and
/// health, and what it can do; once a heartbeat is due, with its id and health. Nothing
/// of the session changes.
pub proof fn law_agent_says_who_it_is(session: SessionView, link: LinkView)
    ensures
        ({
            let hello = session.connected(link);
            &&& hello == (SessionView { agenda: hello.agenda, ..session })
            &&& hello.agenda.len() == 1 + 2 * session.artifacts.len()
            &&& hello.agenda[0] matches TaskView::Do(
                ActionView::Send(
                    AgentMessageView::Hello {
                        schema_version,
                        agent_id,
                        version,
                        snapshot_slot,
                        capabilities,
                        health,
                    },
                ),
            )
            &&& schema_version == 1
            &&& agent_id == link.agent_id
            &&& version == crate::VERSION@
            &&& snapshot_slot == link.snapshot_slot
            &&& health == link.health
            &&& capabilities.version == version
            &&& capabilities.platform == "linux-amd64"@
            &&& capabilities.sample_rate == 48_000
            &&& capabilities.capture_channels == 2
            &&& capabilities.formats == seq!["mp3"@, "flac"@]
        }),
        session.beating(link) == (SessionView {
            agenda: seq![
                TaskView::Do(
                    ActionView::Send(
                        AgentMessageView::Heartbeat {
                            schema_version: 1,
                            agent_id: link.agent_id,
                            health: link.health,
                        },
                    ),
                ),
            ],
            ..session
        }),
{
    lemma_announce_length(session.artifacts);
}

/// Of every take that is held the server is told its id and its frames, and whether it
/// was interrupted or is encoding; behind that its digest is looked for.
pub proof fn law_held_takes_are_told_as_they_are(session: SessionView, link: LinkView, i: int)
    requires
        0 <= i < session.artifacts.len(),
    ensures
        ({
            let agenda = session.connected(link).agenda;
            let artifact = session.artifacts[i].1;
            let state = if artifact.interrupted {
                "interrupted"@
            } else {
                "encoding"@
            };
            &&& agenda[1 + 2 * i] == TaskView::Do(
                ActionView::Send(
                    AgentMessageView::RecordingStatus {
                        schema_version: 1,
                        recording_session_id: artifact.recording_session_id,
                        state,
                        max_frame: artifact.max_frame,
                        error: None,
                    },
                ),
            )
            &&& agenda[2 + 2 * i] == TaskView::Do(
                ActionView::Digest {
                    recording_session_id: artifact.recording_session_id,
                    flac_path: artifact.flac_path,
                },
            )
        }),
{
    lemma_announce_all(session.artifacts, i);
}

/// The command that ends playback after a lost connection is a stop that speaks of no
/// song, no media and no take.
pub proof fn law_lost_connection_stops_playback(session: SessionView)
    ensures
        session.interrupted().agenda[0] matches TaskView::Do(ActionView::Halt(command))
            && command.action == PlaybackAction::Stop && command.schema_version == 1
            && command.command_id == "disconnect-timeout"@ && command.route_epoch == 0
            && command.queue_item_id is None && command.asset_id is None && command.media_url is None
            && command.position_ms is None && command.duration_ms is None && command.recording is None
            && command.recording_session_id is None && command.recording_disposition is None
            && command.previous_recording_session_id is None
            && command.previous_recording_disposition is None,
        session.interrupted() == (SessionView { agenda: session.interrupted().agenda, ..session }),
{
}

/// A command of an earlier epoch is answered with an error and changes nothing; one that
/// came before in its epoch is passed over without a word.
pub proof fn law_stale_and_repeated_commands(
    session: SessionView,
    link: LinkView,
    command: Box<PlaybackCommand>,
)
    ensures
        command.route_epoch < session.playback.route_epoch ==> session.received(
            link,
            ServerMessage::PlaybackCommand(command),
        ) == (
            SessionView {
                agenda: seq![
                    TaskView::Do(
                        ActionView::Send(
                            AgentMessageView::PlaybackError {
                                schema_version: 1,
                                command_id: command.command_id@,
                                route_epoch: command.route_epoch,
                                error: "stale_route_epoch"@,
                            },
                        ),
                    ),
                ],
                ..session
            },
            None::<Seq<char>>,
        ),
        command.route_epoch == session.playback.route_epoch && session.playback.recent.contains(
            command.command_id@,
        ) ==> session.received(link, ServerMessage::PlaybackCommand(command)) == (
            SessionView { agenda: seq![], ..session },
            None::<Seq<char>>,
        ),
{
}

/// The mixer is set to what the server asks for, with the slot of the agent, where the
/// revision is above the last one or none came yet; the revision is then the last one.
/// Otherwise nothing happens.
pub proof fn law_mixer_follows_the_latest_revision(
    session: SessionView,
    link: LinkView,
    schema_version: u8,
    revision: u64,
    desired: MixerState,
)
    ensures
        ({
            let (next, reason) = session.received(
                link,
                ServerMessage::MixerApply { schema_version, revision, desired },
            );
            let newer = revision > session.mixer || revision == 0 && session.mixer == 0;
            &&& reason is None
            &&& newer ==> next == (SessionView {
                mixer: revision,
                agenda: seq![
                    TaskView::Do(
                        ActionView::Mix { revision, desired, snapshot_slot: link.snapshot_slot },
                    ),
                ],
                ..session
            })
            &&& !newer ==> next == (SessionView { agenda: seq![], ..session })
        }),
{
}

/// A take that the server cancels is dropped by the device; from then on nothing is
/// captured, and the server is told that the take is discarded.
pub proof fn law_cancelled_take_is_discarded(
    session: SessionView,
    link: LinkView,
    schema_version: u8,
    id: String,
    reason: String,
)
    ensures
        ({
            let (asked, gives_up) = session.received(
                link,
                ServerMessage::RecordingCancel {
                    schema_version,
                    recording_session_id: id,
                    reason,
                },
            );
            let (dropped, flow) = asked.resumed(ReplyView::Done);
            &&& gives_up is None
            &&& asked == (SessionView { agenda: asked.agenda, ..session })
            &&& asked.agenda[0] == TaskView::Do(ActionView::Cancel { recording_session_id: id@ })
            &&& flow == Flow::Continue
            &&& dropped == (SessionView {
                active_recording: None,
                agenda: seq![
                    TaskView::Do(
                        ActionView::Send(
                            AgentMessageView::RecordingStatus {
                                schema_version: 1,
                                recording_session_id: id@,
                                state: "discarded"@,
                                max_frame: 0,
                                error: None,
                            },
                        ),
                    ),
                ],
                ..session
            })
        }),
{
    reveal_with_fuel(SessionView::settled, 3);
    let asked = session.received(
        link,
        ServerMessage::RecordingCancel { schema_version, recording_session_id: id, reason },
    ).0;
    let told = status_message(id@, "discarded"@, 0, None);
    let clear = TaskView::Then(NoteView::ClearRecording);
    assert(seq![] + asked.agenda.drop_first() =~= seq![clear, told]);
    assert(seq![clear, told].drop_first() =~= seq![told]);
}

/// An upload begins only where the server allows it, without an error and with a URL, and
/// the take is held: the take goes to that URL under the server's own, and then its three
/// files go. Where there is no such URL the connection is given up; otherwise nothing
/// happens.
pub proof fn law_allowed_upload_takes_place(
    session: SessionView,
    link: LinkView,
    schema_version: u8,
    id: String,
    upload_url: Option<String>,
    error: Option<String>,
)
    ensures
        ({
            let (next, reason) = session.received(
                link,
                ServerMessage::RecordingUploadAuthorized {
                    schema_version,
                    recording_session_id: id,
                    upload_url,
                    error,
                },
            );
            let held = held_under(session.artifacts, id@);
            let allowed = error is None && upload_url is Some && held is Some;
            let url = url_joined(link.server_url, upload_url->0@);
            &&& next == (SessionView { agenda: next.agenda, ..session })
            &&& !allowed ==> next.agenda.len() == 0 && reason is None
            &&& allowed && url is Err ==> next.agenda.len() == 0 && reason == Some(url->Err_0)
            &&& allowed && url is Ok ==> {
                &&& reason is None
                &&& next.agenda.len() == 3
                &&& next.agenda[0] == TaskView::Do(
                    ActionView::Upload { url: url->Ok_0, flac_path: held->0.flac_path },
                )
                &&& next.agenda[1] == TaskView::Do(
                    ActionView::Cleanup {
                        paths: seq![held->0.manifest_path, held->0.raw_path, held->0.flac_path],
                    },
                )
                &&& next.agenda[2] == TaskView::Then(NoteView::Forget(id@))
            }
        }),
{
}

/// The answer to hello, and messages that the agent does not know, change nothing.
pub proof fn law_other_messages_change_nothing(
    session: SessionView,
    link: LinkView,
    message: ServerMessage,
)
    requires
        message is HelloAck || message is Unknown,
    ensures
        session.received(link, message) == (
            SessionView { agenda: seq![], ..session },
            None::<Seq<char>>,
        ),
{
}

/// A link has the agent's own id, the slot of the configuration, and the spool inside its
/// data directory.
pub proof fn law_link_is_that_of_the_agent(
    config: ConfigView,
    server_url: Seq<char>,
    credentials: CredentialsView,
    offset_frames: Option<i64>,
    health: ProbeReportView,
)
    ensures
        ({
            let link = link_of(config, server_url, credentials, offset_frames, health);
            &&& link.agent_id == id_text(credentials.agent_id)
            &&& link.server_url == server_url
            &&& link.snapshot_slot == config.snapshot_slot
            &&& link.offset_frames == offset_frames
            &&& link.health == health
            &&& config.data_dir.len() > 0 && config.data_dir.last() != '/' ==> link.spool_dir
                == config.data_dir + seq!['/', 's', 'p', 'o', 'o', 'l']
        }),
{
    reveal_strlit("spool");
    let link = link_of(config, server_url, credentials, offset_frames, health);
    assert("spool"@ =~= seq!['s', 'p', 'o', 'o', 'l']);
    if config.data_dir.len() > 0 && config.data_dir.last() != '/' {
        assert(link.spool_dir =~= config.data_dir + seq!['/', 's', 'p', 'o', 'o', 'l']);
    }
}

/// A take is found under an id exactly where one is held under it, and what is found is
/// one of those.
pub proof fn law_only_held_takes_are_found(held: Held, id: Seq<char>)
    ensures
        held_under(held, id) is None <==> forall|i: int|
            0 <= i < held.len() ==> (#[trigger] held[i]).0 != id,
        held_under(held, id) matches Some(artifact) ==> exists|i: int|
            0 <= i < held.len() && #[trigger] held[i] == (id, artifact),
    decreases held.len(),
{
    if held.len() > 0 {
        let fewer = held.drop_last();
        law_only_held_takes_are_found(fewer, id);
        assert(held[held.len() - 1] == held.last());
        assert(forall|i: int| 0 <= i < fewer.len() ==> fewer[i] == held[i]);
        if held.last().0 != id {
            if let Some(artifact) = held_under(fewer, id) {
                let i = choose|i: int| 0 <= i < fewer.len() && #[trigger] fewer[i] == (id, artifact);
                assert(held[i] == (id, artifact));
            } else {
                assert forall|i: int| 0 <= i < held.len() implies (#[trigger] held[i]).0 != id by {
                    if i < fewer.len() {
                        assert(fewer[i].0 != id);
                    }
                }
            }
        }
    }
}

/// Takes that are handed over at the start are all held: each under its own id, unless a
/// later one has the same id. Nothing else is held.
pub proof fn law_given_takes_are_held(artifacts: Seq<RecordingArtifact>, i: int, id: Seq<char>)
    requires
        0 <= i < artifacts.len(),
    ensures
        (forall|j: int|
            i < j < artifacts.len() ==> (#[trigger] artifacts[j])@.recording_session_id
                != artifacts[i]@.recording_session_id) ==> held_under(
            held_by_id(artifacts),
            artifacts[i]@.recording_session_id,
        ) == Some(artifacts[i]@),
        held_under(held_by_id(artifacts), id) is Some <==> exists|j: int|
            0 <= j < artifacts.len() && (#[trigger] artifacts[j])@.recording_session_id == id,
        forall|j: int, k: int|
            0 <= j < k < held_by_id(artifacts).len() ==> (#[trigger] held_by_id(artifacts)[j]).0 != (
            #[trigger] held_by_id(artifacts)[k]).0,
    decreases artifacts.len(),
{
    let fewer = artifacts.drop_last();
    let last = artifacts.last();
    let last_id = last@.recording_session_id;
    let own = artifacts[i]@.recording_session_id;
    lemma_ids_of_given_takes(artifacts);
    assert(artifacts[artifacts.len() - 1] == last);
    law_held_take_is_found(held_by_id(fewer), last_id, last@, id);
    law_held_take_is_found(held_by_id(fewer), last_id, last@, own);
    if i < fewer.len() {
        law_given_takes_are_held(fewer, i, id);
        if forall|j: int|
            i < j < artifacts.len() ==> (#[trigger] artifacts[j])@.recording_session_id != own {
            assert forall|j: int| i < j < fewer.len() implies (
            #[trigger] fewer[j])@.recording_session_id != fewer[i]@.recording_session_id by {
                assert(fewer[j] == artifacts[j]);
            }
            assert(own != last_id);
        }
    } else if fewer.len() > 0 {
        law_given_takes_are_held(fewer, 0, id);
    }
    if id != last_id {
        if held_under(held_by_id(fewer), id) is Some {
            assert(fewer.len() > 0);
            let j = choose|j: int|
                0 <= j < fewer.len() && (#[trigger] fewer[j])@.recording_session_id == id;
            assert(artifacts[j]@.recording_session_id == id);
        }
        if exists|j: int|
            0 <= j < artifacts.len() && (#[trigger] artifacts[j])@.recording_session_id == id {
            let j = choose|j: int|
                0 <= j < artifacts.len() && (#[trigger] artifacts[j])@.recording_session_id == id;
            assert(fewer[j]@.recording_session_id == id);
        }
    }
}

proof fn lemma_ids_of_given_takes(artifacts: Seq<RecordingArtifact>)
    ensures
        distinct_ids(held_by_id(artifacts)),
    decreases artifacts.len(),
{
    if artifacts.len() > 0 {
        let fewer = artifacts.drop_last();
        lemma_ids_of_given_takes(fewer);
        law_ids_stay_distinct(
            held_by_id(fewer),
            artifacts.last()@.recording_session_id,
            artifacts.last()@,
        );
    }
}

/// A command that is applied is carried out in its order: the take before is finished
/// where it is to be saved, the take that is named is dropped and told to be discarded
/// where it is to be discarded, the take that a play command asks for is begun where the
/// device is calibrated and refused where it is not, and at last the command itself goes
/// to the device. From the moment a take is finished or dropped nothing is captured, and
/// from the moment one is begun it is.
#[verifier::rlimit(60)]
pub proof fn law_applied_command_is_carried_out_in_order(
    session: SessionView,
    link: LinkView,
    command: Box<PlaybackCommand>,
)
    requires
        command.route_epoch >= session.playback.route_epoch,
        command.route_epoch == session.playback.route_epoch ==> !session.playback.recent.contains(
            command.command_id@,
        ),
    ensures
        ({
            let (next, reason) = session.received(link, ServerMessage::PlaybackCommand(command));
            let asked = command@;
            let agenda = next.agenda;
            let n = agenda.len() as int;
            let saves = asked.previous_recording_disposition == Some("save"@);
            let saved = saves && asked.previous_recording_session_id is Some;
            let discards = asked.recording_disposition == Some("discard"@);
            let discarded = discards && asked.recording_session_id is Some;
            let wanted = asked.action == PlaybackAction::Play && asked.recording is Some
                && asked.recording->0.enabled && asked.recording->0.recording_session_id is Some;
            let take = asked.recording->0.recording_session_id->0;
            let begun: int = if !wanted {
                0
            } else if link.offset_frames is Some {
                3
            } else {
                1
            };
            let clear = TaskView::Then(NoteView::ClearRecording);
            &&& reason is None
            &&& next.artifacts == session.artifacts
            &&& next.active_command == session.active_command
            &&& next.mixer == session.mixer
            &&& next.playback.route_epoch == command.route_epoch
            &&& next.active_recording == if (saves || discards) && !saved && !(discarded && !saves) {
                None
            } else {
                session.active_recording
            }
            &&& n == 1 + begun + (if saved {
                2int
            } else {
                0
            }) + (if discarded {
                3int
            } else if discards && saved {
                1
            } else {
                0
            })
            &&& agenda[n - 1] == TaskView::Do(ActionView::Playback(asked))
            &&& saved ==> agenda[0] == TaskView::Do(
                ActionView::Finish { recording_session_id: asked.previous_recording_session_id->0 },
            ) && agenda[1] == clear
            &&& discards && saved ==> agenda[n - begun - 2] == clear
            &&& discarded ==> agenda[n - begun - 4] == TaskView::Do(
                ActionView::Cancel { recording_session_id: asked.recording_session_id->0 },
            ) && agenda[n - begun - 3] == TaskView::Do(
                ActionView::Send(
                    AgentMessageView::RecordingStatus {
                        schema_version: 1,
                        recording_session_id: asked.recording_session_id->0,
                        state: "discarded"@,
                        max_frame: 0,
                        error: None,
                    },
                ),
            ) && agenda[n - begun - 2] == clear
            &&& wanted && link.offset_frames is Some ==> agenda[n - 4] == TaskView::Do(
                ActionView::Start(
                    RecordingStartView {
                        recording_session_id: take,
                        queue_item_id: if asked.queue_item_id is Some {
                            asked.queue_item_id->0
                        } else {
                            Seq::empty()
                        },
                        spool_dir: link.spool_dir,
                        playback_to_capture_offset_frames: link.offset_frames->0,
                    },
                ),
            ) && agenda[n - 3] == TaskView::Then(NoteView::SetRecording(take)) && agenda[n - 2]
                == TaskView::Do(
                ActionView::Send(
                    AgentMessageView::RecordingStatus {
                        schema_version: 1,
                        recording_session_id: take,
                        state: "recording"@,
                        max_frame: 0,
                        error: None,
                    },
                ),
            )
            &&& wanted && link.offset_frames is None ==> agenda[n - 2] == TaskView::Do(
                ActionView::Send(
                    AgentMessageView::RecordingStatus {
                        schema_version: 1,
                        recording_session_id: take,
                        state: "failed"@,
                        max_frame: 0,
                        error: Some("calibration_missing"@),
                    },
                ),
            )
        }),
{
    reveal_with_fuel(SessionView::settled, 4);
    let asked = command@;
    let playback = session.playback.step(asked.command_id, asked.route_epoch).1;
    let saving = save_previous(asked);
    let discarding = discard_current(asked);
    let beginning = begin_take(link, asked);
    let play = seq![TaskView::Do(ActionView::Playback(asked))];
    let tasks = command_tasks(link, asked);
    let next = session.received(link, ServerMessage::PlaybackCommand(command)).0;
    let saved = asked.previous_recording_disposition == Some("save"@)
        && asked.previous_recording_session_id is Some;
    if saved {
        assert(tasks[0] == saving[0]);
        assert(next.agenda == tasks);
    } else if saving.len() > 0 {
        assert(tasks[0] == saving[0]);
        assert(tasks.drop_first() =~= discarding + beginning + play);
        if discarding.len() == 1 {
            assert((discarding + beginning + play)[0] == discarding[0]);
            assert((discarding + beginning + play).drop_first() =~= beginning + play);
            assert(next.agenda == beginning + play);
        } else {
            assert(next.agenda == discarding + beginning + play);
        }
    } else {
        assert(tasks =~= discarding + beginning + play);
        if discarding.len() == 1 {
            assert(tasks[0] == discarding[0]);
            assert(tasks.drop_first() =~= beginning + play);
            assert(next.agenda == beginning + play);
        } else {
            assert(next.agenda == discarding + beginning + play);
        }
    }
}

/// What is to be done outside is seen with what it says, each part in its place, and in
/// the order of the agenda.
pub proof fn law_agenda_is_seen_as_it_is(action: Action, tasks: Seq<Task>, i: int)
    requires
        0 <= i < tasks.len(),
    ensures
        Task::Do(action)@ == TaskView::Do(action@),
        task_views(tasks).len() == tasks.len(),
        task_views(tasks)[i] == tasks[i]@,
        action matches Action::Send(message) ==> action@ == ActionView::Send(message@),
        action matches Action::Digest { recording_session_id, flac_path } ==> action@
            == (ActionView::Digest {
            recording_session_id: recording_session_id@,
            flac_path: flac_path@,
        }),
        action matches Action::Finish { recording_session_id } ==> action@ == (ActionView::Finish {
            recording_session_id: recording_session_id@,
        }),
        action matches Action::Preserve { recording_session_id } ==> action@
            == (ActionView::Preserve { recording_session_id: recording_session_id@ }),
        action matches Action::Cancel { recording_session_id } ==> action@ == (ActionView::Cancel {
            recording_session_id: recording_session_id@,
        }),
        action matches Action::Start(request) ==> action@ == ActionView::Start(request@),
        action matches Action::Playback(command) ==> action@ == ActionView::Playback(command@),
        action matches Action::Halt(command) ==> action@ == ActionView::Halt(command@),
        action matches Action::Mix { revision, desired, snapshot_slot } ==> action@
            == (ActionView::Mix { revision, desired, snapshot_slot }),
        action matches Action::Upload { url, flac_path } ==> action@ == (ActionView::Upload {
            url: url@,
            flac_path: flac_path@,
        }),
        action matches Action::Cleanup { paths } ==> (action@ matches ActionView::Cleanup {
            paths: seen,
        } && seen.len() == paths@.len() && forall|k: int|
            0 <= k < paths@.len() ==> #[trigger] seen[k] == paths@[k]@),
{
}

} // verus!
