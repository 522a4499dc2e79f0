//! Playback of songs: which players run, and what is done to them.

use vstd::prelude::*;
use vstd::string::StringExecFns;

use crate::path::{join, joined, path_with_extension, with_extension};
use crate::protocol::{optional_text, PlaybackAction, PlaybackCommand, PlaybackCommandView};
use crate::recording::SAMPLE_RATE;
use crate::text::ends_with;
use crate::web::{file_url, join_url, url_joined, url_of_file, URL_READ_LIMIT};

verus! {

/// Why a command cannot be played.
#[derive(Debug)]
pub enum PlaybackFailure {
    /// A play command names no media.
    PlayWithoutMedia,
    /// A switch command names no media.
    SwitchWithoutMedia,
    /// The URL of the media makes no sense under the URL of the server, for the
    /// reason given.
    InvalidMediaUrl(String),
    /// The path of the cached media has no URL.
    InvalidCachePath,
}

impl View for PlaybackFailure {
    type V = Seq<char>;

    /// The failure in words.
    open spec fn view(&self) -> Seq<char> {
        match *self {
            PlaybackFailure::PlayWithoutMedia => "play command is missing mediaUrl"@,
            PlaybackFailure::SwitchWithoutMedia => "switch command is missing mediaUrl"@,
            PlaybackFailure::InvalidMediaUrl(reason) => reason@,
            PlaybackFailure::InvalidCachePath => "invalid cache path"@,
        }
    }
}

impl PlaybackFailure {
    /// The failure in words.
    pub fn to_string(&self) -> (text: String)
        ensures
            text@ == self@,
    {
        match self {
            PlaybackFailure::PlayWithoutMedia => "play command is missing mediaUrl".to_string(),
            PlaybackFailure::SwitchWithoutMedia => {
                "switch command is missing mediaUrl".to_string()
            },
            PlaybackFailure::InvalidMediaUrl(reason) => reason.clone(),
            PlaybackFailure::InvalidCachePath => "invalid cache path".to_string(),
        }
    }
}

/// The file name of the media of a command in the cache: by the asset, else by the
/// command.
pub open spec fn media_file_name(command: PlaybackCommandView) -> Seq<char> {
    let name = match command.asset_id {
        Some(asset_id) => asset_id,
        None => command.command_id,
    };
    let is_mp3 = command.media_url matches Some(media_url) && ".mp3"@.is_suffix_of(media_url);
    name + if is_mp3 {
        ".mp3"@
    } else {
        ".audio"@
    }
}

/// Where the media of a command is cached.
pub open spec fn cached_media(data_dir: Seq<char>, command: PlaybackCommandView) -> Seq<char> {
    joined(joined(data_dir, "cache"@), media_file_name(command))
}

/// Where the media of a command is cached.
pub fn media_cache_path(data_dir: &str, command: &PlaybackCommand) -> (path: String)
    ensures
        path@ == cached_media(data_dir@, command@),
{
    let is_mp3 = match &command.media_url {
        Some(media_url) => ends_with(media_url.as_str(), ".mp3"),
        None => false,
    };
    let mut name: String = match &command.asset_id {
        Some(asset_id) => asset_id.clone(),
        None => command.command_id.clone(),
    };
    if is_mp3 {
        name.append(".mp3");
    } else {
        name.append(".audio");
    }
    let cache = join(data_dir, "cache");
    join(cache.as_str(), name.as_str())
}

/// What is fetched for a command, and where it is written before it takes its
/// place.
#[derive(Debug)]
pub struct MediaRequest {
    pub url: String,
    pub part: String,
}

/// The request for the media at `media_url`, to be kept in `target`.
pub fn media_request(server_url: &str, media_url: &Option<String>, target: &str) -> (request:
    Result<MediaRequest, PlaybackFailure>)
    requires
        media_url matches Some(media_url) ==> server_url@.len() <= URL_READ_LIMIT && media_url@.len()
            <= URL_READ_LIMIT,
    ensures
        media_url is None ==> request == Err::<MediaRequest, PlaybackFailure>(
            PlaybackFailure::PlayWithoutMedia,
        ),
        media_url matches Some(media_url) ==> match url_joined(server_url@, media_url@) {
            Ok(url) => {
                &&& request matches Ok(request)
                &&& request.url@ == url
                &&& request.part@ == path_with_extension(target@, "part"@)
            },
            Err(reason) => {
                &&& request matches Err(PlaybackFailure::InvalidMediaUrl(found))
                &&& found@ == reason
            },
        },
{
    let media_url = match media_url {
        Some(media_url) => media_url,
        None => {
            return Err(PlaybackFailure::PlayWithoutMedia);
        },
    };
    proof {
        reveal_strlit("part");
    }
    match join_url(server_url, media_url.as_str()) {
        Ok(url) => Ok(MediaRequest { url, part: with_extension(target, "part") }),
        Err(reason) => Err(PlaybackFailure::InvalidMediaUrl(reason)),
    }
}

/// The URL by which a player opens the cached media at `path`.
pub fn media_uri(path: &str) -> (uri: Result<String, PlaybackFailure>)
    ensures
        uri is Ok <==> file_url(path@) is Some,
        uri matches Ok(uri) ==> uri@ == file_url(path@)->0,
        uri matches Err(failure) ==> failure is InvalidCachePath,
{
    match url_of_file(path) {
        Some(uri) => Ok(uri),
        None => Err(PlaybackFailure::InvalidCachePath),
    }
}

/// The frame that sounds at `position_ms`.
pub open spec fn frame_at_ms(position_ms: u64) -> int {
    position_ms as int * 48_000 / 1_000
}

/// The frame that sounds at `position_ms`.
pub fn frame_of_ms(position_ms: u64) -> (frame: u64)
    requires
        position_ms * 48_000 <= u64::MAX,
    ensures
        frame == frame_at_ms(position_ms),
{
    position_ms * (SAMPLE_RATE as u64) / 1_000
}

/// Whether `frame_of_ms` can number the frame at `position_ms`.
pub fn has_frame(position_ms: u64) -> (fits: bool)
    ensures
        fits == (position_ms * 48_000 <= u64::MAX),
{
    position_ms <= u64::MAX / 48_000
}

/// The frame that a command moves the captures to can be numbered, where it moves
/// them.
pub open spec fn position_fits(command: PlaybackCommandView) -> bool {
    command.action == PlaybackAction::Play || command.action == PlaybackAction::Seek ==> (
    command.position_ms matches Some(position_ms) ==> position_ms * 48_000 <= u64::MAX)
}

/// Whether the frame that a command moves the captures to can be numbered, where it
/// moves them.
pub fn has_position(command: &PlaybackCommand) -> (fits: bool)
    ensures
        fits == position_fits(command@),
{
    match command.action {
        PlaybackAction::Play | PlaybackAction::Seek => match command.position_ms {
            Some(position_ms) => has_frame(position_ms),
            None => true,
        },
        _ => true,
    }
}

/// The frame that sounds at `position_ns`.
pub fn frame_of_ns(position_ns: u64) -> (frame: u64)
    requires
        position_ns * 48_000 <= u64::MAX,
    ensures
        frame == position_ns as int * 48_000 / 1_000_000_000,
{
    position_ns * (SAMPLE_RATE as u64) / 1_000_000_000
}

/// One thing that is done to the players. Those marked as fallible may fail; what
/// was to come after them is then dropped.
#[derive(Debug)]
#[allow(inconsistent_fields)]
pub enum PlayerOp {
    /// Gives up the download that a switch waits for.
    AbortDownload,
    /// Stops the player that waits for its turn.
    StopPending,
    /// Stops the player that is heard.
    StopActive,
    /// Makes a new player for the file at `path`. Fallible.
    Prepare { path: String, position_ms: u64, paused: bool, audible: bool },
    /// The new player is heard.
    TakeActive,
    /// The new player waits for its turn.
    TakePending,
    /// Begins to fetch the media of a switch to `position_ms`.
    StartDownload { position_ms: u64 },
    /// Pauses or resumes the player that is heard. Fallible.
    SetActive { paused: bool },
    /// Pauses or resumes the player that waits for its turn.
    SetPending { paused: bool },
    /// Moves the player that is heard. Fallible.
    SeekActive { position_ms: u64 },
    /// Moves the player that waits for its turn. Fallible.
    SeekPending { position_ms: u64 },
    /// Makes the player that waits for its turn audible.
    RaisePending,
    /// Makes the player that is heard silent.
    MuteActive,
    /// The player that waits for its turn is heard from now on.
    PromotePending,
    /// Moves the captures to `frame`.
    SeekCaptures { frame: u64 },
    /// Pauses or resumes the captures.
    PauseCaptures { paused: bool },
    /// Notes whether playback is paused.
    NotePaused { paused: bool },
    /// Notes where a player made of cached media begins.
    NotePosition { position_ms: u64 },
    /// Notes the command that is played.
    NoteCommand { command_id: String },
}

/// One thing that is done to the players, over texts.
#[allow(inconsistent_fields)]
pub enum PlayerOpView {
    AbortDownload,
    StopPending,
    StopActive,
    Prepare { path: Seq<char>, position_ms: u64, paused: bool, audible: bool },
    TakeActive,
    TakePending,
    StartDownload { position_ms: u64 },
    SetActive { paused: bool },
    SetPending { paused: bool },
    SeekActive { position_ms: u64 },
    SeekPending { position_ms: u64 },
    RaisePending,
    MuteActive,
    PromotePending,
    SeekCaptures { frame: u64 },
    PauseCaptures { paused: bool },
    NotePaused { paused: bool },
    NotePosition { position_ms: u64 },
    NoteCommand { command_id: Seq<char> },
}

impl View for PlayerOp {
    type V = PlayerOpView;

    open spec fn view(&self) -> PlayerOpView {
        match *self {
            PlayerOp::AbortDownload => PlayerOpView::AbortDownload,
            PlayerOp::StopPending => PlayerOpView::StopPending,
            PlayerOp::StopActive => PlayerOpView::StopActive,
            PlayerOp::Prepare { path, position_ms, paused, audible } => {
                PlayerOpView::Prepare { path: path@, position_ms, paused, audible }
            },
            PlayerOp::TakeActive => PlayerOpView::TakeActive,
            PlayerOp::TakePending => PlayerOpView::TakePending,
            PlayerOp::StartDownload { position_ms } => PlayerOpView::StartDownload { position_ms },
            PlayerOp::SetActive { paused } => PlayerOpView::SetActive { paused },
            PlayerOp::SetPending { paused } => PlayerOpView::SetPending { paused },
            PlayerOp::SeekActive { position_ms } => PlayerOpView::SeekActive { position_ms },
            PlayerOp::SeekPending { position_ms } => PlayerOpView::SeekPending { position_ms },
            PlayerOp::RaisePending => PlayerOpView::RaisePending,
            PlayerOp::MuteActive => PlayerOpView::MuteActive,
            PlayerOp::PromotePending => PlayerOpView::PromotePending,
            PlayerOp::SeekCaptures { frame } => PlayerOpView::SeekCaptures { frame },
            PlayerOp::PauseCaptures { paused } => PlayerOpView::PauseCaptures { paused },
            PlayerOp::NotePaused { paused } => PlayerOpView::NotePaused { paused },
            PlayerOp::NotePosition { position_ms } => PlayerOpView::NotePosition { position_ms },
            PlayerOp::NoteCommand { command_id } => {
                PlayerOpView::NoteCommand { command_id: command_id@ }
            },
        }
    }
}

/// What is done to the players, over texts.
pub open spec fn op_views(ops: Seq<PlayerOp>) -> Seq<PlayerOpView> {
    ops.map_values(|op: PlayerOp| op@)
}

fn push_op(ops: &mut Vec<PlayerOp>, op: PlayerOp)
    ensures
        op_views(final(ops)@) == op_views(old(ops)@).push(op@),
{
    let ghost before = op_views(ops@);
    ops.push(op);
    assert(op_views(ops@) =~= before.push(op@));
}

/// How far a player has come.
#[derive(Debug, Clone, Copy, PartialEq, Eq, Structural)]
pub enum PipelineState {
    /// Below paused.
    Idle,
    Paused,
    Playing,
}

/// What a command needs of its media.
#[derive(Debug, Clone, Copy, PartialEq, Eq, Structural)]
pub enum MediaNeed {
    /// It has to be in the cache before the command is carried out.
    Before,
    /// It may be fetched while what is heard goes on.
    Meanwhile,
    /// The command has none.
    Nothing,
}

/// What became of the download that a switch waits for.
#[derive(Debug)]
pub enum Download {
    Running,
    /// The media is in the cache at this path.
    Finished(String),
    Failed,
}

/// The players of a device.
#[derive(Debug)]
pub struct Player {
    active: bool,
    download_position_ms: Option<u64>,
    pending: bool,
    pending_position_ms: u64,
    paused: bool,
    active_command_id: Option<String>,
}

/// The players of a device, over texts.
#[verifier::ext_equal]
pub struct PlayerView {
    /// A player is heard.
    pub active: bool,
    /// Where a switch is to begin, while its media is fetched.
    pub download_position_ms: Option<u64>,
    /// A player waits for its turn.
    pub pending: bool,
    /// Where the latest switch to cached media began. A switch whose media was fetched
    /// first leaves it as it was.
    pub pending_position_ms: u64,
    /// Playback is paused.
    pub paused: bool,
    /// The command that is played.
    pub active_command_id: Option<Seq<char>>,
}

impl View for Player {
    type V = PlayerView;

    closed spec fn view(&self) -> PlayerView {
        PlayerView {
            active: self.active,
            download_position_ms: self.download_position_ms,
            pending: self.pending,
            pending_position_ms: self.pending_position_ms,
            paused: self.paused,
            active_command_id: optional_text(self.active_command_id),
        }
    }
}

impl PlayerView {
    /// Nothing is played.
    pub open spec fn initial() -> Self {
        PlayerView {
            active: false,
            download_position_ms: None,
            pending: false,
            pending_position_ms: 0,
            paused: true,
            active_command_id: None,
        }
    }

    /// At most one source waits for its turn.
    pub open spec fn wf(self) -> bool {
        !(self.pending && self.download_position_ms is Some)
    }

    /// The players after `op` was done.
    pub open spec fn after(self, op: PlayerOpView) -> Self {
        match op {
            PlayerOpView::AbortDownload => PlayerView { download_position_ms: None, ..self },
            PlayerOpView::StopPending => PlayerView { pending: false, ..self },
            PlayerOpView::StopActive => PlayerView { active: false, ..self },
            PlayerOpView::TakeActive => PlayerView { active: true, ..self },
            PlayerOpView::TakePending => PlayerView { pending: true, ..self },
            PlayerOpView::StartDownload { position_ms } => {
                PlayerView { download_position_ms: Some(position_ms), ..self }
            },
            PlayerOpView::PromotePending => PlayerView { active: true, pending: false, ..self },
            PlayerOpView::NotePaused { paused } => PlayerView { paused, ..self },
            PlayerOpView::NotePosition { position_ms } => {
                PlayerView { pending_position_ms: position_ms, ..self }
            },
            PlayerOpView::NoteCommand { command_id } => {
                PlayerView { active_command_id: Some(command_id), ..self }
            },
            _ => self,
        }
    }

    /// The players after all `ops` were done.
    pub open spec fn after_all(self, ops: Seq<PlayerOpView>) -> Self
        decreases ops.len(),
    {
        if ops.len() == 0 {
            self
        } else {
            self.after_all(ops.drop_last()).after(ops.last())
        }
    }

    /// Ends what waits for its turn.
    pub open spec fn stop_waiting(self) -> Seq<PlayerOpView> {
        let first = if self.download_position_ms is Some {
            seq![PlayerOpView::AbortDownload]
        } else {
            seq![]
        };
        if self.pending {
            first.push(PlayerOpView::StopPending)
        } else {
            first
        }
    }

    /// Ends what waits for its turn and what is heard.
    pub open spec fn stop_all(self) -> Seq<PlayerOpView> {
        if self.active {
            self.stop_waiting().push(PlayerOpView::StopActive)
        } else {
            self.stop_waiting()
        }
    }

    /// Pauses or resumes.
    pub open spec fn set_paused(self, paused: bool) -> Seq<PlayerOpView> {
        let noted = seq![PlayerOpView::NotePaused { paused }];
        let active = if self.active {
            noted.push(PlayerOpView::SetActive { paused })
        } else {
            noted
        };
        let pending = if self.pending {
            active.push(PlayerOpView::SetPending { paused })
        } else {
            active
        };
        pending.push(PlayerOpView::PauseCaptures { paused })
    }

    /// Where a switch is to begin.
    pub open spec fn switch_position(
        self,
        command: PlaybackCommandView,
        active_position_ms: Option<u64>,
    ) -> u64 {
        match command.position_ms {
            Some(position_ms) => position_ms,
            None => match active_position_ms {
                Some(position_ms) if self.active => position_ms,
                _ => 0,
            },
        }
    }

    /// What `command` calls for. Its media is cached at `path` where `cached` holds,
    /// and the player that is heard is at `active_position_ms`.
    pub open spec fn plan(
        self,
        command: PlaybackCommandView,
        path: Seq<char>,
        cached: bool,
        active_position_ms: Option<u64>,
    ) -> Seq<PlayerOpView> {
        let position_ms = match command.position_ms {
            Some(position_ms) => position_ms,
            None => 0,
        };
        let noted = PlayerOpView::NoteCommand { command_id: command.command_id };
        match command.action {
            PlaybackAction::Play => self.stop_all() + seq![
                PlayerOpView::Prepare { path, position_ms, paused: false, audible: true },
                PlayerOpView::SeekCaptures { frame: frame_at_ms(position_ms) as u64 },
                PlayerOpView::NotePaused { paused: false },
                PlayerOpView::PauseCaptures { paused: false },
                noted,
                PlayerOpView::TakeActive,
            ],
            PlaybackAction::Switch => {
                let start = self.switch_position(command, active_position_ms);
                if cached {
                    self.stop_waiting() + seq![
                        PlayerOpView::Prepare {
                            path,
                            position_ms: start,
                            paused: self.paused,
                            audible: false,
                        },
                        PlayerOpView::NotePosition { position_ms: start },
                        PlayerOpView::TakePending,
                        noted,
                    ]
                } else {
                    self.stop_waiting() + seq![
                        PlayerOpView::StartDownload { position_ms: start },
                        noted,
                    ]
                }
            },
            PlaybackAction::Pause => self.set_paused(true),
            PlaybackAction::Resume => self.set_paused(false),
            PlaybackAction::Seek => {
                let captures = PlayerOpView::SeekCaptures {
                    frame: frame_at_ms(position_ms) as u64,
                };
                if self.active {
                    seq![PlayerOpView::SeekActive { position_ms }, captures]
                } else {
                    seq![captures]
                }
            },
            PlaybackAction::Stop | PlaybackAction::Next => self.stop_all() + seq![
                PlayerOpView::NotePaused { paused: true },
                PlayerOpView::PauseCaptures { paused: true },
            ],
        }
    }

    /// The players and what is to be done once the download is looked at.
    pub open spec fn polled(self, download: Download) -> (Self, Seq<PlayerOpView>) {
        match (self.download_position_ms, download) {
            (Some(position_ms), Download::Finished(path)) => (
                PlayerView { download_position_ms: None, ..self },
                seq![
                    PlayerOpView::Prepare {
                        path: path@,
                        position_ms,
                        paused: self.paused,
                        audible: false,
                    },
                    PlayerOpView::TakePending,
                ],
            ),
            (Some(_), Download::Failed) => (
                PlayerView { download_position_ms: None, ..self },
                seq![],
            ),
            _ => (self, seq![]),
        }
    }

    /// A player that waits for its turn and has come to `state` can be heard.
    pub open spec fn ready(self, state: PipelineState) -> bool {
        state == PipelineState::Playing || (self.paused && state == PipelineState::Paused)
    }

    /// A player waits for its turn and has it now.
    pub open spec fn promotes(self, state: Option<PipelineState>) -> bool {
        self.pending && (state matches Some(state) && self.ready(state))
    }

    /// Where a player that waited for its turn goes on.
    pub open spec fn handoff(self, active_position_ms: Option<u64>) -> u64 {
        match active_position_ms {
            Some(position_ms) if self.active => position_ms,
            _ => self.pending_position_ms,
        }
    }

    /// What is to be done with the player that waits for its turn, which has come to
    /// `state` or has failed.
    pub open spec fn promotion(
        self,
        state: Option<PipelineState>,
        active_position_ms: Option<u64>,
    ) -> Seq<PlayerOpView> {
        let position_ms = self.handoff(active_position_ms);
        if self.promotes(state) {
            seq![PlayerOpView::SeekPending { position_ms }, PlayerOpView::RaisePending] + (
            if self.active {
                seq![PlayerOpView::MuteActive, PlayerOpView::StopActive]
            } else {
                seq![]
            }) + seq![
                PlayerOpView::PromotePending,
                PlayerOpView::SeekCaptures { frame: frame_at_ms(position_ms) as u64 },
            ]
        } else if self.pending && state is None {
            seq![PlayerOpView::StopPending]
        } else {
            seq![]
        }
    }
}

/// What `op` calls for where it fails.
pub open spec fn recourse(op: PlayerOpView) -> Seq<PlayerOpView> {
    if op is SeekPending {
        seq![PlayerOpView::StopPending]
    } else {
        seq![]
    }
}

impl Default for Player {
    fn default() -> (player: Self)
        ensures
            player@ == PlayerView::initial(),
    {
        Player {
            active: false,
            download_position_ms: None,
            pending: false,
            pending_position_ms: 0,
            paused: true,
            active_command_id: None,
        }
    }
}

impl Player {
    fn push_stop_waiting(&self, ops: &mut Vec<PlayerOp>)
        ensures
            op_views(final(ops)@) == op_views(old(ops)@) + self@.stop_waiting(),
    {
        if self.download_position_ms.is_some() {
            push_op(ops, PlayerOp::AbortDownload);
        }
        if self.pending {
            push_op(ops, PlayerOp::StopPending);
        }
        assert(op_views(ops@) =~= op_views(old(ops)@) + self@.stop_waiting());
    }

    fn push_stop_all(&self, ops: &mut Vec<PlayerOp>)
        ensures
            op_views(final(ops)@) == op_views(old(ops)@) + self@.stop_all(),
    {
        self.push_stop_waiting(ops);
        if self.active {
            push_op(ops, PlayerOp::StopActive);
        }
        assert(op_views(ops@) =~= op_views(old(ops)@) + self@.stop_all());
    }

    fn set_paused(&self, paused: bool) -> (ops: Vec<PlayerOp>)
        ensures
            op_views(ops@) == self@.set_paused(paused),
    {
        let mut ops: Vec<PlayerOp> = Vec::new();
        push_op(&mut ops, PlayerOp::NotePaused { paused });
        assert(op_views(ops@) =~= seq![PlayerOpView::NotePaused { paused }]);
        if self.active {
            push_op(&mut ops, PlayerOp::SetActive { paused });
        }
        if self.pending {
            push_op(&mut ops, PlayerOp::SetPending { paused });
        }
        push_op(&mut ops, PlayerOp::PauseCaptures { paused });
        ops
    }

    /// What `command` needs of its media.
    pub fn needs_media(command: &PlaybackCommand) -> (needed: Result<MediaNeed, PlaybackFailure>)
        ensures
            match command.action {
                PlaybackAction::Play => needed == Ok::<MediaNeed, PlaybackFailure>(
                    MediaNeed::Before,
                ),
                PlaybackAction::Switch => if command.media_url is None {
                    needed == Err::<MediaNeed, PlaybackFailure>(PlaybackFailure::SwitchWithoutMedia)
                } else {
                    needed == Ok::<MediaNeed, PlaybackFailure>(MediaNeed::Meanwhile)
                },
                _ => needed == Ok::<MediaNeed, PlaybackFailure>(MediaNeed::Nothing),
            },
    {
        match command.action {
            PlaybackAction::Play => Ok(MediaNeed::Before),
            PlaybackAction::Switch => if command.media_url.is_none() {
                Err(PlaybackFailure::SwitchWithoutMedia)
            } else {
                Ok(MediaNeed::Meanwhile)
            },
            _ => Ok(MediaNeed::Nothing),
        }
    }

    /// What `command` calls for. Its media is cached at `path` where `cached` holds,
    /// and the player that is heard is at `active_position_ms`.
    pub fn playback(
        &self,
        command: &PlaybackCommand,
        path: &str,
        cached: bool,
        active_position_ms: Option<u64>,
    ) -> (ops: Vec<PlayerOp>)
        requires
            position_fits(command@),
        ensures
            op_views(ops@) == self@.plan(command@, path@, cached, active_position_ms),
    {
        let position_ms: u64 = match command.position_ms {
            Some(position_ms) => position_ms,
            None => 0,
        };
        let ghost plan = self@.plan(command@, path@, cached, active_position_ms);
        let mut ops: Vec<PlayerOp> = Vec::new();
        assert(op_views(ops@) =~= seq![]);
        match command.action {
            PlaybackAction::Play => {
                self.push_stop_all(&mut ops);
                push_op(
                    &mut ops,
                    PlayerOp::Prepare {
                        path: path.to_string(),
                        position_ms,
                        paused: false,
                        audible: true,
                    },
                );
                push_op(&mut ops, PlayerOp::SeekCaptures { frame: frame_of_ms(position_ms) });
                push_op(&mut ops, PlayerOp::NotePaused { paused: false });
                push_op(&mut ops, PlayerOp::PauseCaptures { paused: false });
                push_op(&mut ops, PlayerOp::NoteCommand { command_id: command.command_id.clone() });
                push_op(&mut ops, PlayerOp::TakeActive);
                assert(op_views(ops@) =~= plan);
            },
            PlaybackAction::Switch => {
                let start: u64 = match command.position_ms {
                    Some(position_ms) => position_ms,
                    None => match active_position_ms {
                        Some(position_ms) => if self.active {
                            position_ms
                        } else {
                            0
                        },
                        None => 0,
                    },
                };
                self.push_stop_waiting(&mut ops);
                if cached {
                    push_op(
                        &mut ops,
                        PlayerOp::Prepare {
                            path: path.to_string(),
                            position_ms: start,
                            paused: self.paused,
                            audible: false,
                        },
                    );
                    push_op(&mut ops, PlayerOp::NotePosition { position_ms: start });
                    push_op(&mut ops, PlayerOp::TakePending);
                } else {
                    push_op(&mut ops, PlayerOp::StartDownload { position_ms: start });
                }
                push_op(&mut ops, PlayerOp::NoteCommand { command_id: command.command_id.clone() });
                assert(op_views(ops@) =~= plan);
            },
            PlaybackAction::Pause => {
                ops = self.set_paused(true);
            },
            PlaybackAction::Resume => {
                ops = self.set_paused(false);
            },
            PlaybackAction::Seek => {
                if self.active {
                    push_op(&mut ops, PlayerOp::SeekActive { position_ms });
                }
                push_op(&mut ops, PlayerOp::SeekCaptures { frame: frame_of_ms(position_ms) });
                assert(op_views(ops@) =~= plan);
            },
            PlaybackAction::Stop | PlaybackAction::Next => {
                self.push_stop_all(&mut ops);
                push_op(&mut ops, PlayerOp::NotePaused { paused: true });
                push_op(&mut ops, PlayerOp::PauseCaptures { paused: true });
                assert(op_views(ops@) =~= plan);
            },
        }
        ops
    }

    /// Takes note of `op`, which was done.
    pub fn done(&mut self, op: &PlayerOp)
        ensures
            final(self)@ == old(self)@.after(op@),
    {
        match op {
            PlayerOp::AbortDownload => {
                self.download_position_ms = None;
            },
            PlayerOp::StopPending => {
                self.pending = false;
            },
            PlayerOp::StopActive => {
                self.active = false;
            },
            PlayerOp::TakeActive => {
                self.active = true;
            },
            PlayerOp::TakePending => {
                self.pending = true;
            },
            PlayerOp::StartDownload { position_ms } => {
                self.download_position_ms = Some(*position_ms);
            },
            PlayerOp::PromotePending => {
                self.active = true;
                self.pending = false;
            },
            PlayerOp::NotePaused { paused } => {
                self.paused = *paused;
            },
            PlayerOp::NotePosition { position_ms } => {
                self.pending_position_ms = *position_ms;
            },
            PlayerOp::NoteCommand { command_id } => {
                self.active_command_id = Some(command_id.clone());
            },
            _ => {},
        }
    }

    /// What is to be done in place of what was to come after `op`, which failed.
    pub fn failed(op: &PlayerOp) -> (ops: Vec<PlayerOp>)
        ensures
            op_views(ops@) == recourse(op@),
    {
        let mut ops: Vec<PlayerOp> = Vec::new();
        assert(op_views(ops@) =~= seq![]);
        match op {
            PlayerOp::SeekPending { .. } => {
                push_op(&mut ops, PlayerOp::StopPending);
            },
            _ => {},
        }
        assert(op_views(ops@) =~= recourse(op@));
        ops
    }

    /// Looks at the download that a switch waits for.
    pub fn poll_pending_switch(&mut self, download: Download) -> (ops: Vec<PlayerOp>)
        ensures
            (final(self)@, op_views(ops@)) == old(self)@.polled(download),
    {
        let mut ops: Vec<PlayerOp> = Vec::new();
        assert(op_views(ops@) =~= seq![]);
        let position_ms: u64 = match self.download_position_ms {
            Some(position_ms) => position_ms,
            None => {
                return ops;
            },
        };
        match download {
            Download::Running => {},
            Download::Finished(path) => {
                self.download_position_ms = None;
                push_op(
                    &mut ops,
                    PlayerOp::Prepare { path, position_ms, paused: self.paused, audible: false },
                );
                push_op(&mut ops, PlayerOp::TakePending);
            },
            Download::Failed => {
                self.download_position_ms = None;
            },
        }
        assert(op_views(ops@) =~= old(self)@.polled(download).1);
        ops
    }

    /// What is to be done with the player that waits for its turn, which has come to
    /// `state` or has failed.
    pub fn promote_pending_player(
        &self,
        state: Option<PipelineState>,
        active_position_ms: Option<u64>,
    ) -> (ops: Vec<PlayerOp>)
        requires
            self@.promotes(state) ==> self@.handoff(active_position_ms) * 48_000 <= u64::MAX,
        ensures
            op_views(ops@) == self@.promotion(state, active_position_ms),
    {
        let ghost plan = self@.promotion(state, active_position_ms);
        let mut ops: Vec<PlayerOp> = Vec::new();
        assert(op_views(ops@) =~= seq![]);
        if !self.has_turn(state) {
            if self.pending && state.is_none() {
                push_op(&mut ops, PlayerOp::StopPending);
            }
            assert(op_views(ops@) =~= plan);
            return ops;
        }
        let position_ms: u64 = self.handoff_position(active_position_ms);
        push_op(&mut ops, PlayerOp::SeekPending { position_ms });
        push_op(&mut ops, PlayerOp::RaisePending);
        if self.active {
            push_op(&mut ops, PlayerOp::MuteActive);
            push_op(&mut ops, PlayerOp::StopActive);
        }
        push_op(&mut ops, PlayerOp::PromotePending);
        push_op(&mut ops, PlayerOp::SeekCaptures { frame: frame_of_ms(position_ms) });
        assert(op_views(ops@) =~= plan);
        ops
    }

    /// Whether a player waits for its turn and has it now.
    pub fn has_turn(&self, state: Option<PipelineState>) -> (turn: bool)
        ensures
            turn == self@.promotes(state),
    {
        self.pending && match state {
            None => false,
            Some(PipelineState::Idle) => false,
            Some(PipelineState::Paused) => self.paused,
            Some(PipelineState::Playing) => true,
        }
    }

    /// Where a player that waited for its turn goes on, with the player that is heard
    /// at `active_position_ms`.
    pub fn handoff_position(&self, active_position_ms: Option<u64>) -> (position_ms: u64)
        ensures
            position_ms == self@.handoff(active_position_ms),
    {
        match active_position_ms {
            Some(position_ms) => if self.active {
                position_ms
            } else {
                self.pending_position_ms
            },
            None => self.pending_position_ms,
        }
    }

    /// Whether a switch waits for its media.
    pub fn downloads(&self) -> (downloads: bool)
        ensures
            downloads == (self@.download_position_ms is Some),
    {
        self.download_position_ms.is_some()
    }

    /// Whether a player is heard.
    pub fn is_active(&self) -> (active: bool)
        ensures
            active == self@.active,
    {
        self.active
    }

    /// Whether a player waits for its turn.
    pub fn is_pending(&self) -> (pending: bool)
        ensures
            pending == self@.pending,
    {
        self.pending
    }

    /// The state of playback in a word.
    pub fn playback_state(&self) -> (state: &'static str)
        ensures
            state@ == if self@.download_position_ms is Some || self@.pending {
                "buffering"@
            } else if self@.paused {
                "paused"@
            } else {
                "playing"@
            },
    {
        if self.download_position_ms.is_some() || self.pending {
            "buffering"
        } else if self.paused {
            "paused"
        } else {
            "playing"
        }
    }
}

/// At most one source waits for its turn, however many of `ops` are done.
pub open spec fn keeps_one_waiting(player: PlayerView, ops: Seq<PlayerOpView>) -> bool {
    forall|done: int| 0 <= done <= ops.len() ==> (#[trigger] player.after_all(ops.take(done))).wf()
}

proof fn lemma_nothing(player: PlayerView)
    requires
        player.wf(),
    ensures
        player.after_all(seq![]) == player,
        keeps_one_waiting(player, seq![]),
{
    let ops = Seq::<PlayerOpView>::empty();
    assert forall|done: int| 0 <= done <= ops.len() implies (#[trigger] player.after_all(
        ops.take(done),
    )).wf() by {
        assert(ops.take(done) =~= ops);
    }
}

proof fn lemma_push(player: PlayerView, ops: Seq<PlayerOpView>, op: PlayerOpView)
    requires
        keeps_one_waiting(player, ops),
        player.after_all(ops).after(op).wf(),
    ensures
        player.after_all(ops.push(op)) == player.after_all(ops).after(op),
        keeps_one_waiting(player, ops.push(op)),
{
    let more = ops.push(op);
    assert(more.drop_last() =~= ops);
    assert forall|done: int| 0 <= done <= more.len() implies (#[trigger] player.after_all(
        more.take(done),
    )).wf() by {
        if done <= ops.len() {
            assert(more.take(done) =~= ops.take(done));
            assert(player.after_all(ops.take(done)).wf());
        } else {
            assert(more.take(done) =~= more);
        }
    }
}

proof fn lemma_append_two(
    player: PlayerView,
    ops: Seq<PlayerOpView>,
    first: PlayerOpView,
    second: PlayerOpView,
)
    requires
        keeps_one_waiting(player, ops),
        player.after_all(ops).after(first).wf(),
        player.after_all(ops).after(first).after(second).wf(),
    ensures
        player.after_all(ops + seq![first, second]) == player.after_all(ops).after(first).after(
            second,
        ),
        keeps_one_waiting(player, ops + seq![first, second]),
{
    lemma_push(player, ops, first);
    lemma_push(player, ops.push(first), second);
    assert(ops + seq![first, second] =~= ops.push(first).push(second));
}

proof fn lemma_stop_waiting(player: PlayerView)
    requires
        player.wf(),
    ensures
        keeps_one_waiting(player, player.stop_waiting()),
        player.after_all(player.stop_waiting()) == (PlayerView {
            download_position_ms: None,
            pending: false,
            ..player
        }),
{
    lemma_nothing(player);
    let first = if player.download_position_ms is Some {
        seq![PlayerOpView::AbortDownload]
    } else {
        seq![]
    };
    if player.download_position_ms is Some {
        lemma_push(player, seq![], PlayerOpView::AbortDownload);
        assert(first =~= seq![].push(PlayerOpView::AbortDownload));
    }
    if player.pending {
        lemma_push(player, first, PlayerOpView::StopPending);
    }
}

proof fn lemma_stop_all(player: PlayerView)
    requires
        player.wf(),
    ensures
        keeps_one_waiting(player, player.stop_all()),
        player.after_all(player.stop_all()) == (PlayerView {
            active: false,
            download_position_ms: None,
            pending: false,
            ..player
        }),
{
    lemma_stop_waiting(player);
    if player.active {
        lemma_push(player, player.stop_waiting(), PlayerOpView::StopActive);
    }
}

/// A play command that is carried out leaves one player, which is heard and not
/// paused; nothing waits for its turn.
pub proof fn law_play_is_heard(
    player: PlayerView,
    command: PlaybackCommandView,
    path: Seq<char>,
    cached: bool,
    active_position_ms: Option<u64>,
)
    requires
        player.wf(),
        command.action == PlaybackAction::Play,
    ensures
        ({
            let plan = player.plan(command, path, cached, active_position_ms);
            &&& keeps_one_waiting(player, plan)
            &&& player.after_all(plan) == PlayerView {
                active: true,
                download_position_ms: None,
                pending: false,
                pending_position_ms: player.pending_position_ms,
                paused: false,
                active_command_id: Some(command.command_id),
            }
        }),
{
    let plan = player.plan(command, path, cached, active_position_ms);
    let stops = player.stop_all();
    let n = stops.len() as int;
    lemma_stop_all(player);
    lemma_append_two(player, stops, plan[n], plan[n + 1]);
    let four = stops + seq![plan[n], plan[n + 1]];
    lemma_append_two(player, four, plan[n + 2], plan[n + 3]);
    let six = four + seq![plan[n + 2], plan[n + 3]];
    lemma_append_two(player, six, plan[n + 4], plan[n + 5]);
    assert(six + seq![plan[n + 4], plan[n + 5]] =~= plan);
}

/// A switch leaves the player that is heard alone: what is heard goes on until the
/// new source is ready. It replaces whatever waited for its turn.
pub proof fn law_switch_is_seamless(
    player: PlayerView,
    command: PlaybackCommandView,
    path: Seq<char>,
    cached: bool,
    active_position_ms: Option<u64>,
)
    requires
        player.wf(),
        command.action == PlaybackAction::Switch,
    ensures
        ({
            let plan = player.plan(command, path, cached, active_position_ms);
            let start = player.switch_position(command, active_position_ms);
            &&& keeps_one_waiting(player, plan)
            &&& forall|i: int|
                0 <= i < plan.len() ==> !((#[trigger] plan[i]) is StopActive || plan[i] is MuteActive
                    || plan[i] is SetActive || plan[i] is SeekActive)
            &&& player.after_all(plan) == PlayerView {
                active: player.active,
                download_position_ms: if cached {
                    None
                } else {
                    Some(start)
                },
                pending: cached,
                pending_position_ms: if cached {
                    start
                } else {
                    player.pending_position_ms
                },
                paused: player.paused,
                active_command_id: Some(command.command_id),
            }
        }),
{
    let plan = player.plan(command, path, cached, active_position_ms);
    let stops = player.stop_waiting();
    let n = stops.len() as int;
    lemma_stop_waiting(player);
    lemma_append_two(player, stops, plan[n], plan[n + 1]);
    let two = stops + seq![plan[n], plan[n + 1]];
    if cached {
        lemma_append_two(player, two, plan[n + 2], plan[n + 3]);
        assert(two + seq![plan[n + 2], plan[n + 3]] =~= plan);
    } else {
        assert(two =~= plan);
    }
}

/// Stop and next leave no player at all.
pub proof fn law_stop_leaves_no_player(
    player: PlayerView,
    command: PlaybackCommandView,
    path: Seq<char>,
    cached: bool,
    active_position_ms: Option<u64>,
)
    requires
        player.wf(),
        command.action == PlaybackAction::Stop || command.action == PlaybackAction::Next,
    ensures
        ({
            let plan = player.plan(command, path, cached, active_position_ms);
            &&& keeps_one_waiting(player, plan)
            &&& player.after_all(plan) == PlayerView {
                active: false,
                download_position_ms: None,
                pending: false,
                paused: true,
                ..player
            }
        }),
{
    let plan = player.plan(command, path, cached, active_position_ms);
    let stops = player.stop_all();
    let n = stops.len() as int;
    lemma_stop_all(player);
    lemma_append_two(player, stops, plan[n], plan[n + 1]);
    assert(stops + seq![plan[n], plan[n + 1]] =~= plan);
}

proof fn lemma_set_paused(player: PlayerView, paused: bool)
    requires
        player.wf(),
    ensures
        keeps_one_waiting(player, player.set_paused(paused)),
        player.after_all(player.set_paused(paused)) == (PlayerView { paused, ..player }),
{
    lemma_nothing(player);
    let noted = seq![PlayerOpView::NotePaused { paused }];
    lemma_push(player, seq![], PlayerOpView::NotePaused { paused });
    assert(noted =~= seq![].push(PlayerOpView::NotePaused { paused }));
    let active = if player.active {
        noted.push(PlayerOpView::SetActive { paused })
    } else {
        noted
    };
    if player.active {
        lemma_push(player, noted, PlayerOpView::SetActive { paused });
    }
    let pending = if player.pending {
        active.push(PlayerOpView::SetPending { paused })
    } else {
        active
    };
    if player.pending {
        lemma_push(player, active, PlayerOpView::SetPending { paused });
    }
    lemma_push(player, pending, PlayerOpView::PauseCaptures { paused });
}

/// Pause, resume and seek keep every player, and change at most whether playback
/// is paused.
pub proof fn law_pause_resume_and_seek_keep_the_players(
    player: PlayerView,
    command: PlaybackCommandView,
    path: Seq<char>,
    cached: bool,
    active_position_ms: Option<u64>,
)
    requires
        player.wf(),
        command.action == PlaybackAction::Pause || command.action == PlaybackAction::Resume
            || command.action == PlaybackAction::Seek,
    ensures
        ({
            let plan = player.plan(command, path, cached, active_position_ms);
            &&& keeps_one_waiting(player, plan)
            &&& player.after_all(plan) == PlayerView {
                paused: match command.action {
                    PlaybackAction::Pause => true,
                    PlaybackAction::Resume => false,
                    _ => player.paused,
                },
                ..player
            }
        }),
{
    let plan = player.plan(command, path, cached, active_position_ms);
    if command.action == PlaybackAction::Seek {
        lemma_nothing(player);
        lemma_push(player, seq![], plan[0]);
        let one = seq![].push(plan[0]);
        if player.active {
            lemma_push(player, one, plan[1]);
            assert(one.push(plan[1]) =~= plan);
        } else {
            assert(one =~= plan);
        }
    } else {
        lemma_set_paused(player, command.action == PlaybackAction::Pause);
    }
}

/// A download that is there or has failed is waited for no longer; the player
/// made of it waits for its turn.
pub proof fn law_download_becomes_the_waiting_player(player: PlayerView, download: Download)
    requires
        player.wf(),
        player.download_position_ms is Some,
    ensures
        ({
            let (polled, plan) = player.polled(download);
            &&& keeps_one_waiting(polled, plan)
            &&& polled.after_all(plan) == PlayerView {
                download_position_ms: if download is Running {
                    player.download_position_ms
                } else {
                    None
                },
                pending: download is Finished,
                ..player
            }
        }),
{
    let (polled, plan) = player.polled(download);
    lemma_nothing(polled);
    if download is Finished {
        lemma_append_two(polled, seq![], plan[0], plan[1]);
        assert(seq![] + seq![plan[0], plan[1]] =~= plan);
    } else {
        assert(plan =~= seq![]);
    }
}

/// A player that has its turn is the only one. The player heard before is stopped
/// only once the new one stands where that one was.
pub proof fn law_promotion_hands_over(
    player: PlayerView,
    state: PipelineState,
    active_position_ms: Option<u64>,
)
    requires
        player.wf(),
        player.pending,
        player.ready(state),
    ensures
        ({
            let plan = player.promotion(Some(state), active_position_ms);
            let position_ms = player.handoff(active_position_ms);
            &&& keeps_one_waiting(player, plan)
            &&& player.after_all(plan) == PlayerView { active: true, pending: false, ..player }
            &&& plan[0] == PlayerOpView::SeekPending { position_ms }
            &&& player.after_all(recourse(plan[0])) == PlayerView { pending: false, ..player }
        }),
{
    let plan = player.promotion(Some(state), active_position_ms);
    lemma_nothing(player);
    lemma_append_two(player, seq![], plan[0], plan[1]);
    let two = seq![] + seq![plan[0], plan[1]];
    if player.active {
        lemma_append_two(player, two, plan[2], plan[3]);
        let four = two + seq![plan[2], plan[3]];
        lemma_append_two(player, four, plan[4], plan[5]);
        assert(four + seq![plan[4], plan[5]] =~= plan);
    } else {
        lemma_append_two(player, two, plan[2], plan[3]);
        assert(two + seq![plan[2], plan[3]] =~= plan);
    }
    lemma_push(player, seq![], PlayerOpView::StopPending);
    assert(recourse(plan[0]) =~= seq![].push(PlayerOpView::StopPending));
}

/// What ends a source, of those that there are: the download is given up, the player
/// that waits is stopped, and so is the one that is heard.
proof fn lemma_stops(player: PlayerView, op: PlayerOpView)
    ensures
        player.stop_waiting().contains(op) <==> (op == PlayerOpView::AbortDownload
            && player.download_position_ms is Some || op == PlayerOpView::StopPending
            && player.pending),
        player.stop_all().contains(op) <==> (player.stop_waiting().contains(op) || op
            == PlayerOpView::StopActive && player.active),
{
    let waiting = player.stop_waiting();
    let all = player.stop_all();
    if player.download_position_ms is Some {
        assert(waiting[0] == PlayerOpView::AbortDownload);
    }
    if player.pending {
        assert(waiting[waiting.len() - 1] == PlayerOpView::StopPending);
    }
    if player.active {
        assert(all[all.len() - 1] == PlayerOpView::StopActive);
    }
    if waiting.contains(op) {
        let i = choose|i: int| 0 <= i < waiting.len() && waiting[i] == op;
        assert(all[i] == op);
    }
    if all.contains(op) {
        let i = choose|i: int| 0 <= i < all.len() && all[i] == op;
        if i < waiting.len() {
            assert(waiting[i] == op);
        }
    }
}

/// Pause and resume reach the player that is heard wherever there is one, and the player
/// that waits wherever there is one, each whether or not there is the other. The captures
/// follow, and what is noted is what was asked for.
pub proof fn law_pause_and_resume_reach_every_player(
    player: PlayerView,
    command: PlaybackCommandView,
    path: Seq<char>,
    cached: bool,
    active_position_ms: Option<u64>,
    op: PlayerOpView,
)
    requires
        command.action == PlaybackAction::Pause || command.action == PlaybackAction::Resume,
    ensures
        ({
            let plan = player.plan(command, path, cached, active_position_ms);
            let paused = command.action == PlaybackAction::Pause;
            &&& player.active ==> plan.contains(PlayerOpView::SetActive { paused })
            &&& player.pending ==> plan.contains(PlayerOpView::SetPending { paused })
            &&& plan[0] == PlayerOpView::NotePaused { paused }
            &&& plan.last() == PlayerOpView::PauseCaptures { paused }
            &&& plan.contains(op) <==> (op == PlayerOpView::NotePaused { paused } || op
                == PlayerOpView::PauseCaptures { paused } || op == PlayerOpView::SetActive { paused }
                && player.active || op == PlayerOpView::SetPending { paused } && player.pending)
        }),
{
    let plan = player.plan(command, path, cached, active_position_ms);
    let paused = command.action == PlaybackAction::Pause;
    assert(plan[0] == PlayerOpView::NotePaused { paused });
    assert(plan[plan.len() - 1] == PlayerOpView::PauseCaptures { paused });
    if player.active {
        assert(plan[1] == PlayerOpView::SetActive { paused });
    }
    if player.pending {
        assert(plan[plan.len() - 2] == PlayerOpView::SetPending { paused });
    }
}

/// Play ends every source that there is and makes one player of the media, at the
/// position of the command or at the beginning, audible and running. The captures go to
/// the frame of that position, 48 frames for every millisecond, and run. All stops come
/// before the new player is made, and it is heard once all the rest is done.
pub proof fn law_play_begins_at_its_position(
    player: PlayerView,
    command: PlaybackCommandView,
    path: Seq<char>,
    cached: bool,
    active_position_ms: Option<u64>,
    op: PlayerOpView,
)
    requires
        command.action == PlaybackAction::Play,
        command.position_ms matches Some(position_ms) ==> position_ms * 48_000 <= u64::MAX,
    ensures
        ({
            let plan = player.plan(command, path, cached, active_position_ms);
            let position_ms: u64 = match command.position_ms {
                Some(position_ms) => position_ms,
                None => 0,
            };
            let prepare = PlayerOpView::Prepare {
                path,
                position_ms,
                paused: false,
                audible: true,
            };
            let stops = op == PlayerOpView::AbortDownload && player.download_position_ms is Some
                || op == PlayerOpView::StopPending && player.pending || op
                == PlayerOpView::StopActive && player.active;
            &&& plan.contains(op) <==> (stops || op == prepare || op == PlayerOpView::SeekCaptures {
                frame: (position_ms * 48) as u64,
            } || op == PlayerOpView::NotePaused { paused: false } || op
                == PlayerOpView::PauseCaptures { paused: false } || op == PlayerOpView::NoteCommand {
                command_id: command.command_id,
            } || op == PlayerOpView::TakeActive)
            &&& plan.len() >= 6
            &&& plan[plan.len() - 6] == prepare
            &&& plan.last() == PlayerOpView::TakeActive
            &&& stops ==> plan.take(plan.len() - 6).contains(op)
        }),
{
    let plan = player.plan(command, path, cached, active_position_ms);
    let position_ms: u64 = match command.position_ms {
        Some(position_ms) => position_ms,
        None => 0,
    };
    assert(frame_at_ms(position_ms) == position_ms * 48);
    lemma_stops(player, op);
    let stops = player.stop_all();
    let n = stops.len() as int;
    assert(plan.take(plan.len() - 6) =~= stops);
    assert(plan[n + 1] == PlayerOpView::SeekCaptures { frame: (position_ms * 48) as u64 });
    assert(plan[n + 2] == PlayerOpView::NotePaused { paused: false });
    assert(plan[n + 3] == PlayerOpView::PauseCaptures { paused: false });
    assert(plan[n + 4] == PlayerOpView::NoteCommand { command_id: command.command_id });
    assert(plan[n + 5] == PlayerOpView::TakeActive);
    if stops.contains(op) {
        let i = choose|i: int| 0 <= i < n && stops[i] == op;
        assert(plan[i] == op);
    }
    if plan.contains(op) {
        let i = choose|i: int| 0 <= i < plan.len() && plan[i] == op;
        if i < n {
            assert(stops[i] == op);
        }
    }
}

/// A switch begins at the position of the command, else where the player that is heard
/// stands, else at the beginning. It ends what waits, and of media that is cached makes a
/// player that waits for its turn unheard, paused where playback is; other media is
/// fetched first.
pub proof fn law_switch_begins_where_playback_stands(
    player: PlayerView,
    command: PlaybackCommandView,
    path: Seq<char>,
    cached: bool,
    active_position_ms: Option<u64>,
    op: PlayerOpView,
)
    requires
        command.action == PlaybackAction::Switch,
    ensures
        ({
            let plan = player.plan(command, path, cached, active_position_ms);
            let position_ms: u64 = if command.position_ms is Some {
                command.position_ms->0
            } else if player.active && active_position_ms is Some {
                active_position_ms->0
            } else {
                0
            };
            let stops = op == PlayerOpView::AbortDownload && player.download_position_ms is Some
                || op == PlayerOpView::StopPending && player.pending;
            let noted = op == PlayerOpView::NoteCommand { command_id: command.command_id };
            let prepare = PlayerOpView::Prepare {
                path,
                position_ms,
                paused: player.paused,
                audible: false,
            };
            &&& cached ==> (plan.contains(op) <==> (stops || noted || op == prepare || op
                == PlayerOpView::NotePosition { position_ms } || op == PlayerOpView::TakePending))
            &&& !cached ==> (plan.contains(op) <==> (stops || noted || op
                == PlayerOpView::StartDownload { position_ms }))
            &&& cached ==> plan.len() >= 4 && plan[plan.len() - 4] == prepare && plan[plan.len()
                - 2] == PlayerOpView::TakePending
            &&& plan.last() == PlayerOpView::NoteCommand { command_id: command.command_id }
            &&& stops ==> plan.take(
                plan.len() - if cached {
                    4
                } else {
                    2int
                },
            ).contains(op)
        }),
{
    let plan = player.plan(command, path, cached, active_position_ms);
    let position_ms: u64 = player.switch_position(command, active_position_ms);
    lemma_stops(player, op);
    let stops = player.stop_waiting();
    let n = stops.len() as int;
    assert(plan.take(n) =~= stops);
    if cached {
        assert(plan[n + 1] == PlayerOpView::NotePosition { position_ms });
        assert(plan[n + 2] == PlayerOpView::TakePending);
        assert(plan[n + 3] == PlayerOpView::NoteCommand { command_id: command.command_id });
    } else {
        assert(plan[n] == PlayerOpView::StartDownload { position_ms });
        assert(plan[n + 1] == PlayerOpView::NoteCommand { command_id: command.command_id });
    }
    if stops.contains(op) {
        let i = choose|i: int| 0 <= i < n && stops[i] == op;
        assert(plan[i] == op);
    }
    if plan.contains(op) {
        let i = choose|i: int| 0 <= i < plan.len() && plan[i] == op;
        if i < n {
            assert(stops[i] == op);
        }
    }
}

/// Seek moves the player that is heard, where there is one, and the captures with it: 48
/// frames for every millisecond. Without a position it goes to the beginning.
pub proof fn law_seek_moves_player_and_captures(
    player: PlayerView,
    command: PlaybackCommandView,
    path: Seq<char>,
    cached: bool,
    active_position_ms: Option<u64>,
)
    requires
        command.action == PlaybackAction::Seek,
        command.position_ms matches Some(position_ms) ==> position_ms * 48_000 <= u64::MAX,
    ensures
        ({
            let plan = player.plan(command, path, cached, active_position_ms);
            let position_ms: u64 = match command.position_ms {
                Some(position_ms) => position_ms,
                None => 0,
            };
            &&& plan.last() == PlayerOpView::SeekCaptures { frame: (position_ms * 48) as u64 }
            &&& player.active ==> plan.len() == 2 && plan[0] == PlayerOpView::SeekActive {
                position_ms,
            }
            &&& !player.active ==> plan.len() == 1
        }),
{
    let position_ms: u64 = match command.position_ms {
        Some(position_ms) => position_ms,
        None => 0,
    };
    assert(frame_at_ms(position_ms) == position_ms * 48);
}

/// Stop and next end every source that there is, and then playback and the captures are
/// paused.
pub proof fn law_stop_and_next_end_every_source(
    player: PlayerView,
    command: PlaybackCommandView,
    path: Seq<char>,
    cached: bool,
    active_position_ms: Option<u64>,
    op: PlayerOpView,
)
    requires
        command.action == PlaybackAction::Stop || command.action == PlaybackAction::Next,
    ensures
        ({
            let plan = player.plan(command, path, cached, active_position_ms);
            let stops = op == PlayerOpView::AbortDownload && player.download_position_ms is Some
                || op == PlayerOpView::StopPending && player.pending || op
                == PlayerOpView::StopActive && player.active;
            &&& plan.contains(op) <==> (stops || op == PlayerOpView::NotePaused { paused: true }
                || op == PlayerOpView::PauseCaptures { paused: true })
            &&& plan.len() >= 2
            &&& plan[plan.len() - 2] == PlayerOpView::NotePaused { paused: true }
            &&& plan[plan.len() - 1] == PlayerOpView::PauseCaptures { paused: true }
        }),
{
    let plan = player.plan(command, path, cached, active_position_ms);
    lemma_stops(player, op);
    let stops = player.stop_all();
    let n = stops.len() as int;
    if stops.contains(op) {
        let i = choose|i: int| 0 <= i < n && stops[i] == op;
        assert(plan[i] == op);
    }
    if plan.contains(op) {
        let i = choose|i: int| 0 <= i < plan.len() && plan[i] == op;
        if i < n {
            assert(stops[i] == op);
        }
    }
    assert(plan[n] == PlayerOpView::NotePaused { paused: true });
    assert(plan[n + 1] == PlayerOpView::PauseCaptures { paused: true });
}

/// Media that was fetched for a switch becomes a player at the position the switch was to
/// begin at, unheard, and paused where playback is. A download that failed calls for
/// nothing, nor does one that runs, nor one that nothing waits for.
pub proof fn law_fetched_media_is_prepared_where_the_switch_begins(
    player: PlayerView,
    path: String,
    position_ms: u64,
)
    ensures
        ({
            let (polled, plan) = PlayerView {
                download_position_ms: Some(position_ms),
                ..player
            }.polled(Download::Finished(path));
            &&& polled == (PlayerView { download_position_ms: None, ..player })
            &&& plan == seq![
                PlayerOpView::Prepare {
                    path: path@,
                    position_ms,
                    paused: player.paused,
                    audible: false,
                },
                PlayerOpView::TakePending,
            ]
        }),
        player.polled(Download::Failed) == (
            PlayerView { download_position_ms: None, ..player },
            Seq::<PlayerOpView>::empty(),
        ),
        player.polled(Download::Running) == (player, Seq::<PlayerOpView>::empty()),
        player.download_position_ms is None ==> player.polled(Download::Finished(path)) == (
            player,
            Seq::<PlayerOpView>::empty(),
        ),
{
}

/// A player that waits has its turn once it plays, or once it is paused while playback
/// is. It is moved to where the player that is heard stands, else to where its switch
/// began, and becomes audible before the other one is silenced and stopped; the captures
/// go to the frame of that position. A player that failed is stopped, and one that is not
/// ready waits on.
pub proof fn law_turn_comes_when_the_player_runs(
    player: PlayerView,
    state: Option<PipelineState>,
    active_position_ms: Option<u64>,
    op: PlayerOpView,
)
    requires
        active_position_ms matches Some(position_ms) ==> position_ms * 48_000 <= u64::MAX,
        player.pending_position_ms * 48_000 <= u64::MAX,
    ensures
        ({
            let plan = player.promotion(state, active_position_ms);
            let ready = state == Some(PipelineState::Playing) || player.paused && state == Some(
                PipelineState::Paused,
            );
            let position_ms: u64 = if player.active && active_position_ms is Some {
                active_position_ms->0
            } else {
                player.pending_position_ms
            };
            &&& player.pending && ready ==> {
                &&& plan.contains(op) <==> (op == PlayerOpView::SeekPending { position_ms } || op
                    == PlayerOpView::RaisePending || op == PlayerOpView::MuteActive
                    && player.active || op == PlayerOpView::StopActive && player.active || op
                    == PlayerOpView::PromotePending || op == PlayerOpView::SeekCaptures {
                    frame: (position_ms * 48) as u64,
                })
                &&& plan[0] == PlayerOpView::SeekPending { position_ms }
                &&& plan[1] == PlayerOpView::RaisePending
                &&& player.active ==> plan.len() == 6 && plan[2] == PlayerOpView::MuteActive
                    && plan[3] == PlayerOpView::StopActive
                &&& plan[plan.len() - 2] == PlayerOpView::PromotePending
            }
            &&& player.pending && state is None ==> plan == seq![PlayerOpView::StopPending]
            &&& !player.pending || (state is Some && !ready) ==> plan == Seq::<
                PlayerOpView,
            >::empty()
        }),
{
    let plan = player.promotion(state, active_position_ms);
    let position_ms: u64 = player.handoff(active_position_ms);
    assert(frame_at_ms(position_ms) == position_ms * 48);
    if player.promotes(state) {
        assert(plan[0] == PlayerOpView::SeekPending { position_ms });
        assert(plan[1] == PlayerOpView::RaisePending);
        if player.active {
            assert(plan[2] == PlayerOpView::MuteActive);
            assert(plan[3] == PlayerOpView::StopActive);
        }
        assert(plan[plan.len() - 2] == PlayerOpView::PromotePending);
        assert(plan[plan.len() - 1] == PlayerOpView::SeekCaptures {
            frame: (position_ms * 48) as u64,
        });
    }
}

/// Where a player that has its turn cannot be moved it is stopped; nothing else that
/// fails calls for anything.
pub proof fn law_failed_handoff_stops_the_waiting_player(op: PlayerOpView)
    ensures
        op is SeekPending ==> recourse(op) == seq![PlayerOpView::StopPending],
        !(op is SeekPending) ==> recourse(op) == Seq::<PlayerOpView>::empty(),
{
}

/// At first nothing is played, nothing waits, and playback is paused.
pub proof fn law_nothing_is_played_at_first()
    ensures
        ({
            let player = PlayerView::initial();
            &&& !player.active && !player.pending && player.paused
            &&& player.download_position_ms is None
            &&& player.active_command_id is None
            &&& player.pending_position_ms == 0
        }),
{
}

/// What is done to the players shows in what is known of them, and in nothing more.
pub proof fn law_steps_are_noted(player: PlayerView, op: PlayerOpView)
    ensures
        ({
            let next = player.after(op);
            &&& next.active == (op is TakeActive || op is PromotePending || player.active && !(
            op is StopActive))
            &&& next.pending == (op is TakePending || player.pending && !(op is StopPending
                || op is PromotePending))
            &&& next.download_position_ms == if op is AbortDownload {
                None
            } else if let PlayerOpView::StartDownload { position_ms } = op {
                Some(position_ms)
            } else {
                player.download_position_ms
            }
            &&& next.pending_position_ms == if let PlayerOpView::NotePosition { position_ms } = op {
                position_ms
            } else {
                player.pending_position_ms
            }
            &&& next.paused == if let PlayerOpView::NotePaused { paused } = op {
                paused
            } else {
                player.paused
            }
            &&& next.active_command_id == if let PlayerOpView::NoteCommand { command_id } = op {
                Some(command_id)
            } else {
                player.active_command_id
            }
        }),
{
}

/// Cached media is named by the asset of the command, or by the command where it has
/// none, with the ending `.mp3` where the URL of the media has it and `.audio` otherwise.
/// It is kept in the cache of the data directory.
pub proof fn law_media_is_cached_by_its_asset(
    command: PlaybackCommandView,
    data_dir: Seq<char>,
)
    requires
        data_dir.len() > 0 && data_dir.last() != '/',
    ensures
        ({
            let name = if command.asset_id is Some {
                command.asset_id->0
            } else {
                command.command_id
            };
            let is_mp3 = command.media_url is Some && command.media_url->0.len() >= 4
                && command.media_url->0.skip(command.media_url->0.len() - 4) == seq![
                '.',
                'm',
                'p',
                '3',
            ];
            &&& is_mp3 ==> media_file_name(command) == name + seq!['.', 'm', 'p', '3']
            &&& !is_mp3 ==> media_file_name(command) == name + seq!['.', 'a', 'u', 'd', 'i', 'o']
            &&& !(name.len() > 0 && name[0] == '/') ==> cached_media(data_dir, command) == data_dir
                + seq!['/', 'c', 'a', 'c', 'h', 'e', '/'] + media_file_name(command)
            &&& name.len() > 0 && name[0] == '/' ==> cached_media(data_dir, command)
                == media_file_name(command)
        }),
{
    reveal_strlit(".mp3");
    reveal_strlit(".audio");
    reveal_strlit("cache");
    let name = if command.asset_id is Some {
        command.asset_id->0
    } else {
        command.command_id
    };
    let file = media_file_name(command);
    assert(".mp3"@ =~= seq!['.', 'm', 'p', '3']);
    assert(".audio"@ =~= seq!['.', 'a', 'u', 'd', 'i', 'o']);
    if let Some(media_url) = command.media_url {
        if media_url.len() >= 4 {
            assert(media_url.skip(media_url.len() - 4) =~= media_url.subrange(
                media_url.len() - 4,
                media_url.len() as int,
            ));
        }
    }
    if name.len() > 0 {
        assert(file[0] == name[0]);
    } else {
        assert(file[0] == '.');
    }
    let cache = joined(data_dir, "cache"@);
    assert(cache =~= data_dir + seq!['/', 'c', 'a', 'c', 'h', 'e']);
    assert(cache.last() == 'e');
    if file[0] != '/' {
        assert(cached_media(data_dir, command) =~= data_dir + seq![
            '/',
            'c',
            'a',
            'c',
            'h',
            'e',
            '/',
        ] + file);
    }
}

/// What is done is seen in the order in which it is done.
pub proof fn law_steps_keep_their_order(ops: Seq<PlayerOp>, i: int)
    requires
        0 <= i < ops.len(),
    ensures
        op_views(ops).len() == ops.len(),
        op_views(ops)[i] == ops[i]@,
{
}

/// What is done to the players is seen with what it says.
pub proof fn law_steps_are_seen_as_they_are(op: PlayerOp)
    ensures
        op is AbortDownload <==> op@ is AbortDownload,
        op is StopPending <==> op@ is StopPending,
        op is StopActive <==> op@ is StopActive,
        op is TakeActive <==> op@ is TakeActive,
        op is TakePending <==> op@ is TakePending,
        op is RaisePending <==> op@ is RaisePending,
        op is MuteActive <==> op@ is MuteActive,
        op is PromotePending <==> op@ is PromotePending,
        op matches PlayerOp::Prepare { path, position_ms, paused, audible } ==> op@
            == (PlayerOpView::Prepare { path: path@, position_ms, paused, audible }),
        op matches PlayerOp::StartDownload { position_ms } ==> op@ == (PlayerOpView::StartDownload {
            position_ms,
        }),
        op matches PlayerOp::SetActive { paused } ==> op@ == (PlayerOpView::SetActive { paused }),
        op matches PlayerOp::SetPending { paused } ==> op@ == (PlayerOpView::SetPending { paused }),
        op matches PlayerOp::SeekActive { position_ms } ==> op@ == (PlayerOpView::SeekActive {
            position_ms,
        }),
        op matches PlayerOp::SeekPending { position_ms } ==> op@ == (PlayerOpView::SeekPending {
            position_ms,
        }),
        op matches PlayerOp::SeekCaptures { frame } ==> op@ == (PlayerOpView::SeekCaptures {
            frame,
        }),
        op matches PlayerOp::PauseCaptures { paused } ==> op@ == (PlayerOpView::PauseCaptures {
            paused,
        }),
        op matches PlayerOp::NotePaused { paused } ==> op@ == (PlayerOpView::NotePaused { paused }),
        op matches PlayerOp::NotePosition { position_ms } ==> op@ == (PlayerOpView::NotePosition {
            position_ms,
        }),
        op matches PlayerOp::NoteCommand { command_id } ==> op@ == (PlayerOpView::NoteCommand {
            command_id: command_id@,
        }),
{
}

/// Only play and seek move the captures to a position of the command, which may be as late
/// as its frame can be numbered.
pub proof fn law_positions_that_fit(command: PlaybackCommandView)
    ensures
        command.action != PlaybackAction::Play && command.action != PlaybackAction::Seek
            ==> position_fits(command),
        command.position_ms is None ==> position_fits(command),
        command.position_ms matches Some(position_ms) ==> (command.action == PlaybackAction::Play
            || command.action == PlaybackAction::Seek ==> (position_fits(command) <==> position_ms
            <= 384_307_168_202_282)),
{
}

} // verus!
