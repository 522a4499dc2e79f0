//! Configuration of the agent.

use vstd::prelude::*;

use crate::path::{join, joined};
use crate::protocol::optional_text;
use crate::text::{equals, starts_with, trim, trimmed};

verus! {

fn default_data_dir() -> (path: String)
    ensures
        path@ == "/var/lib/kma-audio-agent"@,
{
    "/var/lib/kma-audio-agent".to_string()
}

fn default_snapshot_slot() -> (slot: u8)
    ensures
        slot == 15,
{
    15
}

fn default_room_id() -> (id: String)
    ensures
        id@ == "default"@,
{
    "default".to_string()
}

fn default_audio_device() -> (name: String)
    ensures
        name@ == "FLOW 8"@,
{
    "FLOW 8".to_string()
}

/// Configuration of the agent. Paths are texts with `/` between the components.
#[derive(Debug)]
pub struct Config {
    pub server_url: Option<String>,
    pub data_dir: String,
    pub room_id: String,
    pub agent_name: Option<String>,
    pub snapshot_slot: u8,
    pub audio_device: String,
    pub midi_device: String,
    pub alsa_playback_device: String,
    pub alsa_capture_device: String,
}

/// Configuration of the agent over texts.
pub struct ConfigView {
    pub server_url: Option<Seq<char>>,
    pub data_dir: Seq<char>,
    pub room_id: Seq<char>,
    pub agent_name: Option<Seq<char>>,
    pub snapshot_slot: u8,
    pub audio_device: Seq<char>,
    pub midi_device: Seq<char>,
    pub alsa_playback_device: Seq<char>,
    pub alsa_capture_device: Seq<char>,
}

impl View for Config {
    type V = ConfigView;

    open spec fn view(&self) -> ConfigView {
        ConfigView {
            server_url: optional_text(self.server_url),
            data_dir: self.data_dir@,
            room_id: self.room_id@,
            agent_name: optional_text(self.agent_name),
            snapshot_slot: self.snapshot_slot,
            audio_device: self.audio_device@,
            midi_device: self.midi_device@,
            alsa_playback_device: self.alsa_playback_device@,
            alsa_capture_device: self.alsa_capture_device@,
        }
    }
}

/// The configuration where none is given.
pub open spec fn default_config() -> ConfigView {
    ConfigView {
        server_url: None,
        data_dir: "/var/lib/kma-audio-agent"@,
        room_id: "default"@,
        agent_name: None,
        snapshot_slot: 15,
        audio_device: "FLOW 8"@,
        midi_device: "FLOW 8"@,
        alsa_playback_device: "default"@,
        alsa_capture_device: "default"@,
    }
}

impl Default for Config {
    fn default() -> (config: Self)
        ensures
            config@ == default_config(),
    {
        Config {
            server_url: None,
            data_dir: default_data_dir(),
            room_id: default_room_id(),
            agent_name: None,
            snapshot_slot: default_snapshot_slot(),
            audio_device: default_audio_device(),
            midi_device: default_audio_device(),
            alsa_playback_device: "default".to_string(),
            alsa_capture_device: "default".to_string(),
        }
    }
}

impl Clone for Config {
    fn clone(&self) -> (copy: Self)
        ensures
            copy == *self,
    {
        Config {
            server_url: self.server_url.clone(),
            data_dir: self.data_dir.clone(),
            room_id: self.room_id.clone(),
            agent_name: self.agent_name.clone(),
            snapshot_slot: self.snapshot_slot,
            audio_device: self.audio_device.clone(),
            midi_device: self.midi_device.clone(),
            alsa_playback_device: self.alsa_playback_device.clone(),
            alsa_capture_device: self.alsa_capture_device.clone(),
        }
    }
}

/// Why a configuration is refused.
#[derive(Debug, Clone, Copy, PartialEq, Eq, Structural)]
pub enum ConfigError {
    /// There is no such snapshot slot.
    SnapshotSlot,
    /// The playback device cannot be shared by two pipelines.
    ExclusivePlaybackDevice,
}

/// The error in words.
pub open spec fn config_error_text(error: ConfigError) -> Seq<char> {
    match error {
        ConfigError::SnapshotSlot => "snapshot_slot must be between 1 and 15"@,
        ConfigError::ExclusivePlaybackDevice => "alsa_playback_device must use a shared ALSA PCM (for example default or default:CARD=F8); hw and plughw devices are exclusive and prevent seamless source switching"@,
    }
}

impl ConfigError {
    /// The error in words.
    pub fn to_string(&self) -> (text: String)
        ensures
            text@ == config_error_text(*self),
    {
        match self {
            ConfigError::SnapshotSlot => "snapshot_slot must be between 1 and 15".to_string(),
            ConfigError::ExclusivePlaybackDevice => {
                "alsa_playback_device must use a shared ALSA PCM (for example default or default:CARD=F8); hw and plughw devices are exclusive and prevent seamless source switching".to_string()
            },
        }
    }
}

/// The ALSA device `device` can be opened once only.
pub open spec fn is_exclusive_device(device: Seq<char>) -> bool {
    let name = trimmed(device);
    ||| name == "hw"@
    ||| name == "plughw"@
    ||| "hw:"@.is_prefix_of(name)
    ||| "plughw:"@.is_prefix_of(name)
}

/// Why the configuration is refused, where it is.
pub open spec fn config_verdict(config: ConfigView) -> Result<(), ConfigError> {
    if !(1 <= config.snapshot_slot <= 15) {
        Err(ConfigError::SnapshotSlot)
    } else if is_exclusive_device(config.alsa_playback_device) {
        Err(ConfigError::ExclusivePlaybackDevice)
    } else {
        Ok(())
    }
}

/// Calls `hostname::get`: the name of this machine, empty where it cannot be
/// told. The name depends on the machine, so the contract says nothing of it.
#[verifier::external_body]
fn host_name() -> (name: String) {
    hostname::get().unwrap_or_default().to_string_lossy().into_owned()
}

impl Config {
    /// Refuses a configuration that the agent cannot work with.
    pub fn validate(&self) -> (verdict: Result<(), ConfigError>)
        ensures
            verdict == config_verdict(self@),
    {
        if self.snapshot_slot < 1 || self.snapshot_slot > 15 {
            return Err(ConfigError::SnapshotSlot);
        }
        let device = trim(self.alsa_playback_device.as_str());
        if equals(device, "hw") || equals(device, "plughw") || starts_with(device, "hw:")
            || starts_with(device, "plughw:") {
            return Err(ConfigError::ExclusivePlaybackDevice);
        }
        Ok(())
    }

    /// The name of the agent: the configured one, else that of this machine.
    pub fn agent_name(&self) -> (name: String)
        ensures
            self@.agent_name matches Some(configured) ==> name@ == configured,
    {
        self.agent_name_or(host_name())
    }

    /// The name of the agent on a machine named `host`.
    pub fn agent_name_or(&self, host: String) -> (name: String)
        ensures
            name@ == match self@.agent_name {
                Some(configured) => configured,
                None => host@,
            },
    {
        match &self.agent_name {
            Some(configured) => configured.clone(),
            None => host,
        }
    }

    /// Where the credentials are kept.
    pub fn credentials_path(&self) -> (path: String)
        ensures
            path@ == joined(self@.data_dir, "credentials.json"@),
    {
        join(self.data_dir.as_str(), "credentials.json")
    }

    /// Where the calibration is kept.
    pub fn calibration_path(&self) -> (path: String)
        ensures
            path@ == joined(self@.data_dir, "calibration.json"@),
    {
        join(self.data_dir.as_str(), "calibration.json")
    }

    /// Where takes are kept until they are uploaded.
    pub fn spool_dir(&self) -> (path: String)
        ensures
            path@ == joined(self@.data_dir, "spool"@),
    {
        join(self.data_dir.as_str(), "spool")
    }

    /// Where a pairing is kept until it is approved.
    pub fn pairing_path(&self) -> (path: String)
        ensures
            path@ == joined(self@.data_dir, "pairing.json"@),
    {
        join(self.data_dir.as_str(), "pairing.json")
    }
}

/// The configuration where none is given is accepted.
pub proof fn law_default_config_is_valid()
    ensures
        config_verdict(default_config()) == Ok::<(), ConfigError>(()),
{
    reveal_strlit("default");
    reveal_strlit("hw");
    reveal_strlit("plughw");
    reveal_strlit("hw:");
    reveal_strlit("plughw:");
    let device = "default"@;
    assert(device[0] == 'd');
    assert(trimmed(device) == device);
    assert(device.len() == 7);
    assert("hw:"@[0] == 'h');
    assert("plughw:"@[0] == 'p');
}

/// Only playback has to be shared: whatever the capture device is, the verdict is the
/// same.
pub proof fn law_capture_device_may_be_exclusive(config: ConfigView, capture_device: Seq<char>)
    ensures
        config_verdict(ConfigView { alsa_capture_device: capture_device, ..config })
            == config_verdict(config),
{
}

/// White space around the name of an exclusive device does not make it a shared
/// one.
pub proof fn law_white_space_hides_no_exclusive_device(device: Seq<char>, white: char)
    requires
        crate::text::is_white_space(white),
    ensures
        is_exclusive_device(device.push(white)) == is_exclusive_device(device),
        is_exclusive_device(seq![white] + device) == is_exclusive_device(device),
{
    assert((seq![white] + device).drop_first() =~= device);
    lemma_trim_push(device, white);
}

proof fn lemma_trim_push(text: Seq<char>, white: char)
    requires
        crate::text::is_white_space(white),
    ensures
        trimmed(text.push(white)) == trimmed(text),
    decreases text.len(),
{
    let longer = text.push(white);
    assert(longer.drop_last() =~= text);
    if text.len() == 0 {
        assert(longer.drop_first() =~= text);
    } else if crate::text::is_white_space(text.first()) {
        assert(longer.drop_first() =~= text.drop_first().push(white));
        lemma_trim_push(text.drop_first(), white);
    }
}

/// A configuration is refused for its slot where that is none of 1 to 15, whatever else it
/// says, and otherwise exactly where its playback device is exclusive.
pub proof fn law_slot_is_judged_first(config: ConfigView)
    ensures
        config.snapshot_slot == 0 || config.snapshot_slot > 15 ==> config_verdict(config) == Err::<
            (),
            ConfigError,
        >(ConfigError::SnapshotSlot),
        1 <= config.snapshot_slot <= 15 && is_exclusive_device(config.alsa_playback_device)
            ==> config_verdict(config) == Err::<(), ConfigError>(
            ConfigError::ExclusivePlaybackDevice,
        ),
        1 <= config.snapshot_slot <= 15 && !is_exclusive_device(config.alsa_playback_device)
            ==> config_verdict(config) == Ok::<(), ConfigError>(()),
{
}

/// The exclusive devices are `hw` and `plughw`, with or without a colon and what follows
/// it. No other device is exclusive, though its name may hold these words.
pub proof fn law_exclusive_devices_are_named_hw(device: Seq<char>, rest: Seq<char>)
    requires
        device.len() > 0,
        !crate::text::is_white_space(device[0]),
        !crate::text::is_white_space(device[device.len() - 1]),
    ensures
        device == seq!['h', 'w'] ==> is_exclusive_device(device),
        device == seq!['h', 'w', ':'] + rest ==> is_exclusive_device(device),
        device == seq!['p', 'l', 'u', 'g', 'h', 'w'] ==> is_exclusive_device(device),
        device == seq!['p', 'l', 'u', 'g', 'h', 'w', ':'] + rest ==> is_exclusive_device(device),
        device[0] != 'h' && device[0] != 'p' ==> !is_exclusive_device(device),
        is_exclusive_device(device) && device[0] == 'h' ==> device[1] == 'w' && (device.len() == 2
            || device[2] == ':'),
        is_exclusive_device(device) && device[0] == 'p' ==> device.len() >= 6 && device.take(6)
            == seq!['p', 'l', 'u', 'g', 'h', 'w'] && (device.len() == 6 || device[6] == ':'),
{
    reveal_strlit("hw");
    reveal_strlit("plughw");
    reveal_strlit("hw:");
    reveal_strlit("plughw:");
    assert(trimmed(device) == device);
    assert("hw"@ =~= seq!['h', 'w']);
    assert("plughw"@ =~= seq!['p', 'l', 'u', 'g', 'h', 'w']);
    assert("hw:"@ =~= seq!['h', 'w', ':']);
    assert("plughw:"@ =~= seq!['p', 'l', 'u', 'g', 'h', 'w', ':']);
    if device == seq!['h', 'w', ':'] + rest {
        assert(device.subrange(0, 3) =~= "hw:"@);
    }
    if device == seq!['p', 'l', 'u', 'g', 'h', 'w', ':'] + rest {
        assert(device.subrange(0, 7) =~= "plughw:"@);
    }
    if "hw:"@.is_prefix_of(device) {
        assert(device.subrange(0, 3)[0] == device[0]);
        assert(device.subrange(0, 3)[1] == device[1]);
        assert(device.subrange(0, 3)[2] == device[2]);
    }
    if "plughw:"@.is_prefix_of(device) {
        assert(device.subrange(0, 7)[0] == device[0]);
        assert(device.subrange(0, 7)[6] == device[6]);
        assert(device.take(6) =~= "plughw:"@.take(6));
        assert("plughw:"@.take(6) =~= "plughw"@);
    }
    if device == "plughw"@ {
        assert(device.take(6) =~= device);
    }
}

/// Where nothing is configured the agent looks for a server itself, keeps its data in its
/// own directory, uses the last slot, and shares the default devices.
pub proof fn law_defaults()
    ensures
        ({
            let config = default_config();
            &&& config.server_url is None
            &&& config.agent_name is None
            &&& config.data_dir == "/var/lib/kma-audio-agent"@
            &&& config.room_id == "default"@
            &&& config.snapshot_slot == 15
            &&& config.audio_device == "FLOW 8"@
            &&& config.midi_device == "FLOW 8"@
            &&& config.alsa_playback_device == "default"@
            &&& config.alsa_capture_device == "default"@
        }),
{
}

/// A configuration is seen with what it holds, each part in its place, and a refusal is
/// put in words by its reason.
pub proof fn law_config_is_seen_as_it_is(config: Config)
    ensures
        config@.data_dir == config.data_dir@,
        config@.room_id == config.room_id@,
        config@.snapshot_slot == config.snapshot_slot,
        config@.audio_device == config.audio_device@,
        config@.midi_device == config.midi_device@,
        config@.alsa_playback_device == config.alsa_playback_device@,
        config@.alsa_capture_device == config.alsa_capture_device@,
        config.server_url is None ==> config@.server_url is None,
        config.server_url matches Some(url) ==> config@.server_url == Some(url@),
        config.agent_name is None ==> config@.agent_name is None,
        config.agent_name matches Some(name) ==> config@.agent_name == Some(name@),
        config_error_text(ConfigError::SnapshotSlot) == "snapshot_slot must be between 1 and 15"@,
        config_error_text(ConfigError::ExclusivePlaybackDevice)
            == "alsa_playback_device must use a shared ALSA PCM (for example default or default:CARD=F8); hw and plughw devices are exclusive and prevent seamless source switching"@,
{
}

} // verus!
