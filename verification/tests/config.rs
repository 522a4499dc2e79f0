use kma_audio_agent::config::{Config, ConfigError};

#[test]
fn accepts_shared_playback_device() {
    for device in ["default", "default:CARD=F8", "dmix:CARD=F8,DEV=0"] {
        let config = Config {
            alsa_playback_device: device.to_owned(),
            ..Config::default()
        };
        assert!(config.validate().is_ok(), "device={device}");
    }
}

#[test]
fn rejects_exclusive_playback_device() {
    for device in ["hw", "hw:CARD=F8,DEV=0", "plughw:CARD=F8,DEV=0"] {
        let config = Config {
            alsa_playback_device: device.to_owned(),
            ..Config::default()
        };
        let error = config.validate().unwrap_err().to_string();
        assert!(error.contains("shared ALSA PCM"), "device={device}");
    }
}

#[test]
fn white_space_around_a_device_does_not_count() {
    for device in [" hw ", "\thw:0", "plughw\n", "\u{3000}plughw:1\u{a0}"] {
        let config = Config {
            alsa_playback_device: device.to_owned(),
            ..Config::default()
        };
        assert_eq!(config.validate(), Err(ConfigError::ExclusivePlaybackDevice));
    }
    for device in ["hwx", "my hw:0", "plughwd", ""] {
        let config = Config {
            alsa_playback_device: device.to_owned(),
            ..Config::default()
        };
        assert_eq!(config.validate(), Ok(()));
    }
}

#[test]
fn snapshot_slots_go_from_one_to_fifteen() {
    for slot in 0..=255_u8 {
        let config = Config {
            snapshot_slot: slot,
            ..Config::default()
        };
        if (1..=15).contains(&slot) {
            assert_eq!(config.validate(), Ok(()));
        } else {
            assert_eq!(config.validate(), Err(ConfigError::SnapshotSlot));
        }
    }
    assert_eq!(
        ConfigError::SnapshotSlot.to_string(),
        "snapshot_slot must be between 1 and 15"
    );
}

#[test]
fn the_default_configuration_is_complete() {
    let config = Config::default();
    assert_eq!(config.server_url, None);
    assert_eq!(config.data_dir, "/var/lib/kma-audio-agent");
    assert_eq!(config.room_id, "default");
    assert_eq!(config.agent_name, None);
    assert_eq!(config.snapshot_slot, 15);
    assert_eq!(config.audio_device, "FLOW 8");
    assert_eq!(config.midi_device, "FLOW 8");
    assert_eq!(config.alsa_playback_device, "default");
    assert_eq!(config.alsa_capture_device, "default");
    assert_eq!(config.validate(), Ok(()));
}

#[test]
fn files_stand_in_the_data_directory() {
    let mut config = Config {
        data_dir: "/data".to_owned(),
        ..Config::default()
    };
    assert_eq!(config.credentials_path(), "/data/credentials.json");
    assert_eq!(config.calibration_path(), "/data/calibration.json");
    assert_eq!(config.spool_dir(), "/data/spool");
    assert_eq!(config.pairing_path(), "/data/pairing.json");
    config.data_dir = "/data/".to_owned();
    assert_eq!(config.spool_dir(), "/data/spool");
    config.data_dir = String::new();
    assert_eq!(config.spool_dir(), "spool");
}

#[test]
fn a_configured_name_comes_before_that_of_the_machine() {
    let named = Config {
        agent_name: Some("stage".to_owned()),
        ..Config::default()
    };
    assert_eq!(named.agent_name(), "stage");
    assert_eq!(named.agent_name_or("machine".to_owned()), "stage");
    let unnamed = Config::default();
    assert_eq!(unnamed.agent_name_or("machine".to_owned()), "machine");
}

#[test]
fn an_agent_without_a_name_has_that_of_its_machine() {
    let host = hostname::get()
        .unwrap_or_default()
        .to_string_lossy()
        .into_owned();
    assert_eq!(Config::default().agent_name(), host);
}

#[test]
fn the_capture_device_may_be_exclusive() {
    let config = Config {
        alsa_capture_device: "hw:CARD=F8,DEV=0".to_owned(),
        ..Config::default()
    };
    assert_eq!(config.validate(), Ok(()));
}
