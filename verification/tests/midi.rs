use kma_audio_agent::midi::{apply_mixer, find_midi_port, mixer_messages, snapshot_program};
use kma_audio_agent::protocol::{
    ChannelState, InputLevelState, LevelState, MixerState, ReverbPreset, ReverbState,
};

fn db_to_cc(db: f32) -> u8 {
    (1.0 + ((db.clamp(-70.0, 10.0) + 70.0) / 80.0) * 126.0).round() as u8
}

fn percent_to_cc(percent: f32) -> u8 {
    (percent.clamp(0.0, 100.0) * 1.27).round() as u8
}

fn level(db: f32, muted: bool) -> LevelState {
    LevelState {
        level_cc: db_to_cc(db),
        muted,
    }
}

fn state(mon1: Option<LevelState>, mon2: Option<LevelState>, preset: ReverbPreset) -> MixerState {
    let mic = ChannelState {
        level_cc: db_to_cc(-18.0),
        muted: false,
        compressor_cc: percent_to_cc(35.0),
        reverb_send_cc: percent_to_cc(25.0),
    };
    MixerState {
        mic1: mic,
        mic2: mic,
        music: InputLevelState {
            level_cc: db_to_cc(-6.0),
            muted: false,
        },
        main: level(-3.0, false),
        mon1,
        mon2,
        reverb: ReverbState {
            preset,
            decay_cc: percent_to_cc(50.0),
            return_level_cc: db_to_cc(-12.0),
        },
    }
}

#[test]
fn maps_outputs_and_fx_to_flow8_channels() {
    let state = state(
        Some(level(-12.0, false)),
        Some(level(-20.0, true)),
        ReverbPreset::Chorus,
    );

    let messages = mixer_messages(&state);
    assert!(messages.contains(&vec![0xB7, 7, db_to_cc(-3.0)]));
    assert!(messages.contains(&vec![0xB8, 7, db_to_cc(-12.0)]));
    assert!(messages.contains(&vec![0xB9, 7, 0]));
    assert!(messages.contains(&vec![0xCD, 14]));
    assert!(messages.contains(&vec![0xBA, 7, db_to_cc(-12.0)]));
}

#[test]
fn old_server_state_leaves_monitor_buses_untouched() {
    let state = state(None, None, ReverbPreset::Default);

    assert_eq!(state.mon1, None);
    assert_eq!(state.mon2, None);
    let messages = mixer_messages(&state);
    assert!(!messages.iter().any(|message| message[0] == 0xB8));
    assert!(!messages.iter().any(|message| message[0] == 0xB9));
}

#[test]
fn snapshot_slots_are_kept_within_range() {
    assert_eq!(snapshot_program(15), [0xCF, 15]);
    assert_eq!(snapshot_program(0), [0xCF, 1]);
    assert_eq!(snapshot_program(1), [0xCF, 1]);
    assert_eq!(snapshot_program(255), [0xCF, 15]);
}

#[test]
fn mixer_messages_come_in_their_order() {
    let mut state = state(None, Some(level(10.0, false)), ReverbPreset::MaleVocal);
    state.mic1.muted = true;
    state.mic2.level_cc = 5;
    state.main.muted = true;
    let mic = db_to_cc(-18.0);
    assert_eq!(
        mixer_messages(&state),
        vec![
            vec![0xB0, 7, mic],
            vec![0xB0, 5, 127],
            vec![0xB0, 11, 44],
            vec![0xB0, 16, 32],
            vec![0xB1, 7, 5],
            vec![0xB1, 5, 0],
            vec![0xB1, 11, 44],
            vec![0xB1, 16, 32],
            vec![0xB6, 7, db_to_cc(-6.0)],
            vec![0xB6, 5, 0],
            vec![0xB7, 7, 0],
            vec![0xCD, 2],
            vec![0xBD, 1, 64],
            vec![0xBA, 7, db_to_cc(-12.0)],
            vec![0xB9, 7, 127],
        ]
    );
}

#[test]
fn every_preset_has_its_program() {
    for (preset, program) in [
        (ReverbPreset::Default, 1),
        (ReverbPreset::MaleVocal, 2),
        (ReverbPreset::FemaleVocal, 3),
        (ReverbPreset::Chorus, 14),
    ] {
        let messages = mixer_messages(&state(None, None, preset));
        assert_eq!(messages[11], vec![0xCD, program]);
    }
}

#[test]
fn the_snapshot_is_selected_before_the_controls() {
    let state = state(None, None, ReverbPreset::Default);
    let messages = apply_mixer(&state, 9);
    assert_eq!(messages[0], vec![0xCF, 9]);
    assert_eq!(messages[1..].to_vec(), mixer_messages(&state));
}

#[test]
fn the_first_port_with_the_name_of_the_device_is_taken() {
    let names = vec![
        Some("Midi Through 14:0".to_owned()),
        None,
        Some("FLOW 8:FLOW 8 MIDI 1 20:0".to_owned()),
        Some("FLOW 8 again".to_owned()),
    ];
    assert_eq!(find_midi_port(&names, "FLOW 8"), Some(2));
    assert_eq!(find_midi_port(&names, "flow 8"), None);
    assert_eq!(find_midi_port(&names, ""), Some(0));
    assert_eq!(find_midi_port(&vec![None], ""), None);
}
