//! MIDI messages that bring the mixer into a desired state.

use vstd::prelude::*;

use crate::protocol::{optional_text, MixerState, ReverbPreset};
use crate::text::{contains, occurs_in};

verus! {

pub const MIC1_CHANNEL: u8 = 0;

pub const MIC2_CHANNEL: u8 = 1;

pub const MUSIC_CHANNEL: u8 = 6;

pub const MAIN_BUS_CHANNEL: u8 = 7;

pub const MON1_BUS_CHANNEL: u8 = 8;

pub const MON2_BUS_CHANNEL: u8 = 9;

pub const FX1_BUS_CHANNEL: u8 = 10;

pub const FX1_CONTROL_CHANNEL: u8 = 13;

pub const GLOBAL_CHANNEL: u8 = 15;

/// The control change that sets `controller` of `channel` to `value`.
pub open spec fn control_change(channel: u8, controller: u8, value: u8) -> Seq<u8> {
    seq![0xB0u8 | channel, controller, value]
}

/// The message that selects `program` on `channel`.
pub open spec fn program_selection(channel: u8, program: u8) -> Seq<u8> {
    seq![0xC0u8 | channel, program]
}

/// Controller value of a switch.
pub open spec fn switch_value(on: bool) -> u8 {
    if on {
        127
    } else {
        0
    }
}

/// Controller value of a bus, which has no switch of its own.
pub open spec fn bus_value(level_cc: u8, muted: bool) -> u8 {
    if muted {
        0
    } else {
        level_cc
    }
}

/// Program of a reverb preset.
pub open spec fn preset_program(preset: ReverbPreset) -> u8 {
    match preset {
        ReverbPreset::Default => 1,
        ReverbPreset::MaleVocal => 2,
        ReverbPreset::FemaleVocal => 3,
        ReverbPreset::Chorus => 14,
    }
}

/// The messages that every state takes, in order.
pub open spec fn common_messages(state: MixerState) -> Seq<Seq<u8>> {
    seq![
        control_change(MIC1_CHANNEL, 7, state.mic1.level_cc),
        control_change(MIC1_CHANNEL, 5, switch_value(state.mic1.muted)),
        control_change(MIC1_CHANNEL, 11, state.mic1.compressor_cc),
        control_change(MIC1_CHANNEL, 16, state.mic1.reverb_send_cc),
        control_change(MIC2_CHANNEL, 7, state.mic2.level_cc),
        control_change(MIC2_CHANNEL, 5, switch_value(state.mic2.muted)),
        control_change(MIC2_CHANNEL, 11, state.mic2.compressor_cc),
        control_change(MIC2_CHANNEL, 16, state.mic2.reverb_send_cc),
        control_change(MUSIC_CHANNEL, 7, state.music.level_cc),
        control_change(MUSIC_CHANNEL, 5, switch_value(state.music.muted)),
        control_change(MAIN_BUS_CHANNEL, 7, bus_value(state.main.level_cc, state.main.muted)),
        program_selection(FX1_CONTROL_CHANNEL, preset_program(state.reverb.preset)),
        control_change(FX1_CONTROL_CHANNEL, 1, state.reverb.decay_cc),
        control_change(FX1_BUS_CHANNEL, 7, state.reverb.return_level_cc),
    ]
}

/// The message for the first monitor bus, where the state speaks of it.
pub open spec fn mon1_messages(state: MixerState) -> Seq<Seq<u8>> {
    match state.mon1 {
        Some(mon1) => seq![
            control_change(MON1_BUS_CHANNEL, 7, bus_value(mon1.level_cc, mon1.muted)),
        ],
        None => Seq::empty(),
    }
}

/// The message for the second monitor bus, where the state speaks of it.
pub open spec fn mon2_messages(state: MixerState) -> Seq<Seq<u8>> {
    match state.mon2 {
        Some(mon2) => seq![
            control_change(MON2_BUS_CHANNEL, 7, bus_value(mon2.level_cc, mon2.muted)),
        ],
        None => Seq::empty(),
    }
}

/// The messages that bring the mixer into `state`, in order.
pub open spec fn messages_for(state: MixerState) -> Seq<Seq<u8>> {
    common_messages(state) + mon1_messages(state) + mon2_messages(state)
}

/// The bytes of every message.
pub open spec fn message_bytes(messages: Seq<Vec<u8>>) -> Seq<Seq<u8>> {
    messages.map_values(|message: Vec<u8>| message@)
}

/// The message that recalls snapshot `slot`, moved into the slots there are.
pub fn snapshot_program(slot: u8) -> (message: [u8; 2])
    ensures
        message@ == program_selection(
            GLOBAL_CHANNEL,
            slot_program(slot),
        ),
{
    let program: u8 = if slot < 1 {
        1
    } else if slot > 15 {
        15
    } else {
        slot
    };
    let message = [0xC0u8 | GLOBAL_CHANNEL, program];
    assert(message@ =~= program_selection(GLOBAL_CHANNEL, program));
    message
}

/// The control change that sets `controller` of `channel` to `value`.
pub fn cc(channel: u8, controller: u8, value: u8) -> (message: Vec<u8>)
    ensures
        message@ == control_change(channel, controller, value),
{
    let mut message: Vec<u8> = Vec::new();
    message.push(0xB0u8 | channel);
    message.push(controller);
    message.push(value);
    assert(message@ =~= control_change(channel, controller, value));
    message
}

/// The message that selects `program` on `channel`.
pub fn program_change(channel: u8, program: u8) -> (message: Vec<u8>)
    ensures
        message@ == program_selection(channel, program),
{
    let mut message: Vec<u8> = Vec::new();
    message.push(0xC0u8 | channel);
    message.push(program);
    assert(message@ =~= program_selection(channel, program));
    message
}

/// Controller value of a bus, which has no switch of its own.
pub fn bus_level_cc(level_cc: u8, muted: bool) -> (value: u8)
    ensures
        value == bus_value(level_cc, muted),
{
    if muted {
        0
    } else {
        level_cc
    }
}

/// Controller value of a switch.
pub fn bool_cc(value: bool) -> (controller_value: u8)
    ensures
        controller_value == switch_value(value),
{
    if value {
        127
    } else {
        0
    }
}

/// Appends a message to those that are to be sent.
fn add_message(messages: &mut Vec<Vec<u8>>, message: Vec<u8>)
    ensures
        message_bytes(final(messages)@) == message_bytes(old(messages)@).push(message@),
{
    messages.push(message);
    assert(message_bytes(messages@) =~= message_bytes(old(messages)@).push(message@));
}

/// The messages that bring the mixer into `state`, in order.
pub fn mixer_messages(state: &MixerState) -> (messages: Vec<Vec<u8>>)
    ensures
        message_bytes(messages@) == messages_for(*state),
{
    let preset: u8 = match state.reverb.preset {
        ReverbPreset::Default => 1,
        ReverbPreset::MaleVocal => 2,
        ReverbPreset::FemaleVocal => 3,
        ReverbPreset::Chorus => 14,
    };
    let mut messages: Vec<Vec<u8>> = Vec::new();
    assert(message_bytes(messages@) =~= Seq::empty());
    add_message(&mut messages, cc(MIC1_CHANNEL, 7, state.mic1.level_cc));
    add_message(&mut messages, cc(MIC1_CHANNEL, 5, bool_cc(state.mic1.muted)));
    add_message(&mut messages, cc(MIC1_CHANNEL, 11, state.mic1.compressor_cc));
    add_message(&mut messages, cc(MIC1_CHANNEL, 16, state.mic1.reverb_send_cc));
    add_message(&mut messages, cc(MIC2_CHANNEL, 7, state.mic2.level_cc));
    add_message(&mut messages, cc(MIC2_CHANNEL, 5, bool_cc(state.mic2.muted)));
    add_message(&mut messages, cc(MIC2_CHANNEL, 11, state.mic2.compressor_cc));
    add_message(&mut messages, cc(MIC2_CHANNEL, 16, state.mic2.reverb_send_cc));
    add_message(&mut messages, cc(MUSIC_CHANNEL, 7, state.music.level_cc));
    add_message(&mut messages, cc(MUSIC_CHANNEL, 5, bool_cc(state.music.muted)));
    add_message(
        &mut messages,
        cc(MAIN_BUS_CHANNEL, 7, bus_level_cc(state.main.level_cc, state.main.muted)),
    );
    add_message(&mut messages, program_change(FX1_CONTROL_CHANNEL, preset));
    add_message(&mut messages, cc(FX1_CONTROL_CHANNEL, 1, state.reverb.decay_cc));
    add_message(&mut messages, cc(FX1_BUS_CHANNEL, 7, state.reverb.return_level_cc));
    assert(message_bytes(messages@) =~= common_messages(*state));
    if let Some(mon1) = &state.mon1 {
        add_message(
            &mut messages,
            cc(MON1_BUS_CHANNEL, 7, bus_level_cc(mon1.level_cc, mon1.muted)),
        );
    }
    assert(message_bytes(messages@) =~= common_messages(*state) + mon1_messages(*state));
    if let Some(mon2) = &state.mon2 {
        add_message(
            &mut messages,
            cc(MON2_BUS_CHANNEL, 7, bus_level_cc(mon2.level_cc, mon2.muted)),
        );
    }
    assert(message_bytes(messages@) =~= messages_for(*state));
    messages
}

/// The program of a snapshot slot, kept within the slots that there are.
pub open spec fn slot_program(slot: u8) -> u8 {
    if slot < 1 {
        1
    } else if slot > 15 {
        15
    } else {
        slot
    }
}

/// Everything that is sent to bring the mixer into `state`: the snapshot is
/// selected, and the controls are set on top of it.
pub fn apply_mixer(state: &MixerState, snapshot_slot: u8) -> (messages: Vec<Vec<u8>>)
    ensures
        message_bytes(messages@) == seq![
            program_selection(GLOBAL_CHANNEL, slot_program(snapshot_slot)),
        ] + messages_for(*state),
{
    let snapshot = snapshot_program(snapshot_slot);
    let mut message: Vec<u8> = Vec::new();
    message.push(snapshot[0]);
    message.push(snapshot[1]);
    assert(message@ =~= snapshot@);
    let mut messages = mixer_messages(state);
    let ghost controls = message_bytes(messages@);
    messages.insert(0, message);
    assert(message_bytes(messages@) =~= seq![message@] + controls);
    messages
}

/// The name of a port tells that it is that of `device`. A port without a name is
/// not.
pub open spec fn is_port_of(name: Option<String>, device: Seq<char>) -> bool {
    optional_text(name) matches Some(text) && occurs_in(text, device)
}

/// The output port of `device`: the first one whose name contains that of the
/// device.
pub fn find_midi_port(names: &Vec<Option<String>>, device: &str) -> (port: Option<usize>)
    ensures
        port is None <==> forall|i: int|
            0 <= i < names@.len() ==> !is_port_of(#[trigger] names@[i], device@),
        port matches Some(port) ==> {
            &&& port < names@.len()
            &&& is_port_of(names@[port as int], device@)
            &&& forall|i: int| 0 <= i < port ==> !is_port_of(#[trigger] names@[i], device@)
        },
{
    let mut i: usize = 0;
    while i < names.len()
        invariant
            i <= names@.len(),
            forall|j: int| 0 <= j < i ==> !is_port_of(#[trigger] names@[j], device@),
        decreases names@.len() - i,
    {
        let found = match &names[i] {
            Some(name) => contains(name.as_str(), device),
            None => false,
        };
        if found {
            assert(is_port_of(names@[i as int], device@));
            return Some(i);
        }
        i = i + 1;
    }
    None
}

/// Every controller value of the state is one that MIDI can carry.
pub open spec fn in_midi_range(state: MixerState) -> bool {
    &&& state.mic1.level_cc <= 127 && state.mic1.compressor_cc <= 127
    &&& state.mic1.reverb_send_cc <= 127
    &&& state.mic2.level_cc <= 127 && state.mic2.compressor_cc <= 127
    &&& state.mic2.reverb_send_cc <= 127
    &&& state.music.level_cc <= 127
    &&& state.main.level_cc <= 127
    &&& state.mon1 matches Some(mon1) ==> mon1.level_cc <= 127
    &&& state.mon2 matches Some(mon2) ==> mon2.level_cc <= 127
    &&& state.reverb.decay_cc <= 127 && state.reverb.return_level_cc <= 127
}

/// A message is one status byte followed by data bytes.
pub open spec fn is_midi_message(message: Seq<u8>) -> bool {
    &&& message.len() > 0
    &&& message[0] >= 0x80
    &&& forall|i: int| 1 <= i < message.len() ==> #[trigger] message[i] <= 127
}

proof fn lemma_status_bytes()
    ensures
        0xB0u8 | MIC1_CHANNEL == 0xB0,
        0xB0u8 | MIC2_CHANNEL == 0xB1,
        0xB0u8 | MUSIC_CHANNEL == 0xB6,
        0xB0u8 | MAIN_BUS_CHANNEL == 0xB7,
        0xB0u8 | MON1_BUS_CHANNEL == 0xB8,
        0xB0u8 | MON2_BUS_CHANNEL == 0xB9,
        0xB0u8 | FX1_BUS_CHANNEL == 0xBA,
        0xB0u8 | FX1_CONTROL_CHANNEL == 0xBD,
        0xC0u8 | FX1_CONTROL_CHANNEL == 0xCD,
        0xC0u8 | GLOBAL_CHANNEL == 0xCF,
{
    assert(0xB0u8 | 0u8 == 0xB0u8) by (bit_vector);
    assert(0xB0u8 | 1u8 == 0xB1u8) by (bit_vector);
    assert(0xB0u8 | 6u8 == 0xB6u8) by (bit_vector);
    assert(0xB0u8 | 7u8 == 0xB7u8) by (bit_vector);
    assert(0xB0u8 | 8u8 == 0xB8u8) by (bit_vector);
    assert(0xB0u8 | 9u8 == 0xB9u8) by (bit_vector);
    assert(0xB0u8 | 10u8 == 0xBAu8) by (bit_vector);
    assert(0xB0u8 | 13u8 == 0xBDu8) by (bit_vector);
    assert(0xC0u8 | 13u8 == 0xCDu8) by (bit_vector);
    assert(0xC0u8 | 15u8 == 0xCFu8) by (bit_vector);
}

/// A state within the range of MIDI gives well-formed MIDI messages only.
pub proof fn law_messages_are_midi(state: MixerState)
    requires
        in_midi_range(state),
    ensures
        forall|i: int|
            0 <= i < messages_for(state).len() ==> is_midi_message(#[trigger] messages_for(state)[i]),
{
    lemma_status_bytes();
}

/// A state that does not speak of a monitor bus leaves it untouched: no message
/// has the status byte of that bus.
pub proof fn law_absent_monitors_are_untouched(state: MixerState)
    ensures
        state.mon1 is None ==> forall|i: int|
            0 <= i < messages_for(state).len() ==> (#[trigger] messages_for(state)[i])[0] != 0xB8,
        state.mon2 is None ==> forall|i: int|
            0 <= i < messages_for(state).len() ==> (#[trigger] messages_for(state)[i])[0] != 0xB9,
{
    lemma_status_bytes();
}

/// A bus that is muted is set to zero, and one that is not to its level.
pub proof fn law_muted_buses_are_silent(state: MixerState)
    ensures
        messages_for(state).contains(
            seq![0xB7u8, 7u8, if state.main.muted { 0u8 } else { state.main.level_cc }],
        ),
        state.mon1 matches Some(mon1) ==> messages_for(state).contains(
            seq![0xB8u8, 7u8, if mon1.muted { 0u8 } else { mon1.level_cc }],
        ),
        state.mon2 matches Some(mon2) ==> messages_for(state).contains(
            seq![0xB9u8, 7u8, if mon2.muted { 0u8 } else { mon2.level_cc }],
        ),
{
    lemma_status_bytes();
    let messages = messages_for(state);
    assert(messages[10] == common_messages(state)[10]);
    if let Some(mon1) = state.mon1 {
        assert(messages[14] == mon1_messages(state)[0]);
    }
    if let Some(mon2) = state.mon2 {
        assert(messages.last() == mon2_messages(state)[0]);
        assert(messages[messages.len() - 1] == mon2_messages(state)[0]);
    }
}

/// The status byte of a message carries its channel, and the data bytes stand behind
/// it as they are.
pub proof fn law_status_byte_carries_the_channel(channel: u8, first: u8, second: u8)
    requires
        channel < 16,
    ensures
        control_change(channel, first, second) == seq![(0xB0 + channel) as u8, first, second],
        program_selection(channel, first) == seq![(0xC0 + channel) as u8, first],
{
    assert(0xB0u8 | channel == 0xB0 + channel) by (bit_vector)
        requires
            channel < 16,
    ;
    assert(0xC0u8 | channel == 0xC0 + channel) by (bit_vector)
        requires
            channel < 16,
    ;
}

/// Each microphone is set to its own level, switch, compressor and reverb send, and
/// the music to its own level and switch: a switch is 127 where the channel is muted
/// and 0 where it is not.
pub proof fn law_every_channel_is_set_to_its_own_state(state: MixerState)
    ensures
        ({
            let messages = messages_for(state);
            &&& messages[0] == seq![0xB0u8, 7u8, state.mic1.level_cc]
            &&& state.mic1.muted ==> messages[1] == seq![0xB0u8, 5u8, 127u8]
            &&& !state.mic1.muted ==> messages[1] == seq![0xB0u8, 5u8, 0u8]
            &&& messages[2] == seq![0xB0u8, 11u8, state.mic1.compressor_cc]
            &&& messages[3] == seq![0xB0u8, 16u8, state.mic1.reverb_send_cc]
            &&& messages[4] == seq![0xB1u8, 7u8, state.mic2.level_cc]
            &&& state.mic2.muted ==> messages[5] == seq![0xB1u8, 5u8, 127u8]
            &&& !state.mic2.muted ==> messages[5] == seq![0xB1u8, 5u8, 0u8]
            &&& messages[6] == seq![0xB1u8, 11u8, state.mic2.compressor_cc]
            &&& messages[7] == seq![0xB1u8, 16u8, state.mic2.reverb_send_cc]
            &&& messages[8] == seq![0xB6u8, 7u8, state.music.level_cc]
            &&& state.music.muted ==> messages[9] == seq![0xB6u8, 5u8, 127u8]
            &&& !state.music.muted ==> messages[9] == seq![0xB6u8, 5u8, 0u8]
        }),
{
    lemma_status_bytes();
    assert forall|i: int| 0 <= i < 14 implies #[trigger] messages_for(state)[i]
        == common_messages(state)[i] by {}
}

/// Behind the channels come the main bus, the reverb and the monitor buses that the
/// state speaks of, and nothing else. A muted bus is set to zero.
pub proof fn law_buses_and_reverb_are_set_to_their_own_state(state: MixerState)
    ensures
        ({
            let messages = messages_for(state);
            let program: u8 = match state.reverb.preset {
                ReverbPreset::Default => 1,
                ReverbPreset::MaleVocal => 2,
                ReverbPreset::FemaleVocal => 3,
                ReverbPreset::Chorus => 14,
            };
            &&& state.main.muted ==> messages[10] == seq![0xB7u8, 7u8, 0u8]
            &&& !state.main.muted ==> messages[10] == seq![0xB7u8, 7u8, state.main.level_cc]
            &&& messages[11] == seq![0xCDu8, program]
            &&& messages[12] == seq![0xBDu8, 1u8, state.reverb.decay_cc]
            &&& messages[13] == seq![0xBAu8, 7u8, state.reverb.return_level_cc]
            &&& state.mon1 matches Some(mon1) ==> messages[14] == seq![
                0xB8u8,
                7u8,
                if mon1.muted { 0u8 } else { mon1.level_cc },
            ]
            &&& state.mon2 matches Some(mon2) ==> messages.last() == seq![
                0xB9u8,
                7u8,
                if mon2.muted { 0u8 } else { mon2.level_cc },
            ]
            &&& state.mon1 is None && state.mon2 is None ==> messages.len() == 14
            &&& state.mon1 is Some && state.mon2 is None ==> messages.len() == 15
            &&& state.mon1 is None && state.mon2 is Some ==> messages.len() == 15
            &&& state.mon1 is Some && state.mon2 is Some ==> messages.len() == 16
        }),
{
    lemma_status_bytes();
    assert forall|i: int| 0 <= i < 14 implies #[trigger] messages_for(state)[i]
        == common_messages(state)[i] by {}
    if let Some(mon1) = state.mon1 {
        assert(messages_for(state)[14] == mon1_messages(state)[0]);
    }
    if let Some(mon2) = state.mon2 {
        assert(messages_for(state).last() == mon2_messages(state)[0]);
    }
}

/// The snapshot is recalled on the last channel. A slot that there is not is moved to
/// the nearest one.
pub proof fn law_snapshot_is_recalled(slot: u8)
    ensures
        1 <= slot <= 15 ==> program_selection(GLOBAL_CHANNEL, slot_program(slot)) == seq![
            0xCFu8,
            slot,
        ],
        slot == 0 ==> program_selection(GLOBAL_CHANNEL, slot_program(slot)) == seq![0xCFu8, 1u8],
        slot > 15 ==> program_selection(GLOBAL_CHANNEL, slot_program(slot)) == seq![0xCFu8, 15u8],
{
    lemma_status_bytes();
}

/// A switch is full on or off, and a bus is silent or at its level.
pub proof fn law_switches_and_buses(on: bool, level_cc: u8)
    ensures
        on ==> switch_value(on) == 127,
        !on ==> switch_value(on) == 0,
        bus_value(level_cc, true) == 0,
        bus_value(level_cc, false) == level_cc,
{
}

/// A port is that of the device exactly where its name holds the name of the device;
/// a port without a name never is.
pub proof fn law_port_is_found_by_its_name(name: Option<String>, device: Seq<char>)
    ensures
        is_port_of(None, device) == false,
        name matches Some(name) ==> (is_port_of(Some(name), device) <==> exists|at: int|
            0 <= at <= name@.len() - device.len() && #[trigger] name@.subrange(
                at,
                at + device.len(),
            ) == device),
{
    if let Some(name) = name {
        if is_port_of(Some(name), device) {
            let at = choose|at: int| crate::text::occurs_at(name@, device, at);
            assert(name@.subrange(at, at + device.len()) == device);
        }
        if exists|at: int|
            0 <= at <= name@.len() - device.len() && #[trigger] name@.subrange(
                at,
                at + device.len(),
            ) == device {
            let at = choose|at: int|
                0 <= at <= name@.len() - device.len() && #[trigger] name@.subrange(
                    at,
                    at + device.len(),
                ) == device;
            assert(crate::text::occurs_at(name@, device, at));
        }
    }
}

/// The bytes of messages stand in the order of the messages.
pub proof fn law_message_bytes_keep_the_order(messages: Seq<Vec<u8>>, i: int)
    requires
        0 <= i < messages.len(),
    ensures
        message_bytes(messages).len() == messages.len(),
        message_bytes(messages)[i] == messages[i]@,
{
}

} // verus!
