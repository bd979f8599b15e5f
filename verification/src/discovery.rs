//! The discovery documents by which a home-automation hub learns of the
//! device: one number, two buttons and three switches.

use vstd::prelude::*;
use crate::bridge::{create_device_json, MqttTopics, Publication, PublicationView};
use crate::config::TransposeConfig;
use crate::text::{integer_text, push_integer};

verus! {

/// The device description that every document carries.
pub open spec fn device_json() -> Seq<char> {
    "{\n  \"identifiers\": [\"midi_transposer_transposer2025\"],\n  \"name\": \"MIDI Transposer 2025\",\n  \"manufacturer\": \"MidiTransposer\",\n  \"model\": \"MidiTransposer\"\n}"@
}

/// The end of every document: the availability topic and the device.
pub open spec fn document_tail(availability: Seq<char>) -> Seq<char> {
    "\",\n  \"availability_topic\": \""@ + availability + "\",\n  \"device\": "@ + device_json()
        + "\n}"@
}

/// The document of the number that sets the offset.
pub open spec fn number_document(
    command: Seq<char>,
    state: Seq<char>,
    min: int,
    max: int,
    availability: Seq<char>,
) -> Seq<char> {
    "{\n  \"name\": \"MIDI Transpose\",\n  \"unique_id\": \"transposer2025_transpose\",\n  \"command_topic\": \""@
        + command + "\",\n  \"state_topic\": \""@ + state + "\",\n  \"min\": "@ + integer_text(min)
        + ",\n  \"max\": "@ + integer_text(max)
        + ",\n  \"step\": 1,\n  \"unit_of_measurement\": \"semitones"@ + document_tail(
        availability,
    )
}

/// The document of a button.
pub open spec fn button_document(
    name: Seq<char>,
    id: Seq<char>,
    command: Seq<char>,
    availability: Seq<char>,
) -> Seq<char> {
    "{\n  \"name\": \""@ + name + "\",\n  \"unique_id\": \"transposer2025_"@ + id
        + "\",\n  \"command_topic\": \""@ + command + "\",\n  \"payload_press\": \"1"@
        + document_tail(availability)
}

/// The document of a switch.
pub open spec fn switch_document(
    name: Seq<char>,
    id: Seq<char>,
    command: Seq<char>,
    state: Seq<char>,
    availability: Seq<char>,
) -> Seq<char> {
    "{\n  \"name\": \""@ + name + "\",\n  \"unique_id\": \"transposer2025_"@ + id
        + "\",\n  \"command_topic\": \""@ + command + "\",\n  \"state_topic\": \""@ + state
        + "\",\n  \"payload_on\": \"1\",\n  \"payload_off\": \"0\",\n  \"state_on\": \"1\",\n  \"state_off\": \"0"@
        + document_tail(availability)
}

/// The six documents with the topics under which they are published.
pub open spec fn discovery_documents(topics: MqttTopics, bounds: TransposeConfig) -> Seq<
    PublicationView,
> {
    let availability = topics.availability@;
    seq![
        PublicationView {
            topic: "homeassistant/number/midi_transposer/transpose/config"@,
            payload: number_document(
                topics.transpose_set@,
                topics.transpose_state@,
                bounds.min as int,
                bounds.max as int,
                availability,
            ),
        },
        PublicationView {
            topic: "homeassistant/button/midi_transposer/transpose_up/config"@,
            payload: button_document(
                "Transpose Up"@,
                "transpose_up"@,
                topics.transpose_up@,
                availability,
            ),
        },
        PublicationView {
            topic: "homeassistant/button/midi_transposer/transpose_down/config"@,
            payload: button_document(
                "Transpose Down"@,
                "transpose_down"@,
                topics.transpose_down@,
                availability,
            ),
        },
        PublicationView {
            topic: "homeassistant/switch/midi_transposer/osc_sending_enabled/config"@,
            payload: switch_document(
                "OSC Sending Enabled"@,
                "osc_sending_enabled"@,
                topics.osc_sending_enabled_set@,
                topics.osc_sending_enabled_state@,
                availability,
            ),
        },
        PublicationView {
            topic: "homeassistant/switch/midi_transposer/osc_send_original/config"@,
            payload: switch_document(
                "OSC Send Original"@,
                "osc_send_original"@,
                topics.osc_send_original_set@,
                topics.osc_send_original_state@,
                availability,
            ),
        },
        PublicationView {
            topic: "homeassistant/switch/midi_transposer/debug_enabled/config"@,
            payload: switch_document(
                "Debug Enabled"@,
                "debug_enabled"@,
                topics.debug_enabled_set@,
                topics.debug_enabled_state@,
                availability,
            ),
        },
    ]
}

/// The end of every document.
fn tail_text(availability: &str) -> (text: String)
    ensures
        text@ == document_tail(availability@),
{
    let mut text: String = "\",\n  \"availability_topic\": \"".to_owned();
    text.push_str(availability);
    text.push_str("\",\n  \"device\": ");
    let device: String = create_device_json();
    text.push_str(device.as_str());
    text.push_str("\n}");
    text
}

/// The document of the number that sets the offset.
pub fn number_config(command: &str, state: &str, bounds: &TransposeConfig, availability: &str) -> (text:
    String)
    ensures
        text@ == number_document(
            command@,
            state@,
            bounds.min as int,
            bounds.max as int,
            availability@,
        ),
{
    let mut text: String =
        "{\n  \"name\": \"MIDI Transpose\",\n  \"unique_id\": \"transposer2025_transpose\",\n  \"command_topic\": \"".to_owned();
    text.push_str(command);
    text.push_str("\",\n  \"state_topic\": \"");
    text.push_str(state);
    text.push_str("\",\n  \"min\": ");
    push_integer(&mut text, bounds.min as i32);
    text.push_str(",\n  \"max\": ");
    push_integer(&mut text, bounds.max as i32);
    text.push_str(",\n  \"step\": 1,\n  \"unit_of_measurement\": \"semitones");
    let tail: String = tail_text(availability);
    text.push_str(tail.as_str());
    text
}

/// The document of a button.
pub fn button_config(name: &str, id: &str, command: &str, availability: &str) -> (text: String)
    ensures
        text@ == button_document(name@, id@, command@, availability@),
{
    let mut text: String = "{\n  \"name\": \"".to_owned();
    text.push_str(name);
    text.push_str("\",\n  \"unique_id\": \"transposer2025_");
    text.push_str(id);
    text.push_str("\",\n  \"command_topic\": \"");
    text.push_str(command);
    text.push_str("\",\n  \"payload_press\": \"1");
    let tail: String = tail_text(availability);
    text.push_str(tail.as_str());
    text
}

/// The document of a switch.
pub fn switch_config(name: &str, id: &str, command: &str, state: &str, availability: &str) -> (text:
    String)
    ensures
        text@ == switch_document(name@, id@, command@, state@, availability@),
{
    let mut text: String = "{\n  \"name\": \"".to_owned();
    text.push_str(name);
    text.push_str("\",\n  \"unique_id\": \"transposer2025_");
    text.push_str(id);
    text.push_str("\",\n  \"command_topic\": \"");
    text.push_str(command);
    text.push_str("\",\n  \"state_topic\": \"");
    text.push_str(state);
    text.push_str(
        "\",\n  \"payload_on\": \"1\",\n  \"payload_off\": \"0\",\n  \"state_on\": \"1\",\n  \"state_off\": \"0",
    );
    let tail: String = tail_text(availability);
    text.push_str(tail.as_str());
    text
}

/// The documents to publish once the session is up, in order.
pub fn homeassistant_discovery(topics: &MqttTopics, bounds: &TransposeConfig) -> (out: Vec<
    Publication,
>)
    ensures
        crate::bridge::publications_of(out@) == discovery_documents(*topics, *bounds),
{
    let availability: &str = topics.availability.as_str();
    let mut out: Vec<Publication> = Vec::new();
    out.push(
        Publication {
            topic: "homeassistant/number/midi_transposer/transpose/config".to_owned(),
            payload: number_config(
                topics.transpose_set.as_str(),
                topics.transpose_state.as_str(),
                bounds,
                availability,
            ),
        },
    );
    out.push(
        Publication {
            topic: "homeassistant/button/midi_transposer/transpose_up/config".to_owned(),
            payload: button_config(
                "Transpose Up",
                "transpose_up",
                topics.transpose_up.as_str(),
                availability,
            ),
        },
    );
    out.push(
        Publication {
            topic: "homeassistant/button/midi_transposer/transpose_down/config".to_owned(),
            payload: button_config(
                "Transpose Down",
                "transpose_down",
                topics.transpose_down.as_str(),
                availability,
            ),
        },
    );
    out.push(
        Publication {
            topic: "homeassistant/switch/midi_transposer/osc_sending_enabled/config".to_owned(),
            payload: switch_config(
                "OSC Sending Enabled",
                "osc_sending_enabled",
                topics.osc_sending_enabled_set.as_str(),
                topics.osc_sending_enabled_state.as_str(),
                availability,
            ),
        },
    );
    out.push(
        Publication {
            topic: "homeassistant/switch/midi_transposer/osc_send_original/config".to_owned(),
            payload: switch_config(
                "OSC Send Original",
                "osc_send_original",
                topics.osc_send_original_set.as_str(),
                topics.osc_send_original_state.as_str(),
                availability,
            ),
        },
    );
    out.push(
        Publication {
            topic: "homeassistant/switch/midi_transposer/debug_enabled/config".to_owned(),
            payload: switch_config(
                "Debug Enabled",
                "debug_enabled",
                topics.debug_enabled_set.as_str(),
                topics.debug_enabled_state.as_str(),
                availability,
            ),
        },
    );
    assert(crate::bridge::publications_of(out@) =~= discovery_documents(*topics, *bounds));
    out
}

} // verus!
