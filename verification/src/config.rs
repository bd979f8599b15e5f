//! The configuration snapshot that the rest of the library is started with.

use vstd::prelude::*;

verus! {

/// Substrings by which the MIDI devices are picked.
#[derive(Debug, Clone)]
pub struct MidiConfig {
    pub input_port_name_substr: String,
    pub output_port_name_substr: String,
}

/// Where control messages are received and sent, and the relay's initial flags.
#[derive(Debug, Clone)]
pub struct OscConfig {
    pub listening_host: String,
    pub listening_port: u16,
    pub transpose_path: String,
    pub transpose_up_path: String,
    pub transpose_down_path: String,
    pub sending_addr: String,
    pub sending_port: u16,
    /// Whether the relay is enabled at startup.
    pub sending_enabled: bool,
    /// Whether the relay mirrors the original stream (true) or the transposed one.
    pub send_original: bool,
}

/// The broker's endpoint, base topic and credentials.
#[derive(Debug, Clone)]
pub struct MqttConfig {
    pub broker_host: String,
    pub broker_port: u16,
    pub base_topic: String,
    pub username: String,
    pub password: String,
    pub enabled: bool,
}

/// Inclusive bounds of the transpose offset, in semitones.
#[derive(Debug, Clone, Copy)]
pub struct TransposeConfig {
    pub min: i8,
    pub max: i8,
}

/// Credentials for the broker session.
#[derive(Debug, Clone)]
pub struct MqttCredentials {
    pub username: String,
    pub password: String,
}

/// The whole configuration.
#[derive(Debug, Clone)]
pub struct Config {
    pub midi: MidiConfig,
    pub osc: OscConfig,
    pub mqtt: MqttConfig,
    pub transpose: TransposeConfig,
    /// Verbose logging.
    pub debug: bool,
}

impl TransposeConfig {
    /// The bounds describe a range that is not empty.
    pub open spec fn valid(&self) -> bool {
        self.min <= self.max
    }

    /// Tells whether the bounds describe a range that is not empty.
    pub fn is_valid(&self) -> (ok: bool)
        ensures
            ok == self.valid(),
    {
        self.min <= self.max
    }
}

impl Default for OscConfig {
    /// Listens on the loopback address, port 9069; sends to the loopback
    /// address, port 9000; the relay is off and mirrors the original stream.
    fn default() -> (config: Self)
        ensures
            config.listening_host@ == "127.0.0.1"@,
            config.listening_port == 9069,
            config.transpose_path@ == "/transpose"@,
            config.transpose_up_path@ == "/transposeUp"@,
            config.transpose_down_path@ == "/transposeDown"@,
            config.sending_addr@ == "127.0.0.1"@,
            config.sending_port == 9000,
            !config.sending_enabled,
            config.send_original,
    {
        OscConfig {
            listening_host: "127.0.0.1".to_owned(),
            listening_port: 9069,
            transpose_path: "/transpose".to_owned(),
            transpose_up_path: "/transposeUp".to_owned(),
            transpose_down_path: "/transposeDown".to_owned(),
            sending_addr: "127.0.0.1".to_owned(),
            sending_port: 9000,
            sending_enabled: false,
            send_original: true,
        }
    }
}

/// The broker bridge is enabled unless the configuration says otherwise.
pub fn default_mqtt_enabled() -> (enabled: bool)
    ensures
        enabled,
{
    true
}

/// The configuration used where none is supplied.
pub fn default_config() -> (config: Config)
    ensures
        config.midi.input_port_name_substr@ == "MRCC"@,
        config.midi.output_port_name_substr@ == "MIDIOUT7 (MRCC)"@,
        config.osc.listening_host@ == "127.0.0.1"@,
        config.osc.listening_port == 9069,
        config.osc.transpose_path@ == "/transpose"@,
        config.osc.transpose_up_path@ == "/transposeUp"@,
        config.osc.transpose_down_path@ == "/transposeDown"@,
        config.osc.sending_addr@ == "127.0.0.1"@,
        config.osc.sending_port == 9000,
        !config.osc.sending_enabled,
        config.osc.send_original,
        config.mqtt.broker_host@ == "192.168.50.200"@,
        config.mqtt.broker_port == 1883,
        config.mqtt.base_topic@ == "midi_transposer"@,
        config.mqtt.username@ == ""@,
        config.mqtt.password@ == ""@,
        config.mqtt.enabled,
        config.transpose.min == -24,
        config.transpose.max == 24,
        config.transpose.valid(),
        !config.debug,
{
    Config {
        midi: MidiConfig {
            input_port_name_substr: "MRCC".to_owned(),
            output_port_name_substr: "MIDIOUT7 (MRCC)".to_owned(),
        },
        osc: OscConfig::default(),
        mqtt: MqttConfig {
            broker_host: "192.168.50.200".to_owned(),
            broker_port: 1883,
            base_topic: "midi_transposer".to_owned(),
            username: "".to_owned(),
            password: "".to_owned(),
            enabled: default_mqtt_enabled(),
        },
        transpose: TransposeConfig { min: -24, max: 24 },
        debug: false,
    }
}

} // verus!
