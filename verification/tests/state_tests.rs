use midi_transposer::config::{default_config, default_mqtt_enabled, Config, OscConfig};
use midi_transposer::state::{
    clamp_notice, is_debug_enabled, set_transpose_semitones, would_clamp, SharedState,
};

fn config_with_bounds(min: i8, max: i8) -> Config {
    let mut config = default_config();
    config.transpose.min = min;
    config.transpose.max = max;
    config
}

#[test]
fn default_config_values() {
    let config = default_config();
    assert_eq!(config.midi.input_port_name_substr, "MRCC");
    assert_eq!(config.midi.output_port_name_substr, "MIDIOUT7 (MRCC)");
    assert_eq!(config.osc.listening_host, "127.0.0.1");
    assert_eq!(config.osc.listening_port, 9069);
    assert_eq!(config.osc.transpose_path, "/transpose");
    assert_eq!(config.osc.transpose_up_path, "/transposeUp");
    assert_eq!(config.osc.transpose_down_path, "/transposeDown");
    assert_eq!(config.osc.sending_addr, "127.0.0.1");
    assert_eq!(config.osc.sending_port, 9000);
    assert!(!config.osc.sending_enabled);
    assert!(config.osc.send_original);
    assert_eq!(config.mqtt.broker_host, "192.168.50.200");
    assert_eq!(config.mqtt.broker_port, 1883);
    assert_eq!(config.mqtt.base_topic, "midi_transposer");
    assert_eq!(config.mqtt.username, "");
    assert_eq!(config.mqtt.password, "");
    assert!(config.mqtt.enabled);
    assert_eq!(config.transpose.min, -24);
    assert_eq!(config.transpose.max, 24);
    assert!(config.transpose.is_valid());
    assert!(!config.debug);
    assert!(default_mqtt_enabled());
}

#[test]
fn osc_config_default_values() {
    let osc = OscConfig::default();
    assert_eq!(osc.listening_host, "127.0.0.1");
    assert_eq!(osc.listening_port, 9069);
    assert_eq!(osc.sending_port, 9000);
    assert!(!osc.sending_enabled);
    assert!(osc.send_original);
}

#[test]
fn state_starts_from_the_configuration() {
    let mut config = default_config();
    config.debug = true;
    config.osc.sending_enabled = true;
    config.osc.send_original = false;
    config.mqtt.enabled = false;
    let state = SharedState::new(&config).unwrap();
    assert_eq!(state.get_transpose(), 0);
    assert_eq!(state.transpose_min(), -24);
    assert_eq!(state.transpose_max(), 24);
    assert!(!state.is_exit_requested());
    assert!(is_debug_enabled(&state));
    assert!(state.is_osc_sending_enabled());
    assert!(!state.is_osc_send_original());
    assert!(!state.is_mqtt_enabled());
    assert!(!state.is_mqtt_connected());
}

#[test]
fn bounds_out_of_order_give_no_state() {
    assert!(SharedState::new(&config_with_bounds(5, 4)).is_none());
    assert!(SharedState::new(&config_with_bounds(4, 4)).is_some());
}

#[test]
fn initial_offset_lies_within_bounds_that_exclude_zero() {
    let state = SharedState::new(&config_with_bounds(3, 9)).unwrap();
    assert_eq!(state.get_transpose(), 3);
    let state = SharedState::new(&config_with_bounds(-9, -3)).unwrap();
    assert_eq!(state.get_transpose(), -3);
}

#[test]
fn set_transpose_clamps_and_stores() {
    let mut state = SharedState::new(&default_config()).unwrap();
    assert_eq!(set_transpose_semitones(&mut state, 70), 24);
    assert_eq!(state.get_transpose(), 24);
    assert_eq!(set_transpose_semitones(&mut state, -70), -24);
    assert_eq!(state.get_transpose(), -24);
    assert_eq!(set_transpose_semitones(&mut state, 7), 7);
    assert_eq!(state.get_transpose(), 7);
    assert_eq!(set_transpose_semitones(&mut state, i32::MAX), 24);
    assert_eq!(set_transpose_semitones(&mut state, i32::MIN), -24);
}

#[test]
fn set_transpose_returns_every_value_in_range_unchanged() {
    let mut state = SharedState::new(&default_config()).unwrap();
    for v in -40..=40 {
        let stored = set_transpose_semitones(&mut state, v);
        assert!((-24..=24).contains(&stored));
        if (-24..=24).contains(&v) {
            assert_eq!(stored, v);
        }
        assert_eq!(state.get_transpose(), stored);
        assert_eq!(would_clamp(&state, v), stored != v);
    }
}

#[test]
fn set_transpose_twice_is_a_no_op() {
    let mut state = SharedState::new(&default_config()).unwrap();
    let first = set_transpose_semitones(&mut state, 30);
    let second = set_transpose_semitones(&mut state, 30);
    assert_eq!(first, second);
    assert_eq!(state.get_transpose(), 24);
}

#[test]
fn flags_are_stored_independently() {
    let mut state = SharedState::new(&default_config()).unwrap();
    state.set_osc_sending_enabled(true);
    assert!(state.is_osc_sending_enabled());
    assert!(state.is_osc_send_original());
    state.set_osc_send_original(false);
    assert!(!state.is_osc_send_original());
    assert!(state.is_osc_sending_enabled());
    state.set_debug_enabled(true);
    assert!(is_debug_enabled(&state));
    state.set_debug_enabled(true);
    assert!(is_debug_enabled(&state));
    state.set_debug_enabled(false);
    assert!(!is_debug_enabled(&state));
    state.set_mqtt_enabled(false);
    assert!(!state.is_mqtt_enabled());
    state.set_mqtt_connected(true);
    assert!(state.is_mqtt_connected());
    assert_eq!(state.get_transpose(), 0);
}

#[test]
fn exit_flag_stays_set() {
    let mut state = SharedState::new(&default_config()).unwrap();
    state.request_exit();
    assert!(state.is_exit_requested());
    state.request_exit();
    state.set_debug_enabled(true);
    let _ = set_transpose_semitones(&mut state, 3);
    assert!(state.is_exit_requested());
}

#[test]
fn clamping_is_noticed_only_outside_the_range() {
    let state = SharedState::new(&default_config()).unwrap();
    assert_eq!(clamp_notice(&state, 24), None);
    assert_eq!(clamp_notice(&state, -24), None);
    assert_eq!(clamp_notice(&state, 0), None);
    assert_eq!(
        clamp_notice(&state, 70),
        Some("[TRANSPOSE] Clamped 70 to range [-24, 24] -> 24".to_string())
    );
    assert_eq!(
        clamp_notice(&state, -25),
        Some("[TRANSPOSE] Clamped -25 to range [-24, 24] -> -24".to_string())
    );
    assert_eq!(
        clamp_notice(&state, i32::MIN),
        Some("[TRANSPOSE] Clamped -2147483648 to range [-24, 24] -> -24".to_string())
    );
}
