use midi_transposer::bridge::{
    bridge_step, create_device_json, handle_mqtt_message, joined, parse_boolean_payload,
    parse_transpose_payload, publish_initial_state, subscription_topics, sync_published,
    BridgeEvent, BridgeRequest, MqttTopics, Publication, PublishedSnapshot,
};
use midi_transposer::config::TransposeConfig;
use midi_transposer::discovery::homeassistant_discovery;
use midi_transposer::config::default_config;
use midi_transposer::state::{is_debug_enabled, set_transpose_semitones, SharedState};
use midi_transposer::status::{
    final_status_after_startup, is_osc_sender_running, mark_osc_sender_started,
    mark_osc_sender_stopped, Banner, ConnectionStatus,
};

fn fresh() -> SharedState {
    SharedState::new(&default_config()).unwrap()
}

fn pairs(items: &[Publication]) -> Vec<(String, String)> {
    items.iter().map(|p| (p.topic.clone(), p.payload.clone())).collect()
}

fn pair(topic: &str, payload: &str) -> (String, String) {
    (topic.to_string(), payload.to_string())
}

#[test]
fn topics_hang_below_the_base_topic() {
    let t = MqttTopics::new("midi_transposer");
    assert_eq!(t.transpose_set, "midi_transposer/transpose");
    assert_eq!(t.transpose_up, "midi_transposer/transposeUp");
    assert_eq!(t.transpose_down, "midi_transposer/transposeDown");
    assert_eq!(t.transpose_state, "midi_transposer/state/transpose");
    assert_eq!(t.availability, "midi_transposer/availability");
    assert_eq!(t.osc_sending_enabled_set, "midi_transposer/osc/sendingEnabled");
    assert_eq!(t.osc_sending_enabled_state, "midi_transposer/state/osc/sendingEnabled");
    assert_eq!(t.osc_send_original_set, "midi_transposer/osc/sendOriginal");
    assert_eq!(t.osc_send_original_state, "midi_transposer/state/osc/sendOriginal");
    assert_eq!(t.debug_enabled_set, "midi_transposer/debug/enabled");
    assert_eq!(t.debug_enabled_state, "midi_transposer/state/debug/enabled");
    assert_eq!(MqttTopics::new("").transpose_set, "/transpose");
    assert_eq!(joined("a", "b"), "ab");
}

fn bits_of(text: &str) -> Option<u32> {
    text.trim().parse::<f32>().ok().map(|v| v.to_bits())
}

#[test]
fn transpose_payloads() {
    assert_eq!(parse_transpose_payload("5", bits_of("5")), Some(5));
    assert_eq!(parse_transpose_payload(" -12\n", bits_of(" -12\n")), Some(-12));
    assert_eq!(parse_transpose_payload("+3", None), Some(3));
    assert_eq!(parse_transpose_payload("", bits_of("")), None);
    assert_eq!(parse_transpose_payload("abc", bits_of("abc")), None);
    assert_eq!(parse_transpose_payload("2.5", Some(2.5f32.to_bits())), Some(3));
    assert_eq!(parse_transpose_payload("2.6", bits_of("2.6")), Some(3));
    assert_eq!(parse_transpose_payload("2.4", bits_of("2.4")), Some(2));
    assert_eq!(parse_transpose_payload("-2.5", bits_of("-2.5")), Some(-3));
    assert_eq!(parse_transpose_payload(" 1e1 ", bits_of(" 1e1 ")), Some(10));
    assert_eq!(parse_transpose_payload("2147483648", bits_of("2147483648")), Some(i32::MAX));
    assert_eq!(parse_transpose_payload("2147483648", None), None);
    assert_eq!(parse_transpose_payload("2.5", None), None);
}

#[test]
fn an_integer_payload_is_read_as_it_stands_whatever_the_bits() {
    assert_eq!(parse_transpose_payload("7", Some(99.0f32.to_bits())), Some(7));
    assert_eq!(parse_transpose_payload("16777217", bits_of("16777217")), Some(16777217));
}

#[test]
fn payloads_that_denote_no_number_are_discarded() {
    for text in ["nan", "NaN", "inf", "-inf", "infinity", "+infinity"] {
        let bits = bits_of(text);
        assert!(bits.is_some(), "payload {:?}", text);
        assert_eq!(parse_transpose_payload(text, bits), None, "payload {:?}", text);
    }
    assert_eq!(parse_transpose_payload("x", Some(0x7F80_0000)), None);
    assert_eq!(parse_transpose_payload("x", Some(0xFF80_0000)), None);
    assert_eq!(parse_transpose_payload("x", Some(0x7FC0_0000)), None);
    assert_eq!(parse_transpose_payload("x", Some(0x7F7F_FFFF)), Some(i32::MAX));
    let topics = MqttTopics::new("base");
    let mut state = fresh();
    set_transpose_semitones(&mut state, 5);
    for text in ["nan", "inf", "-inf"] {
        let out = handle_mqtt_message(&mut state, &topics, "base/transpose", text, bits_of(text));
        assert_eq!(out.request, BridgeRequest::InvalidTranspose);
        assert!(out.publication.is_none());
        assert_eq!(out.new_value, None);
        assert_eq!(state.get_transpose(), 5);
    }
}

#[test]
fn clamped_broker_requests_come_with_a_notice() {
    let topics = MqttTopics::new("base");
    let mut state = fresh();
    let out = handle_mqtt_message(&mut state, &topics, "base/transpose", "70", None);
    assert_eq!(out.notice, Some("[TRANSPOSE] Clamped 70 to range [-24, 24] -> 24".to_string()));
    let out = handle_mqtt_message(&mut state, &topics, "base/transposeUp", "1", None);
    assert_eq!(out.notice, Some("[TRANSPOSE] Clamped 25 to range [-24, 24] -> 24".to_string()));
    let out = handle_mqtt_message(&mut state, &topics, "base/transposeDown", "1", None);
    assert_eq!(out.notice, None);
    assert_eq!(out.new_value, Some(23));
    let out = handle_mqtt_message(&mut state, &topics, "base/transpose", "-24.6", bits_of("-24.6"));
    assert_eq!(out.notice, Some("[TRANSPOSE] Clamped -25 to range [-24, 24] -> -24".to_string()));
    let out = handle_mqtt_message(&mut state, &topics, "base/transposeDown", "on", None);
    assert_eq!(out.notice, Some("[TRANSPOSE] Clamped -25 to range [-24, 24] -> -24".to_string()));
    let out = handle_mqtt_message(&mut state, &topics, "base/debug/enabled", "1", None);
    assert_eq!(out.notice, None);
    let mut status = ConnectionStatus::new();
    let mut last = PublishedSnapshot::of(&state);
    let event = BridgeEvent::Message { topic: "base/transpose".to_string(), payload: "99".to_string(), real_bits: None };
    let step = bridge_step(&mut state, &mut status, &topics, &mut last, &event);
    assert_eq!(step.notice, Some("[TRANSPOSE] Clamped 99 to range [-24, 24] -> 24".to_string()));
    let step = bridge_step(&mut state, &mut status, &topics, &mut last, &BridgeEvent::Other);
    assert_eq!(step.notice, None);
}

#[test]
fn boolean_payloads() {
    for text in ["1", "true", "TRUE", "on", "On", " true \n", "\ton"] {
        assert!(parse_boolean_payload(text), "payload {:?}", text);
    }
    for text in ["", "0", "false", "off", "yes", "11", "tru e", "2"] {
        assert!(!parse_boolean_payload(text), "payload {:?}", text);
    }
}

#[test]
fn device_json_names_the_device() {
    let json = create_device_json();
    let expected = format!(
        "{{\n  \"identifiers\": [\"{}\"],\n  \"name\": \"{}\",\n  \"manufacturer\": \"{}\",\n  \"model\": \"{}\"\n}}",
        "midi_transposer_transposer2025", "MIDI Transposer 2025", "MidiTransposer", "MidiTransposer"
    );
    assert_eq!(json, expected);
    let value: serde_json::Value = serde_json::from_str(&json).unwrap();
    assert_eq!(value["name"], "MIDI Transposer 2025");
}

#[test]
fn set_topic_stores_and_publishes_the_clamped_value() {
    let topics = MqttTopics::new("base");
    let mut state = fresh();
    let out = handle_mqtt_message(&mut state, &topics, "base/transpose", "70", None);
    assert_eq!(out.request, BridgeRequest::SetTo(70));
    assert_eq!(out.new_value, Some(24));
    let p = out.publication.unwrap();
    assert_eq!((p.topic.as_str(), p.payload.as_str()), ("base/state/transpose", "24"));
    assert_eq!(state.get_transpose(), 24);
    let out = handle_mqtt_message(&mut state, &topics, "base/transpose", " -3 ", Some(99.0f32.to_bits()));
    assert_eq!(out.new_value, Some(-3));
    assert_eq!(out.publication.unwrap().payload, "-3");
}

#[test]
fn set_topic_falls_back_to_the_rounded_real_number() {
    let topics = MqttTopics::new("base");
    let mut state = fresh();
    let out = handle_mqtt_message(&mut state, &topics, "base/transpose", "2.5", Some(2.5f32.to_bits()));
    assert_eq!(out.request, BridgeRequest::SetTo(3));
    assert_eq!(out.new_value, Some(3));
    assert_eq!(state.get_transpose(), 3);
    let out = handle_mqtt_message(&mut state, &topics, "base/transpose", "abc", None);
    assert_eq!(out.request, BridgeRequest::InvalidTranspose);
    assert!(out.publication.is_none());
    assert_eq!(out.new_value, None);
    assert_eq!(state.get_transpose(), 3);
}

#[test]
fn up_and_down_topics_step_the_offset() {
    let topics = MqttTopics::new("base");
    let mut state = fresh();
    let out = handle_mqtt_message(&mut state, &topics, "base/transposeUp", "1", None);
    assert_eq!(out.request, BridgeRequest::Up);
    assert_eq!(out.new_value, Some(1));
    assert_eq!(out.publication.unwrap().payload, "1");
    let out = handle_mqtt_message(&mut state, &topics, "base/transposeDown", "ON", None);
    assert_eq!(out.request, BridgeRequest::Down);
    assert_eq!(out.new_value, Some(0));
    let out = handle_mqtt_message(&mut state, &topics, "base/transposeDown", "true", None);
    assert_eq!(out.new_value, Some(-1));
    assert_eq!(out.publication.unwrap().payload, "-1");
    let out = handle_mqtt_message(&mut state, &topics, "base/transposeUp", "0", Some(1.0f32.to_bits()));
    assert_eq!(out.request, BridgeRequest::Declined);
    assert!(out.publication.is_none());
    assert_eq!(state.get_transpose(), -1);
    set_transpose_semitones(&mut state, 24);
    let out = handle_mqtt_message(&mut state, &topics, "base/transposeUp", "1", None);
    assert_eq!(out.new_value, Some(24));
}

#[test]
fn flag_topics_store_and_publish_the_flag() {
    let topics = MqttTopics::new("base");
    let mut state = fresh();
    let out = handle_mqtt_message(&mut state, &topics, "base/osc/sendingEnabled", "1", None);
    assert_eq!(out.request, BridgeRequest::OscSending(true));
    let p = out.publication.unwrap();
    assert_eq!((p.topic.as_str(), p.payload.as_str()), ("base/state/osc/sendingEnabled", "1"));
    assert!(state.is_osc_sending_enabled());
    let out = handle_mqtt_message(&mut state, &topics, "base/osc/sendOriginal", "off", None);
    assert_eq!(out.request, BridgeRequest::OscSendOriginal(false));
    let p = out.publication.unwrap();
    assert_eq!((p.topic.as_str(), p.payload.as_str()), ("base/state/osc/sendOriginal", "0"));
    assert!(!state.is_osc_send_original());
    let out = handle_mqtt_message(&mut state, &topics, "base/debug/enabled", "true", None);
    assert_eq!(out.request, BridgeRequest::Debug(true));
    let p = out.publication.unwrap();
    assert_eq!((p.topic.as_str(), p.payload.as_str()), ("base/state/debug/enabled", "1"));
    assert!(is_debug_enabled(&state));
    assert_eq!(out.new_value, None);
    let out = handle_mqtt_message(&mut state, &topics, "base/unknown", "1", None);
    assert_eq!(out.request, BridgeRequest::Unrecognized);
    assert!(out.publication.is_none());
}

#[test]
fn changes_from_elsewhere_are_published_once() {
    let topics = MqttTopics::new("b");
    let mut state = fresh();
    let mut last = PublishedSnapshot::of(&state);
    assert!(sync_published(&state, &topics, &mut last).is_empty());
    set_transpose_semitones(&mut state, 7);
    state.set_debug_enabled(true);
    let out = sync_published(&state, &topics, &mut last);
    assert_eq!(pairs(&out), vec![pair("b/state/transpose", "7"), pair("b/state/debug/enabled", "1")]);
    assert_eq!(last, PublishedSnapshot { transpose: 7, osc_sending_enabled: false, osc_send_original: true, debug_enabled: true });
    assert!(sync_published(&state, &topics, &mut last).is_empty());
    state.set_osc_sending_enabled(true);
    state.set_osc_send_original(false);
    set_transpose_semitones(&mut state, -100);
    state.set_debug_enabled(false);
    let out = sync_published(&state, &topics, &mut last);
    assert_eq!(
        pairs(&out),
        vec![
            pair("b/state/transpose", "-24"),
            pair("b/state/osc/sendingEnabled", "1"),
            pair("b/state/osc/sendOriginal", "0"),
            pair("b/state/debug/enabled", "0"),
        ]
    );
    assert!(sync_published(&state, &topics, &mut last).is_empty());
}

#[test]
fn initial_state_is_published_after_connecting() {
    let topics = MqttTopics::new("b");
    let mut state = fresh();
    set_transpose_semitones(&mut state, -2);
    let out = publish_initial_state(&state, &topics);
    assert_eq!(
        pairs(&out),
        vec![
            pair("b/availability", "online"),
            pair("b/state/transpose", "-2"),
            pair("b/state/osc/sendingEnabled", "0"),
            pair("b/state/osc/sendOriginal", "1"),
            pair("b/state/debug/enabled", "0"),
        ]
    );
}

#[test]
fn bridge_turn_on_connect_message_and_error() {
    let topics = MqttTopics::new("b");
    let mut state = fresh();
    let mut status = ConnectionStatus::new();
    let mut last = PublishedSnapshot::of(&state);
    let step = bridge_step(&mut state, &mut status, &topics, &mut last, &BridgeEvent::Connected);
    assert!(step.subscribe && !step.backoff);
    assert_eq!(step.banner, Some(Banner::Active));
    assert!(state.is_mqtt_connected());
    assert_eq!(step.publications.len(), 11);
    assert_eq!(step.publications[0].topic, "homeassistant/number/midi_transposer/transpose/config");
    assert_eq!(pairs(&step.publications)[6], pair("b/availability", "online"));
    assert_eq!(pairs(&step.publications)[7], pair("b/state/transpose", "0"));

    let event = BridgeEvent::Message { topic: "b/transpose".to_string(), payload: "5".to_string(), real_bits: None };
    let step = bridge_step(&mut state, &mut status, &topics, &mut last, &event);
    assert!(!step.subscribe && !step.backoff);
    assert_eq!(step.banner, None);
    assert_eq!(pairs(&step.publications), vec![pair("b/state/transpose", "5")]);
    assert_eq!(last.transpose, 5);

    let event = BridgeEvent::Message { topic: "b/debug/enabled".to_string(), payload: "1".to_string(), real_bits: None };
    let step = bridge_step(&mut state, &mut status, &topics, &mut last, &event);
    assert_eq!(
        pairs(&step.publications),
        vec![pair("b/state/debug/enabled", "1"), pair("b/state/debug/enabled", "1")]
    );

    set_transpose_semitones(&mut state, 9);
    let step = bridge_step(&mut state, &mut status, &topics, &mut last, &BridgeEvent::Other);
    assert_eq!(pairs(&step.publications), vec![pair("b/state/transpose", "9")]);
    let step = bridge_step(&mut state, &mut status, &topics, &mut last, &BridgeEvent::Other);
    assert!(step.publications.is_empty());

    let step = bridge_step(&mut state, &mut status, &topics, &mut last, &BridgeEvent::ConnectionError);
    assert!(step.backoff);
    assert_eq!(step.banner, None);
    assert!(!state.is_mqtt_connected());
    assert!(step.publications.is_empty());
}

#[test]
fn connection_error_shows_the_broken_banner_first_time_only() {
    let topics = MqttTopics::new("b");
    let mut state = fresh();
    let mut status = ConnectionStatus::new();
    let mut last = PublishedSnapshot::of(&state);
    let step = bridge_step(&mut state, &mut status, &topics, &mut last, &BridgeEvent::ConnectionError);
    assert_eq!(step.banner, Some(Banner::Broken));
    let step = bridge_step(&mut state, &mut status, &topics, &mut last, &BridgeEvent::Connected);
    assert_eq!(step.banner, None);
    let mut quiet = ConnectionStatus::new();
    state.set_mqtt_enabled(false);
    let step = bridge_step(&mut state, &mut quiet, &topics, &mut last, &BridgeEvent::Connected);
    assert_eq!(step.banner, None);
    assert!(!quiet.banner_printed);
}

#[test]
fn relay_thread_count_and_startup_banner() {
    let mut config = default_config();
    config.mqtt.enabled = false;
    let state = SharedState::new(&config).unwrap();
    let mut status = ConnectionStatus::new();
    assert!(!is_osc_sender_running(&status));
    mark_osc_sender_started(&mut status);
    mark_osc_sender_started(&mut status);
    assert!(is_osc_sender_running(&status));
    assert_eq!(status.osc_sender_count, 2);
    mark_osc_sender_stopped(&mut status);
    assert!(is_osc_sender_running(&status));
    status.osc_listener_running = true;
    assert_eq!(final_status_after_startup(&state, &mut status), Some(Banner::Active));
    assert_eq!(final_status_after_startup(&state, &mut status), None);
    mark_osc_sender_stopped(&mut status);
    assert!(!is_osc_sender_running(&status));
    let mut other = ConnectionStatus::new();
    other.osc_listener_running = true;
    assert_eq!(final_status_after_startup(&state, &mut other), Some(Banner::Broken));
    let with_bridge = SharedState::new(&default_config()).unwrap();
    let mut third = ConnectionStatus::new();
    assert_eq!(final_status_after_startup(&with_bridge, &mut third), None);
    assert!(!third.banner_printed);
    assert!(third.claim_banner());
    assert!(!third.claim_banner());
}

#[test]
fn relay_thread_count_wraps_like_the_counter_it_stands_for() {
    let mut status = ConnectionStatus::new();
    status.osc_sender_count = i32::MAX;
    mark_osc_sender_started(&mut status);
    assert_eq!(status.osc_sender_count, i32::MIN);
    mark_osc_sender_stopped(&mut status);
    assert_eq!(status.osc_sender_count, i32::MAX);
}

#[test]
fn subscriptions_cover_the_command_topics_and_discovery() {
    let topics = MqttTopics::new("b");
    assert_eq!(
        subscription_topics(&topics),
        vec![
            "b/transpose",
            "b/transposeUp",
            "b/transposeDown",
            "b/osc/sendingEnabled",
            "b/osc/sendOriginal",
            "b/debug/enabled",
            "homeassistant/+/midi_transposer/#",
        ]
    );
}

#[test]
fn discovery_documents_follow_their_templates() {
    let topics = MqttTopics::new("base");
    let bounds = TransposeConfig { min: -24, max: 24 };
    let docs = homeassistant_discovery(&topics, &bounds);
    let device = create_device_json();
    assert_eq!(docs.len(), 6);
    assert_eq!(docs[0].topic, "homeassistant/number/midi_transposer/transpose/config");
    assert_eq!(
        docs[0].payload,
        format!(
            "{{\n  \"name\": \"MIDI Transpose\",\n  \"unique_id\": \"{}_transpose\",\n  \"command_topic\": \"{}\",\n  \"state_topic\": \"{}\",\n  \"min\": {},\n  \"max\": {},\n  \"step\": 1,\n  \"unit_of_measurement\": \"semitones\",\n  \"availability_topic\": \"{}\",\n  \"device\": {}\n}}",
            "transposer2025", topics.transpose_set, topics.transpose_state, -24, 24, topics.availability, device
        )
    );
    assert_eq!(docs[1].topic, "homeassistant/button/midi_transposer/transpose_up/config");
    assert_eq!(
        docs[1].payload,
        format!(
            "{{\n  \"name\": \"Transpose Up\",\n  \"unique_id\": \"{}_transpose_up\",\n  \"command_topic\": \"{}\",\n  \"payload_press\": \"1\",\n  \"availability_topic\": \"{}\",\n  \"device\": {}\n}}",
            "transposer2025", topics.transpose_up, topics.availability, device
        )
    );
    assert_eq!(docs[2].topic, "homeassistant/button/midi_transposer/transpose_down/config");
    assert_eq!(
        docs[2].payload,
        format!(
            "{{\n  \"name\": \"Transpose Down\",\n  \"unique_id\": \"{}_transpose_down\",\n  \"command_topic\": \"{}\",\n  \"payload_press\": \"1\",\n  \"availability_topic\": \"{}\",\n  \"device\": {}\n}}",
            "transposer2025", topics.transpose_down, topics.availability, device
        )
    );
    let switches = [
        (3usize, "osc_sending_enabled", "OSC Sending Enabled", &topics.osc_sending_enabled_set, &topics.osc_sending_enabled_state),
        (4, "osc_send_original", "OSC Send Original", &topics.osc_send_original_set, &topics.osc_send_original_state),
        (5, "debug_enabled", "Debug Enabled", &topics.debug_enabled_set, &topics.debug_enabled_state),
    ];
    for (index, id, name, set, state) in switches {
        assert_eq!(docs[index].topic, format!("homeassistant/switch/midi_transposer/{}/config", id));
        assert_eq!(
            docs[index].payload,
            format!(
                "{{\n  \"name\": \"{}\",\n  \"unique_id\": \"{}_{}\",\n  \"command_topic\": \"{}\",\n  \"state_topic\": \"{}\",\n  \"payload_on\": \"1\",\n  \"payload_off\": \"0\",\n  \"state_on\": \"1\",\n  \"state_off\": \"0\",\n  \"availability_topic\": \"{}\",\n  \"device\": {}\n}}",
                name, "transposer2025", id, set, state, topics.availability, device
            )
        );
    }
    for doc in &docs {
        let value: serde_json::Value = serde_json::from_str(&doc.payload).unwrap();
        assert_eq!(value["availability_topic"], "base/availability");
        assert_eq!(value["device"]["model"], "MidiTransposer");
    }
    let value: serde_json::Value = serde_json::from_str(&docs[0].payload).unwrap();
    assert_eq!(value["min"], -24);
    assert_eq!(value["max"], 24);
}
