use midi_transposer::config::{default_config, OscConfig};
use midi_transposer::control::{ControlArg, ControlOutcome, ControlPacket, ControlRequest};
use midi_transposer::datagram::{decode_datagram, handle_datagram, DatagramError, MAX_DATAGRAM};
use midi_transposer::state::SharedState;
use rosc::{encoder, OscBundle, OscMessage, OscPacket, OscTime, OscType};

fn fresh() -> SharedState {
    SharedState::new(&default_config()).unwrap()
}

fn message(addr: &str, args: Vec<OscType>) -> OscPacket {
    OscPacket::Message(OscMessage { addr: addr.to_string(), args })
}

fn bundle(content: Vec<OscPacket>) -> OscPacket {
    OscPacket::Bundle(OscBundle { timetag: OscTime { seconds: 1, fractional: 2 }, content })
}

fn describe(packet: &ControlPacket, out: &mut Vec<String>) {
    match packet {
        ControlPacket::Message(m) => out.push(format!("{} {:?}", m.addr, m.args)),
        ControlPacket::Bundle(items) => {
            out.push("[".to_string());
            for item in items {
                describe(item, out);
            }
            out.push("]".to_string());
        }
    }
}

fn decoded(packet: &OscPacket) -> Vec<String> {
    let bytes = encoder::encode(packet).unwrap();
    let mut out = Vec::new();
    describe(&decode_datagram(&bytes).unwrap(), &mut out);
    out
}

#[test]
fn a_message_is_decoded_with_its_address_and_arguments() {
    let packet = message(
        "/transpose",
        vec![
            OscType::Int(-3),
            OscType::Long(1 << 40),
            OscType::Float(2.5),
            OscType::Double(-1.0),
            OscType::Bool(true),
            OscType::Bool(false),
            OscType::String("x".to_string()),
            OscType::Nil,
        ],
    );
    let args = vec![
        ControlArg::Int(-3),
        ControlArg::Long(1 << 40),
        ControlArg::Float(2.5f32.to_bits()),
        ControlArg::Double((-1.0f64).to_bits()),
        ControlArg::Bool(true),
        ControlArg::Bool(false),
        ControlArg::Other,
        ControlArg::Other,
    ];
    assert_eq!(decoded(&packet), vec![format!("/transpose {:?}", args)]);
    assert_eq!(decoded(&message("/a", vec![])), vec!["/a []".to_string()]);
}

#[test]
fn a_bundle_is_decoded_with_its_packets_in_order() {
    let packet = bundle(vec![
        message("/one", vec![OscType::Int(1)]),
        bundle(vec![message("/two", vec![]), bundle(vec![])]),
        message("/three", vec![OscType::Float(1.0)]),
    ]);
    assert_eq!(
        decoded(&packet),
        vec![
            "[".to_string(),
            format!("/one {:?}", vec![ControlArg::Int(1)]),
            "[".to_string(),
            "/two []".to_string(),
            "[".to_string(),
            "]".to_string(),
            "]".to_string(),
            format!("/three {:?}", vec![ControlArg::Float(1.0f32.to_bits())]),
            "]".to_string(),
        ]
    );
}

#[test]
fn bytes_that_hold_no_packet_are_rejected() {
    for bytes in [&b""[..], &b"abc"[..], &b"/transpose"[..], &b"#bundle\0"[..], &[0u8, 0, 0, 0][..], &[0xFFu8; 64][..]] {
        assert!(matches!(decode_datagram(bytes), Err(DatagramError::Undecodable)), "bytes {:?}", bytes);
    }
    let long = vec![b'/'; MAX_DATAGRAM + 1];
    assert!(matches!(decode_datagram(&long), Err(DatagramError::TooLong)));
}

#[test]
fn a_datagram_sets_the_offset() {
    let osc = OscConfig::default();
    let mut state = fresh();
    let bytes = encoder::encode(&message("/transpose", vec![OscType::Float(3.0)])).unwrap();
    assert_eq!(
        handle_datagram(&mut state, &osc, &bytes),
        Ok(vec![ControlOutcome { request: ControlRequest::SetTo(3), before: 0, after: 3, requested: Some(3) }])
    );
    assert_eq!(state.get_transpose(), 3);
    let bytes = encoder::encode(&message("/transposeUp", vec![OscType::Float(1.0)])).unwrap();
    assert!(handle_datagram(&mut state, &osc, &bytes).is_ok());
    assert_eq!(
        handle_datagram(&mut state, &osc, &bytes),
        Ok(vec![ControlOutcome { request: ControlRequest::Up, before: 4, after: 5, requested: Some(5) }])
    );
    assert_eq!(state.get_transpose(), 5);
    let bytes = encoder::encode(&message("/transposeDown", vec![OscType::Int(1)])).unwrap();
    assert_eq!(
        handle_datagram(&mut state, &osc, &bytes),
        Ok(vec![ControlOutcome { request: ControlRequest::Down, before: 5, after: 4, requested: Some(4) }])
    );
    assert_eq!(state.get_transpose(), 4);
    let bytes = encoder::encode(&message("/transpose", vec![OscType::Double(70.4)])).unwrap();
    assert_eq!(
        handle_datagram(&mut state, &osc, &bytes),
        Ok(vec![ControlOutcome { request: ControlRequest::SetTo(70), before: 4, after: 24, requested: Some(70) }])
    );
    assert_eq!(state.get_transpose(), 24);
}

#[test]
fn a_bundled_datagram_takes_effect_message_by_message() {
    let osc = OscConfig::default();
    let mut state = fresh();
    let packet = bundle(vec![
        message("/transpose", vec![OscType::Int(10)]),
        bundle(vec![
            message("/transposeDown", vec![OscType::Bool(true)]),
            message("/transposeDown", vec![OscType::Long(1)]),
        ]),
        message("/unknown", vec![OscType::Int(1)]),
        message("/transposeUp", vec![OscType::Int(0)]),
    ]);
    let bytes = encoder::encode(&packet).unwrap();
    assert_eq!(
        handle_datagram(&mut state, &osc, &bytes),
        Ok(vec![
            ControlOutcome { request: ControlRequest::SetTo(10), before: 0, after: 10, requested: Some(10) },
            ControlOutcome { request: ControlRequest::Down, before: 10, after: 9, requested: Some(9) },
            ControlOutcome { request: ControlRequest::Down, before: 9, after: 8, requested: Some(8) },
            ControlOutcome { request: ControlRequest::Unrecognized, before: 8, after: 8, requested: None },
            ControlOutcome { request: ControlRequest::Declined, before: 8, after: 8, requested: None },
        ])
    );
    assert_eq!(state.get_transpose(), 8);
}

#[test]
fn an_undecodable_datagram_changes_nothing() {
    let osc = OscConfig::default();
    let mut state = fresh();
    assert_eq!(handle_datagram(&mut state, &osc, b"garbage"), Err(DatagramError::Undecodable));
    assert_eq!(handle_datagram(&mut state, &osc, &vec![0u8; 4000]), Err(DatagramError::TooLong));
    assert_eq!(state.get_transpose(), 0);
    assert!(!state.is_exit_requested());
}
