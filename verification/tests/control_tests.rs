use midi_transposer::config::{default_config, OscConfig};
use midi_transposer::control::{
    arg_is_truthy, arg_number, classify_message, handle_message, handle_packet, ControlArg,
    ControlMessage, ControlOutcome, ControlPacket, ControlRequest,
};
use midi_transposer::state::SharedState;

fn fresh() -> SharedState {
    SharedState::new(&default_config()).unwrap()
}

fn msg(addr: &str, args: Vec<ControlArg>) -> ControlMessage {
    ControlMessage { addr: addr.to_string(), args }
}

fn rounded_arg(v: f64) -> ControlArg {
    ControlArg::Double(v.to_bits())
}

fn single_arg(v: f32) -> ControlArg {
    ControlArg::Float(v.to_bits())
}

#[test]
fn set_address_sets_the_offset() {
    let osc = OscConfig::default();
    let mut state = fresh();
    let outcome = handle_message(&mut state, &osc, &msg("/transpose", vec![ControlArg::Int(3)]));
    assert_eq!(outcome.request, ControlRequest::SetTo(3));
    assert_eq!((outcome.before, outcome.after), (0, 3));
    assert_eq!(state.get_transpose(), 3);
    let outcome = handle_message(&mut state, &osc, &msg("/transpose", vec![ControlArg::Long(-7), ControlArg::Int(9)]));
    assert_eq!(outcome.request, ControlRequest::SetTo(-7));
    assert_eq!(state.get_transpose(), -7);
    let outcome = handle_message(&mut state, &osc, &msg("/transpose", vec![rounded_arg(2.5)]));
    assert_eq!(outcome.request, ControlRequest::SetTo(3));
    assert_eq!(state.get_transpose(), 3);
    let outcome = handle_message(&mut state, &osc, &msg("/transpose", vec![ControlArg::Int(70)]));
    assert_eq!((outcome.before, outcome.after), (3, 24));
    assert_eq!(state.get_transpose(), 24);
}

#[test]
fn set_address_rejects_what_is_no_number() {
    let osc = OscConfig::default();
    let mut state = fresh();
    for arg in [
        ControlArg::Bool(true),
        ControlArg::Other,
        ControlArg::Long(1 << 40),
        ControlArg::Long(i64::MIN),
        single_arg(f32::NAN),
        single_arg(f32::NEG_INFINITY),
        rounded_arg(f64::INFINITY),
    ] {
        let outcome = handle_message(&mut state, &osc, &msg("/transpose", vec![arg]));
        assert_eq!(outcome.request, ControlRequest::NotNumeric);
        assert_eq!(state.get_transpose(), 0);
    }
    let outcome = handle_message(&mut state, &osc, &msg("/transpose", vec![]));
    assert_eq!(outcome.request, ControlRequest::MissingArgument);
    assert_eq!(state.get_transpose(), 0);
}

#[test]
fn up_and_down_step_by_one_within_the_bounds() {
    let osc = OscConfig::default();
    let mut state = fresh();
    let up = msg("/transposeUp", vec![ControlArg::Int(1)]);
    let down = msg("/transposeDown", vec![rounded_arg(1.0)]);
    let outcome = handle_message(&mut state, &osc, &up);
    assert_eq!(outcome.request, ControlRequest::Up);
    assert_eq!((outcome.before, outcome.after), (0, 1));
    handle_message(&mut state, &osc, &up);
    assert_eq!(state.get_transpose(), 2);
    let outcome = handle_message(&mut state, &osc, &down);
    assert_eq!(outcome.request, ControlRequest::Down);
    assert_eq!(state.get_transpose(), 1);
    for _ in 0..40 {
        handle_message(&mut state, &osc, &up);
    }
    assert_eq!(state.get_transpose(), 24);
    for _ in 0..80 {
        handle_message(&mut state, &osc, &down);
    }
    assert_eq!(state.get_transpose(), -24);
}

#[test]
fn up_and_down_need_an_argument_that_stands_for_one() {
    let osc = OscConfig::default();
    let mut state = fresh();
    for arg in [ControlArg::Int(0), ControlArg::Int(2), ControlArg::Long(0), rounded_arg(0.5), ControlArg::Bool(false), ControlArg::Other] {
        assert!(!arg_is_truthy(arg));
        let outcome = handle_message(&mut state, &osc, &msg("/transposeUp", vec![arg]));
        assert_eq!(outcome.request, ControlRequest::Declined);
        let outcome = handle_message(&mut state, &osc, &msg("/transposeDown", vec![arg]));
        assert_eq!(outcome.request, ControlRequest::Declined);
        assert_eq!(state.get_transpose(), 0);
    }
    for arg in [single_arg(0.999), single_arg(1.001), single_arg(-1.0), rounded_arg(1.000001), single_arg(f32::NAN)] {
        assert!(!arg_is_truthy(arg));
    }
    for arg in [ControlArg::Int(1), ControlArg::Long(1), rounded_arg(1.0), single_arg(1.0), ControlArg::Bool(true)] {
        assert!(arg_is_truthy(arg));
    }
    let outcome = handle_message(&mut state, &osc, &msg("/transposeUp", vec![]));
    assert_eq!(outcome.request, ControlRequest::MissingArgument);
}

#[test]
fn argument_numbers() {
    assert_eq!(arg_number(ControlArg::Int(-5)), Some(-5));
    assert_eq!(arg_number(ControlArg::Long(2147483647)), Some(2147483647));
    assert_eq!(arg_number(ControlArg::Long(2147483648)), None);
    assert_eq!(arg_number(ControlArg::Long(-2147483648)), Some(-2147483648));
    assert_eq!(arg_number(ControlArg::Long(-2147483649)), None);
    assert_eq!(arg_number(rounded_arg(-1.5)), Some(-2));
    assert_eq!(arg_number(single_arg(3.0)), Some(3));
    assert_eq!(arg_number(single_arg(2.5)), Some(3));
    assert_eq!(arg_number(single_arg(-0.4)), Some(0));
    assert_eq!(arg_number(single_arg(f32::NAN)), None);
    assert_eq!(arg_number(single_arg(f32::INFINITY)), None);
    assert_eq!(arg_number(rounded_arg(f64::NEG_INFINITY)), None);
    assert_eq!(arg_number(rounded_arg(f64::NAN)), None);
    assert_eq!(arg_number(single_arg(f32::MAX)), Some(i32::MAX));
    assert_eq!(arg_number(rounded_arg(f64::MIN)), Some(i32::MIN));
    assert_eq!(arg_number(ControlArg::Bool(true)), None);
    assert_eq!(arg_number(ControlArg::Other), None);
}

#[test]
fn unknown_addresses_are_ignored() {
    let osc = OscConfig::default();
    let mut state = fresh();
    for addr in ["/other", "/transpose/", "/Transpose", "", "/transposeup"] {
        let m = msg(addr, vec![ControlArg::Int(1)]);
        assert_eq!(classify_message(&osc, &m), ControlRequest::Unrecognized);
        handle_message(&mut state, &osc, &m);
        assert_eq!(state.get_transpose(), 0);
    }
}

#[test]
fn configured_addresses_are_used() {
    let mut osc = OscConfig::default();
    osc.transpose_path = "/t/set".to_string();
    osc.transpose_up_path = "/t/up".to_string();
    osc.transpose_down_path = "/t/down".to_string();
    let mut state = fresh();
    handle_message(&mut state, &osc, &msg("/t/set", vec![ControlArg::Int(4)]));
    handle_message(&mut state, &osc, &msg("/t/up", vec![ControlArg::Bool(true)]));
    handle_message(&mut state, &osc, &msg("/transpose", vec![ControlArg::Int(9)]));
    assert_eq!(state.get_transpose(), 5);
    handle_message(&mut state, &osc, &msg("/t/down", vec![ControlArg::Long(1)]));
    assert_eq!(state.get_transpose(), 4);
}

#[test]
fn bundles_are_unwrapped_in_order_however_deep() {
    let osc = OscConfig::default();
    let mut state = fresh();
    let packet = ControlPacket::Bundle(vec![
        ControlPacket::Message(msg("/transpose", vec![ControlArg::Int(3)])),
        ControlPacket::Bundle(vec![
            ControlPacket::Message(msg("/transposeUp", vec![ControlArg::Int(1)])),
            ControlPacket::Bundle(vec![]),
            ControlPacket::Bundle(vec![ControlPacket::Message(msg("/transposeUp", vec![rounded_arg(1.0)]))]),
            ControlPacket::Message(msg("/ignored", vec![])),
        ]),
        ControlPacket::Message(msg("/transposeDown", vec![ControlArg::Bool(true)])),
    ]);
    let outcomes = handle_packet(&mut state, &osc, &packet);
    assert_eq!(state.get_transpose(), 4);
    assert_eq!(
        outcomes,
        vec![
            ControlOutcome { request: ControlRequest::SetTo(3), before: 0, after: 3, requested: Some(3) },
            ControlOutcome { request: ControlRequest::Up, before: 3, after: 4, requested: Some(4) },
            ControlOutcome { request: ControlRequest::Up, before: 4, after: 5, requested: Some(5) },
            ControlOutcome { request: ControlRequest::Unrecognized, before: 5, after: 5, requested: None },
            ControlOutcome { request: ControlRequest::Down, before: 5, after: 4, requested: Some(4) },
        ]
    );
    assert!(handle_packet(&mut state, &osc, &ControlPacket::Bundle(vec![])).is_empty());
    let packet = ControlPacket::Bundle(vec![
        ControlPacket::Message(msg("/transposeUp", vec![ControlArg::Int(1)])),
        ControlPacket::Message(msg("/transpose", vec![ControlArg::Int(-30)])),
        ControlPacket::Message(msg("/transposeUp", vec![ControlArg::Int(1)])),
    ]);
    handle_packet(&mut state, &osc, &packet);
    assert_eq!(state.get_transpose(), -23);
    handle_packet(&mut state, &osc, &ControlPacket::Message(msg("/transpose", vec![ControlArg::Int(0)])));
    assert_eq!(state.get_transpose(), 0);
}

#[test]
fn float_arguments_drive_the_offset_as_in_a_control_session() {
    let osc = OscConfig::default();
    let mut state = fresh();
    let steps: Vec<(&str, f32, i32)> = vec![
        ("/transpose", 3.0, 3),
        ("/transposeUp", 1.0, 4),
        ("/transposeUp", 1.0, 5),
        ("/transposeDown", 1.0, 4),
        ("/transpose", 0.0, 0),
        ("/transposeDown", 1.0, -1),
        ("/transposeDown", 0.0, -1),
        ("/transpose", -99.5, -24),
    ];
    for (addr, value, expected) in steps {
        handle_message(&mut state, &osc, &msg(addr, vec![single_arg(value)]));
        assert_eq!(state.get_transpose(), expected, "{} {}", addr, value);
    }
}

#[test]
fn outcomes_carry_the_offset_that_was_asked_for() {
    let osc = OscConfig::default();
    let mut state = fresh();
    let outcome = handle_message(&mut state, &osc, &msg("/transpose", vec![ControlArg::Int(70)]));
    assert_eq!((outcome.requested, outcome.after), (Some(70), 24));
    let outcome = handle_message(&mut state, &osc, &msg("/transposeUp", vec![ControlArg::Int(1)]));
    assert_eq!((outcome.before, outcome.requested, outcome.after), (24, Some(25), 24));
    let outcome = handle_message(&mut state, &osc, &msg("/transposeDown", vec![ControlArg::Int(1)]));
    assert_eq!((outcome.requested, outcome.after), (Some(23), 23));
    let outcome = handle_message(&mut state, &osc, &msg("/transposeDown", vec![ControlArg::Int(0)]));
    assert_eq!(outcome.requested, None);
    let outcome = handle_message(&mut state, &osc, &msg("/elsewhere", vec![ControlArg::Int(1)]));
    assert_eq!(outcome.requested, None);
}
