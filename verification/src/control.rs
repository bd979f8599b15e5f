//! The control-protocol listener: inbound messages that set, raise or
//! lower the transpose offset.

use vstd::prelude::*;
use crate::config::OscConfig;
use crate::float_bits::{
    double_is_finite, double_is_one, double_rounded, is_double_finite, is_double_one,
    is_single_finite, is_single_one, round_double, round_single, single_is_finite, single_is_one,
    single_rounded,
};
use crate::state::{set_transpose_semitones, SharedState, StateView};

verus! {

/// One argument of a control message, as far as the listener reads it.
#[derive(Debug, Clone, Copy, PartialEq, Eq, Structural)]
pub enum ControlArg {
    /// A 32-bit integer.
    Int(i32),
    /// A 64-bit integer.
    Long(i64),
    /// A single-precision floating-point number, given by its bits.
    Float(u32),
    /// A double-precision floating-point number, given by its bits.
    Double(u64),
    /// A boolean.
    Bool(bool),
    /// An argument of any other type.
    Other,
}

/// A control message: an address and its arguments.
pub struct ControlMessage {
    pub addr: String,
    pub args: Vec<ControlArg>,
}

/// A packet: one message, or a bundle of packets.
pub enum ControlPacket {
    Message(ControlMessage),
    Bundle(Vec<ControlPacket>),
}

/// What a control message asks for.
#[derive(Debug, Clone, Copy, PartialEq, Eq, Structural)]
pub enum ControlRequest {
    /// Set the offset to this value.
    SetTo(i32),
    /// Raise the offset by one.
    Up,
    /// Lower the offset by one.
    Down,
    /// A recognized address without an argument.
    MissingArgument,
    /// The address for setting the offset, with an argument that is no
    /// number, or an integer that does not fit 32 bits.
    NotNumeric,
    /// The address for raising or lowering, with an argument that does
    /// not stand for one.
    Declined,
    /// An address that the listener does not know.
    Unrecognized,
}

/// What the listener did with a message.
#[derive(Debug, Clone, Copy, PartialEq, Eq, Structural)]
pub struct ControlOutcome {
    /// What the message asked for.
    pub request: ControlRequest,
    /// The offset before the message.
    pub before: i32,
    /// The offset after the message.
    pub after: i32,
    /// The offset that the message asked for, if it asked for one. Where
    /// it differs from the offset after the message, it was clamped.
    pub requested: Option<i32>,
}

/// The three addresses that the listener knows.
pub struct ControlPaths {
    pub set: Seq<char>,
    pub up: Seq<char>,
    pub down: Seq<char>,
}

/// The addresses that a configuration names.
pub open spec fn paths_of(config: OscConfig) -> ControlPaths {
    ControlPaths {
        set: config.transpose_path@,
        up: config.transpose_up_path@,
        down: config.transpose_down_path@,
    }
}

/// The number that an argument stands for: an integer that fits 32 bits,
/// or a floating-point number rounded to the nearest integer. An
/// infinity, and what is no number, stand for none.
pub open spec fn numeric_value(arg: ControlArg) -> Option<i32> {
    match arg {
        ControlArg::Int(v) => Some(v),
        ControlArg::Long(v) => if i32::MIN <= v <= i32::MAX {
            Some(v as i32)
        } else {
            None
        },
        ControlArg::Float(bits) => if single_is_finite(bits) {
            Some(single_rounded(bits))
        } else {
            None
        },
        ControlArg::Double(bits) => if double_is_finite(bits) {
            Some(double_rounded(bits))
        } else {
            None
        },
        _ => None,
    }
}

/// True for an argument that stands for one: the number one, or true.
pub open spec fn is_truthy(arg: ControlArg) -> bool {
    match arg {
        ControlArg::Int(v) => v == 1,
        ControlArg::Long(v) => v == 1,
        ControlArg::Float(bits) => single_is_one(bits),
        ControlArg::Double(bits) => double_is_one(bits),
        ControlArg::Bool(b) => b,
        ControlArg::Other => false,
    }
}

/// What a message with address `addr` and arguments `args` asks for.
pub open spec fn request_of(paths: ControlPaths, addr: Seq<char>, args: Seq<ControlArg>)
    -> ControlRequest {
    if addr == paths.set {
        if args.len() == 0 {
            ControlRequest::MissingArgument
        } else {
            match numeric_value(args[0]) {
                Some(v) => ControlRequest::SetTo(v),
                None => ControlRequest::NotNumeric,
            }
        }
    } else if addr == paths.up {
        if args.len() == 0 {
            ControlRequest::MissingArgument
        } else if is_truthy(args[0]) {
            ControlRequest::Up
        } else {
            ControlRequest::Declined
        }
    } else if addr == paths.down {
        if args.len() == 0 {
            ControlRequest::MissingArgument
        } else if is_truthy(args[0]) {
            ControlRequest::Down
        } else {
            ControlRequest::Declined
        }
    } else {
        ControlRequest::Unrecognized
    }
}

/// The shared state after a request.
pub open spec fn request_effect(s: StateView, request: ControlRequest) -> StateView {
    match request {
        ControlRequest::SetTo(v) => s.set_transpose(v as int),
        ControlRequest::Up => s.set_transpose(s.transpose + 1),
        ControlRequest::Down => s.set_transpose(s.transpose - 1),
        _ => s,
    }
}

/// The shared state after a message.
pub open spec fn message_effect(s: StateView, paths: ControlPaths, m: ControlMessage)
    -> StateView {
    request_effect(s, request_of(paths, m.addr@, m.args@))
}

/// The shared state after a packet: a bundle is unwrapped, and its
/// packets take effect in their order.
pub open spec fn packet_effect(s: StateView, paths: ControlPaths, p: ControlPacket) -> StateView
    decreases p, 0int,
{
    match p {
        ControlPacket::Message(m) => message_effect(s, paths, m),
        ControlPacket::Bundle(items) => bundle_effect(s, paths, items, items.len() as int),
    }
}

/// The shared state after the first `n` packets of a bundle.
pub open spec fn bundle_effect(
    s: StateView,
    paths: ControlPaths,
    items: Vec<ControlPacket>,
    n: int,
) -> StateView
    decreases items, n,
{
    if n <= 0 || n > items.len() {
        s
    } else {
        packet_effect(bundle_effect(s, paths, items, n - 1), paths, items[n - 1])
    }
}

/// The offset that a request asks for in the state `s`, if it asks for one.
pub open spec fn requested_offset(s: StateView, request: ControlRequest) -> Option<i32> {
    match request {
        ControlRequest::SetTo(v) => Some(v),
        ControlRequest::Up => Some((s.transpose + 1) as i32),
        ControlRequest::Down => Some((s.transpose - 1) as i32),
        _ => None,
    }
}

/// What the listener does with a message when the state is `s`.
pub open spec fn outcome_of(s: StateView, paths: ControlPaths, m: ControlMessage)
    -> ControlOutcome {
    ControlOutcome {
        request: request_of(paths, m.addr@, m.args@),
        before: s.transpose as i32,
        after: message_effect(s, paths, m).transpose as i32,
        requested: requested_offset(s, request_of(paths, m.addr@, m.args@)),
    }
}

/// What the listener does with the messages of a packet, in their order.
pub open spec fn packet_outcomes(s: StateView, paths: ControlPaths, p: ControlPacket) -> Seq<
    ControlOutcome,
>
    decreases p, 0int,
{
    match p {
        ControlPacket::Message(m) => seq![outcome_of(s, paths, m)],
        ControlPacket::Bundle(items) => bundle_outcomes(s, paths, items, items.len() as int),
    }
}

/// What the listener does with the messages of the first `n` packets of
/// a bundle.
pub open spec fn bundle_outcomes(
    s: StateView,
    paths: ControlPaths,
    items: Vec<ControlPacket>,
    n: int,
) -> Seq<ControlOutcome>
    decreases items, n,
{
    if n <= 0 || n > items.len() {
        Seq::<ControlOutcome>::empty()
    } else {
        bundle_outcomes(s, paths, items, n - 1) + packet_outcomes(
            bundle_effect(s, paths, items, n - 1),
            paths,
            items[n - 1],
        )
    }
}

/// Reads the number of an argument.
pub fn arg_number(arg: ControlArg) -> (value: Option<i32>)
    ensures
        value == numeric_value(arg),
{
    match arg {
        ControlArg::Int(v) => Some(v),
        ControlArg::Long(v) => if -2147483648 <= v && v <= 2147483647 {
            Some(v as i32)
        } else {
            None
        },
        ControlArg::Float(bits) => if is_single_finite(bits) {
            Some(round_single(bits))
        } else {
            None
        },
        ControlArg::Double(bits) => if is_double_finite(bits) {
            Some(round_double(bits))
        } else {
            None
        },
        _ => None,
    }
}

/// Tells whether an argument stands for one.
pub fn arg_is_truthy(arg: ControlArg) -> (truthy: bool)
    ensures
        truthy == is_truthy(arg),
{
    match arg {
        ControlArg::Int(v) => v == 1,
        ControlArg::Long(v) => v == 1,
        ControlArg::Float(bits) => is_single_one(bits),
        ControlArg::Double(bits) => is_double_one(bits),
        ControlArg::Bool(b) => b,
        ControlArg::Other => false,
    }
}

/// Reads what a message asks for.
pub fn classify_message(config: &OscConfig, msg: &ControlMessage) -> (request: ControlRequest)
    ensures
        request == request_of(paths_of(*config), msg.addr@, msg.args@),
{
    if msg.addr == config.transpose_path {
        if msg.args.len() == 0 {
            ControlRequest::MissingArgument
        } else {
            match arg_number(msg.args[0]) {
                Some(v) => ControlRequest::SetTo(v),
                None => ControlRequest::NotNumeric,
            }
        }
    } else if msg.addr == config.transpose_up_path {
        if msg.args.len() == 0 {
            ControlRequest::MissingArgument
        } else if arg_is_truthy(msg.args[0]) {
            ControlRequest::Up
        } else {
            ControlRequest::Declined
        }
    } else if msg.addr == config.transpose_down_path {
        if msg.args.len() == 0 {
            ControlRequest::MissingArgument
        } else if arg_is_truthy(msg.args[0]) {
            ControlRequest::Down
        } else {
            ControlRequest::Declined
        }
    } else {
        ControlRequest::Unrecognized
    }
}

/// Carries out a request on the shared state and returns the offset that
/// the state holds afterwards.
pub fn apply_request(state: &mut SharedState, request: ControlRequest) -> (after: i32)
    ensures
        final(state)@ == request_effect(old(state)@, request),
        after == final(state)@.transpose,
{
    let current: i32 = state.get_transpose();
    proof {
        use_type_invariant(&*state);
    }
    match request {
        ControlRequest::SetTo(v) => set_transpose_semitones(state, v),
        ControlRequest::Up => set_transpose_semitones(state, current + 1),
        ControlRequest::Down => set_transpose_semitones(state, current - 1),
        _ => current,
    }
}

/// Handles one inbound message.
pub fn handle_message(state: &mut SharedState, config: &OscConfig, msg: &ControlMessage) -> (outcome:
    ControlOutcome)
    ensures
        final(state)@ == message_effect(old(state)@, paths_of(*config), *msg),
        outcome == outcome_of(old(state)@, paths_of(*config), *msg),
{
    let request: ControlRequest = classify_message(config, msg);
    let before: i32 = state.get_transpose();
    let requested: Option<i32> = match request {
        ControlRequest::SetTo(v) => Some(v),
        ControlRequest::Up => Some(before + 1),
        ControlRequest::Down => Some(before - 1),
        _ => None,
    };
    let after: i32 = apply_request(state, request);
    ControlOutcome { request, before, after, requested }
}

/// Handles one inbound packet. A bundle is unwrapped, however deep, and
/// each message in it is handled like a message that came alone. What
/// comes back says, message by message, what was done.
pub fn handle_packet(state: &mut SharedState, config: &OscConfig, packet: &ControlPacket) -> (outcomes:
    Vec<ControlOutcome>)
    ensures
        final(state)@ == packet_effect(old(state)@, paths_of(*config), *packet),
        outcomes@ == packet_outcomes(old(state)@, paths_of(*config), *packet),
    decreases packet,
{
    let mut outcomes: Vec<ControlOutcome> = Vec::new();
    match packet {
        ControlPacket::Message(msg) => {
            outcomes.push(handle_message(state, config, msg));
            assert(outcomes@ =~= seq![outcome_of(old(state)@, paths_of(*config), *msg)]);
        },
        ControlPacket::Bundle(items) => {
            let mut i: usize = 0;
            while i < items.len()
                invariant
                    i <= items.len(),
                    *packet is Bundle,
                    packet->Bundle_0 == *items,
                    state@ == bundle_effect(old(state)@, paths_of(*config), *items, i as int),
                    outcomes@ == bundle_outcomes(old(state)@, paths_of(*config), *items, i as int),
                decreases items.len() - i,
            {
                proof {
                    assert(decreases_to!(*packet => packet->Bundle_0));
                    assert(decreases_to!(*items => items[i as int]));
                }
                let ghost before = outcomes@;
                let mut inner: Vec<ControlOutcome> = handle_packet(state, config, &items[i]);
                let ghost added = inner@;
                outcomes.append(&mut inner);
                i += 1;
                assert(outcomes@ =~= before + added);
            }
        },
    }
    outcomes
}

/// A message to an address that the listener does not know changes nothing.
pub proof fn lemma_unknown_address_is_ignored(s: StateView, paths: ControlPaths, m: ControlMessage)
    requires
        m.addr@ != paths.set,
        m.addr@ != paths.up,
        m.addr@ != paths.down,
    ensures
        message_effect(s, paths, m) == s,
{
}

/// Whatever a packet holds, it leaves the offset within its bounds and
/// touches nothing but the offset.
pub proof fn lemma_packet_keeps_state_valid(s: StateView, paths: ControlPaths, p: ControlPacket)
    requires
        s.wf(),
    ensures
        packet_effect(s, paths, p).wf(),
        packet_effect(s, paths, p) == (StateView {
            transpose: packet_effect(s, paths, p).transpose,
            ..s
        }),
    decreases p, 0int,
{
    match p {
        ControlPacket::Message(m) => {},
        ControlPacket::Bundle(items) => {
            lemma_bundle_keeps_state_valid(s, paths, items, items.len() as int);
        },
    }
}

/// The same for the first `n` packets of a bundle.
pub proof fn lemma_bundle_keeps_state_valid(
    s: StateView,
    paths: ControlPaths,
    items: Vec<ControlPacket>,
    n: int,
)
    requires
        s.wf(),
    ensures
        bundle_effect(s, paths, items, n).wf(),
        bundle_effect(s, paths, items, n) == (StateView {
            transpose: bundle_effect(s, paths, items, n).transpose,
            ..s
        }),
    decreases items, n,
{
    if n <= 0 || n > items.len() {
    } else {
        lemma_bundle_keeps_state_valid(s, paths, items, n - 1);
        lemma_packet_keeps_state_valid(bundle_effect(s, paths, items, n - 1), paths, items[n - 1]);
    }
}

} // verus!
