//! Inbound datagrams of the control protocol: from bytes to the packet
//! that the listener handles.

use vstd::prelude::*;
use crate::config::OscConfig;
use crate::control::{
    handle_packet, packet_effect, packet_outcomes, paths_of, ControlArg, ControlMessage,
    ControlOutcome, ControlPacket, ControlPaths,
};
use crate::state::{SharedState, StateView};

verus! {

/// The longest datagram that the listener reads.
pub const MAX_DATAGRAM: usize = 1536;

/// The packet type of `rosc`.
#[verifier::external_type_specification]
#[verifier::external_body]
pub struct ExOscPacket(rosc::OscPacket);

/// The argument type of `rosc`.
#[verifier::external_type_specification]
#[verifier::external_body]
pub struct ExOscType(rosc::OscType);

/// The error type of `rosc`.
#[verifier::external_type_specification]
#[verifier::external_body]
pub struct ExOscError(rosc::OscError);

/// Why a datagram was not handled.
#[derive(Debug, Clone, Copy, PartialEq, Eq, Structural)]
pub enum DatagramError {
    /// It is longer than the listener reads.
    TooLong,
    /// It holds no packet of the control protocol.
    Undecodable,
}

/// The packet that a datagram holds, as `rosc` decodes it; `None` for
/// bytes that it does not decode.
pub uninterp spec fn decoded_packet(bytes: Seq<u8>) -> Option<ControlPacket>;

/// Holds one argument of `rosc` as the library's own: integers and
/// booleans as they are, floating-point numbers by their bits, and every
/// other type as `Other`.
#[verifier::external_body]
fn convert_arg(arg: rosc::OscType) -> ControlArg {
    match arg {
        rosc::OscType::Int(v) => ControlArg::Int(v),
        rosc::OscType::Long(v) => ControlArg::Long(v),
        rosc::OscType::Float(v) => ControlArg::Float(v.to_bits()),
        rosc::OscType::Double(v) => ControlArg::Double(v.to_bits()),
        rosc::OscType::Bool(b) => ControlArg::Bool(b),
        _ => ControlArg::Other,
    }
}

/// Holds a packet of `rosc` as the library's own: a message with its
/// address and arguments, a bundle with its packets in their order. The
/// time tag of a bundle is dropped.
#[verifier::external_body]
fn convert_packet(packet: rosc::OscPacket) -> ControlPacket {
    match packet {
        rosc::OscPacket::Message(m) => ControlPacket::Message(
            ControlMessage { addr: m.addr, args: m.args.into_iter().map(convert_arg).collect() },
        ),
        rosc::OscPacket::Bundle(b) => ControlPacket::Bundle(
            b.content.into_iter().map(convert_packet).collect(),
        ),
    }
}

/// `rosc::decoder::decode_udp`: decodes the packet at the start of a
/// datagram. What comes back depends on the bytes alone, so it has a
/// name; nothing more is claimed of it. The decoder descends once for
/// each level of nested bundles, so the length of the input is bounded.
#[verifier::external_body]
fn decode_udp_packet(bytes: &[u8]) -> (decoded: Result<ControlPacket, rosc::OscError>)
    requires
        bytes@.len() <= MAX_DATAGRAM,
    ensures
        decoded.is_ok() == decoded_packet(bytes@).is_some(),
        decoded.is_ok() ==> Some(decoded.unwrap()) == decoded_packet(bytes@),
{
    match rosc::decoder::decode_udp(bytes) {
        Ok((_, packet)) => Ok(convert_packet(packet)),
        Err(err) => Err(err),
    }
}

/// What handling a datagram gives: the packet, or the reason why there is none.
pub open spec fn datagram_packet(bytes: Seq<u8>) -> Result<ControlPacket, DatagramError> {
    if bytes.len() > MAX_DATAGRAM {
        Err(DatagramError::TooLong)
    } else {
        match decoded_packet(bytes) {
            Some(packet) => Ok(packet),
            None => Err(DatagramError::Undecodable),
        }
    }
}

/// The shared state after a datagram: its packet takes effect, and a
/// datagram without one changes nothing.
pub open spec fn datagram_effect(s: StateView, paths: ControlPaths, bytes: Seq<u8>) -> StateView {
    match datagram_packet(bytes) {
        Ok(packet) => packet_effect(s, paths, packet),
        Err(_) => s,
    }
}

/// Decodes the packet of a datagram.
pub fn decode_datagram(bytes: &[u8]) -> (packet: Result<ControlPacket, DatagramError>)
    ensures
        packet == datagram_packet(bytes@),
{
    if bytes.len() > MAX_DATAGRAM {
        return Err(DatagramError::TooLong);
    }
    match decode_udp_packet(bytes) {
        Ok(packet) => Ok(packet),
        Err(_) => Err(DatagramError::Undecodable),
    }
}

/// What the listener does with a datagram: message by message what was
/// done with its packet, or the reason why it has none.
pub open spec fn datagram_outcomes(s: StateView, paths: ControlPaths, bytes: Seq<u8>) -> Result<
    Seq<ControlOutcome>,
    DatagramError,
> {
    match datagram_packet(bytes) {
        Ok(packet) => Ok(packet_outcomes(s, paths, packet)),
        Err(e) => Err(e),
    }
}

/// Handles one inbound datagram: decodes it and lets its packet take
/// effect. A datagram that cannot be decoded is skipped.
pub fn handle_datagram(state: &mut SharedState, config: &OscConfig, bytes: &[u8]) -> (handled:
    Result<Vec<ControlOutcome>, DatagramError>)
    ensures
        final(state)@ == datagram_effect(old(state)@, paths_of(*config), bytes@),
        match handled {
            Ok(outcomes) => datagram_outcomes(old(state)@, paths_of(*config), bytes@) == Ok::<
                Seq<ControlOutcome>,
                DatagramError,
            >(outcomes@),
            Err(e) => datagram_outcomes(old(state)@, paths_of(*config), bytes@) == Err::<
                Seq<ControlOutcome>,
                DatagramError,
            >(e),
        },
{
    match decode_datagram(bytes) {
        Ok(packet) => Ok(handle_packet(state, config, &packet)),
        Err(e) => Err(e),
    }
}

} // verus!
