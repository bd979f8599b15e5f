//! The decisions of the input listener and of the forwarder: where each
//! raw message goes, and what is written to the output device.

use vstd::prelude::*;
use crate::queue::{copy_message, MidiQueue, Received};
use crate::state::{SharedState, StateView};
use crate::transpose::{apply_transpose, transposed};

verus! {

/// What the forwarder has to do after one look at its queue.
pub enum ForwardStep {
    /// Write these bytes to the output device.
    Send(Vec<u8>),
    /// An empty message was taken and skipped.
    Skip,
    /// Nothing waits.
    Idle,
    /// Nothing waits and the producer is gone: the forwarder ends.
    Closed,
}

/// True where the original stream is mirrored to the relay.
pub open spec fn relays_original(s: StateView) -> bool {
    s.osc_sending_enabled && s.osc_send_original
}

/// True where the transposed stream is mirrored to the relay.
pub open spec fn relays_transposed(s: StateView) -> bool {
    s.osc_sending_enabled && !s.osc_send_original
}

/// Handles one message from the input device: a copy goes to the
/// forwarder's queue, and a second copy to the relay of the original
/// stream where that stream is mirrored. Never blocks.
pub fn on_input_event(
    state: &SharedState,
    message: &[u8],
    forward: &mut MidiQueue,
    original_relay: &mut MidiQueue,
)
    ensures
        final(forward)@ == old(forward)@.enqueue(message@),
        final(original_relay)@ == if relays_original(state@) {
            old(original_relay)@.enqueue(message@)
        } else {
            old(original_relay)@
        },
{
    let _ = forward.enqueue(copy_message(message));
    if state.is_osc_sending_enabled() && state.is_osc_send_original() {
        let _ = original_relay.enqueue(copy_message(message));
    }
}

/// Takes the next message for the forwarder, shifts it by the current
/// offset and hands it back for the output device. Where the transposed
/// stream is mirrored, a copy of the shifted message goes to its relay.
pub fn forward_next(
    state: &SharedState,
    input: &mut MidiQueue,
    transposed_relay: &mut MidiQueue,
) -> (step: ForwardStep)
    ensures
        final(input)@ == old(input)@.dequeue(),
        match old(input)@.front() {
            Some(m) => if m.len() == 0 {
                step is Skip && final(transposed_relay)@ == old(transposed_relay)@
            } else {
                &&& step is Send
                &&& step->Send_0@ == transposed(m, state@.transpose)
                &&& final(transposed_relay)@ == if relays_transposed(state@) {
                    old(transposed_relay)@.enqueue(transposed(m, state@.transpose))
                } else {
                    old(transposed_relay)@
                }
            },
            None => {
                &&& final(transposed_relay)@ == old(transposed_relay)@
                &&& if old(input)@.producer_closed {
                    step is Closed
                } else {
                    step is Idle
                }
            },
        },
{
    match input.dequeue() {
        Received::Message(message) => {
            if message.len() == 0 {
                return ForwardStep::Skip;
            }
            let mut out: Vec<u8> = message;
            apply_transpose(out.as_mut_slice(), state.get_transpose());
            if state.is_osc_sending_enabled() && !state.is_osc_send_original() {
                let _ = transposed_relay.enqueue(copy_message(out.as_slice()));
            }
            ForwardStep::Send(out)
        },
        Received::Empty => ForwardStep::Idle,
        Received::Disconnected => ForwardStep::Closed,
    }
}

} // verus!
