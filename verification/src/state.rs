//! The shared runtime state: the transpose offset, the feature flags and
//! the exit flag, with the clamping policy applied in one setter.

use vstd::prelude::*;
use crate::config::{Config, TransposeConfig};
use crate::text::{integer_text, optional_text, push_integer};
use crate::transpose::{clamp_int, clamp_transpose};

verus! {

/// What the shared state holds, as plain mathematical values.
pub struct StateView {
    pub min: int,
    pub max: int,
    pub transpose: int,
    pub exit: bool,
    pub debug: bool,
    pub osc_sending_enabled: bool,
    pub osc_send_original: bool,
    pub mqtt_enabled: bool,
    pub mqtt_connected: bool,
}

impl StateView {
    /// The bounds are in order, each fits a signed byte, and the offset lies
    /// within them.
    pub open spec fn wf(self) -> bool {
        -128 <= self.min <= self.max <= 127 && self.min <= self.transpose <= self.max
    }

    /// The state after a request to set the offset to `value`.
    pub open spec fn set_transpose(self, value: int) -> StateView {
        StateView { transpose: clamp_int(value, self.min, self.max), ..self }
    }

    /// The state after the relay was switched on or off.
    pub open spec fn set_osc_sending_enabled(self, on: bool) -> StateView {
        StateView { osc_sending_enabled: on, ..self }
    }

    /// The state after the relayed stream was chosen.
    pub open spec fn set_osc_send_original(self, on: bool) -> StateView {
        StateView { osc_send_original: on, ..self }
    }

    /// The state after verbose logging was switched on or off.
    pub open spec fn set_debug(self, on: bool) -> StateView {
        StateView { debug: on, ..self }
    }

    /// The state after the broker bridge was switched on or off.
    pub open spec fn set_mqtt_enabled(self, on: bool) -> StateView {
        StateView { mqtt_enabled: on, ..self }
    }

    /// The state after the broker session was marked up or down.
    pub open spec fn set_mqtt_connected(self, on: bool) -> StateView {
        StateView { mqtt_connected: on, ..self }
    }

    /// The state after shutdown was requested.
    pub open spec fn request_exit(self) -> StateView {
        StateView { exit: true, ..self }
    }
}

/// The single source of truth for the transpose offset and the flags.
/// Every value of this type holds an offset within its bounds.
pub struct SharedState {
    bounds: TransposeConfig,
    transpose: i32,
    exit: bool,
    debug: bool,
    osc_sending_enabled: bool,
    osc_send_original: bool,
    mqtt_enabled: bool,
    mqtt_connected: bool,
}

impl View for SharedState {
    type V = StateView;

    closed spec fn view(&self) -> StateView {
        StateView {
            min: self.bounds.min as int,
            max: self.bounds.max as int,
            transpose: self.transpose as int,
            exit: self.exit,
            debug: self.debug,
            osc_sending_enabled: self.osc_sending_enabled,
            osc_send_original: self.osc_send_original,
            mqtt_enabled: self.mqtt_enabled,
            mqtt_connected: self.mqtt_connected,
        }
    }
}

impl SharedState {
    /// The state's invariant: the offset lies within bounds that are in order.
    #[verifier::type_invariant]
    pub open spec fn wf(&self) -> bool {
        self@.wf()
    }

    /// The state at startup: the offset is zero, or the bound nearest to
    /// zero where the range does not hold zero; the flags are those of the
    /// configuration. Bounds that are out of order give `None`.
    pub fn new(config: &Config) -> (state: Option<SharedState>)
        ensures
            state.is_some() == config.transpose.valid(),
            state.is_some() ==> state.unwrap().wf() && state.unwrap()@ == (StateView {
                min: config.transpose.min as int,
                max: config.transpose.max as int,
                transpose: clamp_int(0, config.transpose.min as int, config.transpose.max as int),
                exit: false,
                debug: config.debug,
                osc_sending_enabled: config.osc.sending_enabled,
                osc_send_original: config.osc.send_original,
                mqtt_enabled: config.mqtt.enabled,
                mqtt_connected: false,
            }),
    {
        if !config.transpose.is_valid() {
            return None;
        }
        Some(
            SharedState {
                bounds: config.transpose,
                transpose: clamp_transpose(0, config.transpose.min, config.transpose.max),
                exit: false,
                debug: config.debug,
                osc_sending_enabled: config.osc.sending_enabled,
                osc_send_original: config.osc.send_original,
                mqtt_enabled: config.mqtt.enabled,
                mqtt_connected: false,
            },
        )
    }

    /// The current transpose offset. It always lies within the bounds.
    pub fn get_transpose(&self) -> (current: i32)
        ensures
            current == self@.transpose,
            self@.min <= current <= self@.max,
            self.wf(),
    {
        proof {
            use_type_invariant(self);
        }
        self.transpose
    }

    /// The lower bound of the offset.
    pub fn transpose_min(&self) -> (min: i8)
        ensures
            min == self@.min,
    {
        self.bounds.min
    }

    /// The upper bound of the offset.
    pub fn transpose_max(&self) -> (max: i8)
        ensures
            max == self@.max,
    {
        self.bounds.max
    }

    /// Whether shutdown was requested.
    pub fn is_exit_requested(&self) -> (exit: bool)
        ensures
            exit == self@.exit,
    {
        self.exit
    }

    /// Requests shutdown. The flag is never reset.
    pub fn request_exit(&mut self)
        ensures
            final(self)@ == old(self)@.request_exit(),
    {
        proof {
            use_type_invariant(&*self);
        }
        self.exit = true;
    }

    /// Whether the relay is enabled.
    pub fn is_osc_sending_enabled(&self) -> (on: bool)
        ensures
            on == self@.osc_sending_enabled,
    {
        self.osc_sending_enabled
    }

    /// Switches the relay on or off.
    pub fn set_osc_sending_enabled(&mut self, on: bool)
        ensures
            final(self)@ == old(self)@.set_osc_sending_enabled(on),
    {
        proof {
            use_type_invariant(&*self);
        }
        self.osc_sending_enabled = on;
    }

    /// Whether the relay mirrors the original stream rather than the transposed one.
    pub fn is_osc_send_original(&self) -> (on: bool)
        ensures
            on == self@.osc_send_original,
    {
        self.osc_send_original
    }

    /// Chooses the original stream (true) or the transposed one for the relay.
    pub fn set_osc_send_original(&mut self, on: bool)
        ensures
            final(self)@ == old(self)@.set_osc_send_original(on),
    {
        proof {
            use_type_invariant(&*self);
        }
        self.osc_send_original = on;
    }

    /// Switches verbose logging on or off.
    pub fn set_debug_enabled(&mut self, on: bool)
        ensures
            final(self)@ == old(self)@.set_debug(on),
    {
        proof {
            use_type_invariant(&*self);
        }
        self.debug = on;
    }

    /// Whether the broker bridge is enabled.
    pub fn is_mqtt_enabled(&self) -> (on: bool)
        ensures
            on == self@.mqtt_enabled,
    {
        self.mqtt_enabled
    }

    /// Switches the broker bridge on or off.
    pub fn set_mqtt_enabled(&mut self, on: bool)
        ensures
            final(self)@ == old(self)@.set_mqtt_enabled(on),
    {
        proof {
            use_type_invariant(&*self);
        }
        self.mqtt_enabled = on;
    }

    /// Whether the broker session is up.
    pub fn is_mqtt_connected(&self) -> (on: bool)
        ensures
            on == self@.mqtt_connected,
    {
        self.mqtt_connected
    }

    /// Marks the broker session as up or down.
    pub fn set_mqtt_connected(&mut self, on: bool)
        ensures
            final(self)@ == old(self)@.set_mqtt_connected(on),
    {
        proof {
            use_type_invariant(&*self);
        }
        self.mqtt_connected = on;
    }
}

/// Whether verbose logging is enabled.
pub fn is_debug_enabled(state: &SharedState) -> (on: bool)
    ensures
        on == state@.debug,
{
    state.debug
}

/// Limits `value` to the configured range, stores it and returns what was
/// stored. This is the only way to change the offset.
pub fn set_transpose_semitones(state: &mut SharedState, value: i32) -> (stored: i32)
    ensures
        final(state).wf(),
        final(state)@ == old(state)@.set_transpose(value as int),
        stored == final(state)@.transpose,
        old(state)@.min <= stored <= old(state)@.max,
        old(state)@.min <= value <= old(state)@.max ==> stored == value,
{
    proof {
        use_type_invariant(&*state);
    }
    let clamped: i32 = clamp_transpose(value, state.bounds.min, state.bounds.max);
    state.transpose = clamped;
    clamped
}

/// Whether storing `value` would store something else: the input then lies
/// outside the configured range.
pub fn would_clamp(state: &SharedState, value: i32) -> (clamped: bool)
    ensures
        clamped == (value < state@.min || value > state@.max),
        clamped == (state@.set_transpose(value as int).transpose != value),
{
    value < state.bounds.min as i32 || value > state.bounds.max as i32
}

/// The notice that is logged when a requested offset was clamped.
pub open spec fn clamp_notice_text(value: int, min: int, max: int) -> Seq<char> {
    "[TRANSPOSE] Clamped "@ + integer_text(value) + " to range ["@ + integer_text(min) + ", "@
        + integer_text(max) + "] -> "@ + integer_text(clamp_int(value, min, max))
}

/// The notice that goes with a request to set the offset to `value` in
/// the state `s`: there is one exactly where the request lies outside
/// the bounds.
pub open spec fn clamp_notice_of(s: StateView, value: int) -> Option<Seq<char>> {
    if value < s.min || value > s.max {
        Some(clamp_notice_text(value, s.min, s.max))
    } else {
        None
    }
}

/// The notice to log for a request to set the offset to `value`: there is
/// one exactly where the request lies outside the configured range.
pub fn clamp_notice(state: &SharedState, value: i32) -> (notice: Option<String>)
    ensures
        optional_text(notice) == clamp_notice_of(state@, value as int),
{
    proof {
        use_type_invariant(state);
    }
    if !would_clamp(state, value) {
        return None;
    }
    let min: i8 = state.bounds.min;
    let max: i8 = state.bounds.max;
    let mut notice: String = "[TRANSPOSE] Clamped ".to_owned();
    push_integer(&mut notice, value);
    notice.push_str(" to range [");
    push_integer(&mut notice, min as i32);
    notice.push_str(", ");
    push_integer(&mut notice, max as i32);
    notice.push_str("] -> ");
    push_integer(&mut notice, clamp_transpose(value, min, max));
    Some(notice)
}

/// Setting the offset keeps the state well formed, stores a value within
/// the bounds, and stores the request itself where it lies within them.
pub proof fn lemma_set_transpose_in_range(s: StateView, value: int)
    requires
        s.wf(),
    ensures
        s.set_transpose(value).wf(),
        s.min <= s.set_transpose(value).transpose <= s.max,
        s.min <= value <= s.max ==> s.set_transpose(value).transpose == value,
{
}

/// Setting the offset to the same value a second time changes nothing.
pub proof fn lemma_set_transpose_idempotent(s: StateView, value: int)
    requires
        s.wf(),
    ensures
        s.set_transpose(value).set_transpose(value) == s.set_transpose(value),
{
}

/// Storing a flag a second time changes nothing, and storing a flag's
/// value and then its earlier value restores the state.
pub proof fn lemma_flag_store_twice(s: StateView, on: bool)
    ensures
        s.set_osc_sending_enabled(on).set_osc_sending_enabled(on) == s.set_osc_sending_enabled(on),
        s.set_osc_send_original(on).set_osc_send_original(on) == s.set_osc_send_original(on),
        s.set_debug(on).set_debug(on) == s.set_debug(on),
        s.set_mqtt_enabled(on).set_mqtt_enabled(on) == s.set_mqtt_enabled(on),
        s.set_osc_sending_enabled(on).set_osc_sending_enabled(s.osc_sending_enabled) == s,
        s.set_osc_send_original(on).set_osc_send_original(s.osc_send_original) == s,
        s.set_debug(on).set_debug(s.debug) == s,
        s.set_mqtt_enabled(on).set_mqtt_enabled(s.mqtt_enabled) == s,
{
}

/// Once shutdown is requested, no flag store and no offset change takes it back.
pub proof fn lemma_exit_is_sticky(s: StateView, on: bool, value: int)
    requires
        s.exit,
    ensures
        s.request_exit() == s,
        s.set_transpose(value).exit,
        s.set_osc_sending_enabled(on).exit,
        s.set_osc_send_original(on).exit,
        s.set_debug(on).exit,
        s.set_mqtt_enabled(on).exit,
        s.set_mqtt_connected(on).exit,
{
}

} // verus!
