//! The broker bridge: inbound command topics, and the state topics on
//! which every change of the shared state is published again.

use vstd::prelude::*;
use crate::config::TransposeConfig;
use crate::discovery::{discovery_documents, homeassistant_discovery};
use crate::float_bits::{is_single_finite, round_single, single_is_finite, single_rounded};
use crate::state::{
    clamp_notice, clamp_notice_of, is_debug_enabled, set_transpose_semitones, SharedState,
    StateView,
};
use crate::status::{Banner, ConnectionStatus};
use crate::text::{
    chars_of, eq_ignore_case, integer_text, optional_text, parse_i32, parsed_i32, push_integer,
    same_ignoring_case, trim_chars, trimmed,
};

verus! {

/// The topics of the bridge, each the base topic with a fixed ending.
pub struct MqttTopics {
    pub transpose_set: String,
    pub transpose_up: String,
    pub transpose_down: String,
    pub transpose_state: String,
    pub availability: String,
    pub osc_sending_enabled_set: String,
    pub osc_sending_enabled_state: String,
    pub osc_send_original_set: String,
    pub osc_send_original_state: String,
    pub debug_enabled_set: String,
    pub debug_enabled_state: String,
}

/// A message to publish: retained, and delivered at least once.
pub struct Publication {
    pub topic: String,
    pub payload: String,
}

/// A publication as plain text.
pub struct PublicationView {
    pub topic: Seq<char>,
    pub payload: Seq<char>,
}

impl View for Publication {
    type V = PublicationView;

    open spec fn view(&self) -> PublicationView {
        PublicationView { topic: self.topic@, payload: self.payload@ }
    }
}

/// The publications of a list, as plain text.
pub open spec fn publications_of(items: Seq<Publication>) -> Seq<PublicationView> {
    Seq::new(items.len(), |i: int| items[i]@)
}

/// The publication in `p`, if any, as plain text.
pub open spec fn publication_of(p: Option<Publication>) -> Option<PublicationView> {
    match p {
        Some(publication) => Some(publication@),
        None => None,
    }
}

/// The values that were published last.
#[derive(Debug, Clone, Copy, PartialEq, Eq, Structural)]
pub struct PublishedSnapshot {
    pub transpose: i32,
    pub osc_sending_enabled: bool,
    pub osc_send_original: bool,
    pub debug_enabled: bool,
}

/// What a message from the broker asks for.
#[derive(Debug, Clone, Copy, PartialEq, Eq, Structural)]
pub enum BridgeRequest {
    /// Set the offset to this value.
    SetTo(i32),
    /// Raise the offset by one.
    Up,
    /// Lower the offset by one.
    Down,
    /// The topic for setting the offset, with a payload that names no offset.
    InvalidTranspose,
    /// The topic for raising or lowering, with a payload that does not
    /// stand for true.
    Declined,
    /// Switch the relay on or off.
    OscSending(bool),
    /// Mirror the original stream (true) or the transposed one.
    OscSendOriginal(bool),
    /// Switch verbose logging on or off.
    Debug(bool),
    /// A topic that the bridge does not serve.
    Unrecognized,
}

/// What the bridge did with a message from the broker.
pub struct BridgeOutcome {
    /// What the message asked for.
    pub request: BridgeRequest,
    /// The new state to publish, if the message changed one.
    pub publication: Option<Publication>,
    /// The offset that was stored and published, if the message set one.
    pub new_value: Option<i32>,
    /// The notice to log, if the offset that was asked for was clamped.
    pub notice: Option<String>,
}

/// The event that the broker session reports.
pub enum BridgeEvent {
    /// A message arrived on a topic. `real_bits` holds the bits of the
    /// single-precision number that the payload denotes, where it
    /// denotes one.
    Message { topic: String, payload: String, real_bits: Option<u32> },
    /// The session is up.
    Connected,
    /// Any other event of the session.
    Other,
    /// The transport failed.
    ConnectionError,
}

/// What the bridge owes after one event.
pub struct BridgeStep {
    /// Subscribe to the command topics first.
    pub subscribe: bool,
    /// Publish these, in this order.
    pub publications: Vec<Publication>,
    /// Log this notice: the offset that was asked for was clamped.
    pub notice: Option<String>,
    /// Show this banner.
    pub banner: Option<Banner>,
    /// Wait for the backoff interval before the next event.
    pub backoff: bool,
}

impl MqttTopics {
    /// True where every topic is `base` with its fixed ending.
    pub open spec fn built_on(&self, base: Seq<char>) -> bool {
        &&& self.transpose_set@ == base + "/transpose"@
        &&& self.transpose_up@ == base + "/transposeUp"@
        &&& self.transpose_down@ == base + "/transposeDown"@
        &&& self.transpose_state@ == base + "/state/transpose"@
        &&& self.availability@ == base + "/availability"@
        &&& self.osc_sending_enabled_set@ == base + "/osc/sendingEnabled"@
        &&& self.osc_sending_enabled_state@ == base + "/state/osc/sendingEnabled"@
        &&& self.osc_send_original_set@ == base + "/osc/sendOriginal"@
        &&& self.osc_send_original_state@ == base + "/state/osc/sendOriginal"@
        &&& self.debug_enabled_set@ == base + "/debug/enabled"@
        &&& self.debug_enabled_state@ == base + "/state/debug/enabled"@
    }

    /// The topics under a base topic.
    pub fn new(base_topic: &str) -> (topics: MqttTopics)
        ensures
            topics.built_on(base_topic@),
    {
        MqttTopics {
            transpose_set: joined(base_topic, "/transpose"),
            transpose_up: joined(base_topic, "/transposeUp"),
            transpose_down: joined(base_topic, "/transposeDown"),
            transpose_state: joined(base_topic, "/state/transpose"),
            availability: joined(base_topic, "/availability"),
            osc_sending_enabled_set: joined(base_topic, "/osc/sendingEnabled"),
            osc_sending_enabled_state: joined(base_topic, "/state/osc/sendingEnabled"),
            osc_send_original_set: joined(base_topic, "/osc/sendOriginal"),
            osc_send_original_state: joined(base_topic, "/state/osc/sendOriginal"),
            debug_enabled_set: joined(base_topic, "/debug/enabled"),
            debug_enabled_state: joined(base_topic, "/state/debug/enabled"),
        }
    }
}

/// Two texts, one after the other.
pub fn joined(first: &str, second: &str) -> (text: String)
    ensures
        text@ == first@ + second@,
{
    let mut text: String = first.to_owned();
    text.push_str(second);
    text
}

/// The offset that a payload names. A decimal integer, with white space
/// around it allowed, names itself. Any other payload names the integer
/// nearest to the floating-point number that it denotes, whose bits are
/// `real_bits`; what is no number, and an infinity, names nothing.
pub open spec fn transpose_payload(payload: Seq<char>, real_bits: Option<u32>) -> Option<i32> {
    match parsed_i32(trimmed(payload)) {
        Some(v) => Some(v),
        None => match real_bits {
            Some(bits) => if single_is_finite(bits) {
                Some(single_rounded(bits))
            } else {
                None
            },
            None => None,
        },
    }
}

/// True for a payload that stands for true: `1`, `true` or `on`, in any
/// case, with white space around it allowed.
pub open spec fn boolean_payload(payload: Seq<char>) -> bool {
    let t = trimmed(payload);
    same_ignoring_case(t, "1"@) || same_ignoring_case(t, "true"@) || same_ignoring_case(t, "on"@)
}

/// The payload that publishes a flag.
pub open spec fn flag_text(on: bool) -> Seq<char> {
    if on {
        "1"@
    } else {
        "0"@
    }
}

/// Reads the offset that a payload names. `real_bits` holds the bits of
/// the single-precision number that the payload denotes, where it
/// denotes one.
pub fn parse_transpose_payload(payload: &str, real_bits: Option<u32>) -> (value: Option<i32>)
    ensures
        value == transpose_payload(payload@, real_bits),
{
    let chars: Vec<char> = chars_of(payload);
    let t: Vec<char> = trim_chars(chars.as_slice());
    match parse_i32(t.as_slice()) {
        Some(v) => Some(v),
        None => match real_bits {
            Some(bits) => if is_single_finite(bits) {
                Some(round_single(bits))
            } else {
                None
            },
            None => None,
        },
    }
}

/// Tells whether a payload stands for true.
pub fn parse_boolean_payload(payload: &str) -> (truthy: bool)
    ensures
        truthy == boolean_payload(payload@),
{
    let chars: Vec<char> = chars_of(payload);
    let t: Vec<char> = trim_chars(chars.as_slice());
    eq_ignore_case(t.as_slice(), "1") || eq_ignore_case(t.as_slice(), "true") || eq_ignore_case(
        t.as_slice(),
        "on",
    )
}

/// The device description for discovery, as JSON.
pub fn create_device_json() -> (json: String)
    ensures
        json@ == crate::discovery::device_json(),
{
    "{\n  \"identifiers\": [\"midi_transposer_transposer2025\"],\n  \"name\": \"MIDI Transposer 2025\",\n  \"manufacturer\": \"MidiTransposer\",\n  \"model\": \"MidiTransposer\"\n}".to_owned()
}

/// What a message on `topic` with `payload` asks for. A payload for
/// setting the offset that names no offset is invalid.
pub open spec fn bridge_request_of(
    topics: MqttTopics,
    topic: Seq<char>,
    payload: Seq<char>,
    real_bits: Option<u32>,
) -> BridgeRequest {
    if topic == topics.transpose_set@ {
        match transpose_payload(payload, real_bits) {
            Some(v) => BridgeRequest::SetTo(v),
            None => BridgeRequest::InvalidTranspose,
        }
    } else if topic == topics.transpose_up@ {
        if boolean_payload(payload) {
            BridgeRequest::Up
        } else {
            BridgeRequest::Declined
        }
    } else if topic == topics.transpose_down@ {
        if boolean_payload(payload) {
            BridgeRequest::Down
        } else {
            BridgeRequest::Declined
        }
    } else if topic == topics.osc_sending_enabled_set@ {
        BridgeRequest::OscSending(boolean_payload(payload))
    } else if topic == topics.osc_send_original_set@ {
        BridgeRequest::OscSendOriginal(boolean_payload(payload))
    } else if topic == topics.debug_enabled_set@ {
        BridgeRequest::Debug(boolean_payload(payload))
    } else {
        BridgeRequest::Unrecognized
    }
}

/// The shared state after a request from the broker.
pub open spec fn bridge_effect(s: StateView, request: BridgeRequest) -> StateView {
    match request {
        BridgeRequest::SetTo(v) => s.set_transpose(v as int),
        BridgeRequest::Up => s.set_transpose(s.transpose + 1),
        BridgeRequest::Down => s.set_transpose(s.transpose - 1),
        BridgeRequest::OscSending(on) => s.set_osc_sending_enabled(on),
        BridgeRequest::OscSendOriginal(on) => s.set_osc_send_original(on),
        BridgeRequest::Debug(on) => s.set_debug(on),
        _ => s,
    }
}

/// What is published after a request: the new value of what it changed,
/// on that entity's state topic. `after` is the state after the request.
pub open spec fn bridge_publication(topics: MqttTopics, request: BridgeRequest, after: StateView)
    -> Option<PublicationView> {
    match request {
        BridgeRequest::SetTo(_) | BridgeRequest::Up | BridgeRequest::Down => Some(
            PublicationView {
                topic: topics.transpose_state@,
                payload: integer_text(after.transpose),
            },
        ),
        BridgeRequest::OscSending(on) => Some(
            PublicationView { topic: topics.osc_sending_enabled_state@, payload: flag_text(on) },
        ),
        BridgeRequest::OscSendOriginal(on) => Some(
            PublicationView { topic: topics.osc_send_original_state@, payload: flag_text(on) },
        ),
        BridgeRequest::Debug(on) => Some(
            PublicationView { topic: topics.debug_enabled_state@, payload: flag_text(on) },
        ),
        _ => None,
    }
}

/// The offset that a request asks for in the state `s`, if it asks for one.
pub open spec fn requested_offset(s: StateView, request: BridgeRequest) -> Option<int> {
    match request {
        BridgeRequest::SetTo(v) => Some(v as int),
        BridgeRequest::Up => Some(s.transpose + 1),
        BridgeRequest::Down => Some(s.transpose - 1),
        _ => None,
    }
}

/// The notice that goes with a request in the state `s`: there is one
/// exactly where the offset that it asks for lies outside the bounds.
pub open spec fn bridge_notice(s: StateView, request: BridgeRequest) -> Option<Seq<char>> {
    match requested_offset(s, request) {
        Some(v) => clamp_notice_of(s, v),
        None => None,
    }
}

/// The offset that a request stored, if it set one.
pub open spec fn bridge_new_value(request: BridgeRequest, after: StateView) -> Option<i32> {
    match request {
        BridgeRequest::SetTo(_) | BridgeRequest::Up | BridgeRequest::Down => Some(
            after.transpose as i32,
        ),
        _ => None,
    }
}

/// Compares two texts.
fn same_text(a: &str, b: &String) -> (same: bool)
    ensures
        same == (a@ == b@),
{
    let left: Vec<char> = chars_of(a);
    crate::text::eq_exact(left.as_slice(), b.as_str())
}

/// Reads what a message from the broker asks for.
pub fn classify_mqtt_message(
    topics: &MqttTopics,
    topic: &str,
    payload: &str,
    real_bits: Option<u32>,
) -> (request: BridgeRequest)
    ensures
        request == bridge_request_of(*topics, topic@, payload@, real_bits),
{
    if same_text(topic, &topics.transpose_set) {
        match parse_transpose_payload(payload, real_bits) {
            Some(v) => BridgeRequest::SetTo(v),
            None => BridgeRequest::InvalidTranspose,
        }
    } else if same_text(topic, &topics.transpose_up) {
        if parse_boolean_payload(payload) {
            BridgeRequest::Up
        } else {
            BridgeRequest::Declined
        }
    } else if same_text(topic, &topics.transpose_down) {
        if parse_boolean_payload(payload) {
            BridgeRequest::Down
        } else {
            BridgeRequest::Declined
        }
    } else if same_text(topic, &topics.osc_sending_enabled_set) {
        BridgeRequest::OscSending(parse_boolean_payload(payload))
    } else if same_text(topic, &topics.osc_send_original_set) {
        BridgeRequest::OscSendOriginal(parse_boolean_payload(payload))
    } else if same_text(topic, &topics.debug_enabled_set) {
        BridgeRequest::Debug(parse_boolean_payload(payload))
    } else {
        BridgeRequest::Unrecognized
    }
}

/// The publication of an offset on a topic.
pub fn transpose_publication(topic: &String, value: i32) -> (publication: Publication)
    ensures
        publication@ == (PublicationView { topic: topic@, payload: integer_text(value as int) }),
{
    let mut payload: String = String::new();
    push_integer(&mut payload, value);
    assert(payload@ =~= integer_text(value as int));
    Publication { topic: topic.clone(), payload }
}

/// The publication of a flag on a topic.
pub fn flag_publication(topic: &String, on: bool) -> (publication: Publication)
    ensures
        publication@ == (PublicationView { topic: topic@, payload: flag_text(on) }),
{
    let payload: String = if on {
        "1".to_owned()
    } else {
        "0".to_owned()
    };
    Publication { topic: topic.clone(), payload }
}

/// Handles one message from the broker: carries out what it asks for and
/// says what to publish.
pub fn handle_mqtt_message(
    state: &mut SharedState,
    topics: &MqttTopics,
    topic: &str,
    payload: &str,
    real_bits: Option<u32>,
) -> (outcome: BridgeOutcome)
    ensures
        outcome.request == bridge_request_of(*topics, topic@, payload@, real_bits),
        final(state)@ == bridge_effect(old(state)@, outcome.request),
        publication_of(outcome.publication) == bridge_publication(
            *topics,
            outcome.request,
            final(state)@,
        ),
        outcome.new_value == bridge_new_value(outcome.request, final(state)@),
        optional_text(outcome.notice) == bridge_notice(old(state)@, outcome.request),
{
    let request: BridgeRequest = classify_mqtt_message(topics, topic, payload, real_bits);
    let current: i32 = state.get_transpose();
    proof {
        use_type_invariant(&*state);
    }
    match request {
        BridgeRequest::SetTo(v) => {
            let notice: Option<String> = clamp_notice(state, v);
            let stored: i32 = set_transpose_semitones(state, v);
            BridgeOutcome {
                request,
                publication: Some(transpose_publication(&topics.transpose_state, stored)),
                new_value: Some(stored),
                notice,
            }
        },
        BridgeRequest::Up => {
            let notice: Option<String> = clamp_notice(state, current + 1);
            let stored: i32 = set_transpose_semitones(state, current + 1);
            BridgeOutcome {
                request,
                publication: Some(transpose_publication(&topics.transpose_state, stored)),
                new_value: Some(stored),
                notice,
            }
        },
        BridgeRequest::Down => {
            let notice: Option<String> = clamp_notice(state, current - 1);
            let stored: i32 = set_transpose_semitones(state, current - 1);
            BridgeOutcome {
                request,
                publication: Some(transpose_publication(&topics.transpose_state, stored)),
                new_value: Some(stored),
                notice,
            }
        },
        BridgeRequest::OscSending(on) => {
            state.set_osc_sending_enabled(on);
            BridgeOutcome {
                request,
                publication: Some(flag_publication(&topics.osc_sending_enabled_state, on)),
                new_value: None,
                notice: None,
            }
        },
        BridgeRequest::OscSendOriginal(on) => {
            state.set_osc_send_original(on);
            BridgeOutcome {
                request,
                publication: Some(flag_publication(&topics.osc_send_original_state, on)),
                new_value: None,
                notice: None,
            }
        },
        BridgeRequest::Debug(on) => {
            state.set_debug_enabled(on);
            BridgeOutcome {
                request,
                publication: Some(flag_publication(&topics.debug_enabled_state, on)),
                new_value: None,
                notice: None,
            }
        },
        _ => BridgeOutcome { request, publication: None, new_value: None, notice: None },
    }
}

/// One publication where `differs` holds, none otherwise.
pub open spec fn when_changed(differs: bool, topic: Seq<char>, payload: Seq<char>) -> Seq<
    PublicationView,
> {
    if differs {
        seq![PublicationView { topic, payload }]
    } else {
        Seq::<PublicationView>::empty()
    }
}

/// The values of the shared state that the bridge publishes.
pub open spec fn snapshot_of(s: StateView) -> PublishedSnapshot {
    PublishedSnapshot {
        transpose: s.transpose as i32,
        osc_sending_enabled: s.osc_sending_enabled,
        osc_send_original: s.osc_send_original,
        debug_enabled: s.debug,
    }
}

/// What has to be published so that the broker knows the state `s`, when
/// `last` is what it was told last: the new value of each entity that
/// differs, on that entity's state topic.
pub open spec fn sync_publications(s: StateView, topics: MqttTopics, last: PublishedSnapshot)
    -> Seq<PublicationView> {
    when_changed(
        last.transpose != s.transpose,
        topics.transpose_state@,
        integer_text(s.transpose),
    ) + when_changed(
        last.osc_sending_enabled != s.osc_sending_enabled,
        topics.osc_sending_enabled_state@,
        flag_text(s.osc_sending_enabled),
    ) + when_changed(
        last.osc_send_original != s.osc_send_original,
        topics.osc_send_original_state@,
        flag_text(s.osc_send_original),
    ) + when_changed(
        last.debug_enabled != s.debug,
        topics.debug_enabled_state@,
        flag_text(s.debug),
    )
}

/// What is published once the session is up: that the device is online,
/// then the offset and each flag.
pub open spec fn initial_publications(s: StateView, topics: MqttTopics) -> Seq<PublicationView> {
    seq![
        PublicationView { topic: topics.availability@, payload: "online"@ },
        PublicationView { topic: topics.transpose_state@, payload: integer_text(s.transpose) },
        PublicationView {
            topic: topics.osc_sending_enabled_state@,
            payload: flag_text(s.osc_sending_enabled),
        },
        PublicationView {
            topic: topics.osc_send_original_state@,
            payload: flag_text(s.osc_send_original),
        },
        PublicationView { topic: topics.debug_enabled_state@, payload: flag_text(s.debug) },
    ]
}

impl PublishedSnapshot {
    /// The snapshot of the state as it is now.
    pub fn of(state: &SharedState) -> (snapshot: PublishedSnapshot)
        ensures
            snapshot == snapshot_of(state@),
            snapshot.transpose == state@.transpose,
    {
        PublishedSnapshot {
            transpose: state.get_transpose(),
            osc_sending_enabled: state.is_osc_sending_enabled(),
            osc_send_original: state.is_osc_send_original(),
            debug_enabled: is_debug_enabled(state),
        }
    }
}

/// Compares the shared state with what was published last, says what to
/// publish for each value that differs, and brings the snapshot up to date.
pub fn sync_published(state: &SharedState, topics: &MqttTopics, last: &mut PublishedSnapshot) -> (out:
    Vec<Publication>)
    ensures
        publications_of(out@) == sync_publications(state@, *topics, *old(last)),
        *final(last) == snapshot_of(state@),
{
    let mut out: Vec<Publication> = Vec::new();
    let now: PublishedSnapshot = PublishedSnapshot::of(state);
    if now.transpose != last.transpose {
        out.push(transpose_publication(&topics.transpose_state, now.transpose));
    }
    let ghost first = publications_of(out@);
    if now.osc_sending_enabled != last.osc_sending_enabled {
        out.push(flag_publication(&topics.osc_sending_enabled_state, now.osc_sending_enabled));
    }
    let ghost second = publications_of(out@);
    if now.osc_send_original != last.osc_send_original {
        out.push(flag_publication(&topics.osc_send_original_state, now.osc_send_original));
    }
    let ghost third = publications_of(out@);
    if now.debug_enabled != last.debug_enabled {
        out.push(flag_publication(&topics.debug_enabled_state, now.debug_enabled));
    }
    proof {
        let s = state@;
        let a = when_changed(
            old(last).transpose != s.transpose,
            topics.transpose_state@,
            integer_text(s.transpose),
        );
        let b = when_changed(
            old(last).osc_sending_enabled != s.osc_sending_enabled,
            topics.osc_sending_enabled_state@,
            flag_text(s.osc_sending_enabled),
        );
        let c = when_changed(
            old(last).osc_send_original != s.osc_send_original,
            topics.osc_send_original_state@,
            flag_text(s.osc_send_original),
        );
        let d = when_changed(
            old(last).debug_enabled != s.debug,
            topics.debug_enabled_state@,
            flag_text(s.debug),
        );
        assert(first =~= a);
        assert(second =~= a + b);
        assert(third =~= a + b + c);
        assert(publications_of(out@) =~= a + b + c + d);
    }
    *last = now;
    out
}

/// The topic filters that the bridge subscribes to: its six command
/// topics, then the discovery topics of this device.
pub open spec fn subscriptions(topics: MqttTopics) -> Seq<Seq<char>> {
    seq![
        topics.transpose_set@,
        topics.transpose_up@,
        topics.transpose_down@,
        topics.osc_sending_enabled_set@,
        topics.osc_send_original_set@,
        topics.debug_enabled_set@,
        "homeassistant/+/midi_transposer/#"@,
    ]
}

/// The topic filters to subscribe to once the session is up, in order.
pub fn subscription_topics(topics: &MqttTopics) -> (filters: Vec<String>)
    ensures
        filters@.len() == subscriptions(*topics).len(),
        forall|i: int| 0 <= i < filters@.len() ==> filters@[i]@ == subscriptions(*topics)[i],
{
    let mut filters: Vec<String> = Vec::new();
    filters.push(topics.transpose_set.clone());
    filters.push(topics.transpose_up.clone());
    filters.push(topics.transpose_down.clone());
    filters.push(topics.osc_sending_enabled_set.clone());
    filters.push(topics.osc_send_original_set.clone());
    filters.push(topics.debug_enabled_set.clone());
    filters.push("homeassistant/+/midi_transposer/#".to_owned());
    filters
}

/// What to publish once the session is up.
pub fn publish_initial_state(state: &SharedState, topics: &MqttTopics) -> (out: Vec<Publication>)
    ensures
        publications_of(out@) == initial_publications(state@, *topics),
{
    let mut out: Vec<Publication> = Vec::new();
    out.push(Publication { topic: topics.availability.clone(), payload: "online".to_owned() });
    out.push(transpose_publication(&topics.transpose_state, state.get_transpose()));
    out.push(
        flag_publication(&topics.osc_sending_enabled_state, state.is_osc_sending_enabled()),
    );
    out.push(flag_publication(&topics.osc_send_original_state, state.is_osc_send_original()));
    out.push(flag_publication(&topics.debug_enabled_state, is_debug_enabled(state)));
    assert(publications_of(out@) =~= initial_publications(state@, *topics));
    out
}

/// What an event asks of the shared state.
pub open spec fn event_request(topics: MqttTopics, event: BridgeEvent) -> BridgeRequest {
    match event {
        BridgeEvent::Message { topic, payload, real_bits } => bridge_request_of(
            topics,
            topic@,
            payload@,
            real_bits,
        ),
        _ => BridgeRequest::Unrecognized,
    }
}

/// The shared state after an event: a message takes effect, and the
/// session is marked up when it connects and down when its transport fails.
pub open spec fn event_effect(s: StateView, topics: MqttTopics, event: BridgeEvent) -> StateView {
    match event {
        BridgeEvent::Message { .. } => bridge_effect(s, event_request(topics, event)),
        BridgeEvent::Connected => s.set_mqtt_connected(true),
        BridgeEvent::Other => s,
        BridgeEvent::ConnectionError => s.set_mqtt_connected(false),
    }
}

/// The bounds of the offset in a state.
pub open spec fn bounds_of(s: StateView) -> TransposeConfig {
    TransposeConfig { min: s.min as i8, max: s.max as i8 }
}

/// What the event itself gives to publish; `after` is the state after
/// it. Once the session is up these are the discovery documents, then
/// the device's presence and its whole state.
pub open spec fn event_publications(after: StateView, topics: MqttTopics, event: BridgeEvent)
    -> Seq<PublicationView> {
    match event {
        BridgeEvent::Message { .. } => match bridge_publication(
            topics,
            event_request(topics, event),
            after,
        ) {
            Some(publication) => seq![publication],
            None => Seq::<PublicationView>::empty(),
        },
        BridgeEvent::Connected => discovery_documents(topics, bounds_of(after))
            + initial_publications(after, topics),
        _ => Seq::<PublicationView>::empty(),
    }
}

/// The snapshot after the event itself: a message that set the offset
/// has published the stored value already.
pub open spec fn snapshot_after_event(
    last: PublishedSnapshot,
    after: StateView,
    topics: MqttTopics,
    event: BridgeEvent,
) -> PublishedSnapshot {
    match bridge_new_value(event_request(topics, event), after) {
        Some(v) => PublishedSnapshot { transpose: v, ..last },
        None => last,
    }
}

/// The banner that an event gives rise to: the session coming up or its
/// transport failing shows one, if the bridge is enabled and no banner
/// was shown before.
pub open spec fn event_banner(mqtt_enabled: bool, shown: bool, event: BridgeEvent) -> Option<
    Banner,
> {
    if !mqtt_enabled || shown {
        None
    } else {
        match event {
            BridgeEvent::Connected => Some(Banner::Active),
            BridgeEvent::ConnectionError => Some(Banner::Broken),
            _ => None,
        }
    }
}

/// One turn of the bridge after an event of the broker session: the
/// event takes effect, and every value of the shared state that differs
/// from what was published last is published again, whoever changed it.
pub fn bridge_step(
    state: &mut SharedState,
    status: &mut ConnectionStatus,
    topics: &MqttTopics,
    last: &mut PublishedSnapshot,
    event: &BridgeEvent,
) -> (step: BridgeStep)
    ensures
        final(state)@ == event_effect(old(state)@, *topics, *event),
        publications_of(step.publications@) == event_publications(final(state)@, *topics, *event)
            + sync_publications(
            final(state)@,
            *topics,
            snapshot_after_event(*old(last), final(state)@, *topics, *event),
        ),
        *final(last) == snapshot_of(final(state)@),
        optional_text(step.notice) == bridge_notice(old(state)@, event_request(*topics, *event)),
        step.subscribe == (*event is Connected),
        step.backoff == (*event is ConnectionError),
        step.banner == event_banner(old(state)@.mqtt_enabled, old(status).banner_printed, *event),
        final(status).banner_printed == (old(status).banner_printed || (old(state)@.mqtt_enabled
            && (*event is Connected || *event is ConnectionError))),
        final(status).osc_listener_running == old(status).osc_listener_running,
        final(status).osc_sender_count == old(status).osc_sender_count,
{
    let mut publications: Vec<Publication> = Vec::new();
    let mut notice: Option<String> = None;
    let mut banner: Option<Banner> = None;
    let mut connected: bool = false;
    let mut failed: bool = false;
    match event {
        BridgeEvent::Message { topic, payload, real_bits } => {
            let outcome: BridgeOutcome = handle_mqtt_message(
                state,
                topics,
                topic.as_str(),
                payload.as_str(),
                *real_bits,
            );
            match outcome.new_value {
                Some(v) => {
                    last.transpose = v;
                },
                None => {},
            }
            match outcome.publication {
                Some(publication) => {
                    publications.push(publication);
                },
                None => {},
            }
            notice = outcome.notice;
        },
        BridgeEvent::Connected => {
            state.set_mqtt_connected(true);
            connected = true;
            let bounds: TransposeConfig = TransposeConfig {
                min: state.transpose_min(),
                max: state.transpose_max(),
            };
            publications = homeassistant_discovery(topics, &bounds);
            let ghost documents = publications_of(publications@);
            let mut initial: Vec<Publication> = publish_initial_state(state, topics);
            let ghost first = publications_of(initial@);
            publications.append(&mut initial);
            assert(publications_of(publications@) =~= documents + first);
            if state.is_mqtt_enabled() && status.claim_banner() {
                banner = Some(Banner::Active);
            }
        },
        BridgeEvent::Other => {},
        BridgeEvent::ConnectionError => {
            state.set_mqtt_connected(false);
            failed = true;
            if state.is_mqtt_enabled() && status.claim_banner() {
                banner = Some(Banner::Broken);
            }
        },
    }
    let ghost from_event = publications_of(publications@);
    assert(from_event =~= event_publications(state@, *topics, *event));
    let mut changed: Vec<Publication> = sync_published(state, topics, last);
    let ghost from_sync = publications_of(changed@);
    publications.append(&mut changed);
    assert(publications_of(publications@) =~= from_event + from_sync);
    BridgeStep { subscribe: connected, publications, notice, banner, backoff: failed }
}

/// Once the snapshot matches the state, nothing is left to publish.
pub proof fn lemma_sync_settles(s: StateView, topics: MqttTopics)
    requires
        s.wf(),
    ensures
        sync_publications(s, topics, snapshot_of(s)) =~= Seq::<PublicationView>::empty(),
{
}

/// A change of the offset that came from elsewhere is published on the
/// offset's state topic, with the new value.
pub proof fn lemma_sync_publishes_new_offset(
    s: StateView,
    topics: MqttTopics,
    last: PublishedSnapshot,
)
    requires
        s.wf(),
        last.transpose != s.transpose,
    ensures
        sync_publications(s, topics, last).len() >= 1,
        sync_publications(s, topics, last)[0] == (PublicationView {
            topic: topics.transpose_state@,
            payload: integer_text(s.transpose),
        }),
{
}

} // verus!
