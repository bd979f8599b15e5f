//! The control-protocol relay: turns note and pitch-bend events into
//! control messages for the animation target.

use vstd::prelude::*;
use std::collections::HashMap;
use crate::queue::{MidiQueue, Received};
use crate::state::SharedState;
use crate::text::{chars_of, integer_text, push_integer, trim_chars, trimmed};
use crate::transpose::status_nibble;

verus! {

broadcast use vstd::std_specs::hash::group_hash_axioms;

/// The name of a pitch class, `0` for C up to `11` for B.
pub open spec fn pitch_class_name(class: int) -> Seq<char> {
    if class == 0 {
        "C"@
    } else if class == 1 {
        "C#"@
    } else if class == 2 {
        "D"@
    } else if class == 3 {
        "D#"@
    } else if class == 4 {
        "E"@
    } else if class == 5 {
        "F"@
    } else if class == 6 {
        "F#"@
    } else if class == 7 {
        "G"@
    } else if class == 8 {
        "G#"@
    } else if class == 9 {
        "A"@
    } else if class == 10 {
        "A#"@
    } else {
        "B"@
    }
}

/// The name of a note: its pitch class, then its octave, which is the
/// note number divided by twelve, less one. A number above 127 names no note.
pub open spec fn note_name(note_number: u8) -> Seq<char> {
    if note_number > 127 {
        "INVALID"@
    } else {
        pitch_class_name(note_number as int % 12) + integer_text(note_number as int / 12 - 1)
    }
}

/// `s` with every `#` written out as `SHARP`.
pub open spec fn sharp_escaped(s: Seq<char>) -> Seq<char>
    decreases s.len(),
{
    if s.len() == 0 {
        Seq::<char>::empty()
    } else if s.last() == '#' {
        sharp_escaped(s.drop_last()) + "SHARP"@
    } else {
        sharp_escaped(s.drop_last()).push(s.last())
    }
}

/// The address under which the state of a note is sent.
pub open spec fn note_address(note_number: u8) -> Seq<char> {
    "/avatar/parameters/"@ + sharp_escaped(note_name(note_number))
}

/// The name of a pitch class.
fn pitch_class_str(class: u8) -> (name: &'static str)
    requires
        class < 12,
    ensures
        name@ == pitch_class_name(class as int),
{
    if class == 0 {
        "C"
    } else if class == 1 {
        "C#"
    } else if class == 2 {
        "D"
    } else if class == 3 {
        "D#"
    } else if class == 4 {
        "E"
    } else if class == 5 {
        "F"
    } else if class == 6 {
        "F#"
    } else if class == 7 {
        "G"
    } else if class == 8 {
        "G#"
    } else if class == 9 {
        "A"
    } else if class == 10 {
        "A#"
    } else {
        "B"
    }
}

/// The name of a note with its octave, such as `C4` or `F#5`.
pub fn midi_note_to_name(note_number: u8) -> (name: String)
    ensures
        name@ == note_name(note_number),
{
    if note_number > 127 {
        return "INVALID".to_owned();
    }
    let mut name: String = pitch_class_str(note_number % 12).to_owned();
    let octave: i32 = (note_number / 12) as i32 - 1;
    push_integer(&mut name, octave);
    name
}

/// The note name as it stands in an address: `#` becomes `SHARP`.
pub fn note_name_for_osc(note_name: &str) -> (escaped: String)
    ensures
        escaped@ == sharp_escaped(note_name@),
{
    let chars: Vec<char> = chars_of(note_name);
    let mut escaped: String = String::new();
    let mut i: usize = 0;
    assert(chars@.subrange(0, 0) =~= Seq::<char>::empty());
    while i < chars.len()
        invariant
            i <= chars@.len(),
            chars@ == note_name@,
            escaped@ == sharp_escaped(chars@.subrange(0, i as int)),
        decreases chars@.len() - i,
    {
        let c: char = chars[i];
        proof {
            let longer = chars@.subrange(0, i + 1);
            assert(longer.drop_last() =~= chars@.subrange(0, i as int));
            assert(longer.last() == c);
        }
        if c == '#' {
            escaped.push_str("SHARP");
        } else {
            escaped.push(c);
        }
        i += 1;
    }
    assert(chars@.subrange(0, chars@.len() as int) =~= chars@);
    escaped
}

/// One MIDI message as the relay reads it: the status byte and up to
/// three data bytes, with zero for each byte that the message lacks.
#[derive(Clone, Copy, Debug, PartialEq, Eq, Structural)]
pub struct MidiMessageForOsc {
    pub status: u8,
    pub data1: u8,
    pub data2: u8,
    pub data3: u8,
}

/// The byte at `i`, or zero where the message is shorter.
pub open spec fn byte_or_zero(raw: Seq<u8>, i: int) -> u8 {
    if 0 <= i < raw.len() {
        raw[i]
    } else {
        0
    }
}

impl MidiMessageForOsc {
    /// Reads a raw message. An empty one gives `None`.
    pub fn new(raw_bytes: &[u8]) -> (message: Option<Self>)
        ensures
            message.is_some() == (raw_bytes@.len() > 0),
            message.is_some() ==> message.unwrap() == (MidiMessageForOsc {
                status: raw_bytes@[0],
                data1: byte_or_zero(raw_bytes@, 1),
                data2: byte_or_zero(raw_bytes@, 2),
                data3: byte_or_zero(raw_bytes@, 3),
            }),
    {
        if raw_bytes.len() == 0 {
            return None;
        }
        let status: u8 = raw_bytes[0];
        let data1: u8 = if raw_bytes.len() > 1 {
            raw_bytes[1]
        } else {
            0
        };
        let data2: u8 = if raw_bytes.len() > 2 {
            raw_bytes[2]
        } else {
            0
        };
        let data3: u8 = if raw_bytes.len() > 3 {
            raw_bytes[3]
        } else {
            0
        };
        Some(MidiMessageForOsc { status, data1, data2, data3 })
    }
}

/// The value that a control message carries.
#[derive(Clone, Copy, Debug, PartialEq, Eq, Structural)]
pub enum RelayValue {
    /// An integer: 1 for a note that is down, 0 for one that is up.
    Int(i32),
    /// A fraction in tenths, from 1 to 10: the strength of a pitch bend,
    /// sent as the number that is a tenth of it.
    Tenths(u8),
}

/// A control message: an address and one value.
pub struct RelayMessage {
    pub addr: String,
    pub value: RelayValue,
}

/// The bend of a pitch-bend message, relative to the centre and limited
/// to one full bend either way: from -8192 to 8192.
pub open spec fn bend_offset(data1: u8, data2: u8) -> int {
    let raw = data2 as int * 128 + data1 as int - 8192;
    if raw < -8192 {
        -8192
    } else if raw > 8192 {
        8192
    } else {
        raw
    }
}

/// The bend in tenths of a full bend, rounded to the nearest tenth, a
/// half away from zero: from -10 to 10.
pub open spec fn bend_tenths(data1: u8, data2: u8) -> int {
    let k = bend_offset(data1, data2);
    if k >= 0 {
        (10 * k + 4096) / 8192
    } else {
        -((10 * (-k) + 4096) / 8192)
    }
}

/// The state that a note message gives its note: 1 for down, 0 for up.
/// A note-on with velocity zero counts as a note-off.
pub open spec fn note_state(m: MidiMessageForOsc) -> int {
    if status_nibble(m.status) == 0x90 && m.data2 > 0 {
        1
    } else {
        0
    }
}

/// True for a note-on or note-off with a valid note number.
pub open spec fn is_note_event(m: MidiMessageForOsc) -> bool {
    m.data1 <= 127 && (status_nibble(m.status) == 0x90 || status_nibble(m.status) == 0x80)
}

/// True for a pitch bend with a valid first data byte.
pub open spec fn is_bend_event(m: MidiMessageForOsc) -> bool {
    m.data1 <= 127 && status_nibble(m.status) == 0xE0
}

/// The address of the control message that `m` gives rise to, if any.
pub open spec fn relay_address(m: MidiMessageForOsc) -> Option<Seq<char>> {
    if is_note_event(m) {
        Some(note_address(m.data1))
    } else if is_bend_event(m) && bend_tenths(m.data1, m.data2) > 0 {
        Some("/avatar/parameters/PitchUp"@)
    } else if is_bend_event(m) && bend_tenths(m.data1, m.data2) < 0 {
        Some("/avatar/parameters/PitchDown"@)
    } else {
        None
    }
}

/// The value of the control message that `m` gives rise to, if any.
pub open spec fn relay_value(m: MidiMessageForOsc) -> Option<RelayValue> {
    if is_note_event(m) {
        Some(RelayValue::Int(note_state(m) as i32))
    } else if is_bend_event(m) && bend_tenths(m.data1, m.data2) > 0 {
        Some(RelayValue::Tenths(bend_tenths(m.data1, m.data2) as u8))
    } else if is_bend_event(m) && bend_tenths(m.data1, m.data2) < 0 {
        Some(RelayValue::Tenths((-bend_tenths(m.data1, m.data2)) as u8))
    } else {
        None
    }
}

/// The key states after `m`: a note event records the state of its note.
pub open spec fn keys_after(keys: Map<u8, i32>, m: MidiMessageForOsc) -> Map<u8, i32> {
    if is_note_event(m) {
        keys.insert(m.data1, note_state(m) as i32)
    } else {
        keys
    }
}

/// The bend of a pitch-bend message in tenths of a full bend.
pub fn pitch_bend_tenths(data1: u8, data2: u8) -> (tenths: i32)
    ensures
        tenths == bend_tenths(data1, data2),
        -10 <= tenths <= 10,
{
    let raw: i32 = data2 as i32 * 128 + data1 as i32 - 8192;
    let k: i32 = if raw < -8192 {
        -8192
    } else if raw > 8192 {
        8192
    } else {
        raw
    };
    if k >= 0 {
        (10 * k + 4096) / 8192
    } else {
        -((10 * (-k) + 4096) / 8192)
    }
}

/// What a relay keeps between messages: its target and, for each note it
/// has seen, whether that note is down.
pub struct OscSender {
    target_addr: String,
    key_states: HashMap<u8, i32>,
}

/// The target that is used where none is given.
pub open spec fn default_target() -> Seq<char> {
    "127.0.0.1:9000"@
}

/// The target of a relay that was asked to send to `target_addr`.
pub open spec fn effective_target(target_addr: Seq<char>) -> Seq<char> {
    if trimmed(target_addr).len() == 0 {
        default_target()
    } else {
        target_addr
    }
}

impl OscSender {
    /// The target that the relay sends to.
    pub closed spec fn target(&self) -> Seq<char> {
        self.target_addr@
    }

    /// The last state sent for each note, by note number.
    pub closed spec fn keys(&self) -> Map<u8, i32> {
        self.key_states@
    }

    /// A relay for the given target, with no note seen yet. A target that
    /// is empty or blank stands for the local default.
    pub fn new(target_addr: &str) -> (sender: OscSender)
        ensures
            sender.target() == effective_target(target_addr@),
            sender.keys() == Map::<u8, i32>::empty(),
    {
        let chars: Vec<char> = chars_of(target_addr);
        let t: Vec<char> = trim_chars(chars.as_slice());
        let target: String = if t.len() == 0 {
            "127.0.0.1:9000".to_owned()
        } else {
            target_addr.to_owned()
        };
        OscSender { target_addr: target, key_states: HashMap::new() }
    }

    /// The target that the relay sends to.
    pub fn target_addr(&self) -> (target: &str)
        ensures
            target@ == self.target(),
    {
        self.target_addr.as_str()
    }

    /// Whether the last event seen for the note said that it is down.
    pub fn is_note_down(&self, note_number: u8) -> (down: bool)
        ensures
            down == (self.keys().contains_key(note_number) && self.keys()[note_number] == 1),
    {
        match self.key_states.get(&note_number) {
            Some(state) => *state == 1,
            None => false,
        }
    }

    /// Turns one MIDI message into the control message to send, if it
    /// gives rise to one, and records the state of the note it names.
    pub fn process_midi_message(&mut self, midi_msg: &MidiMessageForOsc) -> (out: Option<
        RelayMessage,
    >)
        ensures
            final(self).target() == old(self).target(),
            final(self).keys() == keys_after(old(self).keys(), *midi_msg),
            out.is_some() == relay_address(*midi_msg).is_some(),
            out.is_some() ==> out.unwrap().addr@ == relay_address(*midi_msg).unwrap()
                && Some(out.unwrap().value) == relay_value(*midi_msg),
    {
        let status: u8 = midi_msg.status & 0xF0;
        let data1: u8 = midi_msg.data1;
        let data2: u8 = midi_msg.data2;
        if data1 > 127 {
            return None;
        }
        if status == 0x90 || status == 0x80 {
            let name: String = midi_note_to_name(data1);
            let escaped: String = note_name_for_osc(name.as_str());
            let state: i32 = if status == 0x90 && data2 > 0 {
                1
            } else {
                0
            };
            self.key_states.insert(data1, state);
            let mut addr: String = "/avatar/parameters/".to_owned();
            addr.push_str(escaped.as_str());
            Some(RelayMessage { addr, value: RelayValue::Int(state) })
        } else if status == 0xE0 {
            let tenths: i32 = pitch_bend_tenths(data1, data2);
            if tenths > 0 {
                Some(
                    RelayMessage {
                        addr: "/avatar/parameters/PitchUp".to_owned(),
                        value: RelayValue::Tenths(tenths as u8),
                    },
                )
            } else if tenths < 0 {
                Some(
                    RelayMessage {
                        addr: "/avatar/parameters/PitchDown".to_owned(),
                        value: RelayValue::Tenths((-tenths) as u8),
                    },
                )
            } else {
                None
            }
        } else {
            None
        }
    }
}

/// What a relay has to do after one look at the shared state and its queue.
pub enum RelayStep {
    /// Shutdown was requested: the relay ends.
    Exit,
    /// The relay is switched off: wait a moment and look again. The queue
    /// is left alone, so what arrives meanwhile is sent once the relay is
    /// switched on again.
    Disabled,
    /// Nothing waits: look again.
    Idle,
    /// Nothing waits and the producer is gone: the relay ends.
    Disconnected,
    /// A message was taken that gives rise to no control message.
    Ignored,
    /// Send this control message.
    Send(RelayMessage),
}

/// One turn of a relay: looks at the exit flag, then at the relay switch,
/// then takes the next raw message and turns it into a control message.
pub fn relay_next(state: &SharedState, queue: &mut MidiQueue, sender: &mut OscSender) -> (step:
    RelayStep)
    ensures
        final(sender).target() == old(sender).target(),
        state@.exit ==> step is Exit,
        !state@.exit && !state@.osc_sending_enabled ==> step is Disabled,
        state@.exit || !state@.osc_sending_enabled ==> final(queue)@ == old(queue)@,
        state@.exit || !state@.osc_sending_enabled ==> final(sender).keys() == old(sender).keys(),
        !state@.exit && state@.osc_sending_enabled ==> {
            &&& final(queue)@ == old(queue)@.dequeue()
            &&& match old(queue)@.front() {
                None => {
                    &&& final(sender).keys() == old(sender).keys()
                    &&& if old(queue)@.producer_closed {
                        step is Disconnected
                    } else {
                        step is Idle
                    }
                },
                Some(raw) => if raw.len() == 0 {
                    step is Ignored && final(sender).keys() == old(sender).keys()
                } else {
                    let m = MidiMessageForOsc {
                        status: raw[0],
                        data1: byte_or_zero(raw, 1),
                        data2: byte_or_zero(raw, 2),
                        data3: byte_or_zero(raw, 3),
                    };
                    &&& final(sender).keys() == keys_after(old(sender).keys(), m)
                    &&& match relay_address(m) {
                        None => step is Ignored,
                        Some(addr) => {
                            &&& step is Send
                            &&& step->Send_0.addr@ == addr
                            &&& Some(step->Send_0.value) == relay_value(m)
                        },
                    }
                },
            }
        },
{
    if state.is_exit_requested() {
        return RelayStep::Exit;
    }
    if !state.is_osc_sending_enabled() {
        return RelayStep::Disabled;
    }
    match queue.dequeue() {
        Received::Empty => RelayStep::Idle,
        Received::Disconnected => RelayStep::Disconnected,
        Received::Message(raw) => {
            match MidiMessageForOsc::new(raw.as_slice()) {
                None => RelayStep::Ignored,
                Some(midi_msg) => {
                    match sender.process_midi_message(&midi_msg) {
                        Some(message) => RelayStep::Send(message),
                        None => RelayStep::Ignored,
                    }
                },
            }
        },
    }
}

/// The bend in tenths is the tenth nearest to the bend. Ten times the
/// bend differs from 8192 times the tenths by at most 4096, which is half
/// a tenth; a bend that lies just between two tenths goes to the one
/// farther from zero; and the tenths never point the other way.
pub proof fn lemma_bend_tenths_is_nearest(data1: u8, data2: u8)
    ensures
        ({
            let k = bend_offset(data1, data2);
            let t = bend_tenths(data1, data2);
            &&& -8192 <= k <= 8192
            &&& -10 <= t <= 10
            &&& -4096 <= 10 * k - 8192 * t <= 4096
            &&& 10 * k - 8192 * t == 4096 ==> k < 0
            &&& 10 * k - 8192 * t == -4096 ==> k > 0
            &&& k >= 0 ==> t >= 0
            &&& k <= 0 ==> t <= 0
        }),
{
}

/// Only one number of tenths is nearest to a bend in that way.
pub proof fn lemma_bend_tenths_is_unique(k: int, t1: int, t2: int)
    requires
        -4096 <= 10 * k - 8192 * t1 <= 4096,
        -4096 <= 10 * k - 8192 * t2 <= 4096,
        10 * k - 8192 * t1 == 4096 ==> k < 0,
        10 * k - 8192 * t1 == -4096 ==> k > 0,
        10 * k - 8192 * t2 == 4096 ==> k < 0,
        10 * k - 8192 * t2 == -4096 ==> k > 0,
    ensures
        t1 == t2,
{
}

/// A pitch bend at the centre gives rise to no control message.
pub proof fn lemma_centred_bend_is_silent(status: u8, data3: u8)
    requires
        status_nibble(status) == 0xE0,
    ensures
        bend_tenths(0, 64) == 0,
        relay_address(MidiMessageForOsc { status, data1: 0, data2: 64, data3 }).is_none(),
{
}

} // verus!
