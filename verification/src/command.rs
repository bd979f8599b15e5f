//! The command-line listener: one line of text in, one change of the
//! shared state and one confirmation out.

use vstd::prelude::*;
use crate::state::{
    clamp_notice, clamp_notice_of, set_transpose_semitones, SharedState, StateView,
};
use crate::text::{
    chars_of, eq_exact, eq_ignore_case, integer_text, optional_text, parse_i32, parsed_i32,
    push_integer, same_ignoring_case, trim_chars, trimmed,
};

verus! {

/// What a line of input asks for.
#[derive(Debug, Clone, Copy, PartialEq, Eq, Structural)]
pub enum Command {
    /// Shut down: an empty line, `exit`, `quit` or `q`.
    Exit,
    /// Switch verbose logging on or off.
    Debug(bool),
    /// Switch the relay on or off.
    OscSending(bool),
    /// Mirror the original stream (true) or the transposed one.
    OscSendOriginal(bool),
    /// Show the list of commands.
    Help,
    /// Switch the broker bridge on or off.
    Mqtt(bool),
    /// Set the transpose offset.
    SetTranspose(i32),
    /// Anything else.
    Unrecognized,
}

/// What the listener owes after one line.
pub struct LineOutcome {
    /// What the line asked for.
    pub command: Command,
    /// The confirmation to print; empty where nothing is printed.
    pub echo: String,
    /// The notice to log, if the offset that was asked for was clamped.
    pub notice: Option<String>,
    /// The listener ends after this line.
    pub terminate: bool,
}

/// True where `t` is one of two words, without regard to case.
pub open spec fn is_either(t: Seq<char>, a: Seq<char>, b: Seq<char>) -> bool {
    same_ignoring_case(t, a) || same_ignoring_case(t, b)
}

/// True where `t` is one of three words, without regard to case.
pub open spec fn is_any_of(t: Seq<char>, a: Seq<char>, b: Seq<char>, c: Seq<char>) -> bool {
    same_ignoring_case(t, a) || same_ignoring_case(t, b) || same_ignoring_case(t, c)
}

/// True for the two characters that part the words of a command.
pub open spec fn is_separator(c: char) -> bool {
    c == ' ' || c == ':'
}

/// The index of the first separator at or after `i`, or the length of
/// `t` where there is none.
pub open spec fn token_end(t: Seq<char>, i: int) -> int
    decreases t.len() - i,
{
    if 0 <= i < t.len() && !is_separator(t[i]) {
        token_end(t, i + 1)
    } else {
        i
    }
}

/// What stands behind `osc_original` and one separator, up to the next
/// separator, without the white space around it. A line that does not
/// begin so has no such selector.
pub open spec fn original_selector(t: Seq<char>) -> Option<Seq<char>> {
    let word = "osc_original"@;
    let n = word.len() as int;
    if t.len() > n && t.subrange(0, n) == word && is_separator(t[n]) {
        Some(trimmed(t.subrange(n + 1, token_end(t, n + 1))))
    } else {
        None
    }
}

/// The command that a trimmed line denotes.
pub open spec fn command_of_trimmed(t: Seq<char>) -> Command {
    if t.len() == 0 {
        Command::Exit
    } else if is_any_of(t, "exit"@, "quit"@, "q"@) {
        Command::Exit
    } else if is_either(t, "debug on"@, "debug enable"@) {
        Command::Debug(true)
    } else if is_either(t, "debug off"@, "debug disable"@) {
        Command::Debug(false)
    } else if is_either(t, "osc on"@, "osc enable"@) {
        Command::OscSending(true)
    } else if is_either(t, "osc off"@, "osc disable"@) {
        Command::OscSending(false)
    } else if is_any_of(t, "osc original"@, "osc input"@, "osc_original"@) {
        Command::OscSendOriginal(true)
    } else if is_any_of(t, "osc transposed"@, "osc output"@, "osc_transposed"@) {
        Command::OscSendOriginal(false)
    } else if original_selector(t) == Some("1"@) {
        Command::OscSendOriginal(true)
    } else if original_selector(t) == Some("0"@) {
        Command::OscSendOriginal(false)
    } else if is_either(t, "osc_original on"@, "osc_original enable"@) {
        Command::OscSendOriginal(true)
    } else if is_either(t, "osc_original off"@, "osc_original disable"@) {
        Command::OscSendOriginal(false)
    } else if is_either(t, "help"@, "h"@) {
        Command::Help
    } else if is_either(t, "mqtt on"@, "mqtt enable"@) {
        Command::Mqtt(true)
    } else if is_either(t, "mqtt off"@, "mqtt disable"@) {
        Command::Mqtt(false)
    } else {
        match parsed_i32(t) {
            Some(v) => Command::SetTranspose(v),
            None => Command::Unrecognized,
        }
    }
}

/// The command that a line denotes: white space around it does not count.
pub open spec fn command_of(line: Seq<char>) -> Command {
    command_of_trimmed(trimmed(line))
}

/// The shared state after a command.
pub open spec fn command_effect(s: StateView, c: Command) -> StateView {
    match c {
        Command::Exit => s.request_exit().set_mqtt_enabled(false),
        Command::Debug(on) => s.set_debug(on),
        Command::OscSending(on) => s.set_osc_sending_enabled(on),
        Command::OscSendOriginal(on) => s.set_osc_send_original(on),
        Command::Help => s,
        Command::Mqtt(on) => s.set_mqtt_enabled(on),
        Command::SetTranspose(v) => s.set_transpose(v as int),
        Command::Unrecognized => s,
    }
}

/// The notice that goes with a command in the state `s`: there is one
/// exactly where the command asks for an offset outside the bounds.
pub open spec fn command_notice(s: StateView, c: Command) -> Option<Seq<char>> {
    match c {
        Command::SetTranspose(v) => clamp_notice_of(s, v as int),
        _ => None,
    }
}

/// The list of commands, as `help` shows it.
pub open spec fn help_text() -> Seq<char> {
    "Commands:\n  <number>         - Set transpose in semitones\n  osc on/enable    - Enable OSC sending\n  osc off/disable  - Disable OSC sending\n  osc original     - Send original input MIDI via OSC\n  osc transposed   - Send transposed MIDI via OSC\n  mqtt on/off      - Enable/Disable MQTT listener\n  debug on/off     - Enable/Disable verbose debug prints\n  help/h           - Show this help\n  exit/quit/q      - Exit program"@
}

/// The confirmation for a command: `t` is the trimmed line, `stored` the
/// offset that the state holds after the command.
pub open spec fn echo_text(c: Command, t: Seq<char>, stored: int) -> Seq<char> {
    match c {
        Command::Exit => Seq::<char>::empty(),
        Command::Debug(on) => if on {
            "Debug enabled"@
        } else {
            "Debug disabled"@
        },
        Command::OscSending(on) => if on {
            "OSC sending enabled"@
        } else {
            "OSC sending disabled"@
        },
        Command::OscSendOriginal(on) => if on {
            "OSC sending original input MIDI"@
        } else {
            "OSC sending transposed MIDI"@
        },
        Command::Help => help_text(),
        Command::Mqtt(on) => if on {
            "MQTT enabled"@
        } else {
            "MQTT disabled (listener will stop on next reconnect/exit)"@
        },
        Command::SetTranspose(_) => "Transpose set to "@ + integer_text(stored),
        Command::Unrecognized => "Unrecognized command: '"@ + t
            + "'. Type 'help' for available commands."@,
    }
}

/// Tells whether `t` is one of two words, without regard to case.
fn either(t: &[char], a: &str, b: &str) -> (found: bool)
    ensures
        found == is_either(t@, a@, b@),
{
    eq_ignore_case(t, a) || eq_ignore_case(t, b)
}

/// Tells whether `t` is one of three words, without regard to case.
fn any_of(t: &[char], a: &str, b: &str, c: &str) -> (found: bool)
    ensures
        found == is_any_of(t@, a@, b@, c@),
{
    eq_ignore_case(t, a) || eq_ignore_case(t, b) || eq_ignore_case(t, c)
}

/// Tells whether the line has a selector behind `osc_original`, and
/// whether that selector is `value`.
fn selector_is(t: &[char], value: &str) -> (found: bool)
    ensures
        found == (original_selector(t@) == Some(value@)),
{
    let word: Vec<char> = chars_of("osc_original");
    let n: usize = word.len();
    if t.len() <= n {
        return false;
    }
    let mut k: usize = 0;
    while k < n
        invariant
            k <= n,
            n == word@.len(),
            word@ == "osc_original"@,
            n < t@.len(),
            forall|j: int| 0 <= j < k ==> t@[j] == word@[j],
        decreases n - k,
    {
        if t[k] != word[k] {
            assert(t@.subrange(0, n as int)[k as int] != word@[k as int]);
            return false;
        }
        k += 1;
    }
    assert(t@.subrange(0, n as int) =~= word@);
    if !(t[n] == ' ' || t[n] == ':') {
        return false;
    }
    let mut end: usize = n + 1;
    while end < t.len() && !(t[end] == ' ' || t[end] == ':')
        invariant
            n + 1 <= end <= t@.len(),
            token_end(t@, end as int) == token_end(t@, n + 1),
        decreases t@.len() - end,
    {
        end += 1;
    }
    let mut token: Vec<char> = Vec::new();
    let mut i: usize = n + 1;
    while i < end
        invariant
            n + 1 <= i <= end <= t@.len(),
            token@ == t@.subrange(n + 1, i as int),
        decreases end - i,
    {
        token.push(t[i]);
        i += 1;
        assert(token@ =~= t@.subrange(n + 1, i as int));
    }
    let selector: Vec<char> = trim_chars(token.as_slice());
    eq_exact(selector.as_slice(), value)
}

/// Reads the command of a line that was trimmed already.
pub fn parse_trimmed(t: &[char]) -> (command: Command)
    ensures
        command == command_of_trimmed(t@),
{
    if t.len() == 0 {
        Command::Exit
    } else if any_of(t, "exit", "quit", "q") {
        Command::Exit
    } else if either(t, "debug on", "debug enable") {
        Command::Debug(true)
    } else if either(t, "debug off", "debug disable") {
        Command::Debug(false)
    } else if either(t, "osc on", "osc enable") {
        Command::OscSending(true)
    } else if either(t, "osc off", "osc disable") {
        Command::OscSending(false)
    } else if any_of(t, "osc original", "osc input", "osc_original") {
        Command::OscSendOriginal(true)
    } else if any_of(t, "osc transposed", "osc output", "osc_transposed") {
        Command::OscSendOriginal(false)
    } else if selector_is(t, "1") {
        Command::OscSendOriginal(true)
    } else if selector_is(t, "0") {
        Command::OscSendOriginal(false)
    } else if either(t, "osc_original on", "osc_original enable") {
        Command::OscSendOriginal(true)
    } else if either(t, "osc_original off", "osc_original disable") {
        Command::OscSendOriginal(false)
    } else if either(t, "help", "h") {
        Command::Help
    } else if either(t, "mqtt on", "mqtt enable") {
        Command::Mqtt(true)
    } else if either(t, "mqtt off", "mqtt disable") {
        Command::Mqtt(false)
    } else {
        match parse_i32(t) {
            Some(v) => Command::SetTranspose(v),
            None => Command::Unrecognized,
        }
    }
}

/// Reads the command of one line of input.
pub fn parse_command(line: &str) -> (command: Command)
    ensures
        command == command_of(line@),
{
    let chars: Vec<char> = chars_of(line);
    let t: Vec<char> = trim_chars(chars.as_slice());
    parse_trimmed(t.as_slice())
}

/// Carries out a command on the shared state. A new offset goes through
/// the clamping setter.
pub fn apply_command(state: &mut SharedState, command: Command)
    ensures
        final(state)@ == command_effect(old(state)@, command),
{
    match command {
        Command::Exit => {
            state.request_exit();
            state.set_mqtt_enabled(false);
        },
        Command::Debug(on) => state.set_debug_enabled(on),
        Command::OscSending(on) => state.set_osc_sending_enabled(on),
        Command::OscSendOriginal(on) => state.set_osc_send_original(on),
        Command::Help => {},
        Command::Mqtt(on) => state.set_mqtt_enabled(on),
        Command::SetTranspose(v) => {
            let _ = set_transpose_semitones(state, v);
        },
        Command::Unrecognized => {},
    }
}

/// Appends the characters of `chars` to `out`.
pub fn push_chars(out: &mut String, chars: &[char])
    ensures
        final(out)@ == old(out)@ + chars@,
{
    let mut i: usize = 0;
    while i < chars.len()
        invariant
            i <= chars@.len(),
            out@ == old(out)@ + chars@.subrange(0, i as int),
        decreases chars@.len() - i,
    {
        out.push(chars[i]);
        i += 1;
        assert(out@ =~= old(out)@ + chars@.subrange(0, i as int));
    }
    assert(chars@.subrange(0, chars@.len() as int) =~= chars@);
}

/// The confirmation for a command: `t` is the trimmed line, `stored` the
/// offset that the state holds after the command.
pub fn echo_for(command: Command, t: &[char], stored: i32) -> (echo: String)
    ensures
        echo@ == echo_text(command, t@, stored as int),
{
    match command {
        Command::Exit => String::new(),
        Command::Debug(on) => if on {
            "Debug enabled".to_owned()
        } else {
            "Debug disabled".to_owned()
        },
        Command::OscSending(on) => if on {
            "OSC sending enabled".to_owned()
        } else {
            "OSC sending disabled".to_owned()
        },
        Command::OscSendOriginal(on) => if on {
            "OSC sending original input MIDI".to_owned()
        } else {
            "OSC sending transposed MIDI".to_owned()
        },
        Command::Help => "Commands:\n  <number>         - Set transpose in semitones\n  osc on/enable    - Enable OSC sending\n  osc off/disable  - Disable OSC sending\n  osc original     - Send original input MIDI via OSC\n  osc transposed   - Send transposed MIDI via OSC\n  mqtt on/off      - Enable/Disable MQTT listener\n  debug on/off     - Enable/Disable verbose debug prints\n  help/h           - Show this help\n  exit/quit/q      - Exit program".to_owned(),
        Command::Mqtt(on) => if on {
            "MQTT enabled".to_owned()
        } else {
            "MQTT disabled (listener will stop on next reconnect/exit)".to_owned()
        },
        Command::SetTranspose(_) => {
            let mut echo: String = "Transpose set to ".to_owned();
            push_integer(&mut echo, stored);
            echo
        },
        Command::Unrecognized => {
            let mut echo: String = "Unrecognized command: '".to_owned();
            push_chars(&mut echo, t);
            echo.push_str("'. Type 'help' for available commands.");
            echo
        },
    }
}

/// Handles one line of input: reads its command, carries it out and says
/// what to print and whether the listener ends.
pub fn handle_line(state: &mut SharedState, line: &str) -> (outcome: LineOutcome)
    ensures
        outcome.command == command_of(line@),
        final(state)@ == command_effect(old(state)@, command_of(line@)),
        outcome.echo@ == echo_text(command_of(line@), trimmed(line@), final(state)@.transpose),
        optional_text(outcome.notice) == command_notice(old(state)@, command_of(line@)),
        outcome.terminate == (command_of(line@) is Exit),
{
    let chars: Vec<char> = chars_of(line);
    let t: Vec<char> = trim_chars(chars.as_slice());
    let command: Command = parse_trimmed(t.as_slice());
    let notice: Option<String> = match command {
        Command::SetTranspose(v) => clamp_notice(state, v),
        _ => None,
    };
    apply_command(state, command);
    let echo: String = echo_for(command, t.as_slice(), state.get_transpose());
    let terminate: bool = match command {
        Command::Exit => true,
        _ => false,
    };
    LineOutcome { command, echo, notice, terminate }
}

/// A command carried out a second time changes nothing.
pub proof fn lemma_command_idempotent(s: StateView, c: Command)
    requires
        s.wf(),
    ensures
        command_effect(s, c).wf(),
        command_effect(command_effect(s, c), c) == command_effect(s, c),
{
}

/// A command that switches a flag, carried out twice, leaves the flag as
/// it was before wherever the flag already had the value that the command
/// gives it.
pub proof fn lemma_switch_twice_restores(s: StateView, c: Command)
    requires
        match c {
            Command::Debug(on) => s.debug == on,
            Command::OscSending(on) => s.osc_sending_enabled == on,
            Command::OscSendOriginal(on) => s.osc_send_original == on,
            Command::Mqtt(on) => s.mqtt_enabled == on,
            _ => false,
        },
    ensures
        command_effect(command_effect(s, c), c) == s,
{
}

/// Switching a flag on and then off, or off and then on, leaves it with
/// the value of the second command, whatever it was before.
pub proof fn lemma_switch_on_then_off(s: StateView, first: bool)
    ensures
        command_effect(
            command_effect(s, Command::OscSending(first)),
            Command::OscSending(!first),
        ).osc_sending_enabled == !first,
        command_effect(command_effect(s, Command::Debug(first)), Command::Debug(!first)).debug
            == !first,
        command_effect(
            command_effect(s, Command::OscSendOriginal(first)),
            Command::OscSendOriginal(!first),
        ).osc_send_original == !first,
        command_effect(
            command_effect(s, Command::Mqtt(first)),
            Command::Mqtt(!first),
        ).mqtt_enabled == !first,
{
}

} // verus!
