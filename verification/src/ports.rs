//! Choosing the MIDI ports by name.

use vstd::prelude::*;
use crate::text::{
    all_digits, chars_of, digits_value, eq_exact, trim_chars, trimmed,
};

verus! {

/// How a port was chosen.
#[derive(Debug, Clone, Copy, PartialEq, Eq, Structural)]
pub enum PortChoice {
    /// The first port whose name matches, by its index.
    Matched(usize),
    /// No name matches, and there is one port only: that one, at index 0.
    Only,
    /// No name matches among several ports: the user is to be asked.
    Ask,
}

/// Why no port could be chosen.
#[derive(Debug, Clone, Copy, PartialEq, Eq, Structural)]
pub enum PortError {
    /// There is no port at all.
    NoPorts,
    /// The answer is no number.
    InvalidNumber,
    /// The answer names no port.
    InvalidPort,
}

/// True where `pattern` stands in `text` at index `i`.
pub open spec fn occurs_at(text: Seq<char>, pattern: Seq<char>, i: int) -> bool {
    0 <= i && i + pattern.len() <= text.len() && text.subrange(i, i + pattern.len()) == pattern
}

/// True where `pattern` stands somewhere in `text`.
pub open spec fn contains_text(text: Seq<char>, pattern: Seq<char>) -> bool {
    exists|i: int| occurs_at(text, pattern, i)
}

/// True where the port at `i` can be chosen by name: its name is known,
/// holds `pattern`, and is not the name to avoid.
pub open spec fn port_matches(
    names: Seq<Option<String>>,
    pattern: Seq<char>,
    avoid: Option<Seq<char>>,
    i: int,
) -> bool {
    0 <= i < names.len() && match names[i] {
        Some(name) => contains_text(name@, pattern) && avoid != Some(name@),
        None => false,
    }
}

/// The choice among ports with the given names.
pub open spec fn port_choice(
    names: Seq<Option<String>>,
    pattern: Seq<char>,
    avoid: Option<Seq<char>>,
    choice: Result<PortChoice, PortError>,
) -> bool {
    if names.len() == 0 {
        choice == Err::<PortChoice, PortError>(PortError::NoPorts)
    } else if exists|i: int| port_matches(names, pattern, avoid, i) {
        match choice {
            Ok(PortChoice::Matched(index)) => {
                &&& port_matches(names, pattern, avoid, index as int)
                &&& forall|j: int| 0 <= j < index ==> !port_matches(names, pattern, avoid, j)
            },
            _ => false,
        }
    } else if names.len() == 1 {
        choice == Ok::<PortChoice, PortError>(PortChoice::Only)
    } else {
        choice == Ok::<PortChoice, PortError>(PortChoice::Ask)
    }
}

/// The digits of an answer: what is left of it without the white space
/// around it and without a `+` before it.
pub open spec fn answer_digits(answer: Seq<char>) -> Seq<char> {
    let t = trimmed(answer);
    if t.len() > 0 && t[0] == '+' {
        t.subrange(1, t.len() as int)
    } else {
        t
    }
}

/// The index that an answer names: a decimal number, with an optional
/// `+` before it and white space around it.
pub open spec fn answer_value(answer: Seq<char>) -> Option<int> {
    let body = answer_digits(answer);
    if body.len() == 0 || !all_digits(body) {
        None
    } else {
        Some(digits_value(body))
    }
}

/// The port that an answer selects among `count` ports.
pub open spec fn selected_port(answer: Seq<char>, count: int) -> Result<usize, PortError> {
    match answer_value(answer) {
        None => Err(PortError::InvalidNumber),
        Some(v) => if v > usize::MAX {
            Err(PortError::InvalidNumber)
        } else if v >= count {
            Err(PortError::InvalidPort)
        } else {
            Ok(v as usize)
        },
    }
}

/// Tells whether `pattern` stands in `text` at index `i`.
fn occurs_here(text: &[char], pattern: &[char], i: usize) -> (found: bool)
    requires
        i + pattern@.len() <= text@.len(),
    ensures
        found == occurs_at(text@, pattern@, i as int),
{
    let n: usize = text.len();
    let mut k: usize = 0;
    while k < pattern.len()
        invariant
            n == text@.len(),
            k <= pattern@.len(),
            i + pattern@.len() <= text@.len(),
            forall|j: int| 0 <= j < k ==> text@[i + j] == pattern@[j],
        decreases pattern@.len() - k,
    {
        if text[i + k] != pattern[k] {
            assert(text@.subrange(i as int, i + pattern@.len())[k as int] != pattern@[k as int]);
            return false;
        }
        k += 1;
    }
    assert(text@.subrange(i as int, i + pattern@.len()) =~= pattern@);
    true
}

/// Tells whether `pattern` stands somewhere in `text`.
pub fn text_contains(text: &[char], pattern: &[char]) -> (found: bool)
    ensures
        found == contains_text(text@, pattern@),
{
    if pattern.len() > text.len() {
        return false;
    }
    let last: usize = text.len() - pattern.len();
    let mut i: usize = 0;
    while i < last
        invariant
            i <= last,
            last == text@.len() - pattern@.len(),
            forall|j: int| 0 <= j < i ==> !occurs_at(text@, pattern@, j),
        decreases last - i,
    {
        if occurs_here(text, pattern, i) {
            return true;
        }
        i += 1;
    }
    occurs_here(text, pattern, last)
}

/// Tells whether the port with this name can be chosen by name.
fn name_matches(name: &Option<String>, pattern: &[char], avoid: &Option<&str>) -> (found: bool)
    ensures
        found == match *name {
            Some(n) => contains_text(n@, pattern@) && match *avoid {
                Some(a) => a@ != n@,
                None => true,
            },
            None => false,
        },
{
    match name {
        Some(n) => {
            let chars: Vec<char> = chars_of(n.as_str());
            if !text_contains(chars.as_slice(), pattern) {
                return false;
            }
            match avoid {
                Some(a) => !eq_exact(chars.as_slice(), a),
                None => true,
            }
        },
        None => false,
    }
}

/// The text of `avoid`, if there is one.
pub open spec fn avoided(avoid: Option<&str>) -> Option<Seq<char>> {
    match avoid {
        Some(a) => Some(a@),
        None => None,
    }
}

/// Chooses among ports by name: the first whose name holds `pattern` and
/// is not the name to avoid; failing that the only port there is;
/// failing that, the user is to be asked. A port whose name could not be
/// read matches nothing.
pub fn choose_port(names: &Vec<Option<String>>, pattern: &str, avoid: Option<&str>) -> (choice:
    Result<PortChoice, PortError>)
    ensures
        port_choice(names@, pattern@, avoided(avoid), choice),
{
    if names.len() == 0 {
        return Err(PortError::NoPorts);
    }
    let wanted: Vec<char> = chars_of(pattern);
    let mut i: usize = 0;
    while i < names.len()
        invariant
            i <= names@.len(),
            wanted@ == pattern@,
            forall|j: int| 0 <= j < i ==> !port_matches(names@, pattern@, avoided(avoid), j),
        decreases names@.len() - i,
    {
        if name_matches(&names[i], wanted.as_slice(), &avoid) {
            assert(port_matches(names@, pattern@, avoided(avoid), i as int));
            return Ok(PortChoice::Matched(i));
        }
        i += 1;
    }
    if names.len() == 1 {
        Ok(PortChoice::Only)
    } else {
        Ok(PortChoice::Ask)
    }
}

/// Chooses the input port: the first whose name holds the substring.
pub fn choose_input_port(names: &Vec<Option<String>>, input_port_name_substr: &str) -> (choice:
    Result<PortChoice, PortError>)
    ensures
        port_choice(names@, input_port_name_substr@, None, choice),
{
    choose_port(names, input_port_name_substr, None)
}

/// Chooses the output port: the first whose name holds the substring and
/// is not the name of the input port.
pub fn choose_output_port(
    names: &Vec<Option<String>>,
    output_port_name_substr: &str,
    in_port_name: &str,
) -> (choice: Result<PortChoice, PortError>)
    ensures
        port_choice(names@, output_port_name_substr@, Some(in_port_name@), choice),
{
    choose_port(names, output_port_name_substr, Some(in_port_name))
}

/// Reads the user's answer to the question which of `count` ports to use.
pub fn select_port(answer: &str, count: usize) -> (selected: Result<usize, PortError>)
    ensures
        selected == selected_port(answer@, count as int),
{
    let chars: Vec<char> = chars_of(answer);
    let t: Vec<char> = trim_chars(chars.as_slice());
    let n: usize = t.len();
    let first: usize = if n > 0 && t[0] == '+' {
        1
    } else {
        0
    };
    if first == n {
        return Err(PortError::InvalidNumber);
    }
    let ghost body = t@.subrange(first as int, n as int);
    assert(body =~= answer_digits(answer@));
    let mut acc: usize = 0;
    let mut too_large: bool = false;
    let mut i: usize = first;
    while i < n
        invariant
            first <= i <= n,
            n == t@.len(),
            body == t@.subrange(first as int, n as int),
            body == answer_digits(answer@),
            all_digits(body.subrange(0, i - first)),
            !too_large ==> acc == digits_value(body.subrange(0, i - first)),
            too_large ==> digits_value(body.subrange(0, i - first)) > usize::MAX,
        decreases n - i,
    {
        let c: char = t[i];
        if !('0' <= c && c <= '9') {
            assert(!crate::text::is_digit(body[i - first]));
            return Err(PortError::InvalidNumber);
        }
        let d: usize = (c as u32 - 48) as usize;
        proof {
            let longer = body.subrange(0, i - first + 1);
            assert(longer.drop_last() =~= body.subrange(0, i - first));
            assert(longer.last() == c);
            assert forall|k: int| 0 <= k < longer.len() implies crate::text::is_digit(
                #[trigger] longer[k],
            ) by {
                if k < i - first {
                    assert(longer[k] == body.subrange(0, i - first)[k]);
                }
            }
        }
        if !too_large {
            match acc.checked_mul(10) {
                Some(tens) => match tens.checked_add(d) {
                    Some(next) => {
                        acc = next;
                    },
                    None => {
                        too_large = true;
                    },
                },
                None => {
                    too_large = true;
                },
            }
        }
        i += 1;
    }
    proof {
        assert(body.subrange(0, n - first) =~= body);
    }
    if too_large {
        Err(PortError::InvalidNumber)
    } else if acc >= count {
        Err(PortError::InvalidPort)
    } else {
        Ok(acc)
    }
}

} // verus!
