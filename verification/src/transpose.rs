//! The note transposer: shifts the pitch of note-on and note-off messages.

use vstd::prelude::*;

verus! {

/// Highest note number that a channel-voice message can carry.
pub const NOTE_MAX: u8 = 127;

/// `v` limited to the inclusive range `[lo, hi]`.
pub open spec fn clamp_int(v: int, lo: int, hi: int) -> int {
    if v < lo {
        lo
    } else if v > hi {
        hi
    } else {
        v
    }
}

/// The status nibble of a message: the high four bits of its first byte.
pub open spec fn status_nibble(status: u8) -> u8 {
    status & 0xF0
}

/// True for a note-on or note-off message that carries a note number.
pub open spec fn is_note_message(msg: Seq<u8>) -> bool {
    msg.len() >= 2 && (status_nibble(msg[0]) == 0x80 || status_nibble(msg[0]) == 0x90)
}

/// The note number `note` shifted by `semitones`, kept within `0..=127`.
pub open spec fn transposed_note(note: u8, semitones: int) -> u8 {
    clamp_int(note + semitones, 0, 127) as u8
}

/// The message that results from shifting `msg` by `semitones`: a note
/// message has its note number replaced, any other message is unchanged.
pub open spec fn transposed(msg: Seq<u8>, semitones: int) -> Seq<u8> {
    if is_note_message(msg) {
        msg.update(1, transposed_note(msg[1], semitones))
    } else {
        msg
    }
}

/// Limits a requested offset to the configured range.
pub fn clamp_transpose(value: i32, min: i8, max: i8) -> (clamped: i32)
    requires
        min <= max,
    ensures
        clamped == clamp_int(value as int, min as int, max as int),
        min <= clamped <= max,
        min <= value <= max ==> clamped == value,
{
    if value < min as i32 {
        min as i32
    } else if value > max as i32 {
        max as i32
    } else {
        value
    }
}

/// Shifts the note number of a note-on or note-off message in place.
/// Every other message, an empty one included, is left as it is.
pub fn apply_transpose(buf: &mut [u8], semitones: i32)
    ensures
        final(buf)@ == transposed(old(buf)@, semitones as int),
        final(buf)@.len() == old(buf)@.len(),
{
    if buf.len() < 2 {
        return ;
    }
    let status: u8 = buf[0] & 0xF0;
    if status == 0x80 || status == 0x90 {
        let shifted: i64 = buf[1] as i64 + semitones as i64;
        let note: u8 = if shifted < 0 {
            0
        } else if shifted > 127 {
            NOTE_MAX
        } else {
            shifted as u8
        };
        buf[1] = note;
    }
}

/// A transposed note message keeps its length, its status byte and every
/// byte after the note number; the note number becomes the shifted one,
/// limited to `0..=127`.
pub proof fn lemma_transpose_note_message(msg: Seq<u8>, semitones: int)
    requires
        is_note_message(msg),
    ensures
        transposed(msg, semitones).len() == msg.len(),
        transposed(msg, semitones)[1] == clamp_int(msg[1] + semitones, 0, 127),
        0 <= transposed(msg, semitones)[1] <= 127,
        forall|i: int| 0 <= i < msg.len() && i != 1 ==> transposed(msg, semitones)[i] == msg[i],
        is_note_message(transposed(msg, semitones)),
{
}

/// A message that is no note-on or note-off comes back unchanged.
pub proof fn lemma_transpose_other_message(msg: Seq<u8>, semitones: int)
    requires
        !is_note_message(msg),
    ensures
        transposed(msg, semitones) == msg,
{
}

/// With an offset of zero a note message with a valid note number is unchanged.
pub proof fn lemma_transpose_zero(msg: Seq<u8>)
    requires
        msg.len() >= 2 ==> msg[1] <= 127,
    ensures
        transposed(msg, 0) =~= msg,
{
}

} // verus!
