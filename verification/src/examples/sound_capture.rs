//! Sound capture: record from the default device, then play the recording
//! or save it to a file.
//!
//! The program prompts on standard output and reads lines from standard
//! input. Here is what it makes of the lines it reads and of the playback
//! status it polls.

use crate::audio::sound_status::Status;
use vstd::prelude::*;

verus! {

/// The character that may stand before the digits of a number.
pub const PLUS: u8 = 0x2b;

/// The first of the ten digits, `0`.
pub const ZERO: u8 = 0x30;

/// The last of the ten digits, `9`.
pub const NINE: u8 = 0x39;

/// The answer that asks for the recording to be saved, `s`.
pub const SAVE: u8 = 0x73;

/// The time to wait between two polls of the playback status, in milliseconds.
pub const POLL_INTERVAL: i32 = 100;

/// Whether a byte is one of the ten digits.
pub open spec fn is_digit(byte: u8) -> bool {
    ZERO <= byte <= NINE
}

/// Whether every byte of a text is a digit.
pub open spec fn all_digits(text: Seq<u8>) -> bool {
    forall|i: int| 0 <= i < text.len() ==> is_digit(#[trigger] text[i])
}

/// The number that a run of digits is the decimal notation of.
pub open spec fn decimal(digits: Seq<u8>) -> nat
    decreases digits.len(),
{
    if digits.len() == 0 {
        0
    } else {
        10 * decimal(digits.drop_last()) + (digits.last() - ZERO) as nat
    }
}

/// The digits of a text that is to be read as a number: the text itself,
/// without the plus sign that may stand before it.
pub open spec fn unsigned(text: Seq<u8>) -> Seq<u8> {
    if text.len() > 0 && text[0] == PLUS {
        text.subrange(1, text.len() as int)
    } else {
        text
    }
}

/// The number that a text is the decimal notation of: one digit or more,
/// with or without a plus sign before them, and nothing else.
pub open spec fn number(text: Seq<u8>) -> Option<nat> {
    if unsigned(text).len() > 0 && all_digits(unsigned(text)) {
        Some(decimal(unsigned(text)))
    } else {
        None
    }
}

/// A line as it was read, without the byte that ends it.
pub open spec fn without_end(line: Seq<u8>) -> Seq<u8> {
    if line.len() > 0 {
        line.drop_last()
    } else {
        line
    }
}

/// The sample rate that a line asks for: the number that the line holds
/// before its end, if there is one and the machine can count that far.
pub open spec fn sample_rate(line: Seq<u8>) -> Option<usize> {
    match number(without_end(line)) {
        Some(rate) => if rate <= usize::MAX {
            Some(rate as usize)
        } else {
            None
        },
        None => None,
    }
}

/// A run of digits stands for a number that is no smaller than the one that
/// any of its beginnings stands for.
proof fn decimal_of_a_beginning(digits: Seq<u8>, length: int)
    requires
        0 <= length <= digits.len(),
    ensures
        decimal(digits.take(length)) <= decimal(digits),
    decreases digits.len(),
{
    if length < digits.len() {
        decimal_of_a_beginning(digits.drop_last(), length);
        assert(digits.drop_last().take(length) =~= digits.take(length));
    } else {
        assert(digits.take(length) =~= digits);
    }
}

/// Reads the sample rate from the line that the user typed.
///
/// The last byte of the line is taken to be its end and is left out. What
/// stands before it has to be a number: `None` is returned for anything
/// else, and for a number too large for the machine.
pub fn parse_sample_rate(line: &[u8]) -> (rate: Option<usize>)
    ensures
        rate == sample_rate(line@),
{
    let length: usize = line.len();
    if length == 0 {
        return None;
    }
    let end: usize = length - 1;
    let mut start: usize = 0;
    if end > 0 && line[0] == PLUS {
        start = 1;
    }
    let ghost digits = line@.subrange(start as int, end as int);
    assert(unsigned(without_end(line@)) =~= digits);
    if start == end {
        return None;
    }
    let mut value: usize = 0;
    let mut i: usize = start;
    while i < end
        invariant
            start <= i <= end,
            end < line@.len(),
            digits == line@.subrange(start as int, end as int),
            digits == unsigned(without_end(line@)),
            all_digits(digits.take(i - start)),
            value == decimal(digits.take(i - start)),
        decreases end - i,
    {
        let byte: u8 = line[i];
        assert(byte == digits[i - start]);
        if byte < ZERO || byte > NINE {
            assert(!is_digit(digits[i - start]));
            return None;
        }
        let ghost longer = digits.take(i - start + 1);
        assert(longer.drop_last() =~= digits.take(i - start));
        assert(longer.last() == byte);
        assert(decimal(longer) == 10 * value + (byte - ZERO));
        let digit: usize = (byte - ZERO) as usize;
        let grown: Option<usize> = match value.checked_mul(10) {
            Some(tens) => tens.checked_add(digit),
            None => None,
        };
        match grown {
            Some(sum) => {
                value = sum;
            },
            None => {
                proof {
                    decimal_of_a_beginning(digits, i - start + 1);
                }
                return None;
            },
        }
        i = i + 1;
    }
    assert(digits.take(i - start) =~= digits);
    Some(value)
}

/// What to do with the recording.
#[derive(Clone, Copy, Debug, PartialEq, Eq, Structural)]
pub enum Choice {
    /// Play it.
    Play,
    /// Save it to a file.
    Save,
}

/// What an answer asks to be done with the recording: to save it if the
/// answer ends in `s`, and to play it otherwise.
pub open spec fn choice(answer: Seq<u8>) -> Choice {
    if answer.last() == SAVE {
        Choice::Save
    } else {
        Choice::Play
    }
}

/// Reads from the user's answer what to do with the recording.
///
/// An answer has a last byte: there is nothing to read from an empty one.
pub fn read_choice(answer: &[u8]) -> (chosen: Choice)
    requires
        answer@.len() > 0,
    ensures
        chosen == choice(answer@),
{
    if answer[answer.len() - 1] == SAVE {
        Choice::Save
    } else {
        Choice::Play
    }
}

/// What to do after a poll of the playback status.
#[derive(Clone, Copy, Debug, PartialEq, Eq, Structural)]
pub enum Polling {
    /// Show the playing position, wait for so many milliseconds to leave
    /// time to other processes, and poll again.
    Wait { milliseconds: i32 },
    /// Stop polling: the sound is not playing any more.
    Finished,
}

/// Decides from the playback status whether to go on polling: for as long
/// as the sound is playing, and no longer.
pub fn poll(status: Status) -> (next: Polling)
    ensures
        status == Status::Playing ==> next == (Polling::Wait { milliseconds: POLL_INTERVAL }),
        status != Status::Playing ==> next == Polling::Finished,
{
    match status {
        Status::Playing => Polling::Wait { milliseconds: POLL_INTERVAL },
        _ => Polling::Finished,
    }
}

} // verus!
