//! The error register: a single slot that holds the most recent failure.
//!
//! A function that fails returns an "obviously invalid" value and stages the
//! failure here; the caller then asks for the length of the message, brings
//! a buffer of at least that many units, and has the message copied into it.
//! Each thread keeps a register of its own, so a register is only ever
//! reached through a plain reference.

use crate::failure::{Failure, FailureView};
use crate::nullable::{NullPointer, Nullable};
use crate::utf16::{decode_utf16, encode_utf16, lemma_decode_encode_utf16, to_utf16};
use vstd::prelude::*;
use vstd::string::StrSliceExecFns;
use vstd::utf8::{decode_utf8, encode_utf8, encode_utf8_decode_utf8};

verus! {

/// The most recent failure, if one is pending.
#[derive(Debug)]
pub struct LastError {
    slot: Option<Failure>,
}

impl View for LastError {
    type V = Option<Failure>;

    /// The pending failure.
    closed spec fn view(&self) -> Option<Failure> {
        self.slot
    }
}

impl LastError {
    /// A register with nothing pending.
    pub fn new() -> (reg: LastError)
        ensures
            reg@ is None,
    {
        LastError { slot: None }
    }
}

/// The display text of the pending failure.
pub open spec fn message_of(slot: Option<Failure>) -> Option<Seq<char>> {
    match slot {
        Some(f) => Some(f@.text()),
        None => None,
    }
}

/// The pending message as UTF-8 code units.
pub open spec fn utf8_units(slot: Option<Failure>) -> Option<Seq<u8>> {
    match slot {
        Some(f) => Some(encode_utf8(f@.text())),
        None => None,
    }
}

/// The pending message as UTF-16 code units.
pub open spec fn utf16_units(slot: Option<Failure>) -> Option<Seq<u16>> {
    match slot {
        Some(f) => Some(encode_utf16(f@.text())),
        None => None,
    }
}

/// The number of units that a buffer needs for a message and its
/// terminator; `0` where there is no message.
pub open spec fn required_len<B>(units: Option<Seq<B>>) -> int {
    match units {
        Some(u) => u.len() as int + 1,
        None => 0,
    }
}

/// The largest count that the 32-bit result of a boundary function can
/// report.
pub const MAX_COUNT: usize = 2147483647;

/// A length as it is reported in a 32-bit result: itself, or the largest
/// count that the result can hold where the length is beyond it.
pub open spec fn reported_len(n: int) -> int {
    if n <= MAX_COUNT {
        n
    } else {
        MAX_COUNT as int
    }
}

/// The units held by a transcoded message, where there is one.
pub open spec fn units_of<B>(units: Option<Vec<B>>) -> Option<Seq<B>> {
    match units {
        Some(u) => Some(u@),
        None => None,
    }
}

/// What copying a message does: the count it reports and the buffer it
/// leaves. A buffer too short for the message and its terminator is left
/// as it was and `-1` is reported; so is any buffer where the count is
/// beyond what a 32-bit result can report.
pub open spec fn copied<B>(units: Option<Seq<B>>, null: B, buffer: Seq<B>) -> (int, Seq<B>) {
    match units {
        None => (0, buffer),
        Some(u) => if u.len() + 1 > buffer.len() || u.len() + 1 > MAX_COUNT {
            (-1, buffer)
        } else {
            (u.len() as int + 1, u.push(null) + buffer.skip(u.len() as int + 1))
        },
    }
}

/// Clear the register.
pub fn clear_last_error(reg: &mut LastError)
    ensures
        final(reg)@ is None,
{
    reg.slot = None;
}

/// Take the most recent failure, clearing the register in the process.
pub fn take_last_error(reg: &mut LastError) -> (taken: Option<Failure>)
    ensures
        taken == old(reg)@,
        final(reg)@ is None,
{
    reg.slot.take()
}

/// Stage `err` as the pending failure, discarding any previous one.
pub fn update_last_error(reg: &mut LastError, err: Failure)
    ensures
        final(reg)@ == Some(err),
{
    reg.slot = Some(err);
}

/// Peek at the most recent failure and get its message.
pub fn error_message(reg: &LastError) -> (message: Option<String>)
    ensures
        match message {
            Some(m) => message_of(reg@) == Some(m@),
            None => message_of(reg@) is None,
        },
{
    match &reg.slot {
        Some(e) => Some(e.message()),
        None => None,
    }
}

/// The length of the pending message in bytes when encoded as UTF-8,
/// including the trailing null; `0` where nothing is pending.
///
/// A length beyond `i32::MAX` is reported as `i32::MAX`.
pub fn last_error_length(reg: &LastError) -> (n: i32)
    ensures
        n == reported_len(required_len(utf8_units(reg@))),
{
    match error_message(reg) {
        Some(m) => count_with_terminator(m.as_str().as_bytes().len()),
        None => 0,
    }
}

/// The length of the pending message in 16-bit units when encoded as
/// UTF-16, including the trailing null; `0` where nothing is pending.
///
/// A length beyond `i32::MAX` is reported as `i32::MAX`.
pub fn last_error_length_utf16(reg: &LastError) -> (n: i32)
    ensures
        n == reported_len(required_len(utf16_units(reg@))),
{
    match error_message(reg) {
        Some(m) => count_with_terminator(to_utf16(m.as_str()).len()),
        None => 0,
    }
}

/// `len + 1` as it is reported.
fn count_with_terminator(len: usize) -> (n: i32)
    ensures
        n == reported_len(len + 1),
{
    if len >= MAX_COUNT {
        i32::MAX
    } else {
        (len + 1) as i32
    }
}

/// Write the pending message into `buffer` as a null-terminated UTF-8
/// string.
///
/// Returns the number of bytes written, terminator included; `0` where
/// nothing is pending; `-1` where the buffer is too short or the number
/// is beyond `i32::MAX`, and the buffer is then left untouched.
pub fn error_message_utf8(reg: &LastError, buffer: &mut [u8]) -> (n: i32)
    ensures
        n == copied(utf8_units(reg@), 0u8, old(buffer)@).0,
        final(buffer)@ == copied(utf8_units(reg@), 0u8, old(buffer)@).1,
{
    let units: Option<Vec<u8>> = match error_message(reg) {
        Some(m) => Some(m.as_str().as_bytes_vec()),
        None => None,
    };
    proof {
        <u8 as Nullable>::null_is_null();
    }
    copy_error_into_buffer(buffer, units)
}

/// Write the pending message into `buffer` as a null-terminated UTF-16
/// string.
///
/// Returns the number of 16-bit units written, terminator included; `0`
/// where nothing is pending; `-1` where the buffer is too short or the
/// number is beyond `i32::MAX`, and the buffer is then left untouched.
pub fn error_message_utf16(reg: &LastError, buffer: &mut [u16]) -> (n: i32)
    ensures
        n == copied(utf16_units(reg@), 0u16, old(buffer)@).0,
        final(buffer)@ == copied(utf16_units(reg@), 0u16, old(buffer)@).1,
{
    let units: Option<Vec<u16>> = match error_message(reg) {
        Some(m) => Some(to_utf16(m.as_str())),
        None => None,
    };
    proof {
        <u16 as Nullable>::null_is_null();
    }
    copy_error_into_buffer(buffer, units)
}

/// Write `units` and a terminator into the front of `buffer`, and report
/// how many units were written; `0` where there are no units to write;
/// `-1`, with the buffer untouched, where the buffer is too short or the
/// number is beyond `i32::MAX`.
pub fn copy_error_into_buffer<B: Copy + Nullable>(buffer: &mut [B], units: Option<Vec<B>>) -> (n:
    i32)
    ensures
        n == copied(units_of(units), B::NULL, old(buffer)@).0,
        final(buffer)@ == copied(units_of(units), B::NULL, old(buffer)@).1,
{
    let err_msg = match units {
        Some(msg) => msg,
        None => {
            return 0;
        },
    };
    if err_msg.len() >= buffer.len() || err_msg.len() >= MAX_COUNT {
        // buffer isn't big enough, or the count would not fit the result
        return -1;
    }
    let mut i: usize = 0;
    while i < err_msg.len()
        invariant
            i <= err_msg.len() < buffer.len(),
            buffer@.len() == old(buffer)@.len(),
            forall|j: int| 0 <= j < i ==> buffer@[j] == err_msg@[j],
            forall|j: int| i <= j < buffer@.len() ==> buffer@[j] == old(buffer)@[j],
        decreases err_msg.len() - i,
    {
        buffer[i] = err_msg[i];
        i += 1;
    }
    // A trailing null, for callers that read the buffer as a bare string.
    buffer[err_msg.len()] = B::NULL;
    proof {
        assert(buffer@ =~= err_msg@.push(B::NULL) + old(buffer)@.skip(err_msg@.len() as int + 1));
    }
    (err_msg.len() + 1) as i32
}

/// Once a failure has been staged, its display text is the message that
/// the register shows, whatever was pending before.
pub proof fn law_staged_message_is_shown(f: Failure)
    ensures
        message_of(Some(f)) == Some(f@.text()),
{
}

/// A register that has been emptied shows no message and asks for no
/// buffer.
pub proof fn law_empty_register_shows_nothing()
    ensures
        message_of(None) is None,
        required_len(utf8_units(None)) == 0,
        required_len(utf16_units(None)) == 0,
{
}

/// The length reported for a register is the length of the message in
/// units and one more for the terminator; with nothing pending it is `0`.
/// This holds of every message whose length a 32-bit result can report.
pub proof fn law_length_counts_message_and_terminator(slot: Option<Failure>)
    ensures
        required_len(utf8_units(slot)) <= MAX_COUNT ==> reported_len(
            required_len(utf8_units(slot)),
        ) == match message_of(slot) {
            Some(m) => encode_utf8(m).len() + 1,
            None => 0,
        },
        required_len(utf16_units(slot)) <= MAX_COUNT ==> reported_len(
            required_len(utf16_units(slot)),
        ) == match message_of(slot) {
            Some(m) => encode_utf16(m).len() + 1,
            None => 0,
        },
{
}

/// A buffer of exactly the length asked for takes the whole message: the
/// copy reports that length, ends in the terminator, and what stands
/// before the terminator decodes back to the message. This holds of every
/// length that a 32-bit result can report.
pub proof fn law_copy_round_trip_utf8(f: Failure, buffer: Seq<u8>)
    requires
        buffer.len() == required_len(utf8_units(Some(f))),
        buffer.len() <= MAX_COUNT,
    ensures
        copied(utf8_units(Some(f)), 0u8, buffer).0 == buffer.len(),
        copied(utf8_units(Some(f)), 0u8, buffer).1.len() == buffer.len(),
        copied(utf8_units(Some(f)), 0u8, buffer).1.last() == 0u8,
        decode_utf8(copied(utf8_units(Some(f)), 0u8, buffer).1.drop_last()) == f@.text(),
{
    let units = encode_utf8(f@.text());
    let written = copied(utf8_units(Some(f)), 0u8, buffer).1;
    assert(written =~= units.push(0u8));
    assert(written.drop_last() =~= units);
    encode_utf8_decode_utf8(f@.text());
}

/// The same for 16-bit units.
pub proof fn law_copy_round_trip_utf16(f: Failure, buffer: Seq<u16>)
    requires
        buffer.len() == required_len(utf16_units(Some(f))),
        buffer.len() <= MAX_COUNT,
    ensures
        copied(utf16_units(Some(f)), 0u16, buffer).0 == buffer.len(),
        copied(utf16_units(Some(f)), 0u16, buffer).1.len() == buffer.len(),
        copied(utf16_units(Some(f)), 0u16, buffer).1.last() == 0u16,
        decode_utf16(copied(utf16_units(Some(f)), 0u16, buffer).1.drop_last()) == f@.text(),
{
    let units = encode_utf16(f@.text());
    let written = copied(utf16_units(Some(f)), 0u16, buffer).1;
    assert(written =~= units.push(0u16));
    assert(written.drop_last() =~= units);
    lemma_decode_encode_utf16(f@.text());
}

/// A buffer shorter than the length asked for, by one unit or by more,
/// makes the copy report `-1` and is left exactly as it was.
pub proof fn law_short_buffer_is_left_untouched<B>(units: Seq<B>, null: B, buffer: Seq<B>)
    requires
        buffer.len() < required_len(Some(units)),
    ensures
        copied(Some(units), null, buffer) == (-1int, buffer),
{
}

/// Whatever the copy reports, it has written no unit beyond that count,
/// and where it has written anything, the last unit written is the
/// terminator.
pub proof fn law_copy_writes_no_further<B>(units: Option<Seq<B>>, null: B, buffer: Seq<B>)
    ensures
        ({
            let (n, written) = copied(units, null, buffer);
            &&& written.len() == buffer.len()
            &&& forall|i: int| n <= i < buffer.len() && 0 <= i ==> written[i] == buffer[i]
            &&& n > 0 ==> written[n - 1] == null
        }),
{
}

/// Stage a [`NullPointer`] failure where `value` is the sentinel of its
/// type, and tell whether it was.
pub fn null_pointer_check<N: Nullable>(reg: &mut LastError, value: &N) -> (null: bool)
    ensures
        null == value.is_null_value(),
        null ==> final(reg)@ == Some(Failure::NullPointer),
        !null ==> final(reg)@ == old(reg)@,
{
    if value.is_null() {
        update_last_error(reg, Failure::from(NullPointer));
        true
    } else {
        false
    }
}

} // verus!
