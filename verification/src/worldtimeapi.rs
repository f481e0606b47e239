//! Reading the answer of a network time source that replies with plain
//! text, one `name: value` pair per line.
//!
//! Two lines count: `unixtime: ` followed by the seconds since the Unix
//! epoch, and `raw_offset: ` followed by the offset of local time in
//! seconds. Where a line occurs more than once the last one counts.

use crate::clock::NetworkTime;
use vstd::prelude::*;

verus! {

/// Why an answer gave no time.
#[derive(Clone, Copy, Debug, PartialEq, Eq, Structural)]
pub enum Error {
    /// The time does not exist in the offset given with it.
    InvalidInOffset,
    /// The answer lacks the time or the offset.
    Unknown,
    /// The time or the offset is out of range.
    TimeComponentRange,
    /// The request failed.
    Http,
    /// A number could not be read.
    ParseInt,
    /// The answer is not valid UTF-8.
    Utf8,
}

/// The largest offset from UTC, in seconds, to either side: 25:59:59.
pub const MAX_UTC_OFFSET_SECONDS: i32 = 93_599;

/// The last second of the year 9999, in seconds since the Unix epoch.
pub const MAX_UNIX_TIMESTAMP: i64 = 253_402_300_799;

/// `time::error::ComponentRange`, the error of a value out of range.
#[verifier::external_type_specification]
#[verifier::external_body]
pub struct ExComponentRange(time::error::ComponentRange);

/// `time::UtcOffset::from_whole_seconds`: accepts the offsets of at most
/// 25:59:59 to either side and refuses all others.
#[verifier::external_body]
fn checked_utc_offset(seconds: i32) -> (checked: Result<(), time::error::ComponentRange>)
    ensures
        checked.is_ok() == (-MAX_UTC_OFFSET_SECONDS <= seconds <= MAX_UTC_OFFSET_SECONDS),
{
    match time::UtcOffset::from_whole_seconds(seconds) {
        Ok(_) => Ok(()),
        Err(error) => Err(error),
    }
}

/// `time::OffsetDateTime::from_unix_timestamp`: of the times since the Unix
/// epoch it accepts those up to the last second of the year 9999 and refuses
/// all later ones.
#[verifier::external_body]
fn checked_unix_timestamp(timestamp: i64) -> (checked: Result<(), time::error::ComponentRange>)
    requires
        timestamp >= 0,
    ensures
        checked.is_ok() == (timestamp <= MAX_UNIX_TIMESTAMP),
{
    match time::OffsetDateTime::from_unix_timestamp(timestamp) {
        Ok(_) => Ok(()),
        Err(error) => Err(error),
    }
}

/// `time::OffsetDateTime::checked_to_offset`: for a time since the Unix
/// epoch and an offset that were both accepted, tells whether the local
/// date and time exist, which they do unless they lie after the year 9999.
#[verifier::external_body]
fn exists_in_offset(timestamp: i64, offset_seconds: i32) -> (exists: bool)
    requires
        0 <= timestamp <= MAX_UNIX_TIMESTAMP,
        -MAX_UTC_OFFSET_SECONDS <= offset_seconds <= MAX_UTC_OFFSET_SECONDS,
    ensures
        exists == (timestamp + offset_seconds <= MAX_UNIX_TIMESTAMP),
{
    match (
        time::OffsetDateTime::from_unix_timestamp(timestamp),
        time::UtcOffset::from_whole_seconds(offset_seconds),
    ) {
        (Ok(utc), Ok(offset)) => utc.checked_to_offset(offset).is_some(),
        _ => false,
    }
}

/// `core::str::from_utf8`: succeeds exactly on the byte sequences that are
/// valid UTF-8.
#[verifier::external_body]
fn is_utf8(bytes: &[u8]) -> (valid: bool)
    ensures
        valid == vstd::utf8::valid_utf8(bytes@),
{
    core::str::from_utf8(bytes).is_ok()
}

/// The bytes of `unixtime: `.
pub open spec fn unixtime_prefix() -> Seq<u8> {
    seq![117u8, 110u8, 105u8, 120u8, 116u8, 105u8, 109u8, 101u8, 58u8, 32u8]
}

/// The bytes of `raw_offset: `.
pub open spec fn raw_offset_prefix() -> Seq<u8> {
    seq![114u8, 97u8, 119u8, 95u8, 111u8, 102u8, 102u8, 115u8, 101u8, 116u8, 58u8, 32u8]
}

/// Whether `line` begins with `prefix`.
pub open spec fn has_prefix(line: Seq<u8>, prefix: Seq<u8>) -> bool {
    line.len() >= prefix.len() && line.subrange(0, prefix.len() as int) == prefix
}

/// Whether a byte is a decimal digit.
pub open spec fn is_digit(byte: u8) -> bool {
    48 <= byte <= 57
}

/// Whether all bytes are decimal digits.
pub open spec fn all_digits(text: Seq<u8>) -> bool {
    forall|i: int| 0 <= i < text.len() ==> is_digit(#[trigger] text[i])
}

/// The value of a digit; a byte that is none counts as zero.
pub open spec fn digit_value(byte: u8) -> nat {
    if is_digit(byte) {
        (byte - 48) as nat
    } else {
        0
    }
}

/// The number that a sequence of decimal digits writes.
pub open spec fn decimal_value(digits: Seq<u8>) -> nat
    decreases digits.len(),
{
    if digits.len() == 0 {
        0
    } else {
        decimal_value(digits.drop_last()) * 10 + digit_value(digits.last())
    }
}

/// What follows the sign, if there is one; `minus` tells whether a minus
/// sign counts as one.
pub open spec fn after_sign(text: Seq<u8>, minus: bool) -> Seq<u8> {
    if text.len() > 0 && (text[0] == 43 || (minus && text[0] == 45)) {
        text.subrange(1, text.len() as int)
    } else {
        text
    }
}

/// The unsigned number that `text` writes: an optional plus sign and at
/// least one digit, nothing else, and a value that a `u64` holds.
pub open spec fn parsed_u64(text: Seq<u8>) -> Option<u64> {
    let digits = after_sign(text, false);
    if digits.len() > 0 && all_digits(digits) && decimal_value(digits) <= u64::MAX {
        Some(decimal_value(digits) as u64)
    } else {
        None
    }
}

/// The signed number that `text` writes: an optional sign and at least one
/// digit, nothing else, and a value that an `i32` holds.
pub open spec fn parsed_i32(text: Seq<u8>) -> Option<i32> {
    let digits = after_sign(text, true);
    let value = if text.len() > 0 && text[0] == 45 {
        -(decimal_value(digits) as int)
    } else {
        decimal_value(digits) as int
    };
    if digits.len() > 0 && all_digits(digits) && i32::MIN <= value <= i32::MAX {
        Some(value as i32)
    } else {
        None
    }
}

/// Where the line that begins at `start` ends: at the next line feed or at
/// the end of the text.
pub open spec fn line_end(bytes: Seq<u8>, start: int) -> int
    decreases bytes.len() - start,
{
    if start >= bytes.len() {
        bytes.len() as int
    } else if bytes[start] == 10 {
        start
    } else {
        line_end(bytes, start + 1)
    }
}

/// A line ends at or after its beginning and within the text.
pub proof fn lemma_line_end_bounds(bytes: Seq<u8>, start: int)
    requires
        0 <= start <= bytes.len(),
    ensures
        start <= line_end(bytes, start) <= bytes.len(),
        line_end(bytes, start) < bytes.len() ==> bytes[line_end(bytes, start)] == 10,
    decreases bytes.len() - start,
{
    if start < bytes.len() && bytes[start] != 10 {
        lemma_line_end_bounds(bytes, start + 1);
    }
}

/// The line that begins at `start`, without its line ending: the line feed,
/// and the carriage return before it if there is one.
pub open spec fn line_at(bytes: Seq<u8>, start: int) -> Seq<u8> {
    let end = line_end(bytes, start);
    if end < bytes.len() && start < end && bytes[end - 1] == 13 {
        bytes.subrange(start, end - 1)
    } else {
        bytes.subrange(start, end)
    }
}

/// What is known after a line was read, given what was known before it.
pub open spec fn read_line(line: Seq<u8>, found: (Option<u64>, Option<i32>)) -> Result<
    (Option<u64>, Option<i32>),
    Error,
> {
    if has_prefix(line, unixtime_prefix()) {
        match parsed_u64(line.subrange(unixtime_prefix().len() as int, line.len() as int)) {
            Some(timestamp) => Ok((Some(timestamp), found.1)),
            None => Err(Error::ParseInt),
        }
    } else if has_prefix(line, raw_offset_prefix()) {
        match parsed_i32(line.subrange(raw_offset_prefix().len() as int, line.len() as int)) {
            Some(offset) => Ok((found.0, Some(offset))),
            None => Err(Error::ParseInt),
        }
    } else {
        Ok(found)
    }
}

/// What is known after the lines from `start` on were read, or the error at
/// the first line that could not be read.
pub open spec fn scan(bytes: Seq<u8>, start: int, found: (Option<u64>, Option<i32>)) -> Result<
    (Option<u64>, Option<i32>),
    Error,
>
    decreases bytes.len() - start,
{
    if start < 0 || start >= bytes.len() {
        Ok(found)
    } else {
        proof {
            lemma_line_end_bounds(bytes, start);
        }
        match read_line(line_at(bytes, start), found) {
            Err(error) => Err(error),
            Ok(known) => if line_end(bytes, start) >= bytes.len() {
                Ok(known)
            } else {
                scan(bytes, line_end(bytes, start) + 1, known)
            },
        }
    }
}

/// The time that a pair of fields gives, if both are there and in range.
pub open spec fn checked_time(found: (Option<u64>, Option<i32>)) -> Result<NetworkTime, Error> {
    match found {
        (Some(timestamp), Some(offset)) => if !(-MAX_UTC_OFFSET_SECONDS <= offset
            <= MAX_UTC_OFFSET_SECONDS) {
            Err(Error::TimeComponentRange)
        } else if timestamp > MAX_UNIX_TIMESTAMP {
            Err(Error::TimeComponentRange)
        } else if timestamp + offset > MAX_UNIX_TIMESTAMP {
            Err(Error::InvalidInOffset)
        } else {
            Ok(NetworkTime { unix_seconds: timestamp, utc_offset_seconds: offset })
        },
        _ => Err(Error::Unknown),
    }
}

/// The time that an answer gives.
pub open spec fn current_time(response: Seq<u8>) -> Result<NetworkTime, Error> {
    if !vstd::utf8::valid_utf8(response) {
        Err(Error::Utf8)
    } else {
        match scan(response, 0, (None, None)) {
            Err(error) => Err(error),
            Ok(found) => checked_time(found),
        }
    }
}

/// A number is at least as large as the number its first digits write.
pub proof fn lemma_decimal_prefix(digits: Seq<u8>, count: int)
    requires
        0 <= count <= digits.len(),
    ensures
        decimal_value(digits.subrange(0, count)) <= decimal_value(digits),
    decreases digits.len() - count,
{
    if count < digits.len() {
        lemma_decimal_prefix(digits, count + 1);
        assert(digits.subrange(0, count + 1).drop_last() =~= digits.subrange(0, count));
    } else {
        assert(digits.subrange(0, count) =~= digits);
    }
}

/// Reads the digits of `bytes` between `from` and `to` as a number of at
/// most `limit`. Returns `None` where there is no digit, where a byte is no
/// digit, and where the number is larger.
fn parse_digits(bytes: &[u8], from: usize, to: usize, limit: u64) -> (value: Option<u64>)
    requires
        from <= to <= bytes@.len(),
    ensures
        value == (if from < to && all_digits(bytes@.subrange(from as int, to as int))
            && decimal_value(bytes@.subrange(from as int, to as int)) <= limit {
            Some(decimal_value(bytes@.subrange(from as int, to as int)) as u64)
        } else {
            None
        }),
{
    if from == to {
        return None;
    }
    let ghost digits = bytes@.subrange(from as int, to as int);
    let mut value: u64 = 0;
    let mut index: usize = from;
    while index < to
        invariant
            from <= index <= to <= bytes@.len(),
            digits == bytes@.subrange(from as int, to as int),
            all_digits(digits.subrange(0, index - from)),
            value == decimal_value(digits.subrange(0, index - from)),
            value <= limit,
        decreases to - index,
    {
        let byte = bytes[index];
        if byte < 48 || byte > 57 {
            proof {
                assert(digits[index - from] == byte);
                assert(!is_digit(digits[index - from]));
            }
            return None;
        }
        let digit: u64 = (byte - 48) as u64;
        proof {
            let next = index - from + 1;
            assert(digits.subrange(0, next).drop_last() =~= digits.subrange(0, index - from));
            assert(digits.subrange(0, next).last() == byte);
            lemma_decimal_prefix(digits, next);
            assert forall|i: int| 0 <= i < next implies is_digit(
                #[trigger] digits.subrange(0, next)[i],
            ) by {
                if i < next - 1 {
                    assert(digits.subrange(0, index - from)[i] == digits[i]);
                }
            }
        }
        if limit < digit || value > (limit - digit) / 10 {
            return None;
        }
        value = value * 10 + digit;
        index = index + 1;
    }
    proof {
        assert(digits.subrange(0, to - from) =~= digits);
    }
    Some(value)
}

/// Reads an unsigned number.
fn parse_u64(bytes: &[u8], from: usize, to: usize) -> (value: Option<u64>)
    requires
        from <= to <= bytes@.len(),
    ensures
        value == parsed_u64(bytes@.subrange(from as int, to as int)),
{
    let ghost text = bytes@.subrange(from as int, to as int);
    let signed = from < to && bytes[from] == 43;
    let start: usize = if signed {
        from + 1
    } else {
        from
    };
    proof {
        if from < to {
            assert(text[0] == bytes@[from as int]);
        }
        assert(after_sign(text, false) =~= bytes@.subrange(start as int, to as int));
    }
    parse_digits(bytes, start, to, u64::MAX)
}

/// Reads a signed number.
fn parse_i32(bytes: &[u8], from: usize, to: usize) -> (value: Option<i32>)
    requires
        from <= to <= bytes@.len(),
    ensures
        value == parsed_i32(bytes@.subrange(from as int, to as int)),
{
    let ghost text = bytes@.subrange(from as int, to as int);
    let negative = from < to && bytes[from] == 45;
    let signed = from < to && (bytes[from] == 43 || bytes[from] == 45);
    let start: usize = if signed {
        from + 1
    } else {
        from
    };
    proof {
        if from < to {
            assert(text[0] == bytes@[from as int]);
        }
        assert(after_sign(text, true) =~= bytes@.subrange(start as int, to as int));
    }
    match parse_digits(bytes, start, to, 2_147_483_648) {
        None => None,
        Some(magnitude) => {
            if negative {
                Some((-(magnitude as i64)) as i32)
            } else if magnitude > 2_147_483_647 {
                None
            } else {
                Some(magnitude as i32)
            }
        },
    }
}

/// Tells whether the bytes between `from` and `to` begin with
/// `unixtime: `.
fn begins_with_unixtime(bytes: &[u8], from: usize, to: usize) -> (begins: bool)
    requires
        from <= to <= bytes@.len(),
    ensures
        begins == has_prefix(bytes@.subrange(from as int, to as int), unixtime_prefix()),
{
    let ghost line = bytes@.subrange(from as int, to as int);
    if to - from < 10 {
        return false;
    }
    let begins = bytes[from] == 117 && bytes[from + 1] == 110 && bytes[from + 2] == 105
        && bytes[from + 3] == 120 && bytes[from + 4] == 116 && bytes[from + 5] == 105
        && bytes[from + 6] == 109 && bytes[from + 7] == 101 && bytes[from + 8] == 58
        && bytes[from + 9] == 32;
    proof {
        let head = line.subrange(0, 10);
        if begins {
            assert(head =~= unixtime_prefix());
        } else {
            assert(head[0] == line[0] && head[1] == line[1] && head[2] == line[2] && head[3]
                == line[3] && head[4] == line[4] && head[5] == line[5] && head[6] == line[6]
                && head[7] == line[7] && head[8] == line[8] && head[9] == line[9]);
        }
    }
    begins
}

/// Tells whether the bytes between `from` and `to` begin with
/// `raw_offset: `.
fn begins_with_raw_offset(bytes: &[u8], from: usize, to: usize) -> (begins: bool)
    requires
        from <= to <= bytes@.len(),
    ensures
        begins == has_prefix(bytes@.subrange(from as int, to as int), raw_offset_prefix()),
{
    let ghost line = bytes@.subrange(from as int, to as int);
    if to - from < 12 {
        return false;
    }
    let begins = bytes[from] == 114 && bytes[from + 1] == 97 && bytes[from + 2] == 119
        && bytes[from + 3] == 95 && bytes[from + 4] == 111 && bytes[from + 5] == 102
        && bytes[from + 6] == 102 && bytes[from + 7] == 115 && bytes[from + 8] == 101
        && bytes[from + 9] == 116 && bytes[from + 10] == 58 && bytes[from + 11] == 32;
    proof {
        let head = line.subrange(0, 12);
        if begins {
            assert(head =~= raw_offset_prefix());
        } else {
            assert(head[0] == line[0] && head[1] == line[1] && head[2] == line[2] && head[3]
                == line[3] && head[4] == line[4] && head[5] == line[5] && head[6] == line[6]
                && head[7] == line[7] && head[8] == line[8] && head[9] == line[9] && head[10]
                == line[10] && head[11] == line[11]);
        }
    }
    begins
}

/// Finds the end of the line that begins at `start`.
fn find_line_end(bytes: &[u8], start: usize) -> (end: usize)
    requires
        start <= bytes@.len(),
    ensures
        end == line_end(bytes@, start as int),
        start <= end <= bytes@.len(),
{
    let mut end: usize = start;
    while end < bytes.len() && bytes[end] != 10
        invariant
            start <= end <= bytes@.len(),
            line_end(bytes@, start as int) == line_end(bytes@, end as int),
        decreases bytes@.len() - end,
    {
        end = end + 1;
    }
    end
}

/// Reads the answer of the time source.
///
/// The answer must be valid UTF-8, else the result is `Utf8`. Its lines are
/// read in order; the first line that begins with `unixtime: ` or
/// `raw_offset: ` and does not go on with a number gives `ParseInt`. An
/// answer that lacks one of the two gives `Unknown`. An offset of more than
/// 25:59:59 to either side and a time after the year 9999 give
/// `TimeComponentRange`, a time that the offset moves past the year 9999
/// gives `InvalidInOffset`.
pub fn fetch_current_time(response: &[u8]) -> (time: Result<NetworkTime, Error>)
    ensures
        time == current_time(response@),
{
    if !is_utf8(response) {
        return Err(Error::Utf8);
    }
    let mut timestamp: Option<u64> = None;
    let mut offset: Option<i32> = None;
    let mut start: usize = 0;
    while start < response.len()
        invariant
            start <= response@.len(),
            vstd::utf8::valid_utf8(response@),
            scan(response@, 0, (None, None)) == scan(response@, start as int, (timestamp, offset)),
        decreases response@.len() - start,
    {
        let end = find_line_end(response, start);
        let line_stop: usize = if end < response.len() && start < end && response[end - 1] == 13 {
            end - 1
        } else {
            end
        };
        assert(response@.subrange(start as int, line_stop as int) == line_at(
            response@,
            start as int,
        ));
        let ghost line = response@.subrange(start as int, line_stop as int);
        if begins_with_unixtime(response, start, line_stop) {
            proof {
                assert(line.subrange(10, line.len() as int) =~= response@.subrange(
                    start + 10,
                    line_stop as int,
                ));
            }
            match parse_u64(response, start + 10, line_stop) {
                Some(value) => {
                    timestamp = Some(value);
                },
                None => {
                    return Err(Error::ParseInt);
                },
            }
        } else if begins_with_raw_offset(response, start, line_stop) {
            proof {
                assert(line.subrange(12, line.len() as int) =~= response@.subrange(
                    start + 12,
                    line_stop as int,
                ));
            }
            match parse_i32(response, start + 12, line_stop) {
                Some(value) => {
                    offset = Some(value);
                },
                None => {
                    return Err(Error::ParseInt);
                },
            }
        }
        start = if end < response.len() {
            end + 1
        } else {
            end
        };
    }
    match (timestamp, offset) {
        (Some(timestamp), Some(offset)) => {
            match checked_utc_offset(offset) {
                Err(_) => {
                    return Err(Error::TimeComponentRange);
                },
                Ok(()) => {},
            }
            if timestamp > i64::MAX as u64 {
                return Err(Error::TimeComponentRange);
            }
            match checked_unix_timestamp(timestamp as i64) {
                Err(_) => {
                    return Err(Error::TimeComponentRange);
                },
                Ok(()) => {},
            }
            if !exists_in_offset(timestamp as i64, offset) {
                return Err(Error::InvalidInOffset);
            }
            Ok(NetworkTime { unix_seconds: timestamp, utc_offset_seconds: offset })
        },
        _ => Err(Error::Unknown),
    }
}

} // verus!
