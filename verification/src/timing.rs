//! The timing ping: the tick count of the device at its first contact with
//! the collector, from which the collector dates the log entries of this
//! boot.

use vstd::prelude::*;
use vstd::string::StringSliceAdditionalSpecFns;

verus! {

/// Path of the timing endpoint at the collector.
pub const TIMING_URL_SUB_PATH: &'static str = "/api/v1/timing";

/// Why a best-effort delivery did not arrive.
#[derive(Clone, Copy, Debug, PartialEq, Eq, Structural)]
pub enum Error {
    /// The collector answered with a status that is not a success.
    NonSuccessResponseCode,
    /// The request could not be sent or got no answer.
    RequestFailed,
}

/// Whether an HTTP status code stands for success.
pub open spec fn is_successful(status: u16) -> bool {
    200 <= status < 300
}

/// What a best-effort delivery comes to, given the status code of the
/// answer or the fact that there was none.
pub open spec fn delivery_outcome(response: Option<u16>) -> Result<(), Error> {
    match response {
        Some(status) => if is_successful(status) {
            Ok(())
        } else {
            Err(Error::NonSuccessResponseCode)
        },
        None => Err(Error::RequestFailed),
    }
}

/// The decimal digits of a number, without leading zeros.
pub open spec fn decimal_digits(value: nat) -> Seq<u8>
    decreases value,
{
    if value < 10 {
        seq![(48 + value) as u8]
    } else {
        decimal_digits(value / 10).push((48 + value % 10) as u8)
    }
}

/// The body of the timing ping:
/// `{"device_id":"<id>","boot_count":<count>,"timestamp":<ticks>}` and a
/// line feed.
pub open spec fn timing_data(device_id: Seq<u8>, boot_count: u32, ticks: u64) -> Seq<u8> {
    "{\"device_id\":\"".spec_bytes() + device_id + "\",\"boot_count\":".spec_bytes()
        + decimal_digits(boot_count as nat) + ",\"timestamp\":".spec_bytes() + decimal_digits(
        ticks as nat,
    ) + "}\n".spec_bytes()
}

/// Appends the bytes of `text`.
pub fn push_text(buffer: &mut Vec<u8>, text: &str)
    ensures
        final(buffer)@ == old(buffer)@ + text.spec_bytes(),
{
    let bytes = text.as_bytes();
    let mut index: usize = 0;
    while index < bytes.len()
        invariant
            index <= bytes@.len(),
            bytes@ == text.spec_bytes(),
            buffer@ == old(buffer)@ + bytes@.subrange(0, index as int),
        decreases bytes@.len() - index,
    {
        buffer.push(bytes[index]);
        index = index + 1;
        proof {
            assert(buffer@ =~= old(buffer)@ + bytes@.subrange(0, index as int));
        }
    }
    proof {
        assert(bytes@.subrange(0, index as int) =~= bytes@);
    }
}

/// Appends the decimal digits of `value`.
pub fn push_decimal(buffer: &mut Vec<u8>, value: u64)
    ensures
        final(buffer)@ == old(buffer)@ + decimal_digits(value as nat),
{
    let mut digits: Vec<u8> = Vec::new();
    digits.push(48 + (value % 10) as u8);
    let mut rest: u64 = value / 10;
    while rest > 0
        invariant
            decimal_digits(value as nat) == (if rest == 0 {
                Seq::<u8>::empty()
            } else {
                decimal_digits(rest as nat)
            }) + digits@,
        decreases rest,
    {
        let ghost before = digits@;
        digits.insert(0, 48 + (rest % 10) as u8);
        proof {
            let digit = (48 + rest % 10) as u8;
            assert(digits@ =~= seq![digit] + before);
            if rest >= 10 {
                assert(decimal_digits(rest as nat) =~= decimal_digits((rest / 10) as nat)
                    + seq![digit]);
                assert(decimal_digits(value as nat) =~= decimal_digits((rest / 10) as nat)
                    + digits@);
            } else {
                assert(decimal_digits(rest as nat) =~= seq![digit]);
                assert(decimal_digits(value as nat) =~= Seq::<u8>::empty() + digits@);
            }
        }
        rest = rest / 10;
    }
    let mut index: usize = 0;
    while index < digits.len()
        invariant
            index <= digits@.len(),
            digits@ == decimal_digits(value as nat),
            buffer@ == old(buffer)@ + digits@.subrange(0, index as int),
        decreases digits@.len() - index,
    {
        buffer.push(digits[index]);
        index = index + 1;
        proof {
            assert(buffer@ =~= old(buffer)@ + digits@.subrange(0, index as int));
        }
    }
    proof {
        assert(digits@.subrange(0, index as int) =~= digits@);
    }
}

/// Writes the body of the timing ping.
pub fn format_timing_data(device_id: &str, boot_count: u32, ticks_in_micro_seconds: u64) -> (body:
    Vec<u8>)
    ensures
        body@ == timing_data(device_id.spec_bytes(), boot_count, ticks_in_micro_seconds),
{
    let mut body: Vec<u8> = Vec::new();
    push_text(&mut body, "{\"device_id\":\"");
    push_text(&mut body, device_id);
    push_text(&mut body, "\",\"boot_count\":");
    push_decimal(&mut body, boot_count as u64);
    push_text(&mut body, ",\"timestamp\":");
    push_decimal(&mut body, ticks_in_micro_seconds);
    push_text(&mut body, "}\n");
    proof {
        assert(body@ =~= timing_data(
            device_id.spec_bytes(),
            boot_count,
            ticks_in_micro_seconds,
        ));
    }
    body
}

/// Judges the one attempt to deliver the timing ping: a status code from
/// 200 to 299 is a success, any other is `NonSuccessResponseCode`, and no
/// answer at all is `RequestFailed`. There is no second attempt.
pub fn send_timing_data(response: Option<u16>) -> (outcome: Result<(), Error>)
    ensures
        outcome == delivery_outcome(response),
{
    match response {
        Some(status) => {
            if 200 <= status && status < 300 {
                Ok(())
            } else {
                Err(Error::NonSuccessResponseCode)
            }
        },
        None => Err(Error::RequestFailed),
    }
}

} // verus!
