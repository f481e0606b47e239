use tank_sensor::clock::{Error as ClockError, NetworkTime};
use tank_sensor::worldtimeapi::{fetch_current_time, Error};

const ANSWER: &str = "abbreviation: NZDT\n\
client_ip: 192.0.2.1\n\
datetime: 2024-03-05T22:46:12.123456+13:00\n\
raw_offset: 43200\n\
timezone: Pacific/Auckland\n\
unixtime: 1709631972\n\
utc_offset: +13:00\n";

#[test]
fn answer_gives_time_and_offset() {
    assert_eq!(
        fetch_current_time(ANSWER.as_bytes()),
        Ok(NetworkTime { unix_seconds: 1_709_631_972, utc_offset_seconds: 43_200 })
    );
}

#[test]
fn answer_with_carriage_returns_and_no_final_line_feed() {
    let answer = "unixtime: 1709631972\r\nraw_offset: -3600";
    assert_eq!(
        fetch_current_time(answer.as_bytes()),
        Ok(NetworkTime { unix_seconds: 1_709_631_972, utc_offset_seconds: -3_600 })
    );
}

#[test]
fn bare_carriage_return_at_the_end_is_part_of_the_number() {
    let answer = "unixtime: 1709631972\nraw_offset: 0\r";
    assert_eq!(fetch_current_time(answer.as_bytes()), Err(Error::ParseInt));
}

#[test]
fn last_occurrence_of_a_line_counts() {
    let answer = "unixtime: 1\nraw_offset: 2\nunixtime: +30\nraw_offset: +4\n";
    assert_eq!(
        fetch_current_time(answer.as_bytes()),
        Ok(NetworkTime { unix_seconds: 30, utc_offset_seconds: 4 })
    );
}

#[test]
fn answer_that_is_not_utf8_is_refused() {
    let mut answer = ANSWER.as_bytes().to_vec();
    answer.push(0xff);
    assert_eq!(fetch_current_time(&answer), Err(Error::Utf8));
    assert_eq!(fetch_current_time(&[0xc3, 0x28]), Err(Error::Utf8));
}

#[test]
fn answer_with_other_text_in_utf8_is_read() {
    let answer = "timezone: Zürich\nunixtime: 5\nraw_offset: 3600\n";
    assert_eq!(
        fetch_current_time(answer.as_bytes()),
        Ok(NetworkTime { unix_seconds: 5, utc_offset_seconds: 3_600 })
    );
}

#[test]
fn missing_fields_are_reported() {
    assert_eq!(fetch_current_time(b""), Err(Error::Unknown));
    assert_eq!(fetch_current_time(b"unixtime: 1709631972\n"), Err(Error::Unknown));
    assert_eq!(fetch_current_time(b"raw_offset: 0\n"), Err(Error::Unknown));
    assert_eq!(fetch_current_time(b" unixtime: 1\nraw_offset:0\n"), Err(Error::Unknown));
}

#[test]
fn numbers_that_cannot_be_read_are_reported() {
    for answer in [
        "unixtime: \nraw_offset: 0\n",
        "unixtime: 12a\nraw_offset: 0\n",
        "unixtime: -1\nraw_offset: 0\n",
        "unixtime: +\nraw_offset: 0\n",
        "unixtime: 18446744073709551616\nraw_offset: 0\n",
        "unixtime: 1 \nraw_offset: 0\n",
        "unixtime: 1\nraw_offset: 2147483648\n",
        "unixtime: 1\nraw_offset: -2147483649\n",
        "unixtime: 1\nraw_offset: --1\n",
        "unixtime: 1\nraw_offset: -\n",
    ] {
        assert_eq!(fetch_current_time(answer.as_bytes()), Err(Error::ParseInt), "{}", answer);
    }
}

#[test]
fn first_unreadable_line_decides() {
    let answer = "raw_offset: x\nunixtime: 1\nraw_offset: 0\n";
    assert_eq!(fetch_current_time(answer.as_bytes()), Err(Error::ParseInt));
}

#[test]
fn extreme_numbers_are_read_before_they_are_checked() {
    let answer = "unixtime: 18446744073709551615\nraw_offset: -2147483648\n";
    assert_eq!(fetch_current_time(answer.as_bytes()), Err(Error::TimeComponentRange));
    let answer = "unixtime: 0000000000000000000000007\nraw_offset: -0\n";
    assert_eq!(
        fetch_current_time(answer.as_bytes()),
        Ok(NetworkTime { unix_seconds: 7, utc_offset_seconds: 0 })
    );
}

#[test]
fn offset_out_of_range_is_refused() {
    assert_eq!(
        fetch_current_time(b"unixtime: 1\nraw_offset: 93600\n"),
        Err(Error::TimeComponentRange)
    );
    assert_eq!(
        fetch_current_time(b"unixtime: 1\nraw_offset: -93600\n"),
        Err(Error::TimeComponentRange)
    );
    assert_eq!(
        fetch_current_time(b"unixtime: 1\nraw_offset: 93599\n"),
        Ok(NetworkTime { unix_seconds: 1, utc_offset_seconds: 93_599 })
    );
    assert_eq!(
        fetch_current_time(b"unixtime: 1\nraw_offset: -93599\n"),
        Ok(NetworkTime { unix_seconds: 1, utc_offset_seconds: -93_599 })
    );
}

#[test]
fn time_out_of_range_is_refused() {
    assert_eq!(
        fetch_current_time(b"unixtime: 253402300800\nraw_offset: 0\n"),
        Err(Error::TimeComponentRange)
    );
    assert_eq!(
        fetch_current_time(b"unixtime: 9223372036854775808\nraw_offset: 0\n"),
        Err(Error::TimeComponentRange)
    );
    assert_eq!(
        fetch_current_time(b"unixtime: 253402300799\nraw_offset: 0\n"),
        Ok(NetworkTime { unix_seconds: 253_402_300_799, utc_offset_seconds: 0 })
    );
}

#[test]
fn time_that_the_offset_moves_out_of_range_is_refused() {
    assert_eq!(
        fetch_current_time(b"unixtime: 253402300799\nraw_offset: 1\n"),
        Err(Error::InvalidInOffset)
    );
    assert_eq!(
        fetch_current_time(b"unixtime: 253402300000\nraw_offset: 800\n"),
        Err(Error::InvalidInOffset)
    );
    assert_eq!(
        fetch_current_time(b"unixtime: 253402300000\nraw_offset: 799\n"),
        Ok(NetworkTime { unix_seconds: 253_402_300_000, utc_offset_seconds: 799 })
    );
    assert_eq!(
        fetch_current_time(b"unixtime: 0\nraw_offset: -93599\n"),
        Ok(NetworkTime { unix_seconds: 0, utc_offset_seconds: -93_599 })
    );
}

#[test]
fn errors_of_the_time_source_become_errors_of_the_clock() {
    assert_eq!(ClockError::from(Error::InvalidInOffset), ClockError::TimeComponentRange);
    assert_eq!(ClockError::from(Error::Unknown), ClockError::MissingField);
    assert_eq!(ClockError::from(Error::TimeComponentRange), ClockError::TimeComponentRange);
    assert_eq!(ClockError::from(Error::Http), ClockError::Http);
    assert_eq!(ClockError::from(Error::ParseInt), ClockError::ParseInt);
    assert_eq!(ClockError::from(Error::Utf8), ClockError::Utf8);
}
