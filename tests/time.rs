use t9s::time::{
    format_datetime_to_human_readable_string, format_duration, parse_tc_datetime_to_epoch,
    TimeError, MAX_TIMESTAMP, MIN_TIMESTAMP,
};

#[test]
fn parses_teamcity_timestamps() {
    assert_eq!(parse_tc_datetime_to_epoch("20240131T100000+0000"), Ok(1706695200));
    assert_eq!(parse_tc_datetime_to_epoch("20240131T100000.250+0000"), Ok(1706695200));
    assert_eq!(parse_tc_datetime_to_epoch("20240131T110000+0100"), Ok(1706695200));
    assert_eq!(parse_tc_datetime_to_epoch("yesterday"), Err(TimeError::Parse));
}

#[test]
fn human_readable_dates() {
    assert_eq!(
        format_datetime_to_human_readable_string("20240131T235959+0000"),
        Ok("31 Jan 23:59".to_string())
    );
    assert_eq!(format_datetime_to_human_readable_string(""), Err(TimeError::Parse));
}

#[test]
fn durations_as_clock_text() {
    assert_eq!(format_duration(0), Ok("00:00:00".to_string()));
    assert_eq!(format_duration(3661), Ok("01:01:01".to_string()));
    assert_eq!(format_duration(86399), Ok("23:59:59".to_string()));
    assert_eq!(format_duration(86400 + 5), Ok("00:00:05".to_string()));
    assert_eq!(format_duration(-1), Ok("23:59:59".to_string()));
    assert!(format_duration(MAX_TIMESTAMP).is_ok());
    assert!(format_duration(MIN_TIMESTAMP).is_ok());
    assert_eq!(format_duration(MAX_TIMESTAMP + 1), Err(TimeError::OutOfRange));
    assert_eq!(format_duration(MIN_TIMESTAMP - 1), Err(TimeError::OutOfRange));
}

#[test]
fn the_last_representable_second_agrees_with_the_parser() {
    assert_eq!(parse_tc_datetime_to_epoch("99991231T235959+0000"), Ok(MAX_TIMESTAMP));
}
