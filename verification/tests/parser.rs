use focus_timer::parser::{parse, DurationInput, DurationUnit, ParseError};

#[test]
fn seconds_pass_through() {
    assert_eq!(parse("10s"), Ok(10));
}

#[test]
fn minutes_scale_by_sixty() {
    assert_eq!(parse("25m"), Ok(1500));
}

#[test]
fn hours_scale_by_thirty_six_hundred() {
    assert_eq!(parse("2h"), Ok(7200));
}

#[test]
fn empty_input_is_rejected() {
    assert_eq!(parse(""), Err(ParseError::EmptyInput));
}

#[test]
fn bare_unit_has_empty_magnitude() {
    assert_eq!(parse("s"), Err(ParseError::InvalidMagnitude));
    assert_eq!(parse("m"), Err(ParseError::InvalidMagnitude));
    assert_eq!(parse("h"), Err(ParseError::InvalidMagnitude));
}

#[test]
fn unknown_unit_is_rejected() {
    assert_eq!(parse("10x"), Err(ParseError::UnknownUnit));
}

#[test]
fn missing_unit_is_rejected() {
    assert_eq!(parse("10"), Err(ParseError::UnknownUnit));
}

#[test]
fn non_numeric_magnitude_is_rejected() {
    assert_eq!(parse("abcs"), Err(ParseError::InvalidMagnitude));
}

#[test]
fn zero_duration_is_legal() {
    assert_eq!(parse("0s"), Ok(0));
}

#[test]
fn uppercase_unit_is_rejected() {
    assert_eq!(parse("10S"), Err(ParseError::UnknownUnit));
}

#[test]
fn sign_and_whitespace_are_rejected() {
    assert_eq!(parse("+10s"), Err(ParseError::InvalidMagnitude));
    assert_eq!(parse(" 10s"), Err(ParseError::InvalidMagnitude));
    assert_eq!(parse("1 0s"), Err(ParseError::InvalidMagnitude));
}

#[test]
fn magnitude_at_u64_max_parses_in_seconds() {
    assert_eq!(parse("18446744073709551615s"), Ok(u64::MAX));
}

#[test]
fn magnitude_beyond_u64_is_rejected() {
    assert_eq!(parse("18446744073709551616s"), Err(ParseError::InvalidMagnitude));
    assert_eq!(parse("99999999999999999999999s"), Err(ParseError::InvalidMagnitude));
}

#[test]
fn scaling_overflow_is_rejected() {
    // Fits as a magnitude, but not once multiplied by 3600.
    assert_eq!(parse("9000000000000000000h"), Err(ParseError::InvalidMagnitude));
    assert_eq!(parse("400000000000000000m"), Err(ParseError::InvalidMagnitude));
}

#[test]
fn leading_zeros_are_digits() {
    assert_eq!(parse("007m"), Ok(420));
}

#[test]
fn parsed_input_keeps_magnitude_and_unit() {
    let d = DurationInput::parse("25m").unwrap();
    assert_eq!(d.duration, 25);
    assert_eq!(d.unit, DurationUnit::Minutes);
    assert_eq!(d.get_duration(), 1500);
}

#[test]
fn get_duration_scales_each_unit() {
    let s = DurationInput::parse("90s").unwrap();
    assert_eq!(s.get_duration(), 90);
    let m = DurationInput::parse("90m").unwrap();
    assert_eq!(m.get_duration(), 5400);
    let h = DurationInput::parse("90h").unwrap();
    assert_eq!(h.get_duration(), 324000);
}

#[test]
fn round_trip_keeps_total_seconds() {
    // Rebuild "{digits}{unit}" from a parsed pair and parse it again.
    for raw in ["25m", "0s", "007h", "3600s", "18446744073709551615s"] {
        let d = DurationInput::parse(raw).unwrap();
        let unit = match d.unit {
            DurationUnit::Seconds => "s",
            DurationUnit::Minutes => "m",
            DurationUnit::Hours => "h",
        };
        let rebuilt = format!("{}{}", d.duration, unit);
        assert_eq!(parse(&rebuilt), Ok(d.get_duration()));
    }
}

#[test]
fn error_messages_match_the_original_diagnostics() {
    assert_eq!(ParseError::EmptyInput.message(), "empty input");
    assert_eq!(ParseError::UnknownUnit.message(), "unknown unit");
    assert_eq!(ParseError::InvalidMagnitude.message(), "no duration");
}
