use tasker::timing::{
    creation_delay_ms, read_deadline, recovery_delay_ms, validate_execution_time, TimeError,
};

#[test]
fn past_deadline_is_floored_to_minimum_delay() {
    assert_eq!(recovery_delay_ms(1_000, 5_000), 100);
    assert_eq!(recovery_delay_ms(5_000, 5_000), 100);
    assert_eq!(recovery_delay_ms(5_050, 5_000), 100);
}

#[test]
fn future_deadline_keeps_time_left() {
    assert_eq!(recovery_delay_ms(7_500, 5_000), 2_500);
    assert_eq!(recovery_delay_ms(i64::MAX, i64::MIN), u64::MAX);
}

#[test]
fn creation_delay_needs_deadline_not_passed() {
    assert_eq!(creation_delay_ms(5_200, 5_000), Some(200));
    assert_eq!(creation_delay_ms(5_000, 5_000), Some(0));
    assert_eq!(creation_delay_ms(4_999, 5_000), None);
}

#[test]
fn reads_rfc3339_with_offset() {
    let t = read_deadline("2026-01-30T15:30:00.123456789-06:00").unwrap();
    assert_eq!(t.millis, 1_769_808_600_123);
    assert_eq!(t.text, "2026-01-30T15:30:00.123456789-06:00");
    let t = read_deadline("2030-01-01T00:00:00Z").unwrap();
    assert_eq!(t.millis, 1_893_456_000_000);
    assert_eq!(t.text, "2030-01-01T00:00:00+00:00");
}

#[test]
fn rejects_text_that_is_not_rfc3339() {
    assert_eq!(read_deadline("tomorrow").unwrap_err(), TimeError::NotRfc3339);
    assert_eq!(read_deadline("2030-01-01T00:00:00").unwrap_err(), TimeError::NotRfc3339);
}

#[test]
fn execution_time_must_lie_in_future() {
    let now = 1_893_456_000_000;
    assert_eq!(
        validate_execution_time("2030-01-01T00:00:00Z", now).unwrap_err(),
        TimeError::InPast
    );
    assert_eq!(
        validate_execution_time("2029-12-31T23:00:00Z", now).unwrap_err(),
        TimeError::InPast
    );
    let t = validate_execution_time("2030-01-01T00:00:00.200Z", now).unwrap();
    assert_eq!(t.millis, now + 200);
    assert_eq!(validate_execution_time("soon", now).unwrap_err(), TimeError::NotRfc3339);
}
