use ripit::cli::{format_time, format_time_with_units, truncate_string};

#[test]
fn test_format_time_seconds() {
    // ----------------------------------------------------------------
    let computed = format_time(4);
    let expected = "00:00:04";
    // ----------------------------------------------------------------
    assert_eq!(computed, expected);
}

#[test]
fn test_format_time_minutes() {
    // ----------------------------------------------------------------
    let computed = format_time(65);
    let expected = "00:01:05";
    // ----------------------------------------------------------------
    assert_eq!(computed, expected);
}

#[test]
fn test_format_time_hours() {
    // ----------------------------------------------------------------
    let computed = format_time(3661);
    let expected = "01:01:01";
    // ----------------------------------------------------------------
    assert_eq!(computed, expected);
}

#[test]
fn test_format_time_with_units_seconds() {
    // ----------------------------------------------------------------
    let computed = format_time_with_units(4);
    let expected = "4s";
    // ----------------------------------------------------------------
    assert_eq!(computed, expected);
}

#[test]
fn test_format_time_with_units_minutes() {
    // ----------------------------------------------------------------
    let computed = format_time_with_units(65);
    let expected = "1m 5s";
    // ----------------------------------------------------------------
    assert_eq!(computed, expected);
}

#[test]
fn test_format_time_with_units_hours() {
    // ----------------------------------------------------------------
    let computed = format_time_with_units(3723);
    let expected = "1h 2m 3s";
    // ----------------------------------------------------------------
    assert_eq!(computed, expected);
}

#[test]
fn test_truncate_string_preserve() {
    // ----------------------------------------------------------------
    let computed = truncate_string("hello world 1234", 16);
    let expected = "hello world 1234".to_string();
    // ----------------------------------------------------------------
    assert_eq!(computed, expected);
}

#[test]
fn test_truncate_string_truncate() {
    // ----------------------------------------------------------------
    let computed = truncate_string("hello world 1234", 15);
    let expected = "hello world 12…".to_string();
    // ----------------------------------------------------------------
    assert_eq!(computed, expected);
}

#[test]
fn test_truncate_string_zero_length() {
    // ----------------------------------------------------------------
    let computed = truncate_string("hello world", 0);
    let expected = "".to_string();
    // ----------------------------------------------------------------
    assert_eq!(computed, expected);
}
