use pointer_tour::decimal::to_decimal;
use pointer_tour::scenarios::{
    bronze_value, medal_line, pointer_line, transcript, value_line, wrapped_line, Medal, POINTS,
};

#[test]
fn transcript_is_fixed_and_ordered() {
    let expected = vec![
        "SCENARIO 1: the value of a is 10",
        "SCENARIO 2: the value of b is 10",
        "SCENARIO 3: ptrC is null",
        "SCENARIO 4: before wraps_unsafe_code() functionc all:",
        "the value of a is 10",
        "SCENARIO 4: after wraps_unsafe_code() functionc all:",
        "SCENARIO 5: the value of POINTS is 10",
        "SCENARIO 6: the value of win is 10",
        "SCENARIO 7: the value of win is 10",
    ];
    assert_eq!(transcript(), expected);
}

#[test]
fn transcript_is_the_same_on_every_call() {
    assert_eq!(transcript(), transcript());
}

#[test]
fn decimal_of_small_and_large_values() {
    assert_eq!(to_decimal(0), "0");
    assert_eq!(to_decimal(7), "7");
    assert_eq!(to_decimal(10), "10");
    assert_eq!(to_decimal(1234567890), "1234567890");
    assert_eq!(to_decimal(i32::MAX), "2147483647");
}

#[test]
fn decimal_of_negative_values() {
    assert_eq!(to_decimal(-5), "-5");
    assert_eq!(to_decimal(-100), "-100");
    assert_eq!(to_decimal(i32::MIN), "-2147483648");
}

#[test]
fn value_line_appends_the_number() {
    assert_eq!(value_line("x = ", 42), "x = 42");
    assert_eq!(value_line("", -3), "-3");
}

#[test]
fn null_pointer_is_reported_not_read() {
    assert_eq!(pointer_line(None), "SCENARIO 3: ptrC is null");
}

#[test]
fn non_null_pointer_is_read() {
    assert_eq!(pointer_line(Some(25)), "SCENARIO 3: the value of ptrC is 25");
}

#[test]
fn bronze_value_only_for_bronze() {
    assert_eq!(bronze_value(Medal::Bronze(10)), Some(10));
    assert_eq!(bronze_value(Medal::Silver(10)), None);
    assert_eq!(bronze_value(Medal::Gold(3)), None);
}

#[test]
fn medal_line_per_variant() {
    assert_eq!(medal_line(Medal::Bronze(10)), "SCENARIO 7: the value of win is 10");
    assert_eq!(medal_line(Medal::Bronze(-1)), "SCENARIO 7: the value of win is -1");
    assert_eq!(medal_line(Medal::Silver(10)), "SCENARIO 7: not a bronze");
    assert_eq!(medal_line(Medal::Gold(10)), "SCENARIO 7: not a bronze");
}

#[test]
fn wrapped_line_reads_the_value() {
    assert_eq!(wrapped_line(10), "the value of a is 10");
}

#[test]
fn points_counter_starts_at_ten() {
    assert_eq!(POINTS, 10);
}
