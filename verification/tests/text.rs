use box_pin::measurable_future::elapsed_report;
use box_pin::text::decimal_string;
use box_pin::text::push_decimal;

#[test]
fn decimal_of_small_numbers() {
    assert_eq!(decimal_string(0), "0");
    assert_eq!(decimal_string(7), "7");
    assert_eq!(decimal_string(10), "10");
    assert_eq!(decimal_string(109), "109");
    assert_eq!(decimal_string(1_000_000), "1000000");
}

#[test]
fn decimal_agrees_with_display() {
    for n in [1u128, 9, 11, 99, 100, 101, 12_345_678_901_234_567_890, u128::MAX] {
        assert_eq!(decimal_string(n), n.to_string());
    }
    assert_eq!(decimal_string(u128::MAX), "340282366920938463463374607431768211455");
}

#[test]
fn push_decimal_appends() {
    let mut text = String::from("n = ");
    push_decimal(&mut text, 42);
    push_decimal(&mut text, 0);
    assert_eq!(text, "n = 420");
}

#[test]
fn report_line_wording() {
    assert_eq!(elapsed_report(0), "Elapsed 0ns");
    assert_eq!(elapsed_report(1_234_567), "Elapsed 1234567ns");
    assert_eq!(elapsed_report(u128::MAX), format!("Elapsed {}ns", u128::MAX));
}
