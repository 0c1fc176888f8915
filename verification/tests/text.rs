use web_demo::text::push_signed;

fn written(start: &str, n: i32) -> String {
    let mut out = start.to_string();
    push_signed(&mut out, n);
    out
}

#[test]
fn digits_are_appended_to_what_is_there() {
    assert_eq!(written("", 0), "0");
    assert_eq!(written("n = ", 42), "n = 42");
    assert_eq!(written("x", 9), "x9");
}

#[test]
fn zeros_inside_and_at_the_end_are_kept() {
    assert_eq!(written("", 10), "10");
    assert_eq!(written("", 1001), "1001");
    assert_eq!(written("", 20300), "20300");
}

#[test]
fn a_negative_number_gets_a_minus_sign() {
    assert_eq!(written("", -1), "-1");
    assert_eq!(written("t", -907), "t-907");
}

#[test]
fn the_extremes_are_written_in_full() {
    assert_eq!(written("", i32::MAX), "2147483647");
    assert_eq!(written("", i32::MIN), "-2147483648");
}
