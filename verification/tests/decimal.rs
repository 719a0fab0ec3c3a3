use assets_rocket_fairing::decimal::{append_decimal, to_decimal};

#[test]
fn zero_is_a_single_digit() {
    assert_eq!(to_decimal(0), "0");
}

#[test]
fn single_digits_are_written_as_they_are() {
    assert_eq!(to_decimal(1), "1");
    assert_eq!(to_decimal(5), "5");
    assert_eq!(to_decimal(9), "9");
}

#[test]
fn ten_has_two_digits() {
    assert_eq!(to_decimal(10), "10");
    assert_eq!(to_decimal(99), "99");
    assert_eq!(to_decimal(100), "100");
}

#[test]
fn inner_zeros_are_kept() {
    assert_eq!(to_decimal(3600), "3600");
    assert_eq!(to_decimal(86400), "86400");
    assert_eq!(to_decimal(1_000_001), "1000001");
}

#[test]
fn the_largest_number_is_written_in_full() {
    assert_eq!(to_decimal(u32::MAX), "4294967295");
    assert_eq!(to_decimal(2147483647), "2147483647");
}

#[test]
fn decimal_agrees_with_the_standard_formatting() {
    let samples: [u32; 12] = [0, 1, 9, 10, 11, 19, 20, 101, 999, 1000, 65535, 4294967290];
    for n in samples {
        assert_eq!(to_decimal(n), format!("{}", n));
    }
}

#[test]
fn appending_keeps_what_was_there() {
    let mut text = String::from("max-age=");
    append_decimal(&mut text, 3600);
    assert_eq!(text, "max-age=3600");
    append_decimal(&mut text, 0);
    assert_eq!(text, "max-age=36000");
}
