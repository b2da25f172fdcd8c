use song_search::decimal::decimal_string;

#[test]
fn zero_is_a_single_digit() {
    assert_eq!(decimal_string(0), "0");
}

#[test]
fn single_digits() {
    let expected = ["0", "1", "2", "3", "4", "5", "6", "7", "8", "9"];
    for n in 0..10usize {
        assert_eq!(decimal_string(n), expected[n]);
    }
}

#[test]
fn ten_has_two_digits() {
    assert_eq!(decimal_string(10), "10");
}

#[test]
fn inner_zeros_are_kept() {
    assert_eq!(decimal_string(105), "105");
    assert_eq!(decimal_string(1000), "1000");
    assert_eq!(decimal_string(90210), "90210");
}

#[test]
fn agrees_with_the_standard_notation() {
    for n in 0..2000usize {
        assert_eq!(decimal_string(n), format!("{}", n));
    }
    assert_eq!(decimal_string(usize::MAX), format!("{}", usize::MAX));
}

#[test]
fn different_numbers_are_written_differently() {
    for a in 0..120usize {
        for b in 0..120usize {
            if a != b {
                assert_ne!(decimal_string(a), decimal_string(b));
            }
        }
    }
}
