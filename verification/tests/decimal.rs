use jupiter_swap_api_client::decimal::{Decimal, MAX_MANTISSA, MAX_SCALE};

#[test]
fn decimal_is_read_from_its_text() {
    let number = Decimal::from_str("1.234").unwrap();
    assert_eq!(number.mantissa(), 1234);
    assert_eq!(number.scale(), 3);
    let number = Decimal::from_str("-0.001").unwrap();
    assert_eq!(number.mantissa(), -1);
    assert_eq!(number.scale(), 3);
    let number = Decimal::from_str("42").unwrap();
    assert_eq!(number.mantissa(), 42);
    assert_eq!(number.scale(), 0);
}

#[test]
fn decimal_is_written_as_its_text() {
    assert_eq!(Decimal::new(1234, 3).unwrap().to_string(), "1.234");
    assert_eq!(Decimal::new(-1, 3).unwrap().to_string(), "-0.001");
    assert_eq!(Decimal::new(0, 0).unwrap().to_string(), "0");
    assert_eq!(Decimal::new(5, 1).unwrap().to_string(), "0.5");
    assert_eq!(Decimal::new(1200, 2).unwrap().to_string(), "12.00");
    assert_eq!(
        Decimal::new(MAX_MANTISSA, 0).unwrap().to_string(),
        "79228162514264337593543950335"
    );
    assert_eq!(
        Decimal::new(-MAX_MANTISSA, MAX_SCALE).unwrap().to_string(),
        "-7.9228162514264337593543950335"
    );
}

#[test]
fn decimal_rejects_what_is_no_number() {
    assert_eq!(Decimal::from_str(""), None);
    assert_eq!(Decimal::from_str("abc"), None);
    assert_eq!(Decimal::from_str("1.2.3"), None);
    assert_eq!(Decimal::from_str("--1"), None);
}

#[test]
fn decimal_new_holds_the_limits() {
    assert!(Decimal::new(MAX_MANTISSA, MAX_SCALE).is_some());
    assert!(Decimal::new(-MAX_MANTISSA, 0).is_some());
    assert_eq!(Decimal::new(MAX_MANTISSA + 1, 0), None);
    assert_eq!(Decimal::new(-MAX_MANTISSA - 1, 0), None);
    assert_eq!(Decimal::new(0, MAX_SCALE + 1), None);
    assert_eq!(Decimal::new(i128::MAX, 0), None);
    assert_eq!(Decimal::new(1, u32::MAX), None);
}

#[test]
fn decimal_text_agrees_with_the_decimal_crate() {
    for text in ["0", "0.0", "1", "-1", "0.0012", "123456789.987654321", "-0.10", "1e3", "+7"] {
        let theirs = text.parse::<rust_decimal::Decimal>().ok();
        let ours = Decimal::from_str(text);
        match (theirs, ours) {
            (Some(theirs), Some(ours)) => {
                assert_eq!(ours.mantissa(), theirs.mantissa());
                assert_eq!(ours.scale(), theirs.scale());
                assert_eq!(ours.to_string(), theirs.to_string());
            }
            (None, None) => {}
            (theirs, ours) => panic!("{:?}: {:?} and {:?}", text, theirs, ours),
        }
    }
}

#[test]
fn decimal_of_a_whole_number() {
    assert_eq!(Decimal::from_u64(0), Decimal::new(0, 0).unwrap());
    assert_eq!(Decimal::from_u64(u64::MAX).to_string(), "18446744073709551615");
    assert_eq!(Decimal::from_i64(i64::MIN).to_string(), "-9223372036854775808");
    assert_eq!(Decimal::from_i64(-7), Decimal::new(-7, 0).unwrap());
}

#[test]
fn decimal_is_read_back_from_its_own_text() {
    for (mantissa, scale) in [(0, 0), (0, 5), (1234, 3), (-1, 28), (MAX_MANTISSA, 0), (-MAX_MANTISSA, 28)] {
        assert!(Decimal::new(mantissa, scale).unwrap().round_trips(), "{} {}", mantissa, scale);
    }
}
