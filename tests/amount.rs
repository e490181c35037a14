use payments_engine::amount::{fixed_width_amount, Amount, MAX_DECIMAL_MANTISSA};

#[test]
fn printed_with_four_fractional_digits() {
    assert_eq!(fixed_width_amount(&Amount::new(8, 0)), "8.0000");
    assert_eq!(fixed_width_amount(&Amount::new(0, 0)), "0.0000");
    assert_eq!(fixed_width_amount(&Amount::new(-2, 0)), "-2.0000");
    assert_eq!(fixed_width_amount(&Amount::new(15, 1)), "1.5000");
    assert_eq!(fixed_width_amount(&Amount::new(5, 4)), "0.0005");
    assert_eq!(fixed_width_amount(&Amount::new(-5, 4)), "-0.0005");
    assert_eq!(fixed_width_amount(&Amount::new(123456789, 2)), "1234567.8900");
}

#[test]
fn printed_rounding_is_half_away_from_zero() {
    assert_eq!(fixed_width_amount(&Amount::new(123455, 5)), "1.2346");
    assert_eq!(fixed_width_amount(&Amount::new(-123455, 5)), "-1.2346");
    assert_eq!(fixed_width_amount(&Amount::new(123454, 5)), "1.2345");
    assert_eq!(fixed_width_amount(&Amount::new(-123454, 5)), "-1.2345");
    assert_eq!(fixed_width_amount(&Amount::new(99999, 5)), "1.0000");
}

#[test]
fn rounding_to_printed_scale() {
    assert_eq!(Amount::new(123455, 5).round_to_printed_scale(), 12346);
    assert_eq!(Amount::new(-123455, 5).round_to_printed_scale(), -12346);
    assert_eq!(Amount::new(3, 0).round_to_printed_scale(), 30000);
}

#[test]
fn decimal_parts_convert_exactly() {
    assert_eq!(Amount::from_decimal_parts(30, 1), Some(Amount::new(3, 0)));
    assert_eq!(Amount::from_decimal_parts(-25, 2), Some(Amount::new(-25, 2)));
    assert_eq!(Amount::from_decimal_parts(10, 19), Some(Amount::new(1, 18)));
    assert_eq!(Amount::from_decimal_parts(-200, 20), Some(Amount::new(-2, 18)));
    assert_eq!(
        Amount::from_decimal_parts(12_340_000_000_000_000_000_000_000_000, 28),
        Some(Amount::new(1234, 3))
    );
}

#[test]
fn decimal_parts_too_fine_or_too_large_are_refused() {
    assert_eq!(Amount::from_decimal_parts(1, 19), None);
    assert_eq!(Amount::from_decimal_parts(MAX_DECIMAL_MANTISSA, 0), None);
    assert_eq!(Amount::from_decimal_parts(-MAX_DECIMAL_MANTISSA, 0), None);
    assert_eq!(Amount::from_decimal_parts(MAX_DECIMAL_MANTISSA, 28), None);
    assert_eq!(Amount::from_decimal_parts(-20, 20), None);
}

#[test]
fn sum_and_negation() {
    let a = Amount::new(15, 1);
    let b = Amount::new(-4, 0);
    assert_eq!(a.checked_add(b), Some(Amount::new(-25, 1)));
    assert_eq!(a.neg(), Amount::new(-15, 1));
    assert!(b.is_negative());
    assert!(!a.is_negative());
    assert_eq!(Amount::default(), Amount::zero());
}
