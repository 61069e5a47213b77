use math_lib::double::{holds_exactly, MAX_SCALE, SIGNIFICAND_LIMIT};
use math_lib::integral::Integral;
use math_lib::normalise::{check_components, NormaliseError};
use math_lib::{Vector2, Vector3, Vector4};

const TWO_TO_53: i128 = 9_007_199_254_740_992;

#[test]
fn significand_limit_is_two_to_the_53() {
    assert_eq!(SIGNIFICAND_LIMIT, 1u128 << 53);
    assert_eq!(SIGNIFICAND_LIMIT as i128, TWO_TO_53);
    assert_eq!(MAX_SCALE, 971);
}

#[test]
fn small_integers_are_doubles() {
    assert!(holds_exactly(0));
    assert!(holds_exactly(1));
    assert!(holds_exactly(-1));
    assert!(holds_exactly(TWO_TO_53 - 1));
    assert!(holds_exactly(-(TWO_TO_53 - 1)));
}

#[test]
fn two_to_the_53_is_a_double_and_its_successor_is_not() {
    assert!(holds_exactly(TWO_TO_53));
    assert!(!holds_exactly(TWO_TO_53 + 1));
    assert!(holds_exactly(TWO_TO_53 + 2));
    assert!(!holds_exactly(-(TWO_TO_53 + 1)));
    assert!(!holds_exactly(2 * (TWO_TO_53 + 1)));
}

#[test]
fn scaled_significands_are_doubles() {
    assert!(holds_exactly(3 << 100));
    assert!(holds_exactly((TWO_TO_53 - 1) << 70));
    assert!(!holds_exactly((TWO_TO_53 + 1) << 70));
}

#[test]
fn the_ends_of_the_widest_type() {
    assert!(holds_exactly(i128::MIN));
    assert!(!holds_exactly(i128::MAX));
    assert!(holds_exactly(i128::MIN / 2));
    assert!(!holds_exactly(i128::MIN + 1));
}

#[test]
fn exactness_agrees_with_the_cast_to_a_double() {
    let samples: [i128; 12] = [
        0,
        5,
        -77,
        TWO_TO_53 - 1,
        TWO_TO_53,
        TWO_TO_53 + 1,
        TWO_TO_53 + 2,
        -(TWO_TO_53 + 3),
        u64::MAX as i128,
        i64::MIN as i128,
        1 << 90,
        (1 << 90) + 1,
    ];
    for n in samples {
        let round_trip = (n as f64) as i128;
        assert_eq!(holds_exactly(n), round_trip == n);
    }
}

#[test]
fn widen_keeps_the_value() {
    assert_eq!(i8::MIN.widen(), -128);
    assert_eq!(i16::MAX.widen(), 32767);
    assert_eq!(i32::MIN.widen(), -2_147_483_648);
    assert_eq!(i64::MAX.widen(), 9_223_372_036_854_775_807);
    assert_eq!(i128::MIN.widen(), i128::MIN);
    assert_eq!((-5isize).widen(), -5);
    assert_eq!(u8::MAX.widen(), 255);
    assert_eq!(u16::MAX.widen(), 65535);
    assert_eq!(u32::MAX.widen(), 4_294_967_295);
    assert_eq!(u64::MAX.widen(), 18_446_744_073_709_551_615);
    assert_eq!(7usize.widen(), 7);
}

#[test]
fn components_that_can_be_normalised() {
    assert_eq!(check_components(&[1, 0]), Ok(()));
    assert_eq!(check_components(&[0, 0, -3]), Ok(()));
    assert_eq!(check_components(&[TWO_TO_53, 0, 0, 0]), Ok(()));
}

#[test]
fn zero_components_have_zero_length() {
    assert_eq!(check_components(&[]), Err(NormaliseError::ZeroLength));
    assert_eq!(check_components(&[0]), Err(NormaliseError::ZeroLength));
    assert_eq!(check_components(&[0, 0]), Err(NormaliseError::ZeroLength));
    assert_eq!(check_components(&[0, 0, 0, 0, 0]), Err(NormaliseError::ZeroLength));
}

#[test]
fn inexact_components_are_an_invalid_conversion() {
    assert_eq!(check_components(&[TWO_TO_53 + 1]), Err(NormaliseError::InvalidConversion));
    assert_eq!(check_components(&[0, TWO_TO_53 + 1]), Err(NormaliseError::InvalidConversion));
    assert_eq!(check_components(&[1, 2, i128::MAX]), Err(NormaliseError::InvalidConversion));
}

#[test]
fn normalise_zero_vector2_is_an_error() {
    let zero: Vector2<i32> = Vector2::new(0, 0);

    assert_eq!(zero.check_normalise(), Err(NormaliseError::ZeroLength));
}

#[test]
fn normalise_zero_vector_of_every_dimension_is_an_error() {
    assert_eq!(Vector2::new(0u8, 0).check_normalise(), Err(NormaliseError::ZeroLength));
    assert_eq!(Vector3::new(0i64, 0, 0).check_normalise(), Err(NormaliseError::ZeroLength));
    assert_eq!(Vector4::new(0usize, 0, 0, 0).check_normalise(), Err(NormaliseError::ZeroLength));
}

#[test]
fn normalise_accepts_a_vector_with_one_component() {
    assert_eq!(Vector2::new(0i8, -1).check_normalise(), Ok(()));
    assert_eq!(Vector3::new(0u32, 0, 7).check_normalise(), Ok(()));
    assert_eq!(Vector4::new(0i64, 0, 0, i64::MIN).check_normalise(), Ok(()));
    assert_eq!(Vector4::new(1i128 << 100, 0, 0, 0).check_normalise(), Ok(()));
}

#[test]
fn normalise_refuses_a_component_that_is_no_double() {
    assert_eq!(
        Vector2::new(u64::MAX, 0).check_normalise(),
        Err(NormaliseError::InvalidConversion)
    );
    assert_eq!(
        Vector3::new(0, i64::MAX, 0).check_normalise(),
        Err(NormaliseError::InvalidConversion)
    );
    assert_eq!(
        Vector4::new(0, 0, 0, TWO_TO_53 + 1).check_normalise(),
        Err(NormaliseError::InvalidConversion)
    );
}

#[test]
fn the_two_errors_differ() {
    assert_ne!(NormaliseError::InvalidConversion, NormaliseError::ZeroLength);
    assert_eq!(format!("{:?}", NormaliseError::ZeroLength), "ZeroLength");
    assert_eq!(format!("{:?}", NormaliseError::InvalidConversion), "InvalidConversion");
}
