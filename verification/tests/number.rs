use cas::number::integer::{ConversionError, Integer};
use cas::number::Number;
use num_bigint::BigInt;

#[test]
fn from_integer_implementations_work() {
    assert_eq!(Number::from(false), Number::zero());
    assert_eq!(Number::from(0i8), Number::zero());
    assert_eq!(Number::from(0i16), Number::zero());
    assert_eq!(Number::from(0i32), Number::zero());
    assert_eq!(Number::from(0i64), Number::zero());
    assert_eq!(Number::from(0isize), Number::zero());
    assert_eq!(Number::from(0u8), Number::zero());
    assert_eq!(Number::from(0u16), Number::zero());
    assert_eq!(Number::from(0u32), Number::zero());
    assert_eq!(Number::from(0u64), Number::zero());
    assert_eq!(Number::from(0usize), Number::zero());
}

#[test]
fn number_display_works() {
    assert_eq!(Number::zero().to_string(), "0");
    assert_eq!(Number::new(Integer::zero(), 2.into()).to_string(), "2i");
    assert_eq!(Number::new(3.into(), 2.into()).to_string(), "3 + 2i");
}

#[test]
fn number_from_bigint_works() {
    assert_eq!(Number::from(BigInt::ZERO), Number::zero());
}

#[test]
fn from_implementations_work() {
    assert_eq!(Integer::from(false), Integer::zero());
    assert_eq!(Integer::from(0i8), Integer::zero());
    assert_eq!(Integer::from(0i16), Integer::zero());
    assert_eq!(Integer::from(0i32), Integer::zero());
    assert_eq!(Integer::from(0i64), Integer::zero());
    assert_eq!(Integer::from(0isize), Integer::zero());
    assert_eq!(Integer::from(0u8), Integer::zero());
    assert_eq!(Integer::from(0u16), Integer::zero());
    assert_eq!(Integer::from(0u32), Integer::zero());
    assert_eq!(Integer::from(0u64), Integer::zero());
    assert_eq!(Integer::from(0usize), Integer::zero());
}

#[test]
fn partial_eq_lhs_implementations_work() {
    assert!(Integer::zero() == 0i8);
    assert!(Integer::zero() == 0i16);
    assert!(Integer::zero() == 0i32);
    assert!(Integer::zero() == 0i64);
    assert!(Integer::zero() == 0isize);
    assert!(Integer::zero() == 0u8);
    assert!(Integer::zero() == 0u16);
    assert!(Integer::zero() == 0u32);
    assert!(Integer::zero() == 0u64);
    assert!(Integer::zero() == 0usize);
}

#[test]
fn partial_eq_rhs_implementations_work() {
    assert!(0i8 == Integer::zero());
    assert!(0i16 == Integer::zero());
    assert!(0i32 == Integer::zero());
    assert!(0i64 == Integer::zero());
    assert!(0isize == Integer::zero());
    assert!(0u8 == Integer::zero());
    assert!(0u16 == Integer::zero());
    assert!(0u32 == Integer::zero());
    assert!(0u64 == Integer::zero());
    assert!(0usize == Integer::zero());
}

// The value -2^1024 in base 10.
const BIG_INT_STR: &str = "-179769313486231590772930519078902473361797697894230657273430081\
    157732675805500963132708477322407536021120113879871393357658789768814416622492847430639\
    474124377767893424865485276302219601246094119453082952085005768838150682342462881473913\
    110540827237163350510684586298239947245938479716304835356329624224137216";

#[test]
fn integer_from_bigint_works() {
    let big_int = BigInt::from(100);
    let integer = Integer::from(big_int);
    assert_eq!(integer.to_string(), rug::Integer::from(100).to_string());
    assert_eq!(integer, Integer::from(100));

    let x = BigInt::parse_bytes(BIG_INT_STR.as_bytes(), 10).unwrap();
    assert_eq!(
        Integer::from(x).to_string(),
        rug::Integer::from_str_radix(BIG_INT_STR, 10).unwrap().to_string()
    );
}

#[test]
fn from_integer_works() {
    let integer = Integer::from(100);
    let big_int = BigInt::from(integer);
    assert_eq!(big_int, BigInt::from(100));
}

#[test]
fn integer_survives_the_way_through_bigint() {
    let big = Integer::from_str_radix(BIG_INT_STR, 10).unwrap();
    let texts = [
        "0",
        "1",
        "-1",
        "35",
        "36",
        "18446744073709551615",
        "18446744073709551616",
        "-340282366920938463463374607431768211456",
        BIG_INT_STR,
        &BIG_INT_STR[1..],
    ];
    for text in texts {
        let integer = Integer::from_str_radix(text, 10).unwrap();
        let outside = BigInt::from(integer.clone());
        assert_eq!(outside, BigInt::parse_bytes(text.as_bytes(), 10).unwrap());
        let back = Integer::from(outside);
        assert_eq!(back, integer);
        assert_eq!(back.to_string(), text);
    }
    assert!(big.to_string().len() > 300);
}

#[test]
fn integer_survives_the_way_through_radix_36() {
    let texts = ["0", "-1", "zz", "-zz", "100000000000000000000000000000000000000000000"];
    for text in texts {
        let integer = Integer::from_str_radix(text, 36).unwrap();
        assert_eq!(integer.to_string_radix(36), text);
        assert_eq!(Integer::from_str_radix(&integer.to_string_radix(36), 36), Ok(integer));
    }
    let big = Integer::from_str_radix(BIG_INT_STR, 10).unwrap();
    let text = big.to_string_radix(36);
    assert_eq!(text, BigInt::parse_bytes(BIG_INT_STR.as_bytes(), 10).unwrap().to_str_radix(36));
    assert_eq!(Integer::from_str_radix(&text, 36), Ok(big));
}

#[test]
fn integer_text_of_machine_integers() {
    assert_eq!(Integer::from(true).to_string(), "1");
    assert_eq!(Integer::from(false).to_string(), "0");
    assert_eq!(Integer::from(i8::MIN).to_string(), "-128");
    assert_eq!(Integer::from(i16::MIN).to_string(), "-32768");
    assert_eq!(Integer::from(i32::MIN).to_string(), "-2147483648");
    assert_eq!(Integer::from(i64::MIN).to_string(), "-9223372036854775808");
    assert_eq!(Integer::from(isize::MAX).to_string(), isize::MAX.to_string());
    assert_eq!(
        Integer::from(i128::MIN).to_string(),
        "-170141183460469231731687303715884105728"
    );
    assert_eq!(Integer::from(i128::MAX).to_string(), "170141183460469231731687303715884105727");
    assert_eq!(Integer::from(u8::MAX).to_string(), "255");
    assert_eq!(Integer::from(u16::MAX).to_string(), "65535");
    assert_eq!(Integer::from(u32::MAX).to_string(), "4294967295");
    assert_eq!(Integer::from(u64::MAX).to_string(), "18446744073709551615");
    assert_eq!(Integer::from(usize::MAX).to_string(), usize::MAX.to_string());
    assert_eq!(Integer::from(u128::MAX).to_string(), "340282366920938463463374607431768211455");
    assert_eq!(Integer::from(1u128 << 64).to_string(), "18446744073709551616");
    assert_eq!(Integer::from(-(1i128 << 64)).to_string(), "-18446744073709551616");
}

#[test]
fn integer_text_in_a_radix() {
    assert_eq!(Integer::from(255).to_string_radix(16), "ff");
    assert_eq!(Integer::from(-255).to_string_radix(2), "-11111111");
    assert_eq!(Integer::from(35).to_string_radix(36), "z");
    assert_eq!(Integer::from(36).to_string_radix(36), "10");
    assert_eq!(Integer::from(-1295).to_string_radix(36), "-zz");
    assert_eq!(Integer::zero().to_string_radix(36), "0");
    let mut out = String::from("n = ");
    Integer::from(-12).fmt(&mut out);
    assert_eq!(out, "n = -12");
}

#[test]
fn integer_of_a_numeral() {
    assert_eq!(Integer::from_str_radix("0", 10), Ok(Integer::zero()));
    assert_eq!(Integer::from_str_radix("-0", 10), Ok(Integer::zero()));
    assert_eq!(Integer::from_str_radix("007", 10), Ok(Integer::from(7)));
    assert_eq!(Integer::from_str_radix("-42", 10), Ok(Integer::from(-42)));
    assert_eq!(Integer::from_str_radix("ff", 16), Ok(Integer::from(255)));
    assert_eq!(Integer::from_str_radix("-zz", 36), Ok(Integer::from(-1295)));
    assert_eq!(Integer::from_str_radix("101", 2), Ok(Integer::from(5)));
    assert_eq!(
        Integer::from_str_radix("340282366920938463463374607431768211455", 10),
        Ok(Integer::from(u128::MAX))
    );
    assert!(Integer::from_str_radix("-0", 36).unwrap().is_zero());
    assert_eq!(Integer::from_str_radix("-0", 36).unwrap().to_string(), "0");
}

#[test]
fn integer_rejects_what_is_no_numeral() {
    assert_eq!(Integer::from_str_radix("", 36), Err(ConversionError::NoDigits));
    assert_eq!(Integer::from_str_radix("-", 36), Err(ConversionError::NoDigits));
    assert_eq!(Integer::from_str_radix("--1", 36), Err(ConversionError::InvalidDigit));
    assert_eq!(Integer::from_str_radix("+1", 36), Err(ConversionError::InvalidDigit));
    assert_eq!(Integer::from_str_radix("1_000", 36), Err(ConversionError::InvalidDigit));
    assert_eq!(Integer::from_str_radix("1 000", 36), Err(ConversionError::InvalidDigit));
    assert_eq!(Integer::from_str_radix(" 1", 36), Err(ConversionError::InvalidDigit));
    assert_eq!(Integer::from_str_radix("AB", 36), Err(ConversionError::InvalidDigit));
    assert_eq!(Integer::from_str_radix("12a", 10), Err(ConversionError::InvalidDigit));
    assert_eq!(Integer::from_str_radix("2", 2), Err(ConversionError::InvalidDigit));
    assert_eq!(Integer::from_str_radix("1-", 10), Err(ConversionError::InvalidDigit));
    assert_eq!(Integer::from_str_radix("1é", 36), Err(ConversionError::InvalidDigit));
    assert_eq!(Integer::from_str_radix("é", 36), Err(ConversionError::InvalidDigit));
    assert_eq!(Integer::from_str_radix("-é", 36), Err(ConversionError::InvalidDigit));
}

#[test]
fn integer_equality_goes_by_value() {
    assert_eq!(Integer::from(5u8), Integer::from(5i64));
    assert_ne!(Integer::from(5), Integer::from(-5));
    assert_ne!(Integer::from(5), Integer::from(6));
    assert_ne!(Integer::from(u64::MAX), Integer::from(u128::MAX));
    assert_ne!(Integer::from(1u128 << 64), Integer::from((1u128 << 64) + 1));
    assert_ne!(Integer::from(1u128 << 64), Integer::from(2u128 << 64));
    assert_eq!(Integer::from(u128::MAX).clone(), Integer::from(u128::MAX));
    assert!(Integer::from(-3) == -3i8);
    assert!(-3i64 == Integer::from(-3));
    assert!(Integer::from(3) != -3i32);
    assert!(u128::MAX == Integer::from(u128::MAX));
    assert!(Integer::from(i128::MIN) == i128::MIN);
    assert!(Integer::from(i128::MIN) != i128::MAX);
    assert!(Integer::from(200) == 200u8);
    assert!(Integer::from(200) != 200u16 + 1);
    assert!(!Integer::from(1).is_zero());
    assert!(!Integer::from(-1).is_zero());
    assert!(Integer::zero().is_zero());
}

#[test]
fn number_is_zero_where_both_parts_are() {
    assert!(Number::zero().is_zero());
    assert!(Number::new(Integer::zero(), Integer::zero()).is_zero());
    assert!(!Number::new(Integer::from(1), Integer::zero()).is_zero());
    assert!(!Number::new(Integer::zero(), Integer::from(1)).is_zero());
    assert!(!Number::new(Integer::from(-1), Integer::from(1)).is_zero());
    assert!(!Number::from(7u64).is_zero());
    assert!(Number::from(false).is_zero());
    assert!(!Number::from(true).is_zero());
}

#[test]
fn number_text_of_each_shape() {
    assert_eq!(Number::from(-15).to_string(), "-15");
    assert_eq!(Number::from(true).to_string(), "1");
    assert_eq!(Number::from(u128::MAX).to_string(), "340282366920938463463374607431768211455");
    assert_eq!(Number::new(Integer::zero(), Integer::from(1)).to_string(), "1i");
    assert_eq!(Number::new(Integer::zero(), Integer::from(-4)).to_string(), "-4i");
    assert_eq!(Number::new(Integer::from(-3), Integer::from(-2)).to_string(), "-3 + -2i");
    let mut out = String::from("z = ");
    Number::new(Integer::from(1), Integer::from(2)).fmt(&mut out);
    assert_eq!(out, "z = 1 + 2i");
}

#[test]
fn number_equality_goes_by_both_parts() {
    assert_eq!(Number::from(3), Number::new(Integer::from(3), Integer::zero()));
    assert_ne!(Number::from(3), Number::new(Integer::from(3), Integer::from(1)));
    assert_ne!(Number::from(3), Number::from(4));
    assert_eq!(Number::from(3).clone(), Number::from(3u8));
    let big = BigInt::parse_bytes(BIG_INT_STR.as_bytes(), 10).unwrap();
    assert_eq!(Number::from(big).to_string(), BIG_INT_STR);
    assert_eq!(Number::from(BigInt::from(-5)), Number::from(-5));
}

#[test]
fn integer_text_agrees_with_rug() {
    let texts = [
        "0",
        "9",
        "-10",
        "18446744073709551615",
        "18446744073709551616",
        "-18446744073709551617",
        "340282366920938463463374607431768211455",
        "340282366920938463463374607431768211456",
        "-6277101735386680763835789423207666416102355444464034512896",
        BIG_INT_STR,
    ];
    for text in texts {
        let ours = Integer::from_str_radix(text, 10).unwrap();
        let theirs = rug::Integer::from_str_radix(text, 10).unwrap();
        assert_eq!(ours.to_string(), theirs.to_string());
        for radix in [2, 3, 10, 16, 35, 36] {
            let numeral = theirs.to_string_radix(radix);
            assert_eq!(ours.to_string_radix(radix), numeral);
            assert_eq!(Integer::from_str_radix(&numeral, radix), Ok(ours.clone()));
        }
        assert_eq!(ours.is_zero(), theirs == 0);
    }
}

#[test]
fn leaf_types_are_the_same_types() {
    let integer: cas::types::Integer = Integer::from(100i64);
    assert_eq!(integer, cas::types::Integer::from(100i64));
    assert_eq!(integer.to_string(), "100");
}
