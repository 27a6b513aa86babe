use rabbitmq_consumer_lib::utils::{
    bool_or_string, i32_or_string, option_i32_or_string, option_u64_or_string, u16_or_string,
    u64_or_string, BoolOrString, CoercionError, I32OrString, U16OrString, Unsigned64OrString,
};

fn text_i32(text: &str) -> Result<i32, CoercionError> {
    i32_or_string(I32OrString::Str(text.to_string()))
}

fn text_u16(text: &str) -> Result<u16, CoercionError> {
    u16_or_string(U16OrString::Str(text.to_string()))
}

fn text_u64(text: &str) -> Result<u64, CoercionError> {
    u64_or_string(Unsigned64OrString::Str(text.to_string()))
}

#[test]
fn truth_values() {
    assert_eq!(bool_or_string(BoolOrString::Bool(true)), Ok(true));
    assert_eq!(bool_or_string(BoolOrString::Bool(false)), Ok(false));
    assert_eq!(bool_or_string(BoolOrString::Str("true".into())), Ok(true));
    assert_eq!(bool_or_string(BoolOrString::Str("false".into())), Ok(false));
    for text in ["", "True", "1", "yes", " true", "false "] {
        assert_eq!(bool_or_string(BoolOrString::Str(text.into())), Err(CoercionError::NotBool));
        assert_eq!(text.parse::<bool>().is_err(), true);
    }
}

#[test]
fn signed_numbers() {
    assert_eq!(i32_or_string(I32OrString::Integer(-5)), Ok(-5));
    let texts = [
        "0", "1", "42", "-42", "+42", "007", "-0", "+0", "2147483647", "2147483648",
        "-2147483648", "-2147483649", "", "-", "+", "--1", "+-1", "1 ", " 1", "1.0", "0x10",
        "12a", "99999999999999999999999", "-99999999999999999999999", "١٢",
    ];
    for text in texts {
        assert_eq!(text_i32(text).ok(), text.parse::<i32>().ok());
    }
    assert_eq!(text_i32("2147483647"), Ok(i32::MAX));
    assert_eq!(text_i32("-2147483648"), Ok(i32::MIN));
    assert_eq!(text_i32("2147483648"), Err(CoercionError::NotNumber));
    assert_eq!(text_i32("abc"), Err(CoercionError::NotNumber));
}

#[test]
fn unsigned_numbers() {
    assert_eq!(u16_or_string(U16OrString::Integer(5672)), Ok(5672));
    assert_eq!(u64_or_string(Unsigned64OrString::Integer(120)), Ok(120));
    let texts = [
        "0", "5672", "+5672", "-1", "-0", "65535", "65536", "18446744073709551615",
        "18446744073709551616", "184467440737095516150", "", "+", "-", "12 ", "1_000",
        "000000000000000000000000001",
    ];
    for text in texts {
        assert_eq!(text_u16(text).ok(), text.parse::<u16>().ok());
        assert_eq!(text_u64(text).ok(), text.parse::<u64>().ok());
    }
    assert_eq!(text_u16("65535"), Ok(u16::MAX));
    assert_eq!(text_u16("65536"), Err(CoercionError::NotNumber));
    assert_eq!(text_u64("18446744073709551615"), Ok(u64::MAX));
    assert_eq!(text_u64("18446744073709551616"), Err(CoercionError::NotNumber));
}

#[test]
fn optional_numbers_never_fail() {
    assert_eq!(option_i32_or_string(None), Ok(None));
    assert_eq!(option_i32_or_string(Some(I32OrString::Integer(3306))), Ok(Some(3306)));
    assert_eq!(option_i32_or_string(Some(I32OrString::Str("3306".into()))), Ok(Some(3306)));
    assert_eq!(option_i32_or_string(Some(I32OrString::Str("".into()))), Ok(None));
    assert_eq!(option_i32_or_string(Some(I32OrString::Str("many".into()))), Ok(None));
    assert_eq!(option_u64_or_string(None), Ok(None));
    assert_eq!(option_u64_or_string(Some(Unsigned64OrString::Integer(30))), Ok(Some(30)));
    assert_eq!(option_u64_or_string(Some(Unsigned64OrString::Str("30".into()))), Ok(Some(30)));
    assert_eq!(option_u64_or_string(Some(Unsigned64OrString::Str("-30".into()))), Ok(None));
}
