use binance_md::decode::string_or_float;
use binance_md::errors::DecodeError;
use binance_md::json::Json;
use binance_md::models::{Interval, Number};
use binance_md::text::{parse_i64, parse_u64, u64_to_dec};

fn as_f64(n: &Number) -> f64 {
    match n {
        Number::Inf => f64::INFINITY,
        Number::NegInf => f64::NEG_INFINITY,
        Number::NaN => f64::NAN,
        Number::Lit(tok) => tok.parse::<f64>().expect("validated token parses"),
    }
}

#[test]
fn inf_string_is_positive_infinity() {
    let v = Json::Str("INF".to_string());
    let n = string_or_float(&v, "price").expect("INF coerces");
    assert_eq!(n, Number::Inf);
    assert!(as_f64(&n).is_infinite());
    assert!(as_f64(&n) > 0.0);
}

#[test]
fn numeric_string_coerces() {
    let v = Json::Str("123.45".to_string());
    let n = string_or_float(&v, "price").expect("numeric string coerces");
    assert_eq!(as_f64(&n), 123.45);
}

#[test]
fn native_number_coerces() {
    let v = Json::Num("5".to_string());
    let n = string_or_float(&v, "qty").expect("native number coerces");
    assert_eq!(as_f64(&n), 5.0);
}

#[test]
fn non_numeric_string_fails() {
    let v = Json::Str("abc".to_string());
    let e = string_or_float(&v, "price").unwrap_err();
    assert_eq!(e, DecodeError::BadNumber("price".to_string()));
}

#[test]
fn wrong_shape_fails_as_mistyped() {
    let v = Json::Bool(true);
    let e = string_or_float(&v, "qty").unwrap_err();
    assert_eq!(e, DecodeError::Mistyped("qty".to_string()));
}

#[test]
fn negative_and_exponent_forms_coerce() {
    for tok in ["-0.5", "1e3", "-2.5E-2", "7.", ".5", "0"] {
        let v = Json::Str(tok.to_string());
        let n = string_or_float(&v, "x").expect("numeric form coerces");
        assert_eq!(as_f64(&n), tok.parse::<f64>().unwrap());
    }
}

#[test]
fn malformed_numeric_forms_fail() {
    for tok in ["", "-", "+", ".", "1.2.3", "5e", "e3", " 5", "5 ", "+-5", "infi", "in", "nana", "1,5"] {
        let v = Json::Str(tok.to_string());
        assert!(string_or_float(&v, "x").is_err(), "{tok:?} must fail");
        assert!(tok.parse::<f64>().is_err(), "float parsing rejects {tok:?} too");
    }
}

#[test]
fn word_forms_coerce_like_float_parsing() {
    for tok in ["inf", "Inf", "INF", "infinity", "Infinity", "+inf", "+INFINITY"] {
        let v = Json::Str(tok.to_string());
        let n = string_or_float(&v, "x").expect("positive infinity form");
        assert_eq!(n, Number::Inf, "{tok:?}");
        assert_eq!(tok.parse::<f64>().unwrap(), f64::INFINITY);
    }
    for tok in ["-inf", "-INF", "-Infinity", "-INFINITY"] {
        let v = Json::Str(tok.to_string());
        let n = string_or_float(&v, "x").expect("negative infinity form");
        assert_eq!(n, Number::NegInf, "{tok:?}");
        assert_eq!(tok.parse::<f64>().unwrap(), f64::NEG_INFINITY);
    }
    for tok in ["nan", "NaN", "NAN", "-nan", "+NaN"] {
        let v = Json::Str(tok.to_string());
        let n = string_or_float(&v, "x").expect("nan form");
        assert_eq!(n, Number::NaN, "{tok:?}");
        assert!(tok.parse::<f64>().unwrap().is_nan());
        assert!(as_f64(&n).is_nan());
    }
}

#[test]
fn plus_signed_numbers_coerce() {
    for tok in ["+1", "+123.45", "+.5", "+5e-1"] {
        let v = Json::Str(tok.to_string());
        let n = string_or_float(&v, "x").expect("plus-signed number");
        assert_eq!(as_f64(&n), tok.parse::<f64>().unwrap(), "{tok:?}");
    }
}

#[test]
fn interval_rendering_all_tags() {
    assert_eq!(Interval::Minute(1).render(), "1m");
    assert_eq!(Interval::Hour(4).render(), "4h");
    assert_eq!(Interval::Day(30).render(), "30d");
    assert_eq!(Interval::Month(12).render(), "12M");
}

#[test]
fn interval_rendering_zero_and_large() {
    assert_eq!(Interval::Minute(0).render(), "0m");
    assert_eq!(Interval::Month(0).render(), "0M");
    assert_eq!(Interval::Hour(18446744073709551615).render(), "18446744073709551615h");
}

#[test]
fn minute_and_month_differ_only_in_case() {
    let m = Interval::Minute(3).render();
    let mo = Interval::Month(3).render();
    assert_eq!(m, "3m");
    assert_eq!(mo, "3M");
    assert_ne!(m, mo);
}

#[test]
fn decimal_rendering_reads_back() {
    for n in [0u64, 1, 9, 10, 99, 100, 5000, 1499827319559, u64::MAX] {
        let s = u64_to_dec(n);
        assert_eq!(parse_u64(&s), Some(n));
    }
    assert_eq!(u64_to_dec(0), "0");
    assert_eq!(u64_to_dec(18446744073709551615), "18446744073709551615");
}

#[test]
fn integer_parsing_bounds() {
    assert_eq!(parse_u64("18446744073709551615"), Some(u64::MAX));
    assert_eq!(parse_u64("18446744073709551616"), None);
    assert_eq!(parse_u64(""), None);
    assert_eq!(parse_u64("12a"), None);
    assert_eq!(parse_i64("-9223372036854775808"), Some(i64::MIN));
    assert_eq!(parse_i64("9223372036854775807"), Some(i64::MAX));
    assert_eq!(parse_i64("9223372036854775808"), None);
    assert_eq!(parse_i64("-9223372036854775809"), None);
    assert_eq!(parse_i64("-0"), Some(0));
    assert_eq!(parse_i64("-"), None);
}
