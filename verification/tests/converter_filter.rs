use scf_core::convert::ValueConverter;
use scf_core::convert::int_to_string;
use scf_core::convert::parse_int;
use scf_core::filter::ValueFilter;
use scf_core::value::any::ConfigValue;

fn word_value(s: &str) -> ConfigValue {
    ConfigValue::Str(s.to_string())
}

#[test]
fn parse_int_reads_decimal_numbers() {
    assert_eq!(Some(10), parse_int("10"));
    assert_eq!(Some(0), parse_int("0"));
    assert_eq!(Some(-5), parse_int("-5"));
    assert_eq!(Some(1), parse_int("0001"));
    assert_eq!(None, parse_int(""));
    assert_eq!(None, parse_int("-"));
    assert_eq!(None, parse_int("xx1"));
    assert_eq!(None, parse_int("1x"));
    assert_eq!(None, parse_int("+1"));
    assert_eq!(Some(i64::MAX), parse_int("9223372036854775807"));
    assert_eq!(None, parse_int("9223372036854775808"));
    assert_eq!(Some(i64::MIN), parse_int("-9223372036854775808"));
    assert_eq!(None, parse_int("-9223372036854775809"));
    assert_eq!(None, parse_int("99999999999999999999999999"));
}

#[test]
fn int_to_string_renders_decimal_numbers() {
    assert_eq!("0", int_to_string(0).as_str());
    assert_eq!("7", int_to_string(7).as_str());
    assert_eq!("128", int_to_string(128).as_str());
    assert_eq!("-1", int_to_string(-1).as_str());
    assert_eq!("9223372036854775807", int_to_string(i64::MAX).as_str());
    assert_eq!("-9223372036854775808", int_to_string(i64::MIN).as_str());
}

#[test]
fn str_to_int_converter() {
    let c = ValueConverter::StrToInt;
    assert_eq!(Some(ConfigValue::Int(11)), c.convert(&word_value("11")));
    assert_eq!(None, c.convert(&word_value("error")));
    assert_eq!(None, c.convert(&ConfigValue::Int(11)));
    assert_eq!(None, c.convert(&ConfigValue::Bool(true)));
}

#[test]
fn int_to_str_converter() {
    let c = ValueConverter::IntToStr;
    assert_eq!(Some(word_value("-42")), c.convert(&ConfigValue::Int(-42)));
    assert_eq!(None, c.convert(&word_value("7")));
}

#[test]
fn decimal_round_trip() {
    for n in [0, 7, -7, 12345, i64::MAX, i64::MIN] {
        let rendered = ValueConverter::IntToStr.convert(&ConfigValue::Int(n)).unwrap();
        assert_eq!(Some(ConfigValue::Int(n)), ValueConverter::StrToInt.convert(&rendered));
    }
}

#[test]
fn str_to_bool_converter() {
    let c = ValueConverter::StrToBool;
    assert_eq!(Some(ConfigValue::Bool(true)), c.convert(&word_value("true")));
    assert_eq!(Some(ConfigValue::Bool(false)), c.convert(&word_value("false")));
    assert_eq!(None, c.convert(&word_value("TRUE")));
    assert_eq!(None, c.convert(&ConfigValue::Int(1)));
}

#[test]
fn rewrite_filter_passes_other_values() {
    let f = ValueFilter::Rewrite { from: ConfigValue::Int(10), to: ConfigValue::Int(5) };
    assert_eq!(Some(ConfigValue::Int(5)), f.filter(&ConfigValue::Int(10)));
    assert_eq!(Some(ConfigValue::Int(11)), f.filter(&ConfigValue::Int(11)));
    assert_eq!(Some(word_value("x")), f.filter(&word_value("x")));
}

#[test]
fn rewrite_only_filter_rejects_other_values() {
    let f = ValueFilter::RewriteOnly { from: word_value("ok"), to: word_value("ok_new") };
    assert_eq!(Some(word_value("ok_new")), f.filter(&word_value("ok")));
    assert_eq!(None, f.filter(&word_value("ok2")));
}

#[test]
fn int_range_filter_bounds_values() {
    let f = ValueFilter::IntRange { min: 0, max: 10 };
    assert_eq!(Some(ConfigValue::Int(2)), f.filter(&ConfigValue::Int(2)));
    assert_eq!(Some(ConfigValue::Int(0)), f.filter(&ConfigValue::Int(0)));
    assert_eq!(None, f.filter(&ConfigValue::Int(11)));
    assert_eq!(None, f.filter(&ConfigValue::Int(-1)));
    assert_eq!(None, f.filter(&word_value("2")));
}

#[test]
fn str_len_range_filter_bounds_lengths() {
    let f = ValueFilter::StrLenRange { min: 8, max: 32 };
    assert_eq!(None, f.filter(&word_value("ok2")));
    assert_eq!(Some(word_value("long-enough")), f.filter(&word_value("long-enough")));
    assert_eq!(None, f.filter(&ConfigValue::Int(8)));
}

#[test]
fn int_step_filter_matches_piecewise_rule() {
    let f = ValueFilter::IntStep { floor: 0, cap: 10 };
    assert_eq!(Some(ConfigValue::Int(1)), f.filter(&ConfigValue::Int(1)));
    assert_eq!(Some(ConfigValue::Int(12)), f.filter(&ConfigValue::Int(11)));
    assert_eq!(None, f.filter(&ConfigValue::Int(0)));
    assert_eq!(None, f.filter(&ConfigValue::Int(-3)));
    assert_eq!(None, f.filter(&word_value("xx1")));
    assert_eq!(None, f.filter(&ConfigValue::Int(i64::MAX)));
}
