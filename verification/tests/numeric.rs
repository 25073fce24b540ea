use radix::arith::{apply, op_from_token, Op};
use radix::convert::convert;
use radix::error::{ParseFault, RadixError};
use radix::parse::parse_hex;
use radix::render::format_value;
use radix::width::resolve;

#[test]
fn decimal_literals_parse_to_their_value() {
    let p = parse_hex("10").unwrap();
    assert_eq!(p.value, 10);
    assert!(!p.hex_fallback);
    let p = parse_hex("-42").unwrap();
    assert_eq!(p.value, -42);
    assert!(!p.hex_fallback);
    let p = parse_hex("+7").unwrap();
    assert_eq!(p.value, 7);
    let p = parse_hex("9223372036854775807").unwrap();
    assert_eq!(p.value, i64::MAX);
    let p = parse_hex("-9223372036854775808").unwrap();
    assert_eq!(p.value, i64::MIN);
}

#[test]
fn decimal_overflow_is_invalid_input() {
    assert!(matches!(
        parse_hex("99999999999999999999"),
        Err(RadixError::InvalidInput(ParseFault::Overflow))
    ));
}

#[test]
fn hex_prefix_selects_base_16_and_leading_zeros_are_ignored() {
    let p = parse_hex("0x1a").unwrap();
    assert_eq!(p.value, 26);
    assert!(!p.hex_fallback);
    assert_eq!(parse_hex("0xff").unwrap().value, 255);
    assert_eq!(parse_hex("0x00ff").unwrap().value, 255);
    assert_eq!(parse_hex("0x00000000000000001").unwrap().value, 1);
}

#[test]
fn unprefixed_hex_falls_back_with_notice() {
    let p = parse_hex("1a").unwrap();
    assert_eq!(p.value, 26);
    assert!(p.hex_fallback);
}

#[test]
fn negative_hex_is_rejected() {
    assert!(matches!(
        parse_hex("-1a"),
        Err(RadixError::InvalidInput(ParseFault::InvalidDigit))
    ));
    assert!(matches!(
        parse_hex("0x-5"),
        Err(RadixError::InvalidInput(ParseFault::InvalidDigit))
    ));
}

#[test]
fn empty_literals_are_invalid() {
    assert!(matches!(
        parse_hex(""),
        Err(RadixError::InvalidInput(ParseFault::Empty))
    ));
    assert!(matches!(
        parse_hex("0x"),
        Err(RadixError::InvalidInput(ParseFault::Empty))
    ));
}

#[test]
fn garbage_is_invalid_input() {
    assert!(matches!(
        parse_hex("zz"),
        Err(RadixError::InvalidInput(ParseFault::InvalidDigit))
    ));
}

#[test]
fn operator_tokens_map_to_operators() {
    assert_eq!(op_from_token("+").unwrap(), Op::Add);
    assert_eq!(op_from_token("-").unwrap(), Op::Sub);
    assert_eq!(op_from_token("*").unwrap(), Op::Mul);
    assert_eq!(op_from_token("/").unwrap(), Op::Div);
    assert_eq!(op_from_token("%").unwrap(), Op::Rem);
    match op_from_token("^") {
        Err(RadixError::UnsupportedOperator(t)) => assert_eq!(t, "^"),
        _ => panic!("expected an unsupported-operator error"),
    }
}

#[test]
fn addition_wraps_max_to_min() {
    assert_eq!(apply(i64::MAX, Op::Add, 1).unwrap(), i64::MIN);
}

#[test]
fn wrapping_arithmetic() {
    assert_eq!(apply(5, Op::Add, 3).unwrap(), 8);
    assert_eq!(apply(5, Op::Sub, 8).unwrap(), -3);
    assert_eq!(apply(i64::MIN, Op::Sub, 1).unwrap(), i64::MAX);
    assert_eq!(apply(1 << 62, Op::Mul, 2).unwrap(), i64::MIN);
    assert_eq!(apply(i64::MIN, Op::Div, -1).unwrap(), i64::MIN);
    assert_eq!(apply(7, Op::Div, -2).unwrap(), -3);
    assert_eq!(apply(-7, Op::Rem, 3).unwrap(), -1);
    assert_eq!(apply(7, Op::Rem, -3).unwrap(), 1);
    assert_eq!(apply(i64::MIN, Op::Rem, -1).unwrap(), 0);
}

#[test]
fn division_by_zero_is_an_error() {
    assert!(matches!(apply(5, Op::Div, 0), Err(RadixError::DivisionByZero)));
    assert!(matches!(apply(5, Op::Rem, 0), Err(RadixError::DivisionByZero)));
}

#[test]
fn width_inference_follows_the_fixed_chain() {
    assert_eq!(resolve(0, None), (2, false));
    assert_eq!(resolve(3, None), (2, false));
    assert_eq!(resolve(10, None), (8, false));
    assert_eq!(resolve(255, None), (8, false));
    assert_eq!(resolve(256, None), (16, false));
    assert_eq!(resolve(65535, None), (16, false));
    assert_eq!(resolve(65536, None), (32, false));
    assert_eq!(resolve(5_000_000_000, None), (64, false));
    assert_eq!(resolve(-300, None), (16, false));
    assert_eq!(resolve(i64::MIN, None), (64, false));
}

#[test]
fn small_requested_width_is_overridden() {
    assert_eq!(resolve(300, Some(8)), (16, true));
    assert_eq!(resolve(10, Some(4)), (8, true));
}

#[test]
fn larger_requested_width_is_honored() {
    assert_eq!(resolve(10, Some(64)), (64, false));
    assert_eq!(resolve(3, Some(4)), (4, false));
}

#[test]
fn formatting_pads_to_the_effective_width() {
    let f = format_value(10, 8);
    assert_eq!(f.decimal, "10");
    assert_eq!(f.hex, "0x0a");
    assert_eq!(f.binary, "0b00001010");
    let f = format_value(26, 8);
    assert_eq!(f.hex, "0x1a");
    assert_eq!(f.binary, "0b00011010");
    let f = format_value(10, 64);
    assert_eq!(f.hex, "0x000000000000000a");
}

#[test]
fn negative_values_format_as_twos_complement() {
    let f = format_value(-1, 8);
    assert_eq!(f.decimal, "-1");
    assert_eq!(f.hex, "0xffffffffffffffff");
    assert_eq!(
        f.binary,
        "0b1111111111111111111111111111111111111111111111111111111111111111"
    );
}

#[test]
fn scenario_plain_decimal() {
    let c = convert("10", None, None).unwrap();
    assert_eq!(c.value, 10);
    assert_eq!(c.width, 8);
    assert_eq!(c.output.decimal, "10");
    assert_eq!(c.output.hex, "0x0a");
    assert_eq!(c.output.binary, "0b00001010");
    assert!(!c.input_fallback);
    assert!(!c.width_substituted);
}

#[test]
fn scenario_prefixed_hex() {
    let c = convert("0x1a", None, None).unwrap();
    assert_eq!(c.value, 26);
    assert_eq!(c.output.decimal, "26");
    assert_eq!(c.output.hex, "0x1a");
    assert_eq!(c.output.binary, "0b00011010");
}

#[test]
fn scenario_fallback_notice() {
    let c = convert("1a", None, None).unwrap();
    assert_eq!(c.value, 26);
    assert!(c.input_fallback);
}

#[test]
fn scenario_addition() {
    let c = convert("5", Some(("+", "3")), None).unwrap();
    assert_eq!(c.value, 8);
    assert_eq!(c.output.decimal, "8");
}

#[test]
fn scenario_division_by_zero() {
    assert!(matches!(
        convert("5", Some(("/", "0")), None),
        Err(RadixError::DivisionByZero)
    ));
}

#[test]
fn unsupported_operator_surfaces_before_second_parse() {
    match convert("5", Some(("^", "zz")), None) {
        Err(RadixError::UnsupportedOperator(t)) => assert_eq!(t, "^"),
        _ => panic!("expected an unsupported-operator error"),
    }
}

#[test]
fn width_substitution_notice_in_pipeline() {
    let c = convert("300", None, Some(8)).unwrap();
    assert_eq!(c.width, 16);
    assert!(c.width_substituted);
    assert_eq!(c.output.hex, "0x012c");
}

#[test]
fn second_literal_may_fall_back_too() {
    let c = convert("2", Some(("*", "1a")), None).unwrap();
    assert_eq!(c.value, 52);
    assert!(!c.input_fallback);
    assert!(c.input2_fallback);
}

#[test]
fn error_messages_are_single_lines() {
    assert_eq!(RadixError::DivisionByZero.message(), "division by zero");
    assert_eq!(
        RadixError::UnsupportedOperator("^".to_string()).message(),
        "operator not implemented: ^"
    );
    assert_eq!(
        RadixError::InvalidInput(ParseFault::Empty).message(),
        "empty numeric literal"
    );
    assert_eq!(RadixError::DecodeFailure.message(), "cannot decode input string");
}
