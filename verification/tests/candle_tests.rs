use exchange_outpost::candle::{Candle, DecodeError, WireNumber};
use exchange_outpost::decimal::Dec;
use rust_decimal::prelude::FromPrimitive;
use rust_decimal::Decimal;

fn dec_of_f64(x: f64) -> Option<Dec> {
    match Decimal::from_f64(x) {
        Some(d) => Dec::checked(d.mantissa(), d.scale()),
        None => None,
    }
}

fn wire_num(x: f64) -> WireNumber {
    let integer = if x.is_finite() && x.fract() == 0.0 && x >= i64::MIN as f64 && x <= i64::MAX as f64 {
        Some(x as i64)
    } else {
        None
    };
    WireNumber { integer, decimal: dec_of_f64(x) }
}

fn wire_int(t: i64) -> WireNumber {
    WireNumber { integer: Some(t), decimal: dec_of_f64(t as f64) }
}

fn wire_candle(t: i64, o: f64, h: f64, l: f64, c: f64, v: f64) -> Vec<WireNumber> {
    vec![wire_int(t), wire_num(o), wire_num(h), wire_num(l), wire_num(c), wire_num(v)]
}

fn as_decimal(d: Dec) -> Decimal {
    Decimal::from_i128_with_scale(d.mantissa, d.scale)
}

#[test]
fn decode_round_trip() {
    let values = wire_candle(1700000000, 1.5, 2.5, 0.5, 2.0, 1000.0);
    let candle = Candle::from_wire(&values).unwrap();
    assert_eq!(candle.timestamp, 1700000000);
    assert_eq!(candle.open, values[1].decimal);
    assert_eq!(candle.high, values[2].decimal);
    assert_eq!(candle.low, values[3].decimal);
    assert_eq!(candle.close, values[4].decimal);
    assert_eq!(candle.volume, values[5].decimal);
    assert_eq!(as_decimal(candle.open.unwrap()), Decimal::new(15, 1));
    assert_eq!(as_decimal(candle.volume.unwrap()), Decimal::new(1000, 0));
}

#[test]
fn decode_wrong_arity_short() {
    let mut values = wire_candle(1000, 1.0, 2.0, 0.5, 1.5, 10.0);
    values.pop();
    assert_eq!(Candle::from_wire(&values), Err(DecodeError::WrongArity { found: 5 }));
}

#[test]
fn decode_wrong_arity_long() {
    let mut values = wire_candle(1000, 1.0, 2.0, 0.5, 1.5, 10.0);
    values.push(wire_num(3.0));
    assert_eq!(Candle::from_wire(&values), Err(DecodeError::WrongArity { found: 7 }));
}

#[test]
fn decode_wrong_arity_empty() {
    let values: Vec<WireNumber> = Vec::new();
    assert_eq!(Candle::from_wire(&values), Err(DecodeError::WrongArity { found: 0 }));
}

#[test]
fn decode_timestamp_must_be_integer() {
    let mut values = wire_candle(1000, 1.0, 2.0, 0.5, 1.5, 10.0);
    values[0] = wire_num(1000.5);
    assert_eq!(Candle::from_wire(&values), Err(DecodeError::NotAnInteger));
}

#[test]
fn to_decimal_banker_rounding() {
    let values = wire_candle(7, 1.005, 2.675, 0.125, 1.0, 3.0);
    let candle = Candle::from_wire(&values).unwrap();
    let converted = candle.to_decimal(2);
    assert_eq!(converted.timestamp, 7);
    // Same pipeline as the reference crate computes directly.
    let direct = Decimal::from_f64(1.005).unwrap().round_dp(2);
    assert_eq!(converted.open.mantissa, direct.mantissa());
    assert_eq!(converted.open.scale, direct.scale());
    // Half-to-even: 1.005 -> 1.00 and 2.675 -> 2.68, each kept to 2 digits.
    assert_eq!(as_decimal(converted.open), Decimal::new(100, 2));
    assert_eq!(as_decimal(converted.high), Decimal::new(268, 2));
    assert_eq!(as_decimal(converted.low), Decimal::new(12, 2));
    assert!(converted.open.scale <= 2);
    assert!(converted.high.scale <= 2);
}

#[test]
fn to_decimal_non_finite_becomes_zero() {
    let mut values = wire_candle(42, 1.0, 2.0, 0.5, 1.5, 10.0);
    values[1] = WireNumber { integer: None, decimal: dec_of_f64(f64::NAN) };
    values[2] = WireNumber { integer: None, decimal: dec_of_f64(f64::INFINITY) };
    values[3] = WireNumber { integer: None, decimal: dec_of_f64(f64::NEG_INFINITY) };
    let candle = Candle::from_wire(&values).unwrap();
    assert_eq!(candle.open, None);
    assert_eq!(candle.high, None);
    assert_eq!(candle.low, None);
    let converted = candle.to_decimal(3);
    assert_eq!(converted.open, Dec { mantissa: 0, scale: 0 });
    assert_eq!(converted.high, Dec { mantissa: 0, scale: 0 });
    assert_eq!(converted.low, Dec { mantissa: 0, scale: 0 });
    assert_eq!(converted.timestamp, 42);
    // The finite fields are still converted normally.
    assert_eq!(as_decimal(converted.close), Decimal::new(1500, 3));
}

#[test]
fn to_decimal_timestamp_untouched_by_precision() {
    let values = wire_candle(987654321, 5.0, 6.0, 4.0, 5.5, 1.0);
    let candle = Candle::from_wire(&values).unwrap();
    assert_eq!(candle.to_decimal(0).timestamp, 987654321);
    assert_eq!(candle.to_decimal(9).timestamp, 987654321);
}
