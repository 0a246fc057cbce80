use exchange_outpost::candle::{Candle, DecodeError, WireNumber};
use exchange_outpost::decimal::Dec;
use exchange_outpost::fin_data::{FinData, LookupError, LookupKind, TickersData};
use rust_decimal::prelude::FromPrimitive;
use rust_decimal::Decimal;

fn dec_of_f64(x: f64) -> Option<Dec> {
    match Decimal::from_f64(x) {
        Some(d) => Dec::checked(d.mantissa(), d.scale()),
        None => None,
    }
}

fn wire_num(x: f64) -> WireNumber {
    WireNumber { integer: None, decimal: dec_of_f64(x) }
}

fn wire_int(t: i64) -> WireNumber {
    WireNumber { integer: Some(t), decimal: dec_of_f64(t as f64) }
}

fn candle(t: i64, o: f64, h: f64, l: f64, c: f64, v: f64) -> Candle<Option<Dec>> {
    let values = vec![wire_int(t), wire_num(o), wire_num(h), wire_num(l), wire_num(c), wire_num(v)];
    Candle::from_wire(&values).unwrap()
}

fn ticker(symbol: &str, exchange: &str, precision: u32, candles: Vec<Candle<Option<Dec>>>) -> TickersData {
    TickersData { symbol: symbol.to_owned(), exchange: exchange.to_owned(), candles, precision }
}

fn as_decimal(d: Dec) -> Decimal {
    Decimal::from_i128_with_scale(d.mantissa, d.scale)
}

fn sample() -> FinData {
    let btc = ticker(
        "BTCUSD",
        "kraken",
        1,
        vec![candle(1000, 10.0, 12.0, 9.5, 11.0, 100.0)],
    );
    let eth = ticker(
        "ETHUSD",
        "kraken",
        2,
        vec![
            candle(1000, 1.005, 1.125, 0.875, 1.0, 10.0),
            candle(1060, 1.0, 1.5, 0.5, 1.25, 20.0),
            candle(1120, 1.25, 2.0, 1.0, 1.75, 30.0),
        ],
    );
    FinData::from_entries(
        vec![("BTCUSD".to_owned(), btc), ("ETHUSD".to_owned(), eth)],
        vec![("feed".to_owned(), "raw text".to_owned())],
        vec![("count".to_owned(), "42".to_owned()), ("email".to_owned(), "a@b.c".to_owned())],
    )
    .unwrap()
}

#[test]
fn labels_and_pipe_sources_in_decode_order() {
    let fin = sample();
    assert_eq!(fin.get_labels(), vec!["BTCUSD".to_owned(), "ETHUSD".to_owned()]);
    assert_eq!(fin.get_pipe_sources(), vec!["feed".to_owned()]);
}

#[test]
fn lookups_succeed_on_present_label() {
    let fin = sample();
    assert_eq!(fin.get_candles("BTCUSD").unwrap().len(), 1);
    assert_eq!(fin.get_ticker("ETHUSD").unwrap().precision, 2);
    assert_eq!(fin.get_candles_decimal("ETHUSD").unwrap().len(), 3);
}

#[test]
fn lookups_fail_not_found_on_absent_label() {
    let fin = sample();
    match fin.get_candles("DOGE") {
        Err(LookupError::NotFound { kind, key }) => {
            assert_eq!(kind, LookupKind::Symbol);
            assert_eq!(key, "DOGE");
        }
        _ => panic!("expected a not-found failure"),
    }
    match fin.get_ticker("DOGE") {
        Err(LookupError::NotFound { kind, key }) => {
            assert_eq!(kind, LookupKind::Ticker);
            assert_eq!(key, "DOGE");
        }
        _ => panic!("expected a not-found failure"),
    }
    match fin.get_candles_decimal("DOGE") {
        Err(LookupError::NotFound { kind, key }) => {
            assert_eq!(kind, LookupKind::Ticker);
            assert_eq!(key, "DOGE");
        }
        _ => panic!("expected a not-found failure"),
    }
    assert_eq!(fin.get_candles("DOGE").unwrap_err().code(), 1);
    assert_eq!(fin.get_ticker("DOGE").unwrap_err().code(), 3);
    assert_eq!(fin.get_candles_decimal("DOGE").unwrap_err().code(), 3);
    assert_eq!(fin.get_candles("DOGE").unwrap_err().key(), "DOGE");
}

#[test]
fn pipe_data_lookup() {
    let fin = sample();
    assert_eq!(fin.get_data_from_pipe("feed").unwrap(), "raw text");
    match fin.get_data_from_pipe("other") {
        Err(LookupError::NotFound { kind, key }) => {
            assert_eq!(kind, LookupKind::PipeSource);
            assert_eq!(key, "other");
        }
        _ => panic!("expected a not-found failure"),
    }
    assert_eq!(fin.get_data_from_pipe("other").unwrap_err().code(), 2);
}

#[test]
fn decimal_candles_keep_order() {
    let fin = sample();
    let ticker = fin.get_ticker("ETHUSD").unwrap();
    let plain = ticker.get_candles();
    let converted = ticker.get_candles_decimal();
    assert_eq!(plain.len(), converted.len());
    for i in 0..plain.len() {
        assert_eq!(plain[i].timestamp, converted[i].timestamp);
        let direct = as_decimal(plain[i].close.unwrap()).round_dp(ticker.precision);
        assert_eq!(as_decimal(converted[i].close), direct);
    }
    assert_eq!(converted[0].timestamp, 1000);
    assert_eq!(converted[1].timestamp, 1060);
    assert_eq!(converted[2].timestamp, 1120);
}

#[test]
fn scenario_btcusd_one_candle() {
    let fin = sample();
    let converted = fin.get_candles_decimal("BTCUSD").unwrap();
    assert_eq!(converted.len(), 1);
    let c = &converted[0];
    assert_eq!(c.timestamp, 1000);
    assert_eq!(as_decimal(c.open), Decimal::new(100, 1));
    assert_eq!(as_decimal(c.high), Decimal::new(120, 1));
    assert_eq!(as_decimal(c.low), Decimal::new(95, 1));
    assert_eq!(as_decimal(c.close), Decimal::new(110, 1));
    assert_eq!(as_decimal(c.volume), Decimal::new(1000, 1));
    assert!(c.open.scale <= 1);
    assert!(c.high.scale <= 1);
    assert!(c.low.scale <= 1);
    assert!(c.close.scale <= 1);
    assert!(c.volume.scale <= 1);
}

#[test]
fn duplicate_keys_are_rejected_whole() {
    let r = FinData::from_entries(
        Vec::new(),
        vec![
            ("feed".to_owned(), "one".to_owned()),
            ("feed".to_owned(), "two".to_owned()),
        ],
        Vec::new(),
    );
    match r {
        Err(e) => assert_eq!(e, DecodeError::DuplicateKey),
        Ok(_) => panic!("expected the duplicate key to be rejected"),
    }
}

#[test]
fn call_arguments_view() {
    let fin = sample();
    let args = fin.get_call_arguments();
    assert_eq!(args.len(), 2);
    assert_eq!(args[0].0, "count");
    assert_eq!(args[0].1, "42");
}
