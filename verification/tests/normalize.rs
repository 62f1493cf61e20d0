use connector::extract::extract_trade;
use connector::flatten::flatten_trade_items;
use connector::json::{JsonNum, JsonVal};
use connector::sequence::SequenceState;
use connector::timeunit::{scale_to_ns, scale_to_ns_at};

fn num_f(x: f64) -> JsonVal {
    JsonVal::Num(JsonNum { f_bits: x.to_bits(), as_u64: None })
}

fn num_u(x: u64) -> JsonVal {
    JsonVal::Num(JsonNum { f_bits: (x as f64).to_bits(), as_u64: Some(x) })
}

fn s(x: &str) -> JsonVal {
    JsonVal::Str(x.to_string())
}

fn obj(pairs: Vec<(&str, JsonVal)>) -> JsonVal {
    JsonVal::Obj(pairs.into_iter().map(|(k, v)| (k.to_string(), v)).collect())
}

const NOW: u128 = 1_700_000_000_000_000_000;

#[test]
fn scale_bands_canonical_inputs() {
    let giga: u128 = 1_000_000_000;
    let cases: Vec<(u128, u128, u128)> = vec![
        (1, giga, giga * giga),
        (100_000_000, giga, giga * giga),
        (999_999_999, giga, giga * giga),
        (giga, 1_000_000_000_000_000, giga * giga),
        (giga + 1, 1_000_000_000_000_000, giga * giga),
        (100_000_000_000, 1_000_000_000_000_000, giga * giga),
        (1_000_000_000_000, 1_000_000_000_000_000, giga * giga),
        (1_000_000_000_000 + 1, 1_000_000_000_000_000, giga * giga),
        (100_000_000_000_000, 1_000_000_000_000_000, giga * giga),
    ];
    for (t, lo, hi) in cases {
        let r = scale_to_ns(t);
        assert!(r >= lo && r < hi, "t={} scaled to {}", t, r);
    }
    // Values already at nanosecond scale pass through unchanged.
    assert_eq!(scale_to_ns(1_000_000_000_000_000), 1_000_000_000_000_000);
    assert_eq!(scale_to_ns(1_000_000_000_000_000 + 1), 1_000_000_000_000_000 + 1);
    assert_eq!(scale_to_ns(1_700_000_000_000_000_000), 1_700_000_000_000_000_000);
}

#[test]
fn scale_exact_values() {
    assert_eq!(scale_to_ns(1), 1_000_000_000);
    // Epoch seconds today exceed 10^9, so they land in the millisecond
    // class: the heuristic is magnitude-based, not a unit tag.
    assert_eq!(scale_to_ns(1_700_000_000), 1_700_000_000_000_000);
    assert_eq!(scale_to_ns(1_700_000_000_000), 1_700_000_000_000_000);
    assert_eq!(scale_to_ns(1_700_000_000_000_000), 1_700_000_000_000_000);
    assert_eq!(scale_to_ns(999_999_999), 999_999_999_000_000_000);
}

#[test]
fn scale_zero_yields_roughly_now() {
    let before = std::time::SystemTime::now()
        .duration_since(std::time::UNIX_EPOCH)
        .unwrap()
        .as_nanos();
    let r = scale_to_ns(0);
    let after = std::time::SystemTime::now()
        .duration_since(std::time::UNIX_EPOCH)
        .unwrap()
        .as_nanos();
    assert!(r >= before && r <= after);
}

#[test]
fn scale_at_uses_supplied_now_for_zero() {
    assert_eq!(scale_to_ns_at(0, 77), 77);
    assert_eq!(scale_to_ns_at(5, 77), 5_000_000_000);
}

#[test]
fn extract_symbol_aliases() {
    for key in ["symbol", "s", "coin"] {
        let v = obj(vec![(key, s("BTC")), ("px", num_f(1.5))]);
        let t = extract_trade(&v, NOW).expect(key);
        assert_eq!(t.symbol, "BTC");
    }
}

#[test]
fn extract_price_aliases() {
    for key in ["px", "price", "p"] {
        let v = obj(vec![("symbol", s("BTC")), (key, num_f(42.25))]);
        let t = extract_trade(&v, NOW).expect(key);
        assert_eq!(f64::from_bits(t.price_bits), 42.25);
    }
}

#[test]
fn extract_qty_aliases_and_default() {
    for key in ["qty", "size", "q"] {
        let v = obj(vec![("symbol", s("BTC")), ("px", num_f(1.0)), (key, num_f(0.5))]);
        let t = extract_trade(&v, NOW).expect(key);
        assert_eq!(f64::from_bits(t.qty_bits), 0.5);
    }
    let v = obj(vec![("symbol", s("BTC")), ("px", num_f(1.0))]);
    let t = extract_trade(&v, NOW).unwrap();
    assert_eq!(f64::from_bits(t.qty_bits), 0.0);
}

#[test]
fn extract_aggressor_aliases_and_defaults() {
    for key in ["aggressor", "side"] {
        let v = obj(vec![("symbol", s("BTC")), ("px", num_f(1.0)), (key, s("SELL"))]);
        let t = extract_trade(&v, NOW).expect(key);
        assert_eq!(t.aggressor, "sell");
    }
    let v = obj(vec![("symbol", s("BTC")), ("px", num_f(1.0)), ("isBuyerMaker", JsonVal::Bool(true))]);
    assert_eq!(extract_trade(&v, NOW).unwrap().aggressor, "sell");
    let v = obj(vec![("symbol", s("BTC")), ("px", num_f(1.0)), ("isBuyerMaker", JsonVal::Bool(false))]);
    assert_eq!(extract_trade(&v, NOW).unwrap().aggressor, "buy");
    let v = obj(vec![("symbol", s("BTC")), ("px", num_f(1.0))]);
    assert_eq!(extract_trade(&v, NOW).unwrap().aggressor, "buy");
}

#[test]
fn extract_trade_id_aliases_and_default() {
    for key in ["trade_id", "id", "tid"] {
        let v = obj(vec![("symbol", s("BTC")), ("px", num_f(1.0)), (key, s("t-9"))]);
        assert_eq!(extract_trade(&v, NOW).expect(key).trade_id, "t-9");
    }
    let v = obj(vec![("symbol", s("BTC")), ("px", num_f(1.0))]);
    assert_eq!(extract_trade(&v, NOW).unwrap().trade_id, "");
}

#[test]
fn extract_timestamp_aliases_and_default() {
    for key in ["ts", "timestamp", "time", "T", "t"] {
        let v = obj(vec![("symbol", s("BTC")), ("px", num_f(1.0)), (key, num_u(1_700_000_000))]);
        let t = extract_trade(&v, NOW).expect(key);
        assert_eq!(t.ts_exchange, 1_700_000_000_000_000);
    }
    // No timestamp key: the supplied wall-clock reading stands in.
    let v = obj(vec![("symbol", s("BTC")), ("px", num_f(1.0))]);
    assert_eq!(extract_trade(&v, NOW).unwrap().ts_exchange, NOW);
}

#[test]
fn extract_sequence_aliases_and_default() {
    for key in ["seq", "sequence", "event_id"] {
        let v = obj(vec![("symbol", s("BTC")), ("px", num_f(1.0)), (key, num_u(42))]);
        assert_eq!(extract_trade(&v, NOW).expect(key).seq, Some(42));
    }
    let v = obj(vec![("symbol", s("BTC")), ("px", num_f(1.0))]);
    assert_eq!(extract_trade(&v, NOW).unwrap().seq, None);
}

#[test]
fn extract_fails_without_symbol_or_price() {
    let v = obj(vec![("px", num_f(1.0))]);
    assert!(extract_trade(&v, NOW).is_none());
    let v = obj(vec![("symbol", s("BTC"))]);
    assert!(extract_trade(&v, NOW).is_none());
    let v = obj(vec![("qty", num_f(1.0))]);
    assert!(extract_trade(&v, NOW).is_none());
}

#[test]
fn extract_skips_non_numeric_price_alias() {
    // A price alias holding a string falls through to the next alias.
    let v = obj(vec![("symbol", s("BTC")), ("px", s("oops")), ("price", num_f(3.5))]);
    let t = extract_trade(&v, NOW).unwrap();
    assert_eq!(f64::from_bits(t.price_bits), 3.5);
}

#[test]
fn flatten_top_level_array() {
    let v = JsonVal::Arr(vec![obj(vec![]), obj(vec![]), obj(vec![])]);
    assert_eq!(flatten_trade_items(&v).len(), 3);
}

#[test]
fn flatten_data_array() {
    let v = obj(vec![("data", JsonVal::Arr(vec![obj(vec![]), obj(vec![])]))]);
    assert_eq!(flatten_trade_items(&v).len(), 2);
}

#[test]
fn flatten_data_object_is_sole_candidate() {
    let inner = obj(vec![("symbol", s("BTC"))]);
    let v = obj(vec![("data", inner)]);
    let items = flatten_trade_items(&v);
    assert_eq!(items.len(), 1);
    assert!(matches!(items[0], JsonVal::Obj(_)));
}

#[test]
fn flatten_trades_array() {
    let v = obj(vec![("trades", JsonVal::Arr(vec![obj(vec![]), obj(vec![]), obj(vec![]), obj(vec![])]))]);
    assert_eq!(flatten_trade_items(&v).len(), 4);
}

#[test]
fn flatten_bare_object_is_itself() {
    let v = obj(vec![("symbol", s("BTC")), ("px", num_f(1.0))]);
    let items = flatten_trade_items(&v);
    assert_eq!(items.len(), 1);
}

#[test]
fn flatten_non_array_trades_falls_back_to_self() {
    let v = obj(vec![("trades", s("x"))]);
    assert_eq!(flatten_trade_items(&v).len(), 1);
}

#[test]
fn sequence_gapless_for_fixed_symbol() {
    let mut st = SequenceState::new();
    for expected in 1u64..=5 {
        assert_eq!(st.next_seq("BTC"), expected);
    }
}

#[test]
fn sequence_counters_are_per_symbol() {
    let mut st = SequenceState::new();
    assert_eq!(st.next_seq("BTC"), 1);
    assert_eq!(st.next_seq("ETH"), 1);
    assert_eq!(st.next_seq("BTC"), 2);
    assert_eq!(st.next_seq("ETH"), 2);
    assert_eq!(st.next_seq("BTC"), 3);
}
