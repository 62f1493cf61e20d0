use connector::config::{build_subscribe_msg, is_mock_mode, parse_symbols, symbols_json};
use connector::envelope::TradeEnvelope;
use connector::extract::extract_trade;
use connector::gen::mock_tick;
use connector::json::{JsonNum, JsonVal};
use connector::numfmt::{u128_to_dec, u64_to_dec};
use connector::pipeline::process_frame;
use connector::sequence::SequenceState;
use connector::wire::envelope_wire_json;

fn num_f(x: f64) -> JsonVal {
    JsonVal::Num(JsonNum { f_bits: x.to_bits(), as_u64: None })
}

fn num_u(x: u64) -> JsonVal {
    JsonVal::Num(JsonNum { f_bits: (x as f64).to_bits(), as_u64: Some(x) })
}

fn s(x: &str) -> JsonVal {
    JsonVal::Str(x.to_string())
}

fn obj(pairs: Vec<(&str, JsonVal)>) -> JsonVal {
    JsonVal::Obj(pairs.into_iter().map(|(k, v)| (k.to_string(), v)).collect())
}

const NOW: u128 = 1_712_000_000_000_000_000;

#[test]
fn end_to_end_single_frame() {
    // {"symbol":"BTC","px":50000.5,"qty":0.01,"side":"SELL","T":1700000000,"tid":"abc"}
    let frame = obj(vec![
        ("symbol", s("BTC")),
        ("px", num_f(50000.5)),
        ("qty", num_f(0.01)),
        ("side", s("SELL")),
        ("T", num_u(1_700_000_000)),
        ("tid", s("abc")),
    ]);
    let symbols = vec!["BTC".to_string()];
    let mut st = SequenceState::new();
    let envs = process_frame(&frame, &symbols, &mut st, "hyperliquid", 9001, NOW);
    assert_eq!(envs.len(), 1);
    let e = &envs[0];
    assert_eq!(e.venue, "hyperliquid");
    assert_eq!(e.symbol, "BTC");
    assert_eq!(e.channel, "trades");
    assert_eq!(e.seq, 1);
    assert_eq!(e.ts_exchange, 1_700_000_000_000_000);
    assert_eq!(e.ts_gateway, NOW);
    assert_eq!(f64::from_bits(e.px_bits), 50000.5);
    assert_eq!(f64::from_bits(e.qty_bits), 0.01);
    assert_eq!(e.aggressor, "sell");
    assert_eq!(e.trade_id, "abc");
    assert_eq!(e.src_conn_id, 9001);
}

#[test]
fn venue_sequence_passthrough_does_not_advance_counter() {
    let with_seq = obj(vec![("symbol", s("BTC")), ("px", num_f(1.0)), ("seq", num_u(42))]);
    let without_seq = obj(vec![("symbol", s("BTC")), ("px", num_f(1.0))]);
    let symbols = vec!["BTC".to_string()];
    let mut st = SequenceState::new();
    let envs = process_frame(&with_seq, &symbols, &mut st, "v", 1, NOW);
    assert_eq!(envs.len(), 1);
    assert_eq!(envs[0].seq, 42);
    // The local counter was not advanced: the next unsequenced trade gets 1.
    let envs = process_frame(&without_seq, &symbols, &mut st, "v", 1, NOW);
    assert_eq!(envs[0].seq, 1);
}

#[test]
fn unsubscribed_symbols_are_dropped() {
    let frame = JsonVal::Arr(vec![
        obj(vec![("symbol", s("BTC")), ("px", num_f(1.0))]),
        obj(vec![("symbol", s("DOGE")), ("px", num_f(2.0))]),
        obj(vec![("symbol", s("BTC")), ("px", num_f(3.0))]),
    ]);
    let symbols = vec!["BTC".to_string()];
    let mut st = SequenceState::new();
    let envs = process_frame(&frame, &symbols, &mut st, "v", 1, NOW);
    assert_eq!(envs.len(), 2);
    assert_eq!(envs[0].seq, 1);
    assert_eq!(envs[1].seq, 2);
}

#[test]
fn failed_extraction_is_skipped_not_fatal() {
    let frame = JsonVal::Arr(vec![
        obj(vec![("px", num_f(1.0))]),
        obj(vec![("symbol", s("BTC")), ("px", num_f(2.0))]),
    ]);
    let symbols = vec!["BTC".to_string()];
    let mut st = SequenceState::new();
    let envs = process_frame(&frame, &symbols, &mut st, "v", 1, NOW);
    assert_eq!(envs.len(), 1);
    assert_eq!(f64::from_bits(envs[0].px_bits), 2.0);
}

#[test]
fn wire_json_has_all_eleven_fields() {
    let frame = obj(vec![("symbol", s("BTC")), ("px", num_f(50000.5)), ("qty", num_f(0.01)), (
        "side",
        s("SELL"),
    ), ("T", num_u(1_700_000_000)), ("tid", s("abc"))]);
    let te = extract_trade(&frame, NOW).unwrap();
    let env = TradeEnvelope::from_trade_event_at("hyperliquid", te, 7, NOW);
    let text = envelope_wire_json(&env, "50000.5", "0.01");
    let v: serde_json::Value = serde_json::from_str(&text).unwrap();
    let m = v.as_object().unwrap();
    assert_eq!(m.len(), 11);
    assert_eq!(m["venue"], "hyperliquid");
    assert_eq!(m["symbol"], "BTC");
    assert_eq!(m["channel"], "trades");
    assert_eq!(m["seq"].as_u64(), Some(0));
    assert_eq!(m["ts_exchange"].as_u64(), Some(1_700_000_000_000_000));
    assert_eq!(m["ts_gateway"].as_u64(), Some(NOW as u64));
    assert_eq!(m["px"].as_f64(), Some(50000.5));
    assert_eq!(m["qty"].as_f64(), Some(0.01));
    assert_eq!(m["aggressor"], "sell");
    assert_eq!(m["trade_id"], "abc");
    assert_eq!(m["src_conn_id"].as_u64(), Some(7));
}

#[test]
fn wire_json_synthetic_is_schema_identical() {
    let env = mock_tick("hyperliquid", "ETH", 3, 1_000, 123, 456, 9);
    let text = envelope_wire_json(&env, "10000.03", "0.0013");
    let v: serde_json::Value = serde_json::from_str(&text).unwrap();
    let m = v.as_object().unwrap();
    assert_eq!(m.len(), 11);
    for key in [
        "venue", "symbol", "channel", "seq", "ts_exchange", "ts_gateway", "px", "qty",
        "aggressor", "trade_id", "src_conn_id",
    ] {
        assert!(m.contains_key(key), "missing field {}", key);
    }
    // The raw text keeps the durable field order.
    assert!(text.find("\"venue\"").unwrap() < text.find("\"symbol\"").unwrap());
    assert!(text.find("\"symbol\"").unwrap() < text.find("\"channel\"").unwrap());
    assert!(text.find("\"ts_exchange\"").unwrap() < text.find("\"ts_gateway\"").unwrap());
    assert!(text.find("\"trade_id\"").unwrap() < text.find("\"src_conn_id\"").unwrap());
    assert_eq!(m["channel"], "trades");
    assert_eq!(m["trade_id"], "ETH-3-1000");
    assert_eq!(m["aggressor"], "sell");
}

#[test]
fn wire_json_escapes_strings() {
    let env = TradeEnvelope {
        venue: "v".to_string(),
        symbol: "A\"B\\C".to_string(),
        channel: "trades".to_string(),
        seq: 1,
        ts_exchange: 2,
        ts_gateway: 3,
        px_bits: 0,
        qty_bits: 0,
        aggressor: "buy".to_string(),
        trade_id: "x\ny".to_string(),
        src_conn_id: 4,
    };
    let text = envelope_wire_json(&env, "0.0", "0.0");
    let v: serde_json::Value = serde_json::from_str(&text).unwrap();
    assert_eq!(v["symbol"], "A\"B\\C");
    assert_eq!(v["trade_id"], "x\ny");
}

#[test]
fn partition_key_is_venue_pipe_symbol() {
    let env = mock_tick("hyperliquid", "BTC", 1, 1, 0, 0, 0);
    assert_eq!(env.partition_key(), "hyperliquid|BTC");
}

#[test]
fn envelope_defaults_missing_seq_to_zero() {
    let frame = obj(vec![("symbol", s("BTC")), ("px", num_f(1.0))]);
    let te = extract_trade(&frame, NOW).unwrap();
    let env = TradeEnvelope::from_trade_event("v", te, 5);
    assert_eq!(env.seq, 0);
    assert_eq!(env.channel, "trades");
}

#[test]
fn decimal_rendering_exact() {
    assert_eq!(u64_to_dec(0), "0");
    assert_eq!(u64_to_dec(7), "7");
    assert_eq!(u64_to_dec(105), "105");
    assert_eq!(u64_to_dec(u64::MAX), "18446744073709551615");
    assert_eq!(u128_to_dec(1_700_000_000_000_000_000), "1700000000000000000");
}

#[test]
fn mock_tick_alternates_aggressor() {
    let even = mock_tick("v", "BTC", 2, 10, 0, 0, 0);
    let odd = mock_tick("v", "BTC", 3, 10, 0, 0, 0);
    assert_eq!(even.aggressor, "buy");
    assert_eq!(odd.aggressor, "sell");
    assert_eq!(even.trade_id, "BTC-2-10");
    assert_eq!(even.ts_exchange, 10);
    assert_eq!(even.ts_gateway, 10);
}

#[test]
fn mock_mode_selector() {
    assert!(is_mock_mode("1"));
    assert!(is_mock_mode("true"));
    assert!(is_mock_mode("TRUE"));
    assert!(is_mock_mode("yes"));
    assert!(!is_mock_mode(""));
    assert!(!is_mock_mode("0"));
    assert!(!is_mock_mode("True"));
}

#[test]
fn symbol_list_parsing() {
    let v = parse_symbols(" BTC , ETH ,, SOL ");
    assert_eq!(v, vec!["BTC".to_string(), "ETH".to_string(), "SOL".to_string()]);
    let v = parse_symbols("");
    assert!(v.is_empty());
    let v = parse_symbols(" , ");
    assert!(v.is_empty());
    let v = parse_symbols("BTC");
    assert_eq!(v, vec!["BTC".to_string()]);
}

#[test]
fn subscribe_message_default() {
    let symbols = vec!["BTC".to_string(), "ETH".to_string()];
    let msg = build_subscribe_msg(None, &symbols);
    assert_eq!(
        msg,
        "{\"method\":\"subscribe\",\"subscriptions\":[{\"channel\":\"trades\",\"symbol\":\"BTC\"},{\"channel\":\"trades\",\"symbol\":\"ETH\"}]}"
    );
    let v: serde_json::Value = serde_json::from_str(&msg).unwrap();
    assert_eq!(v["method"], "subscribe");
    assert_eq!(v["subscriptions"].as_array().unwrap().len(), 2);
}

#[test]
fn subscribe_message_template_replacement() {
    let symbols = vec!["BTC".to_string()];
    assert_eq!(symbols_json(&symbols), "[\"BTC\"]");
    let msg = build_subscribe_msg(Some("{\"op\":\"sub\",\"args\":$SYMBOLS}"), &symbols);
    assert_eq!(msg, "{\"op\":\"sub\",\"args\":[\"BTC\"]}");
}
