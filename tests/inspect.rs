use block_lens::block::{decode_block, BlockField, BlockFields, BlockRecord};
use block_lens::clock::{latency_ms, now_ms};
use block_lens::numeric::{decode_hex, format_hex_id, parse_u64};
use block_lens::rpc::{block_number_request, fetch_params_text, reply_outcome, request_body, Method, RpcError};
use block_lens::target::{fetch_request, first_step, parse_target, plan, step_after_resolution, BlockId, BlockTarget, Step};
use serde_json::Value;

fn read_reply(body: &str) -> Result<Value, RpcError> {
    let v: Value = serde_json::from_str(body).map_err(RpcError::Json)?;
    let error = v.get("error").map(|e| e.to_string());
    reply_outcome(error, v["result"].clone())
}

fn block_fields(block: &Value) -> BlockFields {
    let text = |f: BlockField| block.get(f.key()).and_then(Value::as_str).map(str::to_string);
    BlockFields {
        number: text(BlockField::Number),
        timestamp: text(BlockField::Timestamp),
        gas_used: text(BlockField::GasUsed),
        gas_limit: text(BlockField::GasLimit),
        base_fee_per_gas: text(BlockField::BaseFeePerGas),
        transactions: block
            .get(BlockField::Transactions.key())
            .and_then(Value::as_array)
            .map(|a| a.len()),
    }
}

fn extract_record(block: &Value) -> BlockRecord {
    decode_block(&block_fields(block))
}

fn literal_fetch(step: &Step) -> Option<String> {
    match step {
        Step::Fetch(BlockId::Literal(s)) => Some(s.clone()),
        _ => None,
    }
}

const SCENARIO_BLOCK: &str = "{\"jsonrpc\":\"2.0\",\"id\":1,\"result\":{\"number\":\"0x64\",\"timestamp\":\"0x5f5e100\",\"gasUsed\":\"0x5208\",\"gasLimit\":\"0x1c9c380\",\"baseFeePerGas\":\"0x3b9aca00\",\"transactions\":[{},{}]}}";

#[test]
fn decode_hex_reads_prefixed_digits() {
    assert_eq!(decode_hex("0x64"), 100);
    assert_eq!(decode_hex("0x5f5e100"), 100_000_000);
    assert_eq!(decode_hex("0x3b9aca00"), 1_000_000_000);
    assert_eq!(decode_hex("0xAbC"), 0xabc);
    assert_eq!(decode_hex("0x0"), 0);
    assert_eq!(decode_hex("0xffffffffffffffff"), u64::MAX);
}

#[test]
fn decode_hex_prefix_is_optional() {
    assert_eq!(decode_hex("64"), 100);
    assert_eq!(decode_hex("1c9c380"), 30_000_000);
}

#[test]
fn decode_hex_defaults_to_zero() {
    assert_eq!(decode_hex(""), 0);
    assert_eq!(decode_hex("0x"), 0);
    assert_eq!(decode_hex("0xzz"), 0);
    assert_eq!(decode_hex("0X10"), 0);
    assert_eq!(decode_hex("0x-1"), 0);
    assert_eq!(decode_hex("0x10000000000000000"), 0);
    assert_eq!(decode_hex("0x12g"), 0);
    assert_eq!(decode_hex("0x+10"), 0);
    assert_eq!(decode_hex("+1"), 0);
    assert_eq!(decode_hex("0x0x10"), 0);
    assert_eq!(decode_hex("latest"), 0);
}

#[test]
fn block_field_keys() {
    assert_eq!(BlockField::Number.key(), "number");
    assert_eq!(BlockField::Timestamp.key(), "timestamp");
    assert_eq!(BlockField::GasUsed.key(), "gasUsed");
    assert_eq!(BlockField::GasLimit.key(), "gasLimit");
    assert_eq!(BlockField::BaseFeePerGas.key(), "baseFeePerGas");
    assert_eq!(BlockField::Transactions.key(), "transactions");
}

#[test]
fn parse_u64_decimal() {
    assert_eq!(parse_u64("42", 10), Some(42));
    assert_eq!(parse_u64("+7", 10), Some(7));
    assert_eq!(parse_u64("0", 10), Some(0));
    assert_eq!(parse_u64("18446744073709551615", 10), Some(u64::MAX));
    assert_eq!(parse_u64("18446744073709551616", 10), None);
    assert_eq!(parse_u64("", 10), None);
    assert_eq!(parse_u64("+", 10), None);
    assert_eq!(parse_u64("-1", 10), None);
    assert_eq!(parse_u64("4a", 10), None);
    assert_eq!(parse_u64("ff", 16), Some(255));
}

#[test]
fn format_hex_id_lowercase() {
    assert_eq!(format_hex_id(42), "0x2a");
    assert_eq!(format_hex_id(0), "0x0");
    assert_eq!(format_hex_id(100), "0x64");
    assert_eq!(format_hex_id(0xabcdef), "0xabcdef");
    assert_eq!(format_hex_id(u64::MAX), "0xffffffffffffffff");
}

#[test]
fn latest_needs_resolution() {
    assert!(matches!(parse_target("latest"), BlockTarget::Latest));
    assert!(matches!(plan("latest"), Step::Resolve));
    assert!(matches!(first_step(&BlockTarget::Latest), Step::Resolve));
}

#[test]
fn other_targets_fetch_directly() {
    assert!(matches!(plan("Latest"), Step::Fetch(_)));
    assert!(matches!(plan("latest1"), Step::Fetch(_)));
    assert!(matches!(plan("0x1"), Step::Fetch(_)));
    assert!(matches!(plan("7"), Step::Fetch(_)));
}

#[test]
fn hex_target_is_verbatim() {
    assert_eq!(literal_fetch(&plan("0xabc")), Some("0xabc".to_string()));
    assert_eq!(literal_fetch(&plan("0xnot-hex")), Some("0xnot-hex".to_string()));
    assert!(matches!(parse_target("0xabc"), BlockTarget::HexNumber(ref s) if s == "0xabc"));
}

#[test]
fn decimal_target_as_hex() {
    assert_eq!(literal_fetch(&plan("42")), Some("0x2a".to_string()));
    assert_eq!(literal_fetch(&plan("255")), Some("0xff".to_string()));
    assert!(matches!(parse_target("42"), BlockTarget::DecimalNumber(42)));
}

#[test]
fn unparseable_target_is_block_zero() {
    assert_eq!(literal_fetch(&plan("abc")), Some("0x0".to_string()));
    assert_eq!(literal_fetch(&plan("")), Some("0x0".to_string()));
    assert_eq!(literal_fetch(&plan("-5")), Some("0x0".to_string()));
    assert!(matches!(parse_target("1.5"), BlockTarget::DecimalNumber(0)));
}

#[test]
fn request_framing() {
    assert_eq!(
        block_number_request(),
        "{\"jsonrpc\":\"2.0\",\"id\":1,\"method\":\"eth_blockNumber\",\"params\":[]}"
    );
    assert_eq!(fetch_params_text("\"0x2a\""), "[\"0x2a\",true]");
    assert_eq!(
        request_body(Method::GetBlockByNumber, "[]"),
        "{\"jsonrpc\":\"2.0\",\"id\":1,\"method\":\"eth_getBlockByNumber\",\"params\":[]}"
    );
    let parsed: Value = serde_json::from_str(&block_number_request()).unwrap();
    assert_eq!(parsed.get("id").and_then(Value::as_u64), Some(1));
}

#[test]
fn fetch_request_quotes_literal() {
    let r = fetch_request(&BlockId::Literal("0x2a".to_string()));
    assert_eq!(
        r,
        "{\"jsonrpc\":\"2.0\",\"id\":1,\"method\":\"eth_getBlockByNumber\",\"params\":[\"0x2a\",true]}"
    );
    let odd = fetch_request(&BlockId::Literal("0x\"q".to_string()));
    let parsed: Value = serde_json::from_str(&odd).unwrap();
    assert_eq!(parsed["params"][0].as_str(), Some("0x\"q"));
    assert_eq!(parsed["params"][1].as_bool(), Some(true));
}

#[test]
fn fetch_request_passes_resolved_value() {
    let r = fetch_request(&BlockId::Resolved(Value::String("0x64".to_string())));
    assert_eq!(
        r,
        "{\"jsonrpc\":\"2.0\",\"id\":1,\"method\":\"eth_getBlockByNumber\",\"params\":[\"0x64\",true]}"
    );
    let n = fetch_request(&BlockId::Resolved(Value::from(7u64)));
    assert!(n.contains("\"params\":[7,true]"));
}

#[test]
fn fetch_request_escapes_literal() {
    let r = fetch_request(&BlockId::Literal("0xa\"b\\c\n\u{1}".to_string()));
    assert_eq!(
        r,
        "{\"jsonrpc\":\"2.0\",\"id\":1,\"method\":\"eth_getBlockByNumber\",\"params\":[\"0xa\\\"b\\\\c\\n\\u0001\",true]}"
    );
}

#[test]
fn reply_result_is_returned() {
    let v = read_reply("{\"jsonrpc\":\"2.0\",\"id\":1,\"result\":\"0x64\"}").unwrap();
    assert_eq!(v, Value::String("0x64".to_string()));
    let missing = read_reply("{\"jsonrpc\":\"2.0\",\"id\":1}").unwrap();
    assert_eq!(missing, Value::Null);
    let null = read_reply("{\"jsonrpc\":\"2.0\",\"id\":1,\"result\":null}").unwrap();
    assert!(null.is_null());
}

#[test]
fn reply_error_is_protocol_error() {
    let r = read_reply("{\"jsonrpc\":\"2.0\",\"id\":1,\"error\":{\"code\":-32000,\"message\":\"block not found\"}}");
    match r {
        Err(RpcError::Node(m)) => assert_eq!(m, "{\"code\":-32000,\"message\":\"block not found\"}"),
        other => panic!("expected a node error, got {:?}", other),
    }
}

#[test]
fn reply_error_wins_over_result() {
    let r = read_reply("{\"result\":\"0x1\",\"error\":\"busy\"}");
    assert!(matches!(r, Err(RpcError::Node(ref m)) if m == "\"busy\""));
    let o = reply_outcome(Some("x".to_string()), Value::Bool(true));
    assert!(matches!(o, Err(RpcError::Node(ref m)) if m == "x"));
    let ok = reply_outcome(None, Value::Bool(true));
    assert_eq!(ok.unwrap(), Value::Bool(true));
}

#[test]
fn reply_not_json() {
    assert!(matches!(read_reply("not json"), Err(RpcError::Json(_))));
    assert!(matches!(read_reply(""), Err(RpcError::Json(_))));
}

#[test]
fn scenario_latest() {
    assert!(matches!(plan("latest"), Step::Resolve));
    let tip = read_reply("{\"jsonrpc\":\"2.0\",\"id\":1,\"result\":\"0x64\"}").unwrap();
    let step = step_after_resolution(tip);
    let id = match step {
        Step::Fetch(id) => id,
        Step::Resolve => panic!("expected a fetch"),
    };
    assert_eq!(
        fetch_request(&id),
        "{\"jsonrpc\":\"2.0\",\"id\":1,\"method\":\"eth_getBlockByNumber\",\"params\":[\"0x64\",true]}"
    );
    let block = read_reply(SCENARIO_BLOCK).unwrap();
    let rec = extract_record(&block);
    assert_eq!(
        rec,
        BlockRecord {
            number: 100,
            timestamp: 100_000_000,
            tx_count: 2,
            gas_used: 21000,
            gas_limit: 30_000_000,
            base_fee_wei: 1_000_000_000,
        }
    );
    assert_eq!(format!("{}", rec.base_fee_wei as f64 / 1e9), "1");
}

#[test]
fn scenario_decimal_without_base_fee() {
    assert_eq!(literal_fetch(&plan("42")), Some("0x2a".to_string()));
    let block = read_reply("{\"result\":{\"number\":\"0x2a\",\"transactions\":[]}}").unwrap();
    let rec = extract_record(&block);
    assert_eq!(rec.number, 42);
    assert_eq!(rec.base_fee_wei, 0);
    assert_eq!(rec.tx_count, 0);
    assert_eq!(format!("{}", rec.base_fee_wei as f64 / 1e9), "0");
}

#[test]
fn scenario_hex_literal() {
    let step = plan("0xabc");
    assert!(!matches!(step, Step::Resolve));
    assert_eq!(literal_fetch(&step), Some("0xabc".to_string()));
}

#[test]
fn fields_of_non_object_are_absent() {
    let f = block_fields(&Value::Null);
    assert!(f.number.is_none() && f.timestamp.is_none() && f.transactions.is_none());
    let rec = extract_record(&Value::Null);
    assert_eq!(rec, BlockRecord { number: 0, timestamp: 0, tx_count: 0, gas_used: 0, gas_limit: 0, base_fee_wei: 0 });
}

#[test]
fn malformed_fields_default_to_zero() {
    let block = read_reply("{\"result\":{\"number\":100,\"gasUsed\":\"0xzz\",\"gasLimit\":\"0x10\",\"transactions\":\"many\"}}").unwrap();
    let f = block_fields(&block);
    assert!(f.number.is_none());
    assert_eq!(f.gas_used.as_deref(), Some("0xzz"));
    let rec = decode_block(&f);
    assert_eq!(rec.number, 0);
    assert_eq!(rec.gas_used, 0);
    assert_eq!(rec.gas_limit, 16);
    assert_eq!(rec.tx_count, 0);
}

#[test]
fn same_block_same_record() {
    let a = extract_record(&read_reply(SCENARIO_BLOCK).unwrap());
    let b = extract_record(&read_reply(SCENARIO_BLOCK).unwrap());
    assert_eq!(a, b);
    let f = BlockFields {
        number: Some("0x1".to_string()),
        timestamp: None,
        gas_used: Some("0x2".to_string()),
        gas_limit: None,
        base_fee_per_gas: Some("0x3".to_string()),
        transactions: Some(4),
    };
    assert_eq!(decode_block(&f), BlockRecord { number: 1, timestamp: 0, tx_count: 4, gas_used: 2, gas_limit: 0, base_fee_wei: 3 });
}

#[test]
fn latency_is_signed_difference() {
    assert_eq!(latency_ms(100, 250), 150);
    assert_eq!(latency_ms(250, 100), -150);
    assert_eq!(latency_ms(5, 5), 0);
}

#[test]
fn clock_reads_after_epoch() {
    let t0 = now_ms().unwrap();
    let t1 = now_ms().unwrap();
    assert!(t0 > 0);
    assert!(latency_ms(t0, t1) >= 0);
}
