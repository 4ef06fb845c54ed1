use suicrypto_oracle::api_client::{render_report, ApiClient};
use suicrypto_oracle::AppError;

fn detail(r: Result<String, AppError>) -> String {
    match r {
        Err(AppError::ApiResponseError(m)) => m,
        other => panic!("expected a response error, got {:?}", other),
    }
}

#[test]
fn valid_payload_normalizes_exactly() {
    let payload = r#"{"coins": {"x": {"symbol": "SUI", "price": 1.23, "timestamp": 1700000000}}}"#;
    let out = ApiClient::process_api_response(payload).expect("valid payload");
    assert_eq!(out, r#"{"price":1.23,"symbol":"SUI","timestamp":"2023-11-14T22:13:20+00:00"}"#);
    let v: serde_json::Value = serde_json::from_str(&out).unwrap();
    assert_eq!(v["symbol"], "SUI");
    assert_eq!(v["price"].as_f64(), Some(1.23));
    assert_eq!(v["timestamp"], "2023-11-14T22:13:20+00:00");
}

#[test]
fn missing_price_is_a_format_error() {
    let payload = r#"{"coins": {"x": {"symbol": "SUI", "timestamp": 1700000000}}}"#;
    assert_eq!(detail(ApiClient::process_api_response(payload)), "Missing price in response");
}

#[test]
fn non_numeric_price_is_a_format_error() {
    let payload = r#"{"coins": {"x": {"symbol": "SUI", "price": "1.23", "timestamp": 1700000000}}}"#;
    assert_eq!(detail(ApiClient::process_api_response(payload)), "Missing price in response");
}

#[test]
fn integer_price_is_written_as_a_double() {
    let payload = r#"{"coins": {"x": {"symbol": "SUI", "price": 2, "timestamp": 0}}}"#;
    let out = ApiClient::process_api_response(payload).unwrap();
    assert_eq!(out, r#"{"price":2.0,"symbol":"SUI","timestamp":"1970-01-01T00:00:00+00:00"}"#);
}

#[test]
fn unparsable_payload_fails() {
    let m = detail(ApiClient::process_api_response("not json"));
    assert!(m.starts_with("JSON parsing error: "));
}

#[test]
fn missing_coins_fails() {
    assert_eq!(detail(ApiClient::process_api_response(r#"{"prices": {}}"#)), "Missing 'coins' key in response");
}

#[test]
fn empty_coins_fails() {
    assert_eq!(detail(ApiClient::process_api_response(r#"{"coins": {}}"#)), "No coins found");
}

#[test]
fn coins_not_an_object_fails() {
    assert_eq!(detail(ApiClient::process_api_response(r#"{"coins": [1, 2]}"#)), "No coins found");
}

#[test]
fn missing_symbol_fails() {
    let payload = r#"{"coins": {"x": {"price": 1.0, "timestamp": 1}}}"#;
    assert_eq!(detail(ApiClient::process_api_response(payload)), "Missing symbol in response");
}

#[test]
fn missing_timestamp_fails() {
    let payload = r#"{"coins": {"x": {"symbol": "SUI", "price": 1.0}}}"#;
    assert_eq!(detail(ApiClient::process_api_response(payload)), "Missing timestamp in response");
}

#[test]
fn out_of_range_timestamp_fails() {
    let payload = r#"{"coins": {"x": {"symbol": "SUI", "price": 1.0, "timestamp": 9223372036854775807}}}"#;
    assert_eq!(detail(ApiClient::process_api_response(payload)), "Invalid timestamp");
}

#[test]
fn first_coin_is_used() {
    let payload = r#"{"coins": {"a": {"symbol": "A", "price": 1.5, "timestamp": 60}, "b": {"symbol": "B", "price": 2.5, "timestamp": 60}}}"#;
    let out = ApiClient::process_api_response(payload).unwrap();
    assert_eq!(out, r#"{"price":1.5,"symbol":"A","timestamp":"1970-01-01T00:01:00+00:00"}"#);
}

#[test]
fn symbol_is_escaped() {
    let price = serde_json::Value::from(0.5);
    assert_eq!(render_report("a\"b", price, "t"), r#"{"price":0.5,"symbol":"a\"b","timestamp":"t"}"#);
}

#[test]
fn price_url_appends_address() {
    let c = ApiClient::new("0x2::sui::SUI".to_string());
    assert_eq!(c.price_url(), "https://coins.llama.fi/prices/current/sui:0x2::sui::SUI");
}

#[test]
fn error_messages_have_labels() {
    assert_eq!(AppError::TcpError("x".to_string()).to_string(), "TCP Error: x");
    assert_eq!(AppError::ApiResponseError("y".to_string()).to_string(), "API Response Processing Error: y");
    assert_eq!(AppError::BroadcastError("z".to_string()).to_string(), "Broadcast Channel Error: z");
    assert_eq!(AppError::JsonError("j".to_string()).to_string(), "JSON Processing Error: j");
}
