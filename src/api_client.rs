use serde_json::Value;
use vstd::prelude::*;

use crate::error::AppError;
use crate::json::{
    as_float, as_i64, as_str, first_member, first_value, json_float, json_i64, json_pointer,
    json_object, json_parse_error, json_str, json_string, json_text, new_object, object_value,
    parse_json, parsed_json, pointer, put, string_value, to_json_text,
};
use crate::time::{rfc3339_from_secs, utc_rfc3339};

verus! {

/// The pricing service's endpoint; the asset's chain address follows a colon.
pub const API_FETCH_PRICE: &'static str = "https://coins.llama.fi/prices/current/sui";

/// Why an upstream price payload could not be normalized.
#[derive(Debug, Clone, Copy, PartialEq, Eq, Structural)]
pub enum FormatFault {
    /// The payload is not JSON.
    Unparsable,
    MissingCoins,
    NoCoins,
    MissingSymbol,
    MissingPrice,
    MissingTimestamp,
    InvalidTimestamp,
}

/// The JSON object of a normalized price report: symbol, price and RFC 3339
/// timestamp.
pub open spec fn report_value(symbol: Seq<char>, price: Value, timestamp: Seq<char>) -> Value {
    json_object(
        Map::<Seq<char>, Value>::empty().insert("symbol"@, json_string(symbol)).insert(
            "price"@,
            price,
        ).insert("timestamp"@, json_string(timestamp)),
    )
}

/// The text of a normalized price report.
pub open spec fn report_text(symbol: Seq<char>, price: Value, timestamp: Seq<char>) -> Seq<char> {
    json_text(report_value(symbol, price, timestamp))
}

/// The text of the string at `ptr`, if there is one.
pub open spec fn field_str(doc: Value, ptr: Seq<char>) -> Option<Seq<char>> {
    match json_pointer(doc, ptr) {
        Some(v) => json_str(v),
        None => None,
    }
}

/// The number at `ptr` read as a double, if there is one.
pub open spec fn field_float(doc: Value, ptr: Seq<char>) -> Option<Value> {
    match json_pointer(doc, ptr) {
        Some(v) => json_float(v),
        None => None,
    }
}

/// The integer at `ptr`, if there is one that fits an `i64`.
pub open spec fn field_i64(doc: Value, ptr: Seq<char>) -> Option<i64> {
    match json_pointer(doc, ptr) {
        Some(v) => json_i64(v),
        None => None,
    }
}

/// The normalized report of one coin entry of an upstream payload.
pub open spec fn normalize_coin(coin: Value) -> Result<Seq<char>, FormatFault> {
    match field_str(coin, "/symbol"@) {
        None => Err(FormatFault::MissingSymbol),
        Some(symbol) => match field_float(coin, "/price"@) {
            None => Err(FormatFault::MissingPrice),
            Some(price) => match field_i64(coin, "/timestamp"@) {
                None => Err(FormatFault::MissingTimestamp),
                Some(secs) => match utc_rfc3339(secs as int) {
                    None => Err(FormatFault::InvalidTimestamp),
                    Some(stamp) => Ok(report_text(symbol, price, stamp)),
                },
            },
        },
    }
}

/// The normalized report of an upstream payload: its first coin entry's
/// symbol, price and timestamp, or the first thing that is missing.
pub open spec fn normalize(payload: Seq<char>) -> Result<Seq<char>, FormatFault> {
    match parsed_json(payload) {
        None => Err(FormatFault::Unparsable),
        Some(doc) => match json_pointer(doc, "/coins"@) {
            None => Err(FormatFault::MissingCoins),
            Some(coins) => match first_member(coins) {
                None => Err(FormatFault::NoCoins),
                Some(coin) => normalize_coin(coin),
            },
        },
    }
}

/// The first coin entry of an upstream payload, if it has one.
pub open spec fn first_coin_of(payload: Seq<char>) -> Option<Value> {
    match parsed_json(payload) {
        None => None,
        Some(doc) => match json_pointer(doc, "/coins"@) {
            None => None,
            Some(coins) => first_member(coins),
        },
    }
}

/// A payload whose coin entry has no "price" never normalizes: the failure is
/// a format fault, not a report with a default price.
pub proof fn lemma_missing_price_fails(payload: Seq<char>)
    requires
        first_coin_of(payload) matches Some(coin) && json_pointer(coin, "/price"@) is None,
    ensures
        normalize(payload) is Err,
        field_str(first_coin_of(payload)->Some_0, "/symbol"@) is Some ==> normalize(payload)
            == Err::<Seq<char>, FormatFault>(FormatFault::MissingPrice),
{
}

/// The detail of the error that reports a fault; an unparsable payload's
/// error adds the parser's own description after this text and a colon.
pub open spec fn fault_detail(f: FormatFault) -> Seq<char> {
    match f {
        FormatFault::Unparsable => "JSON parsing error"@,
        FormatFault::MissingCoins => "Missing 'coins' key in response"@,
        FormatFault::NoCoins => "No coins found"@,
        FormatFault::MissingSymbol => "Missing symbol in response"@,
        FormatFault::MissingPrice => "Missing price in response"@,
        FormatFault::MissingTimestamp => "Missing timestamp in response"@,
        FormatFault::InvalidTimestamp => "Invalid timestamp"@,
    }
}

/// The detail of the error that `process_api_response` gives for a payload
/// that fails with `f`.
pub open spec fn response_error(payload: Seq<char>, f: FormatFault) -> Seq<char> {
    if f == FormatFault::Unparsable {
        "JSON parsing error: "@ + json_parse_error(payload)
    } else {
        fault_detail(f)
    }
}

/// The error that reports a fault.
fn fault_error(f: FormatFault) -> (r: AppError)
    ensures
        r matches AppError::ApiResponseError(m) && m@ == fault_detail(f),
{
    let m: &str = match f {
        FormatFault::Unparsable => "JSON parsing error",
        FormatFault::MissingCoins => "Missing 'coins' key in response",
        FormatFault::NoCoins => "No coins found",
        FormatFault::MissingSymbol => "Missing symbol in response",
        FormatFault::MissingPrice => "Missing price in response",
        FormatFault::MissingTimestamp => "Missing timestamp in response",
        FormatFault::InvalidTimestamp => "Invalid timestamp",
    };
    AppError::ApiResponseError(String::from_str(m))
}

fn read_str<'a>(doc: &'a Value, ptr: &str) -> (r: Option<&'a str>)
    ensures
        match r {
            Some(t) => field_str(*doc, ptr@) == Some(t@),
            None => field_str(*doc, ptr@) is None,
        },
{
    match pointer(doc, ptr) {
        Some(v) => as_str(v),
        None => None,
    }
}

fn read_float(doc: &Value, ptr: &str) -> (r: Option<Value>)
    ensures
        r == field_float(*doc, ptr@),
{
    match pointer(doc, ptr) {
        Some(v) => as_float(v),
        None => None,
    }
}

fn read_i64(doc: &Value, ptr: &str) -> (r: Option<i64>)
    ensures
        r == field_i64(*doc, ptr@),
{
    match pointer(doc, ptr) {
        Some(v) => as_i64(v),
        None => None,
    }
}

/// Writes the normalized report of one coin's fields.
pub fn render_report(symbol: &str, price: Value, timestamp: &str) -> (r: String)
    ensures
        r@ == report_text(symbol@, price, timestamp@),
{
    let mut m = new_object();
    put(&mut m, String::from_str("symbol"), string_value(symbol));
    put(&mut m, String::from_str("price"), price);
    put(&mut m, String::from_str("timestamp"), string_value(timestamp));
    let v = object_value(m);
    to_json_text(&v)
}

fn normalize_coin_value(coin: &Value) -> (r: Result<String, FormatFault>)
    ensures
        match normalize_coin(*coin) {
            Ok(t) => r matches Ok(s) && s@ == t,
            Err(f) => r == Err::<String, FormatFault>(f),
        },
{
    let symbol = match read_str(coin, "/symbol") {
        Some(s) => s,
        None => return Err(FormatFault::MissingSymbol),
    };
    let price = match read_float(coin, "/price") {
        Some(p) => p,
        None => return Err(FormatFault::MissingPrice),
    };
    let secs = match read_i64(coin, "/timestamp") {
        Some(t) => t,
        None => return Err(FormatFault::MissingTimestamp),
    };
    let stamp = match rfc3339_from_secs(secs) {
        Some(t) => t,
        None => return Err(FormatFault::InvalidTimestamp),
    };
    Ok(render_report(symbol, price, stamp.as_str()))
}

/// Client of the pricing service for one asset's chain address.
#[derive(Debug)]
pub struct ApiClient {
    contract_address: String,
}

impl ApiClient {
    /// The chain address whose price this client asks for.
    pub closed spec fn address(&self) -> Seq<char> {
        self.contract_address@
    }

    pub fn new(contract_address: String) -> (r: ApiClient)
        ensures
            r.address() == contract_address@,
    {
        ApiClient { contract_address }
    }

    /// The URL of the pricing service's quote for this client's asset.
    pub fn price_url(&self) -> (r: String)
        ensures
            r@ == API_FETCH_PRICE@ + ":"@ + self.address(),
    {
        let mut url = String::from_str(API_FETCH_PRICE);
        url.append(":");
        url.append(self.contract_address.as_str());
        url
    }

    /// Normalizes a pricing service payload into the report text
    /// `{"price":..,"symbol":..,"timestamp":..}`; fails closed, with the
    /// first missing or malformed part, where the payload lacks any of them.
    pub fn process_api_response(response: &str) -> (r: Result<String, AppError>)
        ensures
            match normalize(response@) {
                Ok(t) => r matches Ok(s) && s@ == t,
                Err(f) => r matches Err(AppError::ApiResponseError(m)) && m@ == response_error(
                    response@,
                    f,
                ),
            },
    {
        let doc = match parse_json(response) {
            Ok(d) => d,
            Err(e) => {
                let mut m = String::from_str("JSON parsing error: ");
                m.append(e.as_str());
                return Err(AppError::ApiResponseError(m));
            },
        };
        let coins = match pointer(&doc, "/coins") {
            Some(c) => c,
            None => return Err(fault_error(FormatFault::MissingCoins)),
        };
        let coin = match first_value(coins) {
            Some(c) => c,
            None => return Err(fault_error(FormatFault::NoCoins)),
        };
        match normalize_coin_value(coin) {
            Ok(s) => Ok(s),
            Err(f) => Err(fault_error(f)),
        }
    }
}

} // verus!
