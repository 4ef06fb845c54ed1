use suicrypto_oracle::protocol::{is_price_request, price_request, Frame, REQUEST_TOKEN_PRICE};
use suicrypto_oracle::websocket_connection::{pump_step, PumpAction, PumpEvent};
use suicrypto_oracle::websocket_handler::{server_url, FeederStep, WebSocketHandler};
use suicrypto_oracle::websocket_server::{
    on_accept, tick_warning, AcceptAction, TickOutcome, WebSocketServer, CHANNEL_CAPACITY,
};
use suicrypto_oracle::AppError;

fn handler() -> WebSocketHandler {
    WebSocketHandler::new("sui".to_string(), "0x2::sui::SUI".to_string())
}

#[test]
fn price_request_is_recognized() {
    assert!(is_price_request("REQUEST_TOKEN_PRICE"));
    assert!(!is_price_request("request_token_price"));
    assert!(!is_price_request(""));
}

#[test]
fn feeder_fetches_on_request() {
    match handler().on_frame(&Frame::Text(REQUEST_TOKEN_PRICE.to_string())) {
        FeederStep::FetchPrice(c) => {
            assert_eq!(c.price_url(), "https://coins.llama.fi/prices/current/sui:0x2::sui::SUI")
        }
        _ => panic!("expected a fetch"),
    }
}

#[test]
fn feeder_ignores_other_frames_and_stops_on_close() {
    assert!(matches!(handler().on_frame(&Frame::Text("hello".to_string())), FeederStep::Ignore));
    assert!(matches!(handler().on_frame(&Frame::Other), FeederStep::Ignore));
    assert!(matches!(handler().on_frame(&Frame::Closed), FeederStep::Stop));
}

#[test]
fn feeder_replies_with_report() {
    let body = r#"{"coins": {"x": {"symbol": "SUI", "price": 1.23, "timestamp": 1700000000}}}"#.to_string();
    let reply = WebSocketHandler::reply(&Ok(body));
    assert_eq!(reply, Ok(r#"{"price":1.23,"symbol":"SUI","timestamp":"2023-11-14T22:13:20+00:00"}"#.to_string()));
}

#[test]
fn feeder_replies_with_error_text() {
    let reply = WebSocketHandler::reply(&Ok(r#"{"coins": {}}"#.to_string()));
    assert_eq!(reply, Err("Error processing response: API Response Processing Error: No coins found".to_string()));
    let reply = WebSocketHandler::reply(&Ok("oops".to_string()));
    let text = reply.unwrap_err();
    assert!(text.starts_with("Error processing response: API Response Processing Error: JSON parsing error: "));
    assert!(text.len() > "Error processing response: API Response Processing Error: JSON parsing error: ".len());
    let reply = WebSocketHandler::reply(&Err(AppError::ApiError("down".to_string())));
    assert_eq!(reply, Err("Error calling API: API Error: down".to_string()));
}

#[test]
fn relay_url_is_websocket() {
    assert_eq!(server_url("127.0.0.1:8080"), "ws://127.0.0.1:8080");
}

#[test]
fn pump_forwards_and_logs_unchanged() {
    match pump_step(PumpEvent::Broadcast("REQUEST_TOKEN_PRICE".to_string())) {
        PumpAction::Write(m) => assert_eq!(m, "REQUEST_TOKEN_PRICE"),
        _ => panic!("expected a write"),
    }
    match pump_step(PumpEvent::Inbound(Frame::Text("{\"a\":1}".to_string()))) {
        PumpAction::Log(m) => assert_eq!(m, "{\"a\":1}"),
        _ => panic!("expected a log"),
    }
    assert!(matches!(pump_step(PumpEvent::Inbound(Frame::Other)), PumpAction::Wait));
}

#[test]
fn pump_finishes_on_either_side() {
    assert!(matches!(pump_step(PumpEvent::BroadcastEnded), PumpAction::Finish(Ok(()))));
    assert!(matches!(pump_step(PumpEvent::Inbound(Frame::Closed)), PumpAction::Finish(Ok(()))));
    match pump_step(PumpEvent::WriteFailed) {
        PumpAction::Finish(Err(e)) => assert_eq!(e.to_string(), "WebSocket Message Error: Error sending message to client"),
        _ => panic!("expected a failure"),
    }
}

#[test]
fn round_trip_preserves_reply_bytes() {
    let tick = match pump_step(PumpEvent::Broadcast(REQUEST_TOKEN_PRICE.to_string())) {
        PumpAction::Write(m) => m,
        _ => panic!("expected a write"),
    };
    let h = handler();
    assert!(matches!(h.on_frame(&Frame::Text(tick)), FeederStep::FetchPrice(_)));
    let body = r#"{"coins": {"x": {"symbol": "SUI", "price": 1.23, "timestamp": 1700000000}}}"#.to_string();
    let reply = WebSocketHandler::reply(&Ok(body)).unwrap();
    match pump_step(PumpEvent::Inbound(Frame::Text(reply.clone()))) {
        PumpAction::Log(m) => assert_eq!(m.as_bytes(), reply.as_bytes()),
        _ => panic!("expected a log"),
    }
}

#[test]
fn tick_without_subscribers_is_not_an_error() {
    let server = WebSocketServer::new("127.0.0.1:0").unwrap();
    assert_eq!(server.tick(), TickOutcome::NoSubscribers);
    assert_eq!(server.tick(), TickOutcome::NoSubscribers);
    match tick_warning(TickOutcome::NoSubscribers) {
        Some(e) => assert_eq!(e.to_string(), "Broadcast Channel Error: No clients listening"),
        None => panic!("expected a warning"),
    }
    assert!(tick_warning(TickOutcome::Delivered(1)).is_none());
}

#[test]
fn tick_reaches_only_earlier_subscribers() {
    let server = WebSocketServer::new("127.0.0.1:0").unwrap();
    let mut early_a = server.broadcaster().subscribe();
    let mut early_b = server.broadcaster().subscribe();
    assert_eq!(server.tick(), TickOutcome::Delivered(2));
    let mut late = server.broadcaster().subscribe();
    assert_eq!(early_a.try_recv().unwrap(), "REQUEST_TOKEN_PRICE");
    assert_eq!(early_b.try_recv().unwrap(), "REQUEST_TOKEN_PRICE");
    assert!(late.try_recv().is_err());
}

#[test]
fn accept_failure_keeps_accepting() {
    assert_eq!(on_accept(true), AcceptAction::SpawnPump);
    assert_eq!(on_accept(false), AcceptAction::LogAndContinue);
}

#[test]
fn server_keeps_its_address() {
    let server = WebSocketServer::new("127.0.0.1:9000").unwrap();
    assert_eq!(server.address(), "127.0.0.1:9000");
}

#[test]
fn price_request_text() {
    assert_eq!(price_request(), "REQUEST_TOKEN_PRICE");
}

#[test]
fn server_channel_has_fixed_capacity() {
    let server = WebSocketServer::new("127.0.0.1:0").unwrap();
    assert_eq!(server.capacity(), CHANNEL_CAPACITY);
    assert_eq!(server.capacity(), 16);
    assert_eq!(server.broadcaster().receiver_count(), 0);
}
