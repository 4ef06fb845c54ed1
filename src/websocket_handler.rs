use vstd::prelude::*;

use crate::api_client::{normalize, response_error, ApiClient};
use crate::error::AppError;
use crate::websocket_connection::{pump_action, PumpActionView, PumpEventView};
use crate::protocol::{is_price_request, Frame, FrameView, REQUEST_TOKEN_PRICE};

verus! {

/// The upstream end of a feeder: it answers price requests for one asset.
#[derive(Debug)]
pub struct WebSocketHandler {
    token_name: String,
    contract_address: String,
}

impl View for WebSocketHandler {
    type V = (Seq<char>, Seq<char>);

    closed spec fn view(&self) -> (Seq<char>, Seq<char>) {
        (self.token_name@, self.contract_address@)
    }
}

impl WebSocketHandler {
    pub fn new(token_name: String, contract_address: String) -> (r: WebSocketHandler)
        ensures
            r@ == (token_name@, contract_address@),
    {
        WebSocketHandler { token_name, contract_address }
    }
}

/// What a feeder does on a frame from the relay.
pub enum FeederStep {
    /// Ask the pricing service through this client, then reply.
    FetchPrice(ApiClient),
    /// Read on.
    Ignore,
    /// End the session.
    Stop,
}

/// A feeder's step as a value: the chain address it fetches for.
pub ghost enum FeederStepView {
    FetchPrice(Seq<char>),
    Ignore,
    Stop,
}

impl View for FeederStep {
    type V = FeederStepView;

    open spec fn view(&self) -> FeederStepView {
        match self {
            FeederStep::FetchPrice(c) => FeederStepView::FetchPrice(c.address()),
            FeederStep::Ignore => FeederStepView::Ignore,
            FeederStep::Stop => FeederStepView::Stop,
        }
    }
}

/// A feeder for chain address `address` fetches on the price request, ignores
/// any other frame, and stops when the connection ends.
pub open spec fn feeder_step(address: Seq<char>, frame: FrameView) -> FeederStepView {
    match frame {
        FrameView::Text(t) => if t == REQUEST_TOKEN_PRICE@ {
            FeederStepView::FetchPrice(address)
        } else {
            FeederStepView::Ignore
        },
        FrameView::Other => FeederStepView::Ignore,
        FrameView::Closed => FeederStepView::Stop,
    }
}

/// What a feeder writes back when a fetch succeeded with a payload that
/// normalizes: the report itself.
pub open spec fn success_reply(payload: Seq<char>) -> Option<Seq<char>> {
    match normalize(payload) {
        Ok(t) => Some(t),
        Err(_) => None,
    }
}

/// A relayed price request reaches the feeder unchanged and makes it fetch
/// for its own address; its reply is the normalized report, and the pump on
/// the relay's side hands that reply on exactly as it came.
pub proof fn lemma_round_trip(address: Seq<char>, payload: Seq<char>)
    requires
        normalize(payload) is Ok,
    ensures
        pump_action(PumpEventView::Broadcast(REQUEST_TOKEN_PRICE@)) == PumpActionView::Write(
            REQUEST_TOKEN_PRICE@,
        ),
        feeder_step(address, FrameView::Text(REQUEST_TOKEN_PRICE@)) == FeederStepView::FetchPrice(
            address,
        ),
        success_reply(payload) == Some(normalize(payload)->Ok_0),
        pump_action(PumpEventView::Inbound(FrameView::Text(normalize(payload)->Ok_0)))
            == PumpActionView::Log(normalize(payload)->Ok_0),
{
}

/// The URL of the relay at `host` (a host:port).
pub fn server_url(host: &str) -> (r: String)
    ensures
        r@ == "ws://"@ + host@,
{
    let mut url = String::from_str("ws://");
    url.append(host);
    url
}

impl WebSocketHandler {
    /// The asset's name.
    pub fn token_name(&self) -> (r: &str)
        ensures
            r@ == self@.0,
    {
        self.token_name.as_str()
    }

    /// Decides what to do with a frame read from the relay.
    pub fn on_frame(&self, frame: &Frame) -> (r: FeederStep)
        ensures
            r@ == feeder_step(self@.1, frame@),
    {
        match frame {
            Frame::Text(t) => {
                if is_price_request(t.as_str()) {
                    FeederStep::FetchPrice(ApiClient::new(self.contract_address.clone()))
                } else {
                    FeederStep::Ignore
                }
            },
            Frame::Other => FeederStep::Ignore,
            Frame::Closed => FeederStep::Stop,
        }
    }

    /// The text written back to the relay for the outcome of a fetch: the
    /// normalized report (`Ok`), or a human-readable error (`Err`).
    pub fn reply(fetched: &Result<String, AppError>) -> (r: Result<String, String>)
        ensures
            match fetched {
                Ok(body) => match normalize(body@) {
                    Ok(t) => r matches Ok(s) && s@ == t && success_reply(body@) == Some(s@),
                    Err(f) => r matches Err(s) && s@ == "Error processing response: "@
                        + "API Response Processing Error: "@ + response_error(body@, f),
                },
                Err(e) => r matches Err(s) && s@ == "Error calling API: "@ + e.label() + e.detail(),
            },
    {
        match fetched {
            Ok(body) => match ApiClient::process_api_response(body.as_str()) {
                Ok(report) => Ok(report),
                Err(e) => {
                    let mut r = String::from_str("Error processing response: ");
                    let m = e.to_string();
                    r.append(m.as_str());
                    assert(r@ =~= "Error processing response: "@ + "API Response Processing Error: "@
                        + response_error(body@, normalize(body@)->Err_0));
                    Err(r)
                },
            },
            Err(e) => {
                let mut r = String::from_str("Error calling API: ");
                let m = e.to_string();
                r.append(m.as_str());
                assert(r@ =~= "Error calling API: "@ + e.label() + e.detail());
                Err(r)
            },
        }
    }
}

} // verus!
