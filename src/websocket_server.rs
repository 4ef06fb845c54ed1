use tokio::sync::broadcast::Sender;
use vstd::prelude::*;

use crate::error::AppError;
use crate::protocol::price_request;

verus! {

#[verifier::external_type_specification]
#[verifier::external_body]
#[verifier::reject_recursive_types(T)]
pub struct ExSender<T>(tokio::sync::broadcast::Sender<T>);

/// How many messages each subscriber may fall behind before it loses some.
pub const CHANNEL_CAPACITY: usize = 16;

/// Seconds between two price requests.
pub const TICK_PERIOD_SECS: u64 = 10;

/// Relies on `tokio::sync::broadcast::channel`, which panics on a capacity of
/// zero or above `usize::MAX >> 1`; the first receiver is dropped.
#[verifier::external_body]
fn open_channel(capacity: usize) -> (r: Sender<String>)
    requires
        0 < capacity <= usize::MAX / 2,
{
    tokio::sync::broadcast::channel(capacity).0
}

/// Relies on `broadcast::Sender::send`: it fails where no receiver is
/// subscribed, and otherwise gives the number of subscribed receivers.
#[verifier::external_body]
fn send_to_all(sender: &Sender<String>, message: String) -> (r: Option<usize>)
    ensures
        r matches Some(n) ==> n >= 1,
{
    sender.send(message).ok()
}

/// What one tick of the ticker came to.
#[derive(Debug, Clone, Copy, PartialEq, Eq, Structural)]
pub enum TickOutcome {
    /// The request went to this many subscribers.
    Delivered(usize),
    /// Nobody was subscribed: expected while no feeder is connected.
    NoSubscribers,
}

/// What the accept loop does with the result of one accept.
#[derive(Debug, Clone, Copy, PartialEq, Eq, Structural)]
pub enum AcceptAction {
    /// Subscribe a receiver and start a pump for the connection.
    SpawnPump,
    /// Log the failure and accept the next connection.
    LogAndContinue,
}

/// The accept loop starts a pump for each accepted connection and goes on
/// past a failed accept.
pub fn on_accept(accepted: bool) -> (r: AcceptAction)
    ensures
        r == (if accepted { AcceptAction::SpawnPump } else { AcceptAction::LogAndContinue }),
{
    if accepted {
        AcceptAction::SpawnPump
    } else {
        AcceptAction::LogAndContinue
    }
}

/// The relay: the address it listens on and the broadcast channel of price
/// requests that every accepted connection subscribes to.
pub struct WebSocketServer {
    address: String,
    capacity: usize,
    broadcaster: Sender<String>,
}

impl WebSocketServer {
    /// The address to listen on.
    pub closed spec fn address_view(&self) -> Seq<char> {
        self.address@
    }

    /// The capacity that the broadcast channel was opened with.
    pub closed spec fn capacity_view(&self) -> nat {
        self.capacity as nat
    }

    /// Creates the relay and its broadcast channel, opened with
    /// `CHANNEL_CAPACITY`; binding happens when it runs.
    pub fn new(address: &str) -> (r: Result<WebSocketServer, AppError>)
        ensures
            r matches Ok(s) && s.address_view() == address@ && s.capacity_view() == CHANNEL_CAPACITY,
    {
        let broadcaster = open_channel(CHANNEL_CAPACITY);
        Ok(WebSocketServer { address: String::from_str(address), capacity: CHANNEL_CAPACITY, broadcaster })
    }

    /// The capacity that the broadcast channel was opened with.
    pub fn capacity(&self) -> (r: usize)
        ensures
            r == self.capacity_view(),
    {
        self.capacity
    }

    pub fn address(&self) -> (r: &str)
        ensures
            r@ == self.address_view(),
    {
        self.address.as_str()
    }

    /// The broadcast channel's sending side.
    pub fn broadcaster(&self) -> &Sender<String> {
        &self.broadcaster
    }

    /// Sends one price request, the text of `price_request`, to every current
    /// subscriber; it is the only message the channel carries. Having no
    /// subscriber is no error: it is reported, and the next tick goes out as
    /// usual.
    pub fn tick(&self) -> (r: TickOutcome)
        ensures
            r matches TickOutcome::Delivered(n) ==> n >= 1,
    {
        match send_to_all(&self.broadcaster, price_request()) {
            Some(n) => TickOutcome::Delivered(n),
            None => TickOutcome::NoSubscribers,
        }
    }
}

/// The warning logged for a tick that found no subscriber, if any.
pub fn tick_warning(outcome: TickOutcome) -> (r: Option<AppError>)
    ensures
        match outcome {
            TickOutcome::Delivered(_) => r is None,
            TickOutcome::NoSubscribers => r matches Some(AppError::BroadcastError(m))
                && m@ == "No clients listening"@,
        },
{
    match outcome {
        TickOutcome::Delivered(_) => None,
        TickOutcome::NoSubscribers => Some(AppError::BroadcastError(String::from_str("No clients listening"))),
    }
}

} // verus!
