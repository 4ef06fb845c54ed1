use vstd::prelude::*;

use crate::error::AppError;
use crate::protocol::{Frame, FrameView};

verus! {

/// What one accepted connection's pump observes.
pub enum PumpEvent {
    /// The broadcast subscription handed over a message.
    Broadcast(String),
    /// The broadcast subscription ended, or fell behind and lost messages.
    BroadcastEnded,
    /// Writing to the socket failed.
    WriteFailed,
    /// The socket's reading side produced a frame.
    Inbound(Frame),
}

/// What the pump does next.
pub enum PumpAction {
    /// Write this text frame to the socket.
    Write(String),
    /// Log this text received from the peer.
    Log(String),
    /// Read on.
    Wait,
    /// The pump is over, with this result; the other direction is abandoned.
    Finish(Result<(), AppError>),
}

pub ghost enum PumpEventView {
    Broadcast(Seq<char>),
    BroadcastEnded,
    WriteFailed,
    Inbound(FrameView),
}

pub ghost enum PumpActionView {
    Write(Seq<char>),
    Log(Seq<char>),
    Wait,
    /// Over, with the message of the error that ended it, if any.
    Finish(Option<Seq<char>>),
}

impl View for PumpEvent {
    type V = PumpEventView;

    open spec fn view(&self) -> PumpEventView {
        match self {
            PumpEvent::Broadcast(m) => PumpEventView::Broadcast(m@),
            PumpEvent::BroadcastEnded => PumpEventView::BroadcastEnded,
            PumpEvent::WriteFailed => PumpEventView::WriteFailed,
            PumpEvent::Inbound(f) => PumpEventView::Inbound(f@),
        }
    }
}

impl View for PumpAction {
    type V = PumpActionView;

    open spec fn view(&self) -> PumpActionView {
        match self {
            PumpAction::Write(m) => PumpActionView::Write(m@),
            PumpAction::Log(m) => PumpActionView::Log(m@),
            PumpAction::Wait => PumpActionView::Wait,
            PumpAction::Finish(Ok(())) => PumpActionView::Finish(None),
            PumpAction::Finish(Err(e)) => PumpActionView::Finish(Some(e.label() + e.detail())),
        }
    }
}

/// A pump forwards each broadcast message to its socket unchanged and logs
/// each text from its peer unchanged; it finishes, as soon as either
/// direction is over, with an error only where a write failed.
pub open spec fn pump_action(ev: PumpEventView) -> PumpActionView {
    match ev {
        PumpEventView::Broadcast(m) => PumpActionView::Write(m),
        PumpEventView::BroadcastEnded => PumpActionView::Finish(None),
        PumpEventView::WriteFailed => PumpActionView::Finish(
            Some("WebSocket Message Error: "@ + "Error sending message to client"@),
        ),
        PumpEventView::Inbound(FrameView::Text(t)) => PumpActionView::Log(t),
        PumpEventView::Inbound(FrameView::Other) => PumpActionView::Wait,
        PumpEventView::Inbound(FrameView::Closed) => PumpActionView::Finish(None),
    }
}

/// Decides a pump's next action.
pub fn pump_step(event: PumpEvent) -> (r: PumpAction)
    ensures
        r@ == pump_action(event@),
{
    match event {
        PumpEvent::Broadcast(m) => PumpAction::Write(m),
        PumpEvent::BroadcastEnded => PumpAction::Finish(Ok(())),
        PumpEvent::WriteFailed => PumpAction::Finish(
            Err(AppError::WebSocketMessageError(String::from_str("Error sending message to client"))),
        ),
        PumpEvent::Inbound(Frame::Text(t)) => PumpAction::Log(t),
        PumpEvent::Inbound(Frame::Other) => PumpAction::Wait,
        PumpEvent::Inbound(Frame::Closed) => PumpAction::Finish(Ok(())),
    }
}

} // verus!
