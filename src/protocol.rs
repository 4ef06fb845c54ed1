use vstd::prelude::*;

verus! {

/// The text that the relay broadcasts on each tick: "report your price now".
pub const REQUEST_TOKEN_PRICE: &'static str = "REQUEST_TOKEN_PRICE";

/// The price request as an owned text.
pub fn price_request() -> (r: String)
    ensures
        r@ == REQUEST_TOKEN_PRICE@,
{
    String::from_str(REQUEST_TOKEN_PRICE)
}

/// Whether a text frame is the price request.
pub fn is_price_request(text: &str) -> (r: bool)
    ensures
        r == (text@ == REQUEST_TOKEN_PRICE@),
{
    let t = String::from_str(text);
    let request = String::from_str(REQUEST_TOKEN_PRICE);
    t == request
}

/// A frame as the reading side of a duplex text connection sees it.
pub enum Frame {
    /// A text message.
    Text(String),
    /// A message of another kind (binary, ping, pong).
    Other,
    /// The connection closed, or reading failed.
    Closed,
}

/// A frame as a value.
pub ghost enum FrameView {
    Text(Seq<char>),
    Other,
    Closed,
}

impl View for Frame {
    type V = FrameView;

    open spec fn view(&self) -> FrameView {
        match self {
            Frame::Text(t) => FrameView::Text(t@),
            Frame::Other => FrameView::Other,
            Frame::Closed => FrameView::Closed,
        }
    }
}

} // verus!
