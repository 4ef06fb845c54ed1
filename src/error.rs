use vstd::prelude::*;

verus! {

/// The errors of the relay, each carrying a human-readable detail.
#[derive(Debug)]
pub enum AppError {
    /// Binding a socket or accepting a connection failed.
    TcpError(String),
    /// The WebSocket handshake of an accepted connection failed.
    WebSocketAcceptError(String),
    /// Sending or receiving a WebSocket message failed.
    WebSocketMessageError(String),
    /// The broadcast channel had nobody to deliver to.
    BroadcastError(String),
    /// Calling an upstream service failed.
    ApiError(String),
    /// An upstream payload did not have the expected shape.
    ApiResponseError(String),
    /// Anything else.
    UnknownError(String),
    /// Reading a file or a setting failed.
    FileError(String),
    /// A JSON document could not be read.
    JsonError(String),
}

impl AppError {
    /// The detail that the error carries.
    pub open spec fn detail(&self) -> Seq<char> {
        match self {
            AppError::TcpError(m) => m@,
            AppError::WebSocketAcceptError(m) => m@,
            AppError::WebSocketMessageError(m) => m@,
            AppError::BroadcastError(m) => m@,
            AppError::ApiError(m) => m@,
            AppError::ApiResponseError(m) => m@,
            AppError::UnknownError(m) => m@,
            AppError::FileError(m) => m@,
            AppError::JsonError(m) => m@,
        }
    }

    /// The label that introduces the detail in the error's message.
    pub open spec fn label(&self) -> Seq<char> {
        match self {
            AppError::TcpError(_) => "TCP Error: "@,
            AppError::WebSocketAcceptError(_) => "WebSocket Accept Error: "@,
            AppError::WebSocketMessageError(_) => "WebSocket Message Error: "@,
            AppError::BroadcastError(_) => "Broadcast Channel Error: "@,
            AppError::ApiError(_) => "API Error: "@,
            AppError::ApiResponseError(_) => "API Response Processing Error: "@,
            AppError::UnknownError(_) => "Unknown Error: "@,
            AppError::FileError(_) => "File Handling Error: "@,
            AppError::JsonError(_) => "JSON Processing Error: "@,
        }
    }

    /// The human-readable message: the label, then the detail.
    pub fn to_string(&self) -> (r: String)
        ensures
            r@ == self.label() + self.detail(),
    {
        let (label, detail): (&str, &String) = match self {
            AppError::TcpError(m) => ("TCP Error: ", m),
            AppError::WebSocketAcceptError(m) => ("WebSocket Accept Error: ", m),
            AppError::WebSocketMessageError(m) => ("WebSocket Message Error: ", m),
            AppError::BroadcastError(m) => ("Broadcast Channel Error: ", m),
            AppError::ApiError(m) => ("API Error: ", m),
            AppError::ApiResponseError(m) => ("API Response Processing Error: ", m),
            AppError::UnknownError(m) => ("Unknown Error: ", m),
            AppError::FileError(m) => ("File Handling Error: ", m),
            AppError::JsonError(m) => ("JSON Processing Error: ", m),
        };
        let mut r = String::from_str(label);
        r.append(detail.as_str());
        r
    }
}

} // verus!
