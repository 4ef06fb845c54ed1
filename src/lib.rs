//! Price oracle relay: the decisions of a broadcast relay server, its
//! per-connection pumps, and a pool of price feeders, with the upstream
//! payload normalization they rely on.
pub mod api_client;
pub mod error;
pub mod json;
pub mod time;

pub use api_client::ApiClient;
pub use error::AppError;
pub mod client_manager;
pub mod protocol;
pub mod websocket_handler;
pub mod websocket_connection;
pub mod websocket_server;
pub mod config;
