//! Dispatch core for a brokerage's REST and streaming API: a typed endpoint
//! contract, status-code classification of HTTP responses, a unified error
//! taxonomy, and the message adapter used by the streaming layer.

mod json;
mod render;

pub mod api;
pub mod endpoint;
pub mod error;
pub mod websocket;

pub use error::Error;
pub use error::HttpBody;
pub use error::RequestError;
