//! Safe core of a futures-gateway client: the session-state, correlation and
//! event-streaming logic that turns a push-only native callback interface into
//! a request/response interface with timeouts and multi-part accumulation.

pub mod api;
pub mod bridge;
pub mod channel;
pub mod config;
pub mod correlation;
pub mod encoding;
pub mod error;
pub mod event;
pub mod query;
pub mod session;
pub mod types;

pub use api::CtpApi;
pub use api::VERSION;
pub use config::CtpConfig;
pub use error::CtpError;
pub use error::CtpResult;
