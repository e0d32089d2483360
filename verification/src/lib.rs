//! Client-side core of an email-plus-one-time-code authentication flow.
//!
//! The library covers the logic of the flow: building the requests that the
//! transport sends, decoding the responses it brings back, looking up and
//! restoring the persisted session cookie, and sequencing the steps of the
//! protocol. The HTTP transport and the file system stay outside; callers
//! hand in response bodies and file contents as plain values.

pub mod config;
pub mod flow;
pub mod json;
pub mod session;
pub mod store;

pub use config::Config;
pub use flow::{FlowEvent, FlowState};
pub use session::{AuthResponse, DecodeError, HttpRequest, Method, Session, UserData, VerifyResponse};
pub use store::{Store, StoreError};
