//! A client for the Danfoss Ally smart-home API: credentials, the bearer
//! token and its expiry, the device snapshot, and the decisions of the
//! polling cycle. The network calls themselves are made by the caller, which
//! hands each outcome to this library.
pub mod auth;
pub mod client;
pub mod expiry;
pub mod model;
pub mod readings;

pub use auth::{basic_authorization, basic_credentials, bearer_authorization};
pub use client::{AllyApi, CallError, ConfigError, DEFAULT_POLLING_INTERVAL};
pub use expiry::{parse_seconds, renewal_due, DataError};
pub use model::{Device, DevicesResponse, Status, Token};
pub use readings::{is_temperature, reading_line, temperature_lines};
