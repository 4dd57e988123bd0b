//! Verified core of a DOCSIS cable-modem telemetry exporter.
//!
//! The library covers the authenticated session lifecycle of the device's
//! web interface (challenge-response login, session validity tracking) and
//! the decoding of its JSON telemetry pages into typed channel records and
//! flat, labeled gauge observations. Network transport, configuration
//! loading and the scrape endpoint are left to the surrounding application.

pub mod auth;
pub mod docsis;
pub mod json;
pub mod mapper;
pub mod session;
pub mod text;

pub use session::{FritzboxConfig, FritzboxSession};
