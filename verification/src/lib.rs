//! Verified core of a Fansly livestream recorder: reading the API's JSON
//! replies, checking request headers, naming and planning recordings, the
//! recording session state machine, the online-check decision and the
//! Discord notices.

pub mod api;
pub mod config;
pub mod headers;
pub mod json;
pub mod monitor;
pub mod paths;
pub mod recorder;
pub mod session;
pub mod webhooks;
