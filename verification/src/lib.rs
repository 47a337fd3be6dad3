//! A typed client core for the Rocket League statistics service.
//!
//! The library builds the requests that the service understands and decodes
//! its JSON answers into typed records. It performs no network traffic
//! itself: a caller sends each request over a transport of its choice and
//! hands the outcome back.

pub mod client;
pub mod decode;
pub mod errors;
pub mod json;
pub mod laws;
pub mod platform;
pub mod request;
pub mod responses;
pub mod uri;

pub use client::{Call, LeagueClient, Outcome, Transport};
pub use errors::Error;
pub use platform::Platform;
pub use request::{Method, Request};
