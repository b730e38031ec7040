//! A client factory that hands out a freshly built client for each request.
//!
//! `NewClientPerRequest` wraps a `NewClient` so that each request served by the
//! resulting `ClientPerRequest` goes to a client of its own. A client is bound
//! ahead of time when readiness is polled, and built on the spot otherwise.
pub mod per_request;
pub mod protocol;
pub mod service;

pub use per_request::{ClientPerRequest, Make, NewClientPerRequest, ValidNewClient};
pub use protocol::{Step, Tally};
pub use service::{MakeClient, NewClient, Service};
