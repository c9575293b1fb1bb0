//! A client library for the disruption services of strecken.info.
//!
//! The crate holds the data model of the services, the construction of
//! requests, the reading of answers with the resolution of their references,
//! and the decisions of the revision protocol; sending requests and driving
//! the websocket is left to the caller.

pub mod error;
pub mod time;
pub mod text;
pub mod disruption;
pub mod geo_pos;
pub mod request;
pub mod details;
pub mod filter;
pub mod disruptions;
pub mod revision;
