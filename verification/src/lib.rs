//! Authenticated request layer of a client for the Schedules Direct
//! TV-listings service: credentials, session token, retry with exponential
//! backoff, and the classification of what comes back from the service.
//!
//! Nothing here touches the network, a database or the environment. The
//! functions build the requests to send and decide what to do with each
//! answer; whoever drives them performs the transfer.

pub mod client;
pub mod config;
pub mod credentials;
pub mod executor;
pub mod json;
pub mod models;
pub mod request;
pub mod retry;
pub mod schedules_direct;
pub mod text;
pub mod token;

pub use crate::client::SchedulesDirect;
pub use crate::token::Token;
