//! A brokerage-API client library centred on a verified real-time streaming
//! multiplexer: one shared transport connection is turned into many
//! independent logical subscriptions, with command dispatch, a subscription
//! registry, event fan-out and handle lifecycle all specified and proved.

pub mod accounts;
pub mod api;
pub mod config;
pub mod error;
pub mod parse;
pub mod prelude;
pub mod streaming;
pub mod types;
