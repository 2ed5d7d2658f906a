//! The real-time streaming multiplexer: wire vocabulary, delivery channels,
//! the subscription registry, the command dispatcher, and the two streamer
//! variants (market data and account updates).

pub mod account_streaming;
pub mod channel;
pub mod command;
pub mod connect;
pub mod quote_streamer;
pub mod registry;
pub mod wire;
