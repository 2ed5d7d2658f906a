//! Domain data types: orders, symbols, instruments, positions, balances and
//! market-data feed constants.

pub mod balance;
pub mod dxfeed;
pub mod instrument;
pub mod login;
pub mod order;
pub mod position;
