//! Event-kind flags for the market-data feed.
//!
//! The flags form a bitset: a subscription's flags determine which wire event
//! kinds it requests for each of its symbols.

use vstd::prelude::*;

verus! {

/// Flag for quote events.
pub const DXF_ET_QUOTE: i32 = 0x01;

/// Flag for trade events.
pub const DXF_ET_TRADE: i32 = 0x02;

/// Flag for option-greeks events.
pub const DXF_ET_GREEKS: i32 = 0x08;

} // verus!
