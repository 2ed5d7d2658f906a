//! The commonly used items of the library, for a single glob-free import
//! surface.

pub use crate::accounts::{AccountDetails, AccountInner, AccountNumber};
pub use crate::api::{DxFeedSymbol, OptionInfo, Paginated, Pagination, QuoteStreamerTokens};
pub use crate::config::Config;
pub use crate::error::{ApiError, DxFeedError, InnerApiError, TastyTradeError};
pub use crate::parse::parse_expiration_date;
pub use crate::streaming::account_streaming::{
    AccountEvent, AccountMessage, AccountRecv, AccountStreamer, ErrorMessage, HandlerAction,
    StatusMessage, SubRequestAction, HEARTBEAT_INTERVAL,
};
pub use crate::streaming::channel::{DeliveryQueue, RecvOutcome};
pub use crate::streaming::command::{Command, TransportAction};
pub use crate::streaming::quote_streamer::{
    QuoteStreamer, QuoteSubscription, SubscriptionId, EVENT_CHANNEL_CAPACITY,
};
pub use crate::streaming::registry::Registry;
pub use crate::streaming::wire::{EventKind, WireEvent, WireSubscriptionRequest};
pub use crate::types::balance::SnapshotTimeOfDay;
pub use crate::types::dxfeed::{DXF_ET_GREEKS, DXF_ET_QUOTE, DXF_ET_TRADE};
pub use crate::types::instrument::InstrumentType;
pub use crate::types::order::{
    Action, AsSymbol, OrderId, OrderStatus, OrderType, PriceEffect, Symbol, TimeInForce,
};
pub use crate::types::position::QuantityDirection;
