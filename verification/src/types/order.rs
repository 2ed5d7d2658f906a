//! Order-related types: trading symbols, order identifiers and the closed
//! vocabularies used when placing and tracking orders.

use vstd::prelude::*;

verus! {

/// The effect of a price on an account balance.
#[derive(Debug, Clone, PartialEq, Eq, Structural)]
pub enum PriceEffect {
    /// A debit: the account balance decreases.
    Debit,
    /// A credit: the account balance increases.
    Credit,
    /// No effect on the account balance.
    NoEffect,
}

impl PriceEffect {
    /// The display name of this variant.
    pub open spec fn spec_name(&self) -> Seq<char> {
        match self {
            PriceEffect::Debit => "Debit"@,
            PriceEffect::Credit => "Credit"@,
            PriceEffect::NoEffect => "None"@,
        }
    }

    /// Returns the display name of this variant.
    pub fn name(&self) -> (r: String)
        ensures
            r@ == self.spec_name(),
    {
        match self {
            PriceEffect::Debit => "Debit".to_owned(),
            PriceEffect::Credit => "Credit".to_owned(),
            PriceEffect::NoEffect => "None".to_owned(),
        }
    }
}

/// An order action.
#[derive(Debug, Clone, PartialEq, Eq, Structural)]
pub enum Action {
    /// Buy to open a position.
    BuyToOpen,
    /// Sell to open a position.
    SellToOpen,
    /// Buy to close a position.
    BuyToClose,
    /// Sell to close a position.
    SellToClose,
    /// Plain sell.
    Sell,
    /// Plain buy.
    Buy,
}

/// The type of an order.
#[derive(Debug, Clone, PartialEq, Eq, Structural)]
pub enum OrderType {
    /// An order to trade at a specific price or better.
    Limit,
    /// An order to trade at the best available price immediately.
    Market,
    /// A limit order priced to execute immediately.
    MarketableLimit,
    /// An order that activates once a stop price is reached.
    Stop,
    /// A stop order that becomes a limit order once activated.
    StopLimit,
    /// An order for a total monetary amount rather than a share count.
    NotionalMarket,
}

/// The time-in-force instruction of an order.
#[derive(Debug, Clone, PartialEq, Eq, Structural)]
pub enum TimeInForce {
    /// Valid for the current trading day only.
    Day,
    /// Good until cancelled.
    Gtc,
    /// Good until a given date.
    Gtd,
    /// Valid during extended trading hours.
    Ext,
    /// Good until cancelled, extended hours included.
    GTCExt,
    /// Filled immediately, at least partially, or cancelled.
    Ioc,
}

/// The status of an order.
#[derive(Debug, Clone, PartialEq, Eq, Structural)]
pub enum OrderStatus {
    /// The order has been received.
    Received,
    /// The order has been routed.
    Routed,
    /// The order is in flight.
    InFlight,
    /// The order is live.
    Live,
    /// A cancellation has been requested.
    CancelRequested,
    /// A replacement has been requested.
    ReplaceRequested,
    /// The order is contingent.
    Contingent,
    /// The order has been filled.
    Filled,
    /// The order has been cancelled.
    Cancelled,
    /// The order has expired.
    Expired,
    /// The order has been rejected.
    Rejected,
    /// The order has been removed.
    Removed,
    /// The order has been partially removed.
    PartiallyRemoved,
}

impl OrderStatus {
    /// The display name of this variant.
    pub open spec fn spec_name(&self) -> Seq<char> {
        match self {
            OrderStatus::Received => "Received"@,
            OrderStatus::Routed => "Routed"@,
            OrderStatus::InFlight => "In Flight"@,
            OrderStatus::Live => "Live"@,
            OrderStatus::CancelRequested => "Cancel Requested"@,
            OrderStatus::ReplaceRequested => "Replace Requested"@,
            OrderStatus::Contingent => "Contingent"@,
            OrderStatus::Filled => "Filled"@,
            OrderStatus::Cancelled => "Cancelled"@,
            OrderStatus::Expired => "Expired"@,
            OrderStatus::Rejected => "Rejected"@,
            OrderStatus::Removed => "Removed"@,
            OrderStatus::PartiallyRemoved => "Partially Removed"@,
        }
    }

    /// Returns the display name of this variant.
    pub fn name(&self) -> (r: String)
        ensures
            r@ == self.spec_name(),
    {
        match self {
            OrderStatus::Received => "Received".to_owned(),
            OrderStatus::Routed => "Routed".to_owned(),
            OrderStatus::InFlight => "In Flight".to_owned(),
            OrderStatus::Live => "Live".to_owned(),
            OrderStatus::CancelRequested => "Cancel Requested".to_owned(),
            OrderStatus::ReplaceRequested => "Replace Requested".to_owned(),
            OrderStatus::Contingent => "Contingent".to_owned(),
            OrderStatus::Filled => "Filled".to_owned(),
            OrderStatus::Cancelled => "Cancelled".to_owned(),
            OrderStatus::Expired => "Expired".to_owned(),
            OrderStatus::Rejected => "Rejected".to_owned(),
            OrderStatus::Removed => "Removed".to_owned(),
            OrderStatus::PartiallyRemoved => "Partially Removed".to_owned(),
        }
    }
}

/// A trading symbol, wrapping its textual form.
#[derive(Debug, PartialEq, Eq, PartialOrd, Ord, Hash)]
pub struct Symbol(pub String);

impl View for Symbol {
    type V = Seq<char>;

    open spec fn view(&self) -> Seq<char> {
        self.0@
    }
}

impl Clone for Symbol {
    fn clone(&self) -> (r: Self)
        ensures
            r@ == self@,
    {
        Symbol(self.0.clone())
    }
}

impl From<&str> for Symbol {
    fn from(value: &str) -> (r: Symbol) {
        Symbol(value.to_owned())
    }
}

impl vstd::std_specs::convert::FromSpecImpl<&str> for Symbol {
    open spec fn obeys_from_spec() -> bool {
        // A spec-level `String` cannot be built from a `Seq<char>`, so this
        // conversion promises nothing; verified code builds `Symbol` directly.
        false
    }

    open spec fn from_spec(value: &str) -> Symbol {
        arbitrary()
    }
}

impl From<String> for Symbol {
    fn from(value: String) -> (r: Symbol) {
        Symbol(value)
    }
}

impl vstd::std_specs::convert::FromSpecImpl<String> for Symbol {
    open spec fn obeys_from_spec() -> bool {
        true
    }

    open spec fn from_spec(value: String) -> Symbol {
        Symbol(value)
    }
}

/// Conversion of a value into a [`Symbol`].
pub trait AsSymbol {
    /// The text of the symbol this value stands for.
    spec fn symbol_view(&self) -> Seq<char>;

    /// Converts this value into a [`Symbol`].
    fn as_symbol(&self) -> (s: Symbol)
        ensures
            s@ == self.symbol_view(),
    ;
}

impl AsSymbol for Symbol {
    open spec fn symbol_view(&self) -> Seq<char> {
        self@
    }

    fn as_symbol(&self) -> (s: Symbol) {
        self.clone()
    }
}

impl AsSymbol for &Symbol {
    open spec fn symbol_view(&self) -> Seq<char> {
        (*self)@
    }

    fn as_symbol(&self) -> (s: Symbol) {
        (*self).clone()
    }
}

impl AsSymbol for &str {
    open spec fn symbol_view(&self) -> Seq<char> {
        (*self)@
    }

    fn as_symbol(&self) -> (s: Symbol) {
        Symbol((*self).to_owned())
    }
}

impl AsSymbol for String {
    open spec fn symbol_view(&self) -> Seq<char> {
        self@
    }

    fn as_symbol(&self) -> (s: Symbol) {
        Symbol(self.clone())
    }
}

/// An order identifier.
#[derive(Debug, Clone, Copy, PartialEq, Eq, Hash, Structural)]
pub struct OrderId(pub u64);

/// One leg of a live order.
#[derive(Debug)]
pub struct LiveOrderLeg {
    /// The type of instrument this leg trades.
    pub instrument_type: crate::types::instrument::InstrumentType,
    /// The trading symbol of this leg.
    pub symbol: Symbol,
    /// The total quantity of this leg.
    pub quantity: u64,
    /// The quantity of this leg still unfilled.
    pub remaining_quantity: u64,
    /// The action of this leg.
    pub action: Action,
    /// The fills of this leg, as their texts.
    pub fills: Vec<String>,
}

/// A warning attached to an order response; currently carries no detail.
#[derive(Debug)]
pub struct Warning {}

} // verus!
