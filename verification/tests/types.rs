//! Tests for the domain data types.

use tastytrade::api::{DxFeedSymbol, QuoteStreamerTokens};
use tastytrade::types::balance::SnapshotTimeOfDay;
use tastytrade::types::dxfeed::{DXF_ET_GREEKS, DXF_ET_QUOTE, DXF_ET_TRADE};
use tastytrade::types::instrument::InstrumentType;
use tastytrade::types::order::{Action, AsSymbol, OrderId, OrderStatus, OrderType, PriceEffect,
    Symbol, TimeInForce};
use tastytrade::types::position::QuantityDirection;

#[test]
fn test_quote_streamer_tokens_debug() {
    let tokens = QuoteStreamerTokens {
        token: "test_token".to_string(),
        streamer_url: "wss://test.com".to_string(),
        level: "realtime".to_string(),
    };

    let debug_str = format!("{:?}", tokens);
    assert!(debug_str.contains("test_token"));
    assert!(debug_str.contains("wss://test.com"));
    assert!(debug_str.contains("realtime"));
}

#[test]
fn test_dxfeed_symbol_creation() {
    let symbol = DxFeedSymbol("AAPL".to_string());
    assert_eq!(symbol.0, "AAPL");
}

#[test]
fn test_dxfeed_symbol_as_symbol_trait() {
    let dxfeed_symbol = DxFeedSymbol("MSFT".to_string());
    let symbol = dxfeed_symbol.as_symbol();
    assert_eq!(symbol.0, "MSFT");

    // Test with reference
    let symbol_ref = &dxfeed_symbol;
    let symbol = symbol_ref.as_symbol();
    assert_eq!(symbol.0, "MSFT");
}

#[test]
fn test_dxfeed_symbol_ordering() {
    let mut symbols = [
        DxFeedSymbol("TSLA".to_string()),
        DxFeedSymbol("AAPL".to_string()),
        DxFeedSymbol("MSFT".to_string()),
    ];

    symbols.sort();

    assert_eq!(symbols[0].0, "AAPL");
    assert_eq!(symbols[1].0, "MSFT");
    assert_eq!(symbols[2].0, "TSLA");
}

#[test]
fn test_instrument_type_matching() {
    let instrument_types = [
        InstrumentType::Equity,
        InstrumentType::EquityOption,
        InstrumentType::EquityOffering,
        InstrumentType::Future,
        InstrumentType::FutureOption,
        InstrumentType::Cryptocurrency,
    ];

    assert_eq!(instrument_types.len(), 6);
}

#[test]
fn test_snapshot_time_of_day_display() {
    assert_eq!(SnapshotTimeOfDay::Eod.name(), "Eod");
    assert_eq!(SnapshotTimeOfDay::Bod.name(), "Bod");
}

#[test]
fn test_constants() {
    assert_eq!(DXF_ET_QUOTE, 0x01);
    assert_eq!(DXF_ET_TRADE, 0x02);
    assert_eq!(DXF_ET_GREEKS, 0x08);
}

#[test]
fn test_price_effect_display() {
    assert_eq!(PriceEffect::Debit.name(), "Debit");
    assert_eq!(PriceEffect::Credit.name(), "Credit");
    assert_eq!(PriceEffect::NoEffect.name(), "None");
}

#[test]
fn test_order_status_display() {
    assert_eq!(OrderStatus::Received.name(), "Received");
    assert_eq!(OrderStatus::Live.name(), "Live");
    assert_eq!(OrderStatus::Filled.name(), "Filled");
    assert_eq!(OrderStatus::Cancelled.name(), "Cancelled");
    assert_eq!(OrderStatus::InFlight.name(), "In Flight");
    assert_eq!(OrderStatus::CancelRequested.name(), "Cancel Requested");
    assert_eq!(OrderStatus::ReplaceRequested.name(), "Replace Requested");
    assert_eq!(OrderStatus::PartiallyRemoved.name(), "Partially Removed");
}

#[test]
fn test_symbol_from_string() {
    let symbol = Symbol::from("AAPL");
    assert_eq!(symbol.0, "AAPL");

    let symbol = Symbol::from(String::from("MSFT"));
    assert_eq!(symbol.0, "MSFT");
}

#[test]
fn test_symbol_as_symbol_trait() {
    let symbol_str = "TSLA";
    let symbol = symbol_str.as_symbol();
    assert_eq!(symbol.0, "TSLA");

    let symbol_string = String::from("GOOGL");
    let symbol = symbol_string.as_symbol();
    assert_eq!(symbol.0, "GOOGL");

    let symbol_obj = Symbol::from("NVDA");
    let symbol = symbol_obj.as_symbol();
    assert_eq!(symbol.0, "NVDA");

    let symbol_ref = &Symbol::from("AMD");
    let symbol = symbol_ref.as_symbol();
    assert_eq!(symbol.0, "AMD");
}

#[test]
fn test_order_id() {
    let order_id = OrderId(12345);
    assert_eq!(order_id.0, 12345);
}

#[test]
fn test_symbol_ordering() {
    let symbol1 = Symbol::from("AAPL");
    let symbol2 = Symbol::from("MSFT");
    let symbol3 = Symbol::from("AAPL");

    assert!(symbol1 < symbol2);
    assert!(symbol1 <= symbol3);
    assert!(symbol2 > symbol1);
    assert_eq!(symbol1, symbol3);
}

#[test]
fn test_all_enum_variants_exist() {
    let _actions = [
        Action::BuyToOpen,
        Action::SellToOpen,
        Action::BuyToClose,
        Action::SellToClose,
        Action::Sell,
        Action::Buy,
    ];

    let _order_types = [
        OrderType::Limit,
        OrderType::Market,
        OrderType::MarketableLimit,
        OrderType::Stop,
        OrderType::StopLimit,
        OrderType::NotionalMarket,
    ];

    let _time_in_forces = [
        TimeInForce::Day,
        TimeInForce::Gtc,
        TimeInForce::Gtd,
        TimeInForce::Ext,
        TimeInForce::GTCExt,
        TimeInForce::Ioc,
    ];

    let _statuses = [
        OrderStatus::Received,
        OrderStatus::Routed,
        OrderStatus::InFlight,
        OrderStatus::Live,
        OrderStatus::CancelRequested,
        OrderStatus::ReplaceRequested,
        OrderStatus::Contingent,
        OrderStatus::Filled,
        OrderStatus::Cancelled,
        OrderStatus::Expired,
        OrderStatus::Rejected,
        OrderStatus::Removed,
        OrderStatus::PartiallyRemoved,
    ];
}

#[test]
fn test_quantity_direction_display() {
    assert_eq!(QuantityDirection::Long.name(), "Long");
    assert_eq!(QuantityDirection::Short.name(), "Short");
    assert_eq!(QuantityDirection::Zero.name(), "Zero");
}

#[test]
fn test_quantity_direction_debug() {
    let long = QuantityDirection::Long;
    let debug_str = format!("{:?}", long);
    assert_eq!(debug_str, "Long");
}

#[test]
fn test_instrument_type_names() {
    assert_eq!(InstrumentType::Equity.name(), "Equity");
    assert_eq!(InstrumentType::EquityOption.name(), "Equity Option");
    assert_eq!(InstrumentType::FixedIncomeSecurity.name(), "Fixed Income Security");
    assert_eq!(InstrumentType::Warrant.name(), "Warrant");
}

#[test]
fn test_snapshot_time_of_day_wire_names() {
    assert_eq!(SnapshotTimeOfDay::Eod.wire_name(), "EOD");
    assert_eq!(SnapshotTimeOfDay::Bod.wire_name(), "BOD");
}
