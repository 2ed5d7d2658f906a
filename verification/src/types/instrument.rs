//! Instrument-related types.

use vstd::prelude::*;

use crate::api::DxFeedSymbol;
use crate::types::order::Symbol;

verus! {

/// The kind of a financial instrument.
#[derive(Debug, Clone, PartialEq, Eq, Structural)]
pub enum InstrumentType {
    /// An equity.
    Equity,
    /// An equity option.
    EquityOption,
    /// An equity offering.
    EquityOffering,
    /// A future.
    Future,
    /// A future option.
    FutureOption,
    /// A cryptocurrency.
    Cryptocurrency,
    /// A bond.
    Bond,
    /// A fixed income security.
    FixedIncomeSecurity,
    /// A liquidity pool.
    LiquidityPool,
    /// A warrant.
    Warrant,
}

impl InstrumentType {
    /// The display name of this variant.
    pub open spec fn spec_name(&self) -> Seq<char> {
        match self {
            InstrumentType::Equity => "Equity"@,
            InstrumentType::EquityOption => "Equity Option"@,
            InstrumentType::EquityOffering => "Equity Offering"@,
            InstrumentType::Future => "Future"@,
            InstrumentType::FutureOption => "Future Option"@,
            InstrumentType::Cryptocurrency => "Cryptocurrency"@,
            InstrumentType::Bond => "Bond"@,
            InstrumentType::FixedIncomeSecurity => "Fixed Income Security"@,
            InstrumentType::LiquidityPool => "Liquidity Pool"@,
            InstrumentType::Warrant => "Warrant"@,
        }
    }

    /// Returns the display name of this variant.
    pub fn name(&self) -> (r: String)
        ensures
            r@ == self.spec_name(),
    {
        match self {
            InstrumentType::Equity => "Equity".to_owned(),
            InstrumentType::EquityOption => "Equity Option".to_owned(),
            InstrumentType::EquityOffering => "Equity Offering".to_owned(),
            InstrumentType::Future => "Future".to_owned(),
            InstrumentType::FutureOption => "Future Option".to_owned(),
            InstrumentType::Cryptocurrency => "Cryptocurrency".to_owned(),
            InstrumentType::Bond => "Bond".to_owned(),
            InstrumentType::FixedIncomeSecurity => "Fixed Income Security".to_owned(),
            InstrumentType::LiquidityPool => "Liquidity Pool".to_owned(),
            InstrumentType::Warrant => "Warrant".to_owned(),
        }
    }
}

/// A compact option chain: the essential strike information for one
/// underlying.
#[derive(Debug)]
pub struct CompactOptionChain {
    /// The symbol of the underlying asset.
    pub underlying_symbol: Symbol,
    /// The root symbol of the chain.
    pub root_symbol: Symbol,
    /// The type of the chain, such as `equity`.
    pub option_chain_type: String,
    /// The settlement type of the chain.
    pub settlement_type: Option<String>,
    /// How many shares each contract represents.
    pub shares_per_contract: u64,
    /// The expiration type of the chain.
    pub expiration_type: Option<String>,
    /// The chain's option symbols, compactly.
    pub symbols: Option<Vec<String>>,
    /// The chain's streamer symbols, compactly.
    pub streamer_symbols: Option<Vec<String>>,
}

/// The payload of a compact option chain response.
#[derive(Debug)]
pub struct CompactOptionChainData {
    /// The compact chains.
    pub items: Vec<CompactOptionChain>,
}

/// A compact option chain response.
#[derive(Debug)]
pub struct CompactOptionChainResponse {
    /// The response's payload.
    pub data: CompactOptionChainData,
}

/// The symbols under which one equity instrument is known.
#[derive(Debug)]
pub struct EquityInstrumentInfo {
    /// The symbol of the instrument.
    pub symbol: Symbol,
    /// The streamer symbol of the instrument.
    pub streamer_symbol: DxFeedSymbol,
}

/// A tick size: the minimum price movement of an instrument.
#[derive(Debug)]
pub struct TickSize {
    /// The value of the tick size.
    pub value: String,
    /// An optional threshold the tick size applies above.
    pub threshold: Option<String>,
}

impl Clone for TickSize {
    fn clone(&self) -> (r: Self) {
        TickSize {
            value: self.value.clone(),
            threshold: match &self.threshold {
                Some(t) => Some(t.clone()),
                None => None,
            },
        }
    }
}

/// An equity instrument.
#[derive(Debug)]
pub struct EquityInstrument {
    /// The unique identifier of the instrument.
    pub id: u64,
    /// The symbol of the instrument.
    pub symbol: Symbol,
    /// The type of the instrument; always the equity kind here.
    pub instrument_type: InstrumentType,
    /// The instrument's CUSIP number.
    pub cusip: Option<String>,
    /// A short description of the instrument.
    pub short_description: String,
    /// Whether the instrument is an index.
    pub is_index: bool,
    /// The market the instrument is listed on.
    pub listed_market: String,
    /// A detailed description of the instrument.
    pub description: String,
    /// The lendability of the instrument.
    pub lendability: Option<String>,
    /// The borrow rate of the instrument.
    pub borrow_rate: Option<String>,
    /// The market-time instrument collection.
    pub market_time_instrument_collection: String,
    /// Whether the instrument is closing only.
    pub is_closing_only: bool,
    /// Whether the instrument's options are closing only.
    pub is_options_closing_only: bool,
    /// Whether the instrument is active.
    pub active: bool,
    /// Whether the instrument allows fractional quantities.
    pub is_fractional_quantity_eligible: bool,
    /// Whether the instrument is illiquid.
    pub is_illiquid: bool,
    /// Whether the instrument is an exchange-traded fund.
    pub is_etf: bool,
    /// Whether the instrument bypasses manual review.
    pub bypass_manual_review: bool,
    /// Whether the instrument is a fraud risk.
    pub is_fraud_risk: bool,
    /// The instrument's streamer symbol.
    pub streamer_symbol: DxFeedSymbol,
    /// The instrument's tick sizes.
    pub tick_sizes: Option<Vec<TickSize>>,
    /// The instrument's option tick sizes.
    pub option_tick_sizes: Option<Vec<TickSize>>,
}

/// One futures contract, as a futures nested option chain reports it.
#[derive(Debug)]
pub struct FuturesInfo {
    /// The symbol of the contract.
    pub symbol: String,
    /// The root symbol of the contract.
    pub root_symbol: String,
    /// The expiration date of the contract.
    pub expiration_date: String,
    /// How many days remain until expiration.
    pub days_to_expiration: i32,
    /// Whether this is an active-month contract.
    pub active_month: bool,
    /// Whether this is the next active-month contract.
    pub next_active_month: bool,
    /// When the contract stops trading.
    pub stops_trading_at: String,
    /// When the contract expires.
    pub expires_at: String,
}

/// A tick size of a futures option.
#[derive(Debug)]
pub struct FuturesTickSize {
    /// An optional threshold the tick size applies above.
    pub threshold: Option<String>,
    /// The value of the tick size.
    pub value: String,
}

/// How a future rolls into the next contract.
#[derive(Debug)]
pub struct FutureRoll {
    /// The name of the roll.
    pub name: String,
    /// The active count of the roll.
    pub active_count: u32,
    /// Whether the roll is cash settled.
    pub cash_settled: bool,
    /// The business-days offset of the roll.
    pub business_days_offset: u32,
    /// Whether the roll is the first notice.
    pub first_notice: bool,
}

/// A future product.
#[derive(Debug)]
pub struct FutureProduct {
    /// The root symbol of the product.
    pub root_symbol: Symbol,
    /// The code of the product.
    pub code: String,
    /// The description of the product.
    pub description: String,
    /// The clearing code of the product.
    pub clearing_code: String,
    /// The clearing exchange code of the product.
    pub clearing_exchange_code: String,
    /// The clearport code of the product.
    pub clearport_code: Option<String>,
    /// The legacy code of the product.
    pub legacy_code: Option<String>,
    /// The exchange the product trades on.
    pub exchange: String,
    /// The legacy exchange code of the product.
    pub legacy_exchange_code: Option<String>,
    /// The type of the product.
    pub product_type: String,
    /// The listed months of the product.
    pub listed_months: Vec<String>,
    /// The active months of the product.
    pub active_months: Vec<String>,
    /// The notional multiplier of the product.
    pub notional_multiplier: String,
    /// The tick size of the product.
    pub tick_size: String,
    /// The display factor of the product.
    pub display_factor: String,
    /// The streamer exchange code of the product.
    pub streamer_exchange_code: String,
    /// Whether the product has a small notional value.
    pub small_notional: bool,
    /// Whether the back month is the first calendar symbol.
    pub back_month_first_calendar_symbol: bool,
    /// Whether the product has a first notice.
    pub first_notice: bool,
    /// Whether the product is cash settled.
    pub cash_settled: bool,
    /// The security group of the product.
    pub security_group: Option<String>,
    /// The market sector of the product.
    pub market_sector: String,
    /// How the product rolls.
    pub roll: FutureRoll,
}

/// A future contract.
#[derive(Debug)]
pub struct Future {
    /// The symbol of the contract.
    pub symbol: Symbol,
    /// The product code of the contract.
    pub product_code: String,
    /// The contract size.
    pub contract_size: String,
    /// The tick size of the contract.
    pub tick_size: String,
    /// The notional multiplier of the contract.
    pub notional_multiplier: String,
    /// The main fraction of the contract.
    pub main_fraction: String,
    /// The sub-fraction of the contract.
    pub sub_fraction: String,
    /// The display factor of the contract.
    pub display_factor: String,
    /// The last trade date of the contract.
    pub last_trade_date: String,
    /// The expiration date of the contract.
    pub expiration_date: String,
    /// The closing-only date of the contract.
    pub closing_only_date: Option<String>,
    /// Whether the contract is active.
    pub active: bool,
    /// Whether the contract is in the active month.
    pub active_month: bool,
    /// Whether the contract is in the next active month.
    pub next_active_month: bool,
    /// Whether the contract is closing only.
    pub is_closing_only: bool,
    /// When the contract stops trading.
    pub stops_trading_at: String,
    /// When the contract expires.
    pub expires_at: String,
    /// The product group of the contract.
    pub product_group: String,
    /// The exchange the contract trades on.
    pub exchange: String,
    /// The roll target symbol of the contract.
    pub roll_target_symbol: Option<Symbol>,
    /// The streamer exchange code of the contract.
    pub streamer_exchange_code: String,
    /// The streamer symbol of the contract.
    pub streamer_symbol: DxFeedSymbol,
    /// Whether the back month is the first calendar symbol.
    pub back_month_first_calendar_symbol: bool,
    /// Whether the contract is tradeable.
    pub is_tradeable: bool,
    /// The product the contract belongs to.
    pub future_product: FutureProduct,
    /// The tick sizes of the contract.
    pub tick_sizes: Vec<TickSize>,
    /// The option tick sizes of the contract.
    pub option_tick_sizes: Vec<TickSize>,
    /// The spread tick sizes of the contract, as key-value maps.
    pub spread_tick_sizes: Option<Vec<std::collections::HashMap<String, String>>>,
}

/// A destination venue symbol of a cryptocurrency.
#[derive(Debug)]
pub struct DestinationVenueSymbol {
    /// The unique identifier of the symbol.
    pub id: u64,
    /// The symbol itself.
    pub symbol: Symbol,
    /// The destination venue the symbol trades on.
    pub destination_venue: String,
    /// The maximum precision of quantity values.
    pub max_quantity_precision: Option<u32>,
    /// The maximum precision of price values.
    pub max_price_precision: Option<u32>,
    /// Whether the symbol is routable.
    pub routable: bool,
}

/// A cryptocurrency instrument.
#[derive(Debug)]
pub struct Cryptocurrency {
    /// The unique identifier of the instrument.
    pub id: u64,
    /// The symbol of the instrument.
    pub symbol: Symbol,
    /// The type of the instrument; always the cryptocurrency kind here.
    pub instrument_type: InstrumentType,
    /// A short description of the instrument.
    pub short_description: String,
    /// A detailed description of the instrument.
    pub description: String,
    /// Whether the instrument is closing only.
    pub is_closing_only: bool,
    /// Whether the instrument is active.
    pub active: bool,
    /// The tick size of the instrument.
    pub tick_size: String,
    /// The streamer symbol of the instrument.
    pub streamer_symbol: DxFeedSymbol,
    /// The destination venue symbols of the instrument.
    pub destination_venue_symbols: Vec<DestinationVenueSymbol>,
}

/// A warrant instrument.
#[derive(Debug)]
pub struct Warrant {
    /// The symbol of the warrant.
    pub symbol: Symbol,
    /// The type of the instrument; always the warrant kind here.
    pub instrument_type: InstrumentType,
    /// The market the warrant is listed on.
    pub listed_market: String,
    /// A description of the warrant.
    pub description: String,
    /// Whether the warrant is closing only.
    pub is_closing_only: bool,
    /// Whether the warrant is active.
    pub active: bool,
}

/// The decimal precision of quantities for one instrument.
#[derive(Debug)]
pub struct QuantityDecimalPrecision {
    /// The type of the instrument.
    pub instrument_type: InstrumentType,
    /// The symbol of the instrument, where one applies.
    pub symbol: Option<Symbol>,
    /// How many decimal places a quantity may have.
    pub value: u32,
    /// How many decimal places the minimum increment has.
    pub minimum_increment_precision: u32,
}

} // verus!
