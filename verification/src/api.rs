//! Plain data carried to and from the remote API: pagination, streamer
//! tokens, and streamer symbols.
//!
//! The HTTP client itself, its per-endpoint wrappers and the JSON decoding
//! are outside collaborators; this module holds the values they hand over.

use vstd::prelude::*;

use crate::types::order::{AsSymbol, Symbol};

verus! {

/// Where the streamer symbol of an instrument comes from: which instrument
/// lookup carries it, or the instrument's own symbol where no lookup does.
#[derive(Debug, Clone, Copy, PartialEq, Eq, Structural)]
pub enum StreamerSymbolLookup {
    /// Look the symbol up in the equity instrument info.
    EquityInfo,
    /// Look the symbol up in the option info.
    OptionInfo,
    /// Look the symbol up in the future contract.
    FutureInfo,
    /// Look the symbol up in the future option; fall back to the
    /// instrument's own symbol where the future option carries none.
    FutureOptionInfo,
    /// Look the symbol up in the cryptocurrency instrument.
    CryptocurrencyInfo,
    /// Take the warrant's own symbol.
    WarrantInfo,
    /// Use the instrument's own symbol as the streamer symbol.
    Identity,
}

/// Decides which lookup yields an instrument's streamer symbol: equities
/// and equity offerings go through the equity info, options, futures,
/// future options and cryptocurrencies through their own lookups, warrants
/// through the warrant lookup, and the remaining kinds use their own
/// symbol unchanged.
pub fn streamer_symbol_lookup(instrument_type: &crate::types::instrument::InstrumentType) -> (r:
    StreamerSymbolLookup)
    ensures
        r == (match instrument_type {
            crate::types::instrument::InstrumentType::Equity => StreamerSymbolLookup::EquityInfo,
            crate::types::instrument::InstrumentType::EquityOption => StreamerSymbolLookup::OptionInfo,
            crate::types::instrument::InstrumentType::EquityOffering => StreamerSymbolLookup::EquityInfo,
            crate::types::instrument::InstrumentType::Future => StreamerSymbolLookup::FutureInfo,
            crate::types::instrument::InstrumentType::FutureOption => StreamerSymbolLookup::FutureOptionInfo,
            crate::types::instrument::InstrumentType::Cryptocurrency => StreamerSymbolLookup::CryptocurrencyInfo,
            crate::types::instrument::InstrumentType::Bond => StreamerSymbolLookup::Identity,
            crate::types::instrument::InstrumentType::FixedIncomeSecurity => StreamerSymbolLookup::Identity,
            crate::types::instrument::InstrumentType::LiquidityPool => StreamerSymbolLookup::Identity,
            crate::types::instrument::InstrumentType::Warrant => StreamerSymbolLookup::WarrantInfo,
        }),
{
    match instrument_type {
        crate::types::instrument::InstrumentType::Equity => StreamerSymbolLookup::EquityInfo,
        crate::types::instrument::InstrumentType::EquityOption => StreamerSymbolLookup::OptionInfo,
        crate::types::instrument::InstrumentType::EquityOffering => StreamerSymbolLookup::EquityInfo,
        crate::types::instrument::InstrumentType::Future => StreamerSymbolLookup::FutureInfo,
        crate::types::instrument::InstrumentType::FutureOption => StreamerSymbolLookup::FutureOptionInfo,
        crate::types::instrument::InstrumentType::Cryptocurrency => StreamerSymbolLookup::CryptocurrencyInfo,
        crate::types::instrument::InstrumentType::Bond => StreamerSymbolLookup::Identity,
        crate::types::instrument::InstrumentType::FixedIncomeSecurity => StreamerSymbolLookup::Identity,
        crate::types::instrument::InstrumentType::LiquidityPool => StreamerSymbolLookup::Identity,
        crate::types::instrument::InstrumentType::Warrant => StreamerSymbolLookup::WarrantInfo,
    }
}

/// The pagination of a listing response.
#[derive(Debug)]
pub struct Pagination {
    /// How many items one page holds.
    pub per_page: usize,
    /// The offset of the current page, in pages.
    pub page_offset: usize,
    /// The offset of the current page, in items.
    pub item_offset: usize,
    /// How many items exist in total.
    pub total_items: usize,
    /// How many pages exist in total.
    pub total_pages: usize,
    /// How many items the current page holds.
    pub current_item_count: usize,
    /// A link to the previous page, if any.
    pub previous_link: Option<String>,
    /// A link to the next page, if any.
    pub next_link: Option<String>,
    /// A template for paging links, if any.
    pub paging_link_template: Option<String>,
}

/// One page of a listing response, with its pagination.
#[derive(Debug)]
pub struct Paginated<T> {
    /// The page's items.
    pub items: Vec<T>,
    /// The page's pagination.
    pub pagination: Pagination,
}

/// The tokens that authorize a market-data streamer connection.
#[derive(Debug)]
pub struct QuoteStreamerTokens {
    /// The streamer token.
    pub token: String,
    /// The endpoint to connect the streamer to.
    pub streamer_url: String,
    /// The data level of the tokens, such as `delayed`.
    pub level: String,
}

/// A symbol in the market-data feed's own symbology.
#[derive(Debug, PartialEq, Eq, PartialOrd, Ord, Hash)]
pub struct DxFeedSymbol(pub String);

impl View for DxFeedSymbol {
    type V = Seq<char>;

    open spec fn view(&self) -> Seq<char> {
        self.0@
    }
}

impl Clone for DxFeedSymbol {
    fn clone(&self) -> (r: Self)
        ensures
            r@ == self@,
    {
        DxFeedSymbol(self.0.clone())
    }
}

impl AsSymbol for DxFeedSymbol {
    open spec fn symbol_view(&self) -> Seq<char> {
        self@
    }

    fn as_symbol(&self) -> (s: Symbol) {
        Symbol(self.0.clone())
    }
}

impl AsSymbol for &DxFeedSymbol {
    open spec fn symbol_view(&self) -> Seq<char> {
        (*self)@
    }

    fn as_symbol(&self) -> (s: Symbol) {
        Symbol(self.0.clone())
    }
}

/// The streamer symbol under which an option instrument is known.
#[derive(Debug)]
pub struct OptionInfo {
    /// The streamer symbol of the option.
    pub streamer_symbol: DxFeedSymbol,
}

} // verus!
