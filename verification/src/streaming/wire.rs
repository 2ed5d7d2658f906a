//! The wire vocabulary exchanged with the streaming transport: event kinds,
//! subscription requests, and decoded wire events.
//!
//! A [`WireSubscriptionRequest`] is the atomic unit sent to the transport to
//! start or stop receiving events for one symbol and one event kind.
//! [`build_requests`] expands a symbol list against a flag set into exactly
//! one request per set flag per symbol, in symbol order.

use vstd::prelude::*;

use crate::types::dxfeed::{DXF_ET_GREEKS, DXF_ET_QUOTE, DXF_ET_TRADE};
use crate::types::order::Symbol;

verus! {

/// The kind of a wire event, as the transport names it.
#[derive(Debug, Clone, Copy, PartialEq, Eq, Hash, Structural)]
pub enum EventKind {
    /// A quote (bid/ask) event.
    Quote,
    /// A trade (last sale) event.
    Trade,
    /// An option-greeks event.
    Greeks,
    /// An account order event.
    Order,
    /// An account message event.
    Message,
}

impl EventKind {
    /// The name of this kind on the wire.
    pub open spec fn spec_wire_name(&self) -> Seq<char> {
        match self {
            EventKind::Quote => "Quote"@,
            EventKind::Trade => "Trade"@,
            EventKind::Greeks => "Greeks"@,
            EventKind::Order => "Order"@,
            EventKind::Message => "Message"@,
        }
    }

    /// Returns the name of this kind on the wire.
    pub fn wire_name(&self) -> (r: String)
        ensures
            r@ == self.spec_wire_name(),
    {
        match self {
            EventKind::Quote => "Quote".to_owned(),
            EventKind::Trade => "Trade".to_owned(),
            EventKind::Greeks => "Greeks".to_owned(),
            EventKind::Order => "Order".to_owned(),
            EventKind::Message => "Message".to_owned(),
        }
    }
}

/// The mathematical value of a [`WireSubscriptionRequest`].
#[verifier::ext_equal]
pub struct ReqView {
    /// The requested event kind.
    pub kind: EventKind,
    /// The symbol, as its text.
    pub symbol: Seq<char>,
    /// The optional start time.
    pub from_time: Option<i64>,
    /// The optional event source, as its text.
    pub source: Option<Seq<char>>,
}

/// One unit sent to the transport to start or stop receiving events for one
/// symbol and one event kind.
#[derive(Debug)]
pub struct WireSubscriptionRequest {
    /// The requested event kind.
    pub event_kind: EventKind,
    /// The symbol to receive events for.
    pub symbol: Symbol,
    /// An optional timestamp to start delivery from.
    pub from_time: Option<i64>,
    /// An optional event source.
    pub source: Option<Symbol>,
}

impl View for WireSubscriptionRequest {
    type V = ReqView;

    open spec fn view(&self) -> ReqView {
        ReqView {
            kind: self.event_kind,
            symbol: self.symbol@,
            from_time: self.from_time,
            source: match self.source {
                Option::Some(s) => Option::Some(s@),
                Option::None => Option::None,
            },
        }
    }
}

/// The mathematical value of a [`WireEvent`].
#[verifier::ext_equal]
pub struct EventView {
    /// The kind of the event.
    pub kind: EventKind,
    /// The symbol the event is about, as its text.
    pub symbol: Seq<char>,
    /// The decoded payload of the event, as its text.
    pub body: Seq<char>,
}

/// One decoded event read from the transport.
///
/// The multiplexer routes events without inspecting their payload, so the
/// payload travels here in its decoded textual form; the surrounding
/// application converts the transport's concrete event values at the
/// boundary.
#[derive(Debug)]
pub struct WireEvent {
    /// The kind of the event.
    pub kind: EventKind,
    /// The symbol the event is about.
    pub symbol: Symbol,
    /// The decoded payload of the event.
    pub body: String,
}

impl View for WireEvent {
    type V = EventView;

    open spec fn view(&self) -> EventView {
        EventView { kind: self.kind, symbol: self.symbol@, body: self.body@ }
    }
}

impl Clone for WireEvent {
    fn clone(&self) -> (r: Self)
        ensures
            r@ == self@,
    {
        WireEvent { kind: self.kind, symbol: self.symbol.clone(), body: self.body.clone() }
    }
}

/// A plain request for the given kind and symbol, with no start time and no
/// source.
pub open spec fn plain_req(kind: EventKind, sym: Seq<char>) -> ReqView {
    ReqView { kind, symbol: sym, from_time: Option::None, source: Option::None }
}

/// The requests that one symbol expands to under the given flags: one request
/// per set flag, in the order quote, trade, greeks.
pub open spec fn requests_for_symbol(flags: i32, sym: Seq<char>) -> Seq<ReqView> {
    (if flags & DXF_ET_QUOTE != 0 {
        seq![plain_req(EventKind::Quote, sym)]
    } else {
        Seq::empty()
    }) + (if flags & DXF_ET_TRADE != 0 {
        seq![plain_req(EventKind::Trade, sym)]
    } else {
        Seq::empty()
    }) + (if flags & DXF_ET_GREEKS != 0 {
        seq![plain_req(EventKind::Greeks, sym)]
    } else {
        Seq::empty()
    })
}

/// The requests that a symbol list expands to under the given flags: the
/// per-symbol expansions, concatenated in symbol order.
pub open spec fn requests_for(flags: i32, syms: Seq<Seq<char>>) -> Seq<ReqView>
    decreases syms.len(),
{
    if syms.len() == 0 {
        Seq::empty()
    } else {
        requests_for_symbol(flags, syms[0]) + requests_for(flags, syms.drop_first())
    }
}

/// Expanding one more symbol at the end appends its expansion.
pub proof fn lemma_requests_for_push(flags: i32, syms: Seq<Seq<char>>, sym: Seq<char>)
    ensures
        requests_for(flags, syms.push(sym)) == requests_for(flags, syms) + requests_for_symbol(
            flags,
            sym,
        ),
    decreases syms.len(),
{
    let pushed = syms.push(sym);
    if syms.len() == 0 {
        assert(pushed[0] == sym);
        assert(pushed.drop_first() =~= Seq::<Seq<char>>::empty());
        assert(requests_for(flags, pushed) == requests_for_symbol(flags, sym) + requests_for(
            flags,
            Seq::<Seq<char>>::empty(),
        ));
        assert(requests_for(flags, pushed) =~= requests_for_symbol(flags, sym));
        assert(requests_for(flags, syms) + requests_for_symbol(flags, sym) =~= requests_for_symbol(
            flags,
            sym,
        ));
    } else {
        assert(pushed[0] == syms[0]);
        assert(pushed.drop_first() =~= syms.drop_first().push(sym));
        lemma_requests_for_push(flags, syms.drop_first(), sym);
        assert(requests_for(flags, pushed) == requests_for_symbol(flags, syms[0]) + (requests_for(
            flags,
            syms.drop_first(),
        ) + requests_for_symbol(flags, sym)));
        assert(requests_for_symbol(flags, syms[0]) + (requests_for(flags, syms.drop_first())
            + requests_for_symbol(flags, sym)) =~= (requests_for_symbol(flags, syms[0])
            + requests_for(flags, syms.drop_first())) + requests_for_symbol(flags, sym));
    }
}

/// Expands each symbol into one request per flag set in `flags`: the result
/// holds, for each symbol in order, one request per set flag (quote, trade,
/// greeks, in that order), and nothing else.
pub fn build_requests(flags: i32, symbols: &Vec<Symbol>) -> (r: Vec<WireSubscriptionRequest>)
    ensures
        r@.map_values(|q: WireSubscriptionRequest| q@) == requests_for(
            flags,
            symbols@.map_values(|s: Symbol| s@),
        ),
{
    let mut out: Vec<WireSubscriptionRequest> = Vec::new();
    let ghost all_views = symbols@.map_values(|s: Symbol| s@);
    let mut i: usize = 0;
    while i < symbols.len()
        invariant
            i <= symbols.len(),
            all_views == symbols@.map_values(|s: Symbol| s@),
            out@.map_values(|q: WireSubscriptionRequest| q@) == requests_for(
                flags,
                all_views.take(i as int),
            ),
        decreases symbols.len() - i,
    {
        let sym = &symbols[i];
        let ghost before = out@;
        if flags & DXF_ET_QUOTE != 0 {
            out.push(
                WireSubscriptionRequest {
                    event_kind: EventKind::Quote,
                    symbol: sym.clone(),
                    from_time: None,
                    source: None,
                },
            );
        }
        if flags & DXF_ET_TRADE != 0 {
            out.push(
                WireSubscriptionRequest {
                    event_kind: EventKind::Trade,
                    symbol: sym.clone(),
                    from_time: None,
                    source: None,
                },
            );
        }
        if flags & DXF_ET_GREEKS != 0 {
            out.push(
                WireSubscriptionRequest {
                    event_kind: EventKind::Greeks,
                    symbol: sym.clone(),
                    from_time: None,
                    source: None,
                },
            );
        }
        proof {
            assert(out@.map_values(|q: WireSubscriptionRequest| q@) =~= before.map_values(
                |q: WireSubscriptionRequest| q@,
            ) + requests_for_symbol(flags, sym@));
            lemma_requests_for_push(flags, all_views.take(i as int), sym@);
            assert(all_views.take(i + 1) =~= all_views.take(i as int).push(sym@));
        }
        i = i + 1;
    }
    proof {
        assert(all_views.take(symbols@.len() as int) =~= all_views);
    }
    out
}

} // verus!
