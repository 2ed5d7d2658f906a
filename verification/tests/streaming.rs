//! Tests for the streaming multiplexer: delivery channels, the registry,
//! the dispatcher, and the two streamer variants.

use tastytrade::streaming::channel::{DeliveryQueue, RecvOutcome};
use tastytrade::streaming::command::{Command, TransportAction};
use tastytrade::streaming::quote_streamer::{QuoteStreamer, EVENT_CHANNEL_CAPACITY};
use tastytrade::streaming::registry::Registry;
use tastytrade::streaming::wire::{build_requests, EventKind, WireEvent};
use tastytrade::types::dxfeed::{DXF_ET_GREEKS, DXF_ET_QUOTE, DXF_ET_TRADE};
use tastytrade::types::order::Symbol;

fn quote_event(symbol: &str, body: &str) -> WireEvent {
    WireEvent {
        kind: EventKind::Quote,
        symbol: Symbol(symbol.to_string()),
        body: body.to_string(),
    }
}

#[test]
fn test_build_requests_expands_flags_per_symbol() {
    let symbols = vec![Symbol("AAPL".to_string())];
    let requests = build_requests(DXF_ET_QUOTE | DXF_ET_TRADE, &symbols);

    assert_eq!(requests.len(), 2);
    assert!(matches!(requests[0].event_kind, EventKind::Quote));
    assert_eq!(requests[0].symbol.0, "AAPL");
    assert!(matches!(requests[1].event_kind, EventKind::Trade));
    assert_eq!(requests[1].symbol.0, "AAPL");
    assert!(!requests
        .iter()
        .any(|r| matches!(r.event_kind, EventKind::Greeks)));
}

#[test]
fn test_build_requests_all_flags_many_symbols() {
    let symbols = vec![Symbol("SPX".to_string()), Symbol("NDX".to_string())];
    let requests = build_requests(DXF_ET_QUOTE | DXF_ET_TRADE | DXF_ET_GREEKS, &symbols);

    assert_eq!(requests.len(), 6);
    assert_eq!(requests[0].symbol.0, "SPX");
    assert_eq!(requests[2].symbol.0, "SPX");
    assert_eq!(requests[3].symbol.0, "NDX");
    assert!(matches!(requests[2].event_kind, EventKind::Greeks));
    assert!(matches!(requests[3].event_kind, EventKind::Quote));
}

#[test]
fn test_build_requests_no_flags() {
    let symbols = vec![Symbol("AAPL".to_string())];
    let requests = build_requests(0, &symbols);
    assert!(requests.is_empty());
}

#[test]
fn test_wire_names() {
    assert_eq!(EventKind::Quote.wire_name(), "Quote");
    assert_eq!(EventKind::Trade.wire_name(), "Trade");
    assert_eq!(EventKind::Greeks.wire_name(), "Greeks");
    assert_eq!(EventKind::Order.wire_name(), "Order");
    assert_eq!(EventKind::Message.wire_name(), "Message");
}

#[test]
fn test_delivery_queue_capacity_drops_newest() {
    // A channel of fixed capacity, offered more events than it can hold
    // with no consumer reading: exactly the capacity's worth of events is
    // retained (the oldest ones), the rest is dropped, nothing blocks.
    let capacity = 3;
    let mut queue = DeliveryQueue::new(capacity);

    for i in 0..capacity + 5 {
        let kept = queue.try_push(quote_event("AAPL", &format!("tick {}", i)));
        assert_eq!(kept, i < capacity);
    }
    assert_eq!(queue.len(), capacity);

    for i in 0..capacity {
        match queue.pop() {
            RecvOutcome::Event(e) => assert_eq!(e.body, format!("tick {}", i)),
            _ => panic!("expected a buffered event"),
        }
    }
    assert!(matches!(queue.pop(), RecvOutcome::Pending));
}

#[test]
fn test_delivery_queue_close_then_drain() {
    let mut queue = DeliveryQueue::new(4);
    assert!(queue.try_push(quote_event("MSFT", "a")));
    queue.close();
    assert!(queue.is_closed());

    // A closed channel drops further events but stays readable.
    assert!(!queue.try_push(quote_event("MSFT", "b")));
    assert!(matches!(queue.pop(), RecvOutcome::Event(_)));
    assert!(matches!(queue.pop(), RecvOutcome::EndOfStream));
}

#[test]
fn test_registry_add_remove() {
    let mut registry = Registry::new();
    assert!(!registry.contains_id(7));

    let chan0 = registry.add_sender(7, 10);
    let chan1 = registry.add_sender(7, 10);
    assert_eq!(chan0, 0);
    assert_eq!(chan1, 1);
    assert!(registry.contains_id(7));
    assert_eq!(registry.sender_count(7), 2);

    registry.remove_senders(7);
    assert!(!registry.contains_id(7));
    assert_eq!(registry.sender_count(7), 0);

    // Removing an absent identifier is a no-op.
    registry.remove_senders(7);
    assert!(!registry.contains_id(7));
}

#[test]
fn test_registry_deliver_reaches_every_channel() {
    let mut registry = Registry::new();
    registry.add_sender(1, 10);
    registry.add_sender(1, 10);
    registry.add_sender(2, 10);

    registry.deliver(&quote_event("AAPL", "tick"));

    for (id, chan) in [(1, 0), (1, 1), (2, 0)] {
        match registry.pop_event(id, chan) {
            RecvOutcome::Event(e) => {
                assert_eq!(e.symbol.0, "AAPL");
                assert_eq!(e.body, "tick");
            }
            _ => panic!("channel {} of subscription {} missed the event", chan, id),
        }
    }
}

#[test]
fn test_create_sub_requests_stream_once() {
    let mut streamer = QuoteStreamer::new(5);
    let first = streamer.create_sub(DXF_ET_QUOTE);
    let second = streamer.create_sub(DXF_ET_TRADE);
    assert_eq!(first.id.0, 0);
    assert_eq!(second.id.0, 1);
    assert_eq!(streamer.live_subscriptions(), 2);

    let actions = streamer.process_commands();
    // Registering delivery channels is internal; the only transport action
    // is the single event-stream request, made for the first subscription.
    assert_eq!(actions.len(), 1);
    assert!(matches!(actions[0], TransportAction::StartEventStream));
}

#[test]
fn test_quote_scenario_single_subscribe() {
    // Connect, create a quote subscription, add one symbol: the transport
    // observes exactly one subscribe command, holding exactly one request,
    // for the quote kind on that symbol.
    let mut streamer = QuoteStreamer::new(3);
    let handle = streamer.create_sub(DXF_ET_QUOTE);
    streamer.add_symbols(handle.id, &vec![Symbol("SPX".to_string())]);

    let actions = streamer.process_commands();
    let subscribes: Vec<_> = actions
        .iter()
        .filter(|a| matches!(a, TransportAction::Subscribe(..)))
        .collect();
    assert_eq!(subscribes.len(), 1);
    match subscribes[0] {
        TransportAction::Subscribe(channel, requests) => {
            assert_eq!(*channel, 3);
            assert_eq!(requests.len(), 1);
            assert!(matches!(requests[0].event_kind, EventKind::Quote));
            assert_eq!(requests[0].symbol.0, "SPX");
            assert!(requests[0].from_time.is_none());
            assert!(requests[0].source.is_none());
        }
        _ => unreachable!(),
    }
}

#[test]
fn test_clone_receives_own_copy() {
    // A handle and its clone each receive their own copy of every event
    // delivered after the clone: neither steals the other's events.
    let mut streamer = QuoteStreamer::new(1);
    let original = streamer.create_sub(DXF_ET_QUOTE);
    let clone = streamer.clone_sub(original.id).expect("subscription is live");
    assert_eq!(clone.id, original.id);
    assert_ne!(clone.channel, original.channel);
    streamer.process_commands();

    streamer.deliver_event(&quote_event("AAPL", "first"));
    streamer.deliver_event(&quote_event("AAPL", "second"));

    for handle in [&original, &clone] {
        match streamer.get_event(handle) {
            RecvOutcome::Event(e) => assert_eq!(e.body, "first"),
            _ => panic!("handle missed the first event"),
        }
        match streamer.get_event(handle) {
            RecvOutcome::Event(e) => assert_eq!(e.body, "second"),
            _ => panic!("handle missed the second event"),
        }
        assert!(matches!(streamer.get_event(handle), RecvOutcome::Pending));
    }
}

#[test]
fn test_close_sub_removes_channels() {
    // After a close completes its command sequence, the registry holds no
    // delivery channel for the closed subscription, and its handles read
    // end-of-stream; other subscriptions are untouched.
    let mut streamer = QuoteStreamer::new(1);
    let doomed = streamer.create_sub(DXF_ET_QUOTE);
    let kept = streamer.create_sub(DXF_ET_QUOTE);
    streamer.process_commands();

    streamer.close_sub(doomed.id);
    streamer.process_commands();

    assert!(matches!(
        streamer.get_event(&doomed),
        RecvOutcome::EndOfStream
    ));
    streamer.deliver_event(&quote_event("AAPL", "tick"));
    assert!(matches!(streamer.get_event(&kept), RecvOutcome::Event(_)));

    // Closing an already-closed subscription is a no-op.
    streamer.close_sub(doomed.id);
    assert_eq!(streamer.live_subscriptions(), 1);
}

#[test]
fn test_close_sub_orders_removal_before_unsubscribe() {
    // The close sequence always places the sender removal before the
    // unsubscribe for the subscription.
    let mut streamer = QuoteStreamer::new(1);
    let handle = streamer.create_sub(DXF_ET_QUOTE | DXF_ET_TRADE);
    streamer.add_symbols(handle.id, &vec![Symbol("AAPL".to_string())]);
    streamer.process_commands();

    streamer.close_sub(handle.id);
    let commands = streamer.pending_commands();
    assert_eq!(commands.len(), 2);
    match &commands[0] {
        Command::RemoveEventSender(id) => assert_eq!(*id, handle.id.0),
        other => panic!("expected the sender removal first, found {:?}", other),
    }
    match &commands[1] {
        Command::Unsubscribe(channel, requests) => {
            assert_eq!(*channel, 1);
            assert_eq!(requests.len(), 2);
            assert!(matches!(requests[0].event_kind, EventKind::Quote));
            assert!(matches!(requests[1].event_kind, EventKind::Trade));
            assert_eq!(requests[0].symbol.0, "AAPL");
        }
        other => panic!("expected the unsubscribe second, found {:?}", other),
    }
}

#[test]
fn test_add_symbols_merges_without_duplicates() {
    let mut streamer = QuoteStreamer::new(1);
    let handle = streamer.create_sub(DXF_ET_QUOTE);
    streamer.add_symbols(handle.id, &vec![Symbol("AAPL".to_string())]);
    streamer.add_symbols(handle.id, &vec![
        Symbol("AAPL".to_string()),
        Symbol("MSFT".to_string()),
    ]);
    streamer.process_commands();

    // The tracked symbol set holds each symbol once, so the close
    // unsubscribes each symbol exactly once.
    streamer.close_sub(handle.id);
    let commands = streamer.pending_commands();
    match &commands[1] {
        Command::Unsubscribe(_, requests) => {
            assert_eq!(requests.len(), 2);
            assert_eq!(requests[0].symbol.0, "AAPL");
            assert_eq!(requests[1].symbol.0, "MSFT");
        }
        other => panic!("expected an unsubscribe, found {:?}", other),
    }
}

#[test]
fn test_shutdown_disconnects_after_closes() {
    // Teardown submits every live subscription's close sequence before the
    // disconnect, and the disconnect is the last command.
    let mut streamer = QuoteStreamer::new(1);
    let first = streamer.create_sub(DXF_ET_QUOTE);
    let second = streamer.create_sub(DXF_ET_TRADE);
    streamer.add_symbols(first.id, &vec![Symbol("AAPL".to_string())]);
    streamer.add_symbols(second.id, &vec![Symbol("MSFT".to_string())]);
    streamer.process_commands();

    streamer.shutdown();
    let commands = streamer.pending_commands();
    assert!(matches!(commands.last().unwrap(), Command::Disconnect));
    for command in &commands[..commands.len() - 1] {
        assert!(!matches!(command, Command::Disconnect));
    }
    let removals: Vec<usize> = commands
        .iter()
        .filter_map(|c| match c {
            Command::RemoveEventSender(id) => Some(*id),
            _ => None,
        })
        .collect();
    assert_eq!(removals, vec![first.id.0, second.id.0]);
    assert_eq!(streamer.live_subscriptions(), 0);

    let actions = streamer.process_commands();
    assert!(matches!(actions.last().unwrap(), TransportAction::Disconnect));

    // Once the teardown has been executed, no delivery channel remains:
    // every handle reads end-of-stream.
    assert!(matches!(
        streamer.get_event(&first),
        RecvOutcome::EndOfStream
    ));
    assert!(matches!(
        streamer.get_event(&second),
        RecvOutcome::EndOfStream
    ));
}

#[test]
fn test_commands_after_disconnect_are_discarded() {
    let mut streamer = QuoteStreamer::new(1);
    let handle = streamer.create_sub(DXF_ET_QUOTE);
    streamer.shutdown();
    // A subscribe submitted after teardown never reaches the transport.
    streamer.add_symbols(handle.id, &vec![Symbol("AAPL".to_string())]);
    let actions = streamer.process_commands();
    assert!(matches!(actions.last().unwrap(), TransportAction::Disconnect));
    assert!(!actions
        .iter()
        .any(|a| matches!(a, TransportAction::Subscribe(..))));
}

#[test]
fn test_end_stream_closes_subscribers() {
    let mut streamer = QuoteStreamer::new(1);
    let handle = streamer.create_sub(DXF_ET_QUOTE);
    streamer.process_commands();

    streamer.deliver_event(&quote_event("AAPL", "last tick"));
    streamer.end_stream();

    // Buffered events stay readable; then the reader sees end-of-stream.
    assert!(matches!(streamer.get_event(&handle), RecvOutcome::Event(_)));
    assert!(matches!(
        streamer.get_event(&handle),
        RecvOutcome::EndOfStream
    ));
}

#[test]
fn test_event_channel_capacity_constant() {
    assert_eq!(EVENT_CHANNEL_CAPACITY, 100);
}
