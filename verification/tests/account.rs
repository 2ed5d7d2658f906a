//! Tests for the account-update streamer and its heartbeat.

use tastytrade::accounts::AccountNumber;
use tastytrade::streaming::account_streaming::{
    AccountEvent, AccountRecv, AccountStreamer, HeartbeatSchedule, StatusMessage,
    SubRequestAction, HEARTBEAT_INTERVAL,
};
use tastytrade::streaming::command::TransportAction;
use tastytrade::streaming::connect::{
    account_channel_outcome, account_open_outcome, quote_connect_step, ConnectEvent,
    ConnectPhase,
};
use tastytrade::streaming::wire::EventKind;
use tastytrade::error::TastyTradeError;

fn status_event(action: &str) -> AccountEvent {
    AccountEvent::StatusMessage(StatusMessage {
        status: "success".to_string(),
        action: action.to_string(),
        web_socket_session_id: "session".to_string(),
        request_id: 1,
    })
}

#[test]
fn test_heartbeat_schedule_advance() {
    let mut schedule = HeartbeatSchedule::new(HEARTBEAT_INTERVAL);
    assert_eq!(schedule.advance(29), 0);
    assert_eq!(schedule.advance(1), 1);
    assert_eq!(schedule.advance(45), 1);
    // 15 units carried over, so 15 more complete the next interval.
    assert_eq!(schedule.advance(15), 1);
    assert_eq!(schedule.advance(90), 3);
}

#[test]
fn test_account_heartbeat_scenario() {
    // An account streamer running for three heartbeat intervals with no
    // subscriptions: the action channel sees exactly three heartbeats, and
    // the transport sees no subscribe and no unsubscribe.
    let mut streamer = AccountStreamer::new(Some(9));
    let fired = streamer.advance_time(3 * HEARTBEAT_INTERVAL);
    assert_eq!(fired, 3);

    let heartbeats = streamer
        .pending_actions()
        .iter()
        .filter(|a| matches!(a.action, SubRequestAction::Heartbeat))
        .count();
    assert_eq!(heartbeats, 3);

    let actions = streamer.process_commands();
    assert!(!actions
        .iter()
        .any(|a| matches!(a, TransportAction::Subscribe(..))));
    assert!(!actions
        .iter()
        .any(|a| matches!(a, TransportAction::Unsubscribe(..))));
}

#[test]
fn test_subscribe_to_account_with_channel() {
    let mut streamer = AccountStreamer::new(Some(4));
    streamer.subscribe_to_account(&AccountNumber("5WT0001".to_string()));

    let connect = streamer.pending_actions().last().unwrap();
    assert!(matches!(connect.action, SubRequestAction::Connect));
    assert_eq!(connect.value.as_ref().unwrap(), &vec!["5WT0001".to_string()]);

    let actions = streamer.process_commands();
    assert_eq!(actions.len(), 1);
    match &actions[0] {
        TransportAction::Subscribe(channel, requests) => {
            assert_eq!(*channel, 4);
            assert_eq!(requests.len(), 2);
            assert!(matches!(requests[0].event_kind, EventKind::Order));
            assert!(matches!(requests[1].event_kind, EventKind::Message));
            assert_eq!(requests[0].symbol.0, "5WT0001");
            assert_eq!(requests[1].symbol.0, "5WT0001");
        }
        other => panic!("expected a subscribe, found {:?}", other),
    }
}

#[test]
fn test_subscribe_to_account_without_channel() {
    // Without a feed channel only the legacy connect action goes out.
    let mut streamer = AccountStreamer::new(None);
    streamer.subscribe_to_account(&AccountNumber("5WT0002".to_string()));
    let actions = streamer.process_commands();
    assert!(actions.is_empty());
    assert_eq!(streamer.pending_actions().len(), 1);
}

#[test]
fn test_account_events_fifo() {
    let mut streamer = AccountStreamer::new(None);
    assert!(matches!(streamer.get_event(), AccountRecv::Pending));

    streamer.push_event(status_event("connect"));
    streamer.push_event(status_event("subscribe"));

    match streamer.get_event() {
        AccountRecv::Event(AccountEvent::StatusMessage(m)) => assert_eq!(m.action, "connect"),
        other => panic!("expected the first status message, found {:?}", other),
    }
    match streamer.get_event() {
        AccountRecv::Event(AccountEvent::StatusMessage(m)) => assert_eq!(m.action, "subscribe"),
        other => panic!("expected the second status message, found {:?}", other),
    }
    assert!(matches!(streamer.get_event(), AccountRecv::Pending));

    streamer.end_stream();
    assert!(matches!(streamer.get_event(), AccountRecv::Closed));
}

#[test]
fn test_account_shutdown_disconnects() {
    let mut streamer = AccountStreamer::new(Some(2));
    streamer.shutdown();
    let actions = streamer.process_commands();
    assert_eq!(actions.len(), 1);
    assert!(matches!(actions[0], TransportAction::Disconnect));
}

#[test]
fn test_quote_connect_success_path() {
    let phase = ConnectPhase::Start;
    let phase = quote_connect_step(phase, ConnectEvent::Opened(Ok(()))).unwrap();
    let phase = quote_connect_step(phase, ConnectEvent::ChannelCreated(Ok(11))).unwrap();
    let phase = quote_connect_step(phase, ConnectEvent::FeedConfigured(Ok(()))).unwrap();
    match phase {
        ConnectPhase::Ready(channel) => assert_eq!(channel, 11),
        other => panic!("expected a ready connection, found {:?}", other),
    }
}

#[test]
fn test_quote_connect_failure_is_terminal() {
    let outcome = quote_connect_step(
        ConnectPhase::Start,
        ConnectEvent::Opened(Err("refused".to_string())),
    );
    match outcome {
        Err(TastyTradeError::Streaming(message)) => assert_eq!(message, "refused"),
        other => panic!("expected a streaming error, found {:?}", other),
    }
}

#[test]
fn test_account_connect_outcomes() {
    assert!(account_open_outcome(Ok(())).is_ok());
    assert!(matches!(
        account_open_outcome(Err("refused".to_string())),
        Err(TastyTradeError::Streaming(_))
    ));
    assert_eq!(account_channel_outcome(Ok(8)), Some(8));
    assert_eq!(account_channel_outcome(Err("no channel".to_string())), None);
}
