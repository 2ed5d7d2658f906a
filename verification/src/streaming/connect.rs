//! The connection state machine of a streamer.
//!
//! Connecting runs through fixed steps — open the transport, create one
//! feed channel, configure the channel's event kinds — and each step's
//! outcome decides the next phase. The surrounding application performs the
//! steps against the real transport and feeds their outcomes in here; the
//! decisions are made, and verified, in one place.
//!
//! For the market-data streamer every step must succeed and any failure is
//! a terminal connection error: there is no internal retry or fallback.
//! For the account streamer only the initial open is fatal; a missing feed
//! channel leaves the streamer on its legacy connection alone.

use vstd::prelude::*;

use crate::error::TastyTradeError;

verus! {

/// The phase a connecting streamer is in.
#[derive(Debug)]
pub enum ConnectPhase {
    /// Nothing happened yet.
    Start,
    /// The transport connection is open.
    Opened,
    /// The feed channel was created.
    ChannelCreated(u32),
    /// The feed channel is configured: the streamer can run.
    Ready(u32),
}

/// The outcome of one connection step, as the transport reported it;
/// failures carry the transport's error text.
#[derive(Debug)]
pub enum ConnectEvent {
    /// The outcome of opening the transport connection.
    Opened(Result<(), String>),
    /// The outcome of creating the feed channel.
    ChannelCreated(Result<u32, String>),
    /// The outcome of configuring the feed channel's event kinds.
    FeedConfigured(Result<(), String>),
}

/// Whether the event is the one the phase waits for.
pub open spec fn phase_accepts(phase: ConnectPhase, event: ConnectEvent) -> bool {
    match (phase, event) {
        (ConnectPhase::Start, ConnectEvent::Opened(_)) => true,
        (ConnectPhase::Opened, ConnectEvent::ChannelCreated(_)) => true,
        (ConnectPhase::ChannelCreated(_), ConnectEvent::FeedConfigured(_)) => true,
        _ => false,
    }
}

/// Advances the market-data streamer's connection by one step: a
/// successful outcome moves to the next phase, and any failure is a
/// terminal streaming error carrying the transport's text — connecting
/// never retries or falls back.
pub fn quote_connect_step(phase: ConnectPhase, event: ConnectEvent) -> (r: Result<
    ConnectPhase,
    TastyTradeError,
>)
    requires
        phase_accepts(phase, event),
    ensures
        phase is Start ==> (event matches ConnectEvent::Opened(Ok(())) ==> (r matches Ok(p) && p
            is Opened)),
        phase is Opened ==> (event matches ConnectEvent::ChannelCreated(Ok(ch)) ==> (r matches Ok(
            p,
        ) && p matches ConnectPhase::ChannelCreated(c) && c == ch)),
        phase matches ConnectPhase::ChannelCreated(ch) ==> (event matches
            ConnectEvent::FeedConfigured(Ok(())) ==> (r matches Ok(p) && p matches
            ConnectPhase::Ready(c) && c == ch)),
        event matches ConnectEvent::Opened(Err(e)) ==> (r matches Err(
            TastyTradeError::Streaming(m),
        ) && m@ == e@),
        event matches ConnectEvent::ChannelCreated(Err(e)) ==> (r matches Err(
            TastyTradeError::Streaming(m),
        ) && m@ == e@),
        event matches ConnectEvent::FeedConfigured(Err(e)) ==> (r matches Err(
            TastyTradeError::Streaming(m),
        ) && m@ == e@),
        r is Ok <==> (match event {
            ConnectEvent::Opened(out) => out is Ok,
            ConnectEvent::ChannelCreated(out) => out is Ok,
            ConnectEvent::FeedConfigured(out) => out is Ok,
        }),
{
    match (phase, event) {
        (ConnectPhase::Start, ConnectEvent::Opened(Ok(()))) => Ok(ConnectPhase::Opened),
        (ConnectPhase::Start, ConnectEvent::Opened(Err(e))) => Err(
            TastyTradeError::Streaming(e),
        ),
        (ConnectPhase::Opened, ConnectEvent::ChannelCreated(Ok(ch))) => Ok(
            ConnectPhase::ChannelCreated(ch),
        ),
        (ConnectPhase::Opened, ConnectEvent::ChannelCreated(Err(e))) => Err(
            TastyTradeError::Streaming(e),
        ),
        (ConnectPhase::ChannelCreated(ch), ConnectEvent::FeedConfigured(Ok(()))) => Ok(
            ConnectPhase::Ready(ch),
        ),
        (ConnectPhase::ChannelCreated(_), ConnectEvent::FeedConfigured(Err(e))) => Err(
            TastyTradeError::Streaming(e),
        ),
        _ => {
            proof {
                assert(false);
            }
            Err(TastyTradeError::Streaming(String::new()))
        },
    }
}

/// Decides how the account streamer treats the outcome of opening its
/// connection: a failure is fatal and becomes a streaming error carrying
/// the transport's text.
pub fn account_open_outcome(out: Result<(), String>) -> (r: Result<(), TastyTradeError>)
    ensures
        out is Ok <==> r is Ok,
        out matches Err(e) ==> (r matches Err(TastyTradeError::Streaming(m)) && m@ == e@),
{
    match out {
        Ok(()) => Ok(()),
        Err(e) => Err(TastyTradeError::Streaming(e)),
    }
}

/// Decides how the account streamer treats the outcome of creating its
/// feed channel: a failure is tolerated, leaving the streamer on its
/// legacy connection alone.
pub fn account_channel_outcome(out: Result<u32, String>) -> (r: Option<u32>)
    ensures
        out matches Ok(ch) ==> (r matches Some(c) && c == ch),
        out is Err ==> r is None,
{
    match out {
        Ok(ch) => Some(ch),
        Err(_) => None,
    }
}

} // verus!
