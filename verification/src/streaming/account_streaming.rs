//! The account-update streamer: the second instance of the multiplexer
//! architecture, streaming order, balance and position updates.
//!
//! Next to the feed-channel command queue it keeps a legacy-compatible
//! action channel (connect, heartbeats, watchlist subscriptions) and a
//! single unbounded delivery queue of decoded account events. A periodic
//! heartbeat keeps the session alive independently of subscription
//! activity.

use vstd::prelude::*;

use crate::accounts::AccountNumber;
use crate::streaming::command::{actions_after, step_action, ActView, CmdView, Command,
    TransportAction};
use crate::streaming::wire::{plain_req, EventKind, ReqView, WireSubscriptionRequest};
use crate::types::order::Symbol;

verus! {

/// The interval, in time units, between two heartbeats on the account
/// connection.
pub const HEARTBEAT_INTERVAL: u64 = 30;

/// The kinds of requests sent over the account connection's action channel.
#[derive(Debug, Clone, Copy, PartialEq, Eq, Structural)]
pub enum SubRequestAction {
    /// A keep-alive message.
    Heartbeat,
    /// A connection request for a list of account numbers.
    Connect,
    /// A subscription to public watchlists.
    PublicWatchlistsSubscribe,
    /// A subscription to quote alerts.
    QuoteAlertsSubscribe,
    /// A subscription to user messages.
    UserMessageSubscribe,
}

/// One action for the account connection to perform: the request kind and
/// its optional value (a list of account numbers, where the kind takes
/// one).
#[derive(Debug)]
pub struct HandlerAction {
    /// The request kind.
    pub action: SubRequestAction,
    /// The value sent along with the request, if any.
    pub value: Option<Vec<String>>,
}

/// A status message received from the account connection.
#[derive(Debug)]
pub struct StatusMessage {
    /// The status of the request, such as `success` or `error`.
    pub status: String,
    /// The action the status answers.
    pub action: String,
    /// The websocket session the status belongs to.
    pub web_socket_session_id: String,
    /// The identifier of the answered request.
    pub request_id: u64,
}

/// An error message received from the account connection.
#[derive(Debug)]
pub struct ErrorMessage {
    /// The status of the error.
    pub status: String,
    /// The action that caused the error.
    pub action: String,
    /// The websocket session the error belongs to.
    pub web_socket_session_id: String,
    /// A human-readable description of the error.
    pub message: String,
}

/// An account-scoped message. The multiplexer routes these without reading
/// their record payloads, so each payload travels in its decoded textual
/// form; the surrounding application converts the concrete record values at
/// the boundary.
#[derive(Debug)]
pub enum AccountMessage {
    /// A live order record.
    Order(String),
    /// An account balance.
    AccountBalance(String),
    /// A current position.
    CurrentPosition(String),
    /// An order chain notice, with no payload.
    OrderChain,
    /// An external transaction notice, with no payload.
    ExternalTransaction,
}

/// One decoded event received from the account connection.
#[derive(Debug)]
pub enum AccountEvent {
    /// An error message.
    ErrorMessage(ErrorMessage),
    /// A status message.
    StatusMessage(StatusMessage),
    /// An account-scoped message.
    AccountMessage(Box<AccountMessage>),
}

/// What a read from the account event queue yields.
#[derive(Debug)]
pub enum AccountRecv {
    /// The next buffered event.
    Event(AccountEvent),
    /// Nothing buffered yet; the connection is still open, so a caller
    /// would suspend and retry.
    Pending,
    /// The connection is closed and drained: no further event will ever
    /// arrive.
    Closed,
}

/// The periodic heartbeat schedule: how far into the current interval the
/// account connection is.
#[derive(Debug)]
pub struct HeartbeatSchedule {
    interval: u64,
    since_last: u64,
}

impl HeartbeatSchedule {
    /// The interval between two heartbeats.
    pub closed spec fn interval(&self) -> nat {
        self.interval as nat
    }

    /// How much time has passed since the last heartbeat.
    pub closed spec fn since_last(&self) -> nat {
        self.since_last as nat
    }

    /// Whether the schedule is well formed: a positive interval, and never
    /// a full interval of unaccounted time.
    pub open spec fn wf(&self) -> bool {
        1 <= self.interval() && self.since_last() < self.interval()
    }

    /// Creates a schedule that just fired, so the first heartbeat is due
    /// one full interval from now.
    pub fn new(interval: u64) -> (r: HeartbeatSchedule)
        requires
            interval >= 1,
        ensures
            r.wf(),
            r.interval() == interval,
            r.since_last() == 0,
    {
        HeartbeatSchedule { interval, since_last: 0 }
    }

    /// Accounts for `dt` elapsed time units and returns how many
    /// heartbeats fell due in them: one per full interval of accumulated
    /// time, the remainder carrying over.
    pub fn advance(&mut self, dt: u64) -> (n: u64)
        requires
            old(self).wf(),
            old(self).since_last() + dt <= u64::MAX,
        ensures
            final(self).wf(),
            final(self).interval() == old(self).interval(),
            n == (old(self).since_last() + dt) / (old(self).interval() as int),
            final(self).since_last() == (old(self).since_last() + dt) % (
            old(self).interval() as int),
    {
        let total = self.since_last + dt;
        let n = total / self.interval;
        self.since_last = total % self.interval;
        n
    }
}

/// The wire requests that subscribe one account to its updates: its order
/// events and its message events.
pub open spec fn account_requests(acct: Seq<char>) -> Seq<ReqView> {
    seq![plain_req(EventKind::Order, acct), plain_req(EventKind::Message, acct)]
}

/// The account-update streamer.
pub struct AccountStreamer {
    channel_id: Option<u32>,
    queue: Vec<Command>,
    actions: Vec<HandlerAction>,
    events: Vec<AccountEvent>,
    events_closed: bool,
    heartbeat: HeartbeatSchedule,
}

impl AccountStreamer {
    /// The feed channel the transport assigned, if one could be created;
    /// without one, only the legacy action channel is in use.
    pub closed spec fn channel_id(&self) -> Option<u32> {
        self.channel_id
    }

    /// The commands queued and not yet executed, oldest first.
    pub closed spec fn queue(&self) -> Seq<CmdView> {
        self.queue@.map_values(|c: Command| c@)
    }

    /// The actions submitted to the legacy action channel, oldest first.
    pub closed spec fn actions(&self) -> Seq<HandlerAction> {
        self.actions@
    }

    /// The buffered, undelivered account events, oldest first.
    pub closed spec fn events(&self) -> Seq<AccountEvent> {
        self.events@
    }

    /// Whether the event side of the connection has ended.
    pub closed spec fn events_closed(&self) -> bool {
        self.events_closed
    }

    /// The heartbeat schedule.
    pub closed spec fn heartbeat(&self) -> HeartbeatSchedule {
        self.heartbeat
    }

    /// Whether the streamer is well formed.
    pub open spec fn wf(&self) -> bool {
        self.heartbeat().wf() && self.heartbeat().interval() == HEARTBEAT_INTERVAL
    }

    /// Creates the streamer's state for a freshly connected account
    /// connection, bound to the feed channel the transport assigned, if
    /// any.
    pub fn new(channel_id: Option<u32>) -> (r: AccountStreamer)
        ensures
            r.wf(),
            r.channel_id() == channel_id,
            r.queue() == Seq::<CmdView>::empty(),
            r.actions() == Seq::<HandlerAction>::empty(),
            r.events() == Seq::<AccountEvent>::empty(),
            !r.events_closed(),
            r.heartbeat().since_last() == 0,
    {
        let r = AccountStreamer {
            channel_id,
            queue: Vec::new(),
            actions: Vec::new(),
            events: Vec::new(),
            events_closed: false,
            heartbeat: HeartbeatSchedule::new(HEARTBEAT_INTERVAL),
        };
        proof {
            assert(r.queue() =~= Seq::<CmdView>::empty());
        }
        r
    }

    /// Returns the actions submitted to the legacy action channel, oldest
    /// first.
    pub fn pending_actions(&self) -> (r: &Vec<HandlerAction>)
        ensures
            r@ == self.actions(),
    {
        &self.actions
    }

    /// Takes every submitted action out of the legacy action channel, in
    /// submission order, leaving it empty; the caller performs them.
    pub fn take_actions(&mut self) -> (r: Vec<HandlerAction>)
        ensures
            r@ == old(self).actions(),
            final(self).actions() == Seq::<HandlerAction>::empty(),
            final(self).channel_id() == old(self).channel_id(),
            final(self).queue() == old(self).queue(),
            final(self).events() == old(self).events(),
            final(self).events_closed() == old(self).events_closed(),
            final(self).heartbeat() == old(self).heartbeat(),
    {
        let mut taken: Vec<HandlerAction> = Vec::new();
        core::mem::swap(&mut taken, &mut self.actions);
        proof {
            assert(self.actions() =~= Seq::<HandlerAction>::empty());
        }
        taken
    }

    /// Submits one action to the legacy action channel.
    pub fn send(&mut self, action: SubRequestAction, value: Option<Vec<String>>)
        ensures
            final(self).actions() == old(self).actions().push(
                (HandlerAction { action, value }),
            ),
            final(self).channel_id() == old(self).channel_id(),
            final(self).queue() == old(self).queue(),
            final(self).events() == old(self).events(),
            final(self).events_closed() == old(self).events_closed(),
            final(self).heartbeat() == old(self).heartbeat(),
    {
        self.actions.push(HandlerAction { action, value });
    }

    /// Subscribes to one account's updates: submits the legacy connect
    /// action carrying the account number and, when a feed channel exists,
    /// queues the subscription to the account's order and message events.
    pub fn subscribe_to_account(&mut self, account_number: &AccountNumber)
        requires
            old(self).wf(),
        ensures
            final(self).wf(),
            final(self).channel_id() == old(self).channel_id(),
            final(self).events() == old(self).events(),
            final(self).events_closed() == old(self).events_closed(),
            final(self).heartbeat() == old(self).heartbeat(),
            final(self).actions().len() == old(self).actions().len() + 1,
            final(self).actions().take(old(self).actions().len() as int) == old(self).actions(),
            ({
                let a = final(self).actions().last();
                &&& a.action == SubRequestAction::Connect
                &&& a.value matches Some(vs)
                &&& vs@.map_values(|s: String| s@) == seq![account_number@]
            }),
            final(self).queue() == old(self).queue() + (match old(self).channel_id() {
                Some(ch) => seq![CmdView::Subscribe(ch, account_requests(account_number@))],
                None => Seq::<CmdView>::empty(),
            }),
    {
        let ghost q0 = self.queue();
        let ghost a0 = self.actions();
        let mut vs: Vec<String> = Vec::new();
        vs.push(account_number.0.clone());
        proof {
            assert(vs@.map_values(|s: String| s@) =~= seq![account_number@]);
        }
        self.send(SubRequestAction::Connect, Some(vs));
        match self.channel_id {
            Some(ch) => {
                let mut reqs: Vec<WireSubscriptionRequest> = Vec::new();
                reqs.push(
                    WireSubscriptionRequest {
                        event_kind: EventKind::Order,
                        symbol: Symbol(account_number.0.clone()),
                        from_time: None,
                        source: None,
                    },
                );
                reqs.push(
                    WireSubscriptionRequest {
                        event_kind: EventKind::Message,
                        symbol: Symbol(account_number.0.clone()),
                        from_time: None,
                        source: None,
                    },
                );
                proof {
                    assert(reqs@.map_values(|r: WireSubscriptionRequest| r@) =~= account_requests(
                        account_number@,
                    ));
                }
                self.queue.push(Command::Subscribe(ch, reqs));
                proof {
                    assert(self.queue() =~= q0 + seq![CmdView::Subscribe(
                        ch,
                        account_requests(account_number@),
                    )]);
                }
            },
            None => {
                proof {
                    assert(self.queue() =~= q0 + Seq::<CmdView>::empty());
                }
            },
        }
        proof {
            assert(self.actions().take(a0.len() as int) =~= a0);
        }
    }

    /// Accounts for elapsed time and submits one heartbeat action per
    /// heartbeat interval that fell due, independent of subscription
    /// activity.
    pub fn advance_time(&mut self, dt: u64) -> (n: u64)
        requires
            old(self).wf(),
            old(self).heartbeat().since_last() + dt <= u64::MAX,
        ensures
            final(self).wf(),
            final(self).channel_id() == old(self).channel_id(),
            final(self).queue() == old(self).queue(),
            final(self).events() == old(self).events(),
            final(self).events_closed() == old(self).events_closed(),
            n == (old(self).heartbeat().since_last() + dt) / (HEARTBEAT_INTERVAL as int),
            final(self).heartbeat().since_last() == (old(self).heartbeat().since_last() + dt) % (
            HEARTBEAT_INTERVAL as int),
            final(self).actions() == old(self).actions() + Seq::new(
                n as nat,
                |i: int| (HandlerAction { action: SubRequestAction::Heartbeat, value: None }),
            ),
    {
        let n = self.heartbeat.advance(dt);
        let ghost hb = self.heartbeat();
        let ghost a0 = self.actions();
        let mut k: u64 = 0;
        while k < n
            invariant
                k <= n,
                self.heartbeat() == hb,
                self.actions() == a0 + Seq::new(
                    k as nat,
                    |i: int| (HandlerAction {
                        action: SubRequestAction::Heartbeat,
                        value: None,
                    }),
                ),
                self.channel_id() == old(self).channel_id(),
                self.queue() == old(self).queue(),
                self.events() == old(self).events(),
                self.events_closed() == old(self).events_closed(),
                self.wf(),
            decreases n - k,
        {
            let ghost apre = self.actions();
            self.actions.push(HandlerAction { action: SubRequestAction::Heartbeat, value: None });
            proof {
                assert(self.actions() =~= a0 + Seq::new(
                    (k + 1) as nat,
                    |i: int| (HandlerAction {
                        action: SubRequestAction::Heartbeat,
                        value: None,
                    }),
                ));
            }
            k = k + 1;
        }
        n
    }

    /// Buffers one decoded account event for delivery.
    pub fn push_event(&mut self, e: AccountEvent)
        ensures
            final(self).events() == old(self).events().push(e),
            final(self).channel_id() == old(self).channel_id(),
            final(self).queue() == old(self).queue(),
            final(self).actions() == old(self).actions(),
            final(self).events_closed() == old(self).events_closed(),
            final(self).heartbeat() == old(self).heartbeat(),
    {
        self.events.push(e);
    }

    /// Takes the oldest buffered account event; on an empty queue, reports
    /// whether a caller should wait ([`AccountRecv::Pending`]) or give up
    /// ([`AccountRecv::Closed`]).
    pub fn get_event(&mut self) -> (r: AccountRecv)
        ensures
            final(self).channel_id() == old(self).channel_id(),
            final(self).queue() == old(self).queue(),
            final(self).actions() == old(self).actions(),
            final(self).events_closed() == old(self).events_closed(),
            final(self).heartbeat() == old(self).heartbeat(),
            old(self).events().len() > 0 ==> ({
                &&& r matches AccountRecv::Event(e)
                &&& e == old(self).events()[0]
                &&& final(self).events() == old(self).events().drop_first()
            }),
            old(self).events().len() == 0 ==> final(self).events() == old(self).events() && ((
            r matches AccountRecv::Pending) <==> !old(self).events_closed()) && ((r matches
            AccountRecv::Closed) <==> old(self).events_closed()),
    {
        if self.events.len() > 0 {
            let e = self.events.remove(0);
            AccountRecv::Event(e)
        } else if self.events_closed {
            AccountRecv::Closed
        } else {
            AccountRecv::Pending
        }
    }

    /// Marks the event side of the connection as ended: buffered events
    /// stay readable, then readers see that the connection closed.
    pub fn end_stream(&mut self)
        ensures
            final(self).events_closed(),
            final(self).channel_id() == old(self).channel_id(),
            final(self).queue() == old(self).queue(),
            final(self).actions() == old(self).actions(),
            final(self).events() == old(self).events(),
            final(self).heartbeat() == old(self).heartbeat(),
    {
        self.events_closed = true;
    }

    /// Tears the streamer down: queues the disconnect, after which the
    /// dispatcher executes nothing further.
    pub fn shutdown(&mut self)
        ensures
            final(self).queue() == old(self).queue().push(CmdView::Disconnect),
            final(self).channel_id() == old(self).channel_id(),
            final(self).actions() == old(self).actions(),
            final(self).events() == old(self).events(),
            final(self).events_closed() == old(self).events_closed(),
            final(self).heartbeat() == old(self).heartbeat(),
    {
        self.queue.push(Command::Disconnect);
        proof {
            assert(self.queue() =~= old(self).queue().push(CmdView::Disconnect));
        }
    }

    /// Drains the queued commands in first-in-first-out order and returns
    /// the transport actions to perform, in order, stopping at a
    /// disconnect as the dispatcher does.
    pub fn process_commands(&mut self) -> (acts: Vec<TransportAction>)
        ensures
            acts@.map_values(|a: TransportAction| a@) == actions_after(old(self).queue()),
            final(self).queue() == Seq::<CmdView>::empty(),
            final(self).channel_id() == old(self).channel_id(),
            final(self).actions() == old(self).actions(),
            final(self).events() == old(self).events(),
            final(self).events_closed() == old(self).events_closed(),
            final(self).heartbeat() == old(self).heartbeat(),
    {
        let ghost cmds0 = self.queue();
        let mut acts: Vec<TransportAction> = Vec::new();
        let mut done = false;
        while !done && self.queue.len() > 0
            invariant
                self.channel_id() == old(self).channel_id(),
                self.actions() == old(self).actions(),
                self.events() == old(self).events(),
                self.events_closed() == old(self).events_closed(),
                self.heartbeat() == old(self).heartbeat(),
                actions_after(cmds0) == acts@.map_values(|a: TransportAction| a@) + (if done {
                    Seq::<ActView>::empty()
                } else {
                    actions_after(self.queue())
                }),
                done ==> self.queue().len() == 0,
            decreases self.queue().len() + (if done {
                0int
            } else {
                1int
            }),
        {
            let ghost qv = self.queue();
            let cmd = self.queue.remove(0);
            proof {
                assert(qv[0] == cmd@);
                assert(self.queue() =~= qv.drop_first());
            }
            if matches!(cmd, Command::Disconnect) {
                let ghost acts_before = acts@;
                acts.push(TransportAction::Disconnect);
                self.queue.clear();
                done = true;
                proof {
                    assert(actions_after(qv) =~= seq![ActView::Disconnect]);
                    assert(acts@.map_values(|a: TransportAction| a@) =~= acts_before.map_values(
                        |a: TransportAction| a@,
                    ).push(ActView::Disconnect));
                    assert(self.queue() =~= Seq::<CmdView>::empty());
                }
            } else {
                proof {
                    assert(!(qv[0] is Disconnect));
                }
                let ghost acts_before = acts@;
                let a: Option<TransportAction> = match cmd {
                    Command::Subscribe(ch, rs) => Some(TransportAction::Subscribe(ch, rs)),
                    Command::Unsubscribe(ch, rs) => Some(TransportAction::Unsubscribe(ch, rs)),
                    Command::CreateEventStream => Some(TransportAction::StartEventStream),
                    Command::AddEventSender(_id, _cap) => None,
                    Command::RemoveEventSender(_id) => None,
                    Command::Disconnect => None,
                };
                match a {
                    Some(act) => {
                        acts.push(act);
                        proof {
                            assert(acts@.map_values(|x: TransportAction| x@)
                                =~= acts_before.map_values(|x: TransportAction| x@).push(act@));
                        }
                    },
                    None => {},
                }
                proof {
                    assert(actions_after(qv) == (match step_action(qv[0]) {
                        Option::Some(av) => seq![av],
                        Option::None => Seq::<ActView>::empty(),
                    }) + actions_after(qv.drop_first()));
                    assert(acts_before.map_values(|x: TransportAction| x@) + (match step_action(
                        qv[0],
                    ) {
                        Option::Some(av) => seq![av],
                        Option::None => Seq::<ActView>::empty(),
                    }) =~= acts@.map_values(|x: TransportAction| x@));
                    assert(acts@.map_values(|x: TransportAction| x@) + actions_after(
                        qv.drop_first(),
                    ) =~= acts_before.map_values(|x: TransportAction| x@) + actions_after(qv));
                }
            }
        }
        proof {
            if !done {
                assert(self.queue() =~= Seq::<CmdView>::empty());
            }
            assert(acts@.map_values(|a: TransportAction| a@) + Seq::<ActView>::empty()
                =~= acts@.map_values(|a: TransportAction| a@));
        }
        acts
    }
}

} // verus!
