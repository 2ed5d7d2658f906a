//! The market-data streamer: subscription lifecycle over one shared
//! transport connection.
//!
//! The streamer allocates subscription identifiers, keeps the authoritative
//! copy of which symbols and flags belong to which subscription (used for the
//! unsubscribe on close), queues administrative commands, and owns the
//! subscription registry that the dispatcher mutates and the fan-out reads.
//!
//! Connecting and the transport itself are outside collaborators: the
//! surrounding application connects, drives the dispatcher by calling
//! [`QuoteStreamer::process_commands`] and performing the returned transport
//! actions, and feeds incoming decoded events to
//! [`QuoteStreamer::deliver_event`].

use vstd::prelude::*;

use crate::streaming::channel::{QueueView, RecvOutcome};
use crate::streaming::command::{
    cmd_wf, has_disconnect, lemma_registry_after_append, lemma_registry_after_wf,
    lemma_remove_clears, registry_after, run_dispatcher, step_registry, CmdView, Command,
    TransportAction,
};
use crate::streaming::registry::{reg_has_id, reg_wf, EntryView, Registry};
use crate::streaming::wire::{build_requests, requests_for, ReqView, WireEvent};
use crate::types::order::Symbol;

verus! {

/// The capacity of each subscription handle's delivery channel.
pub const EVENT_CHANNEL_CAPACITY: usize = 100;

/// An opaque, process-unique identifier of one logical subscription within
/// one streamer. Identifiers are allocated monotonically and never reused
/// while the streamer is alive.
#[derive(Debug, PartialEq, Eq, Hash, Clone, Copy, Structural)]
pub struct SubscriptionId(pub usize);

/// The mathematical value of the streamer's bookkeeping for one
/// subscription.
#[verifier::ext_equal]
pub struct SubView {
    /// The subscription identifier.
    pub id: nat,
    /// The event-kind flags the subscription was created with.
    pub flags: i32,
    /// The symbols currently subscribed, in first-subscription order,
    /// without duplicates.
    pub symbols: Seq<Seq<char>>,
    /// How many delivery channels were registered for the subscription (one
    /// per handle, so one plus the number of clones).
    pub senders: nat,
}

/// The mathematical value of a [`QuoteStreamer`].
#[verifier::ext_equal]
pub struct StreamerView {
    /// The transport feed channel the streamer works on.
    pub channel_id: u32,
    /// The next subscription identifier to allocate.
    pub next_id: nat,
    /// The live subscriptions' bookkeeping, in creation order.
    pub subs: Seq<SubView>,
    /// The commands queued and not yet executed, oldest first.
    pub queue: Seq<CmdView>,
    /// The subscription registry.
    pub registry: Seq<EntryView>,
    /// Whether the event stream was already requested.
    pub stream_requested: bool,
}

/// Whether the identifier belongs to a live subscription.
pub open spec fn sub_has_id(subs: Seq<SubView>, id: nat) -> bool {
    exists|i: int| 0 <= i < subs.len() && subs[i].id == id
}

/// The position of the identifier's subscription.
pub open spec fn sub_index_of(subs: Seq<SubView>, id: nat) -> int {
    choose|i: int| 0 <= i < subs.len() && subs[i].id == id
}

/// The identifier's subscription bookkeeping.
pub open spec fn sub_at(subs: Seq<SubView>, id: nat) -> SubView {
    subs[sub_index_of(subs, id)]
}

/// Whether the subscription bookkeeping is well formed: identifiers are
/// distinct, below the allocator's next identifier, and each subscription
/// has at least one delivery channel registered for it.
pub open spec fn subs_wf(subs: Seq<SubView>, next_id: nat) -> bool {
    &&& forall|i: int, j: int| 0 <= i < j < subs.len() ==> subs[i].id != subs[j].id
    &&& forall|i: int|
        0 <= i < subs.len() ==> (#[trigger] subs[i]).id < next_id && subs[i].senders >= 1
}

/// Whether every queued command is well formed.
pub open spec fn queue_wf(q: Seq<CmdView>) -> bool {
    forall|i: int| 0 <= i < q.len() ==> cmd_wf(#[trigger] q[i])
}

/// The commands that creating a subscription submits: register its delivery
/// channel and, for the first subscription only, request the event stream.
pub open spec fn create_commands(id: nat, capacity: nat, first: bool) -> Seq<CmdView> {
    seq![CmdView::AddEventSender(id, capacity)] + (if first {
        seq![CmdView::CreateEventStream]
    } else {
        Seq::empty()
    })
}

/// The commands that closing a subscription submits: the sender removal
/// always comes first, so that no further events are routed to a channel
/// about to disappear; the unsubscribe follows, and is omitted when there is
/// nothing to unsubscribe.
pub open spec fn close_commands(id: nat, channel: u32, reqs: Seq<ReqView>) -> Seq<CmdView> {
    seq![CmdView::RemoveEventSender(id)] + (if reqs.len() > 0 {
        seq![CmdView::Unsubscribe(channel, reqs)]
    } else {
        Seq::empty()
    })
}

/// A symbol set after new symbols are merged into it: each new symbol is
/// appended, in order, unless already present.
pub open spec fn merge_symbols(a: Seq<Seq<char>>, b: Seq<Seq<char>>) -> Seq<Seq<char>>
    decreases b.len(),
{
    if b.len() == 0 {
        a
    } else {
        merge_symbols(
            if a.contains(b[0]) {
                a
            } else {
                a.push(b[0])
            },
            b.drop_first(),
        )
    }
}

/// The close sequences of all the given subscriptions, in order.
pub open spec fn closes_for(subs: Seq<SubView>, channel: u32) -> Seq<CmdView>
    decreases subs.len(),
{
    if subs.len() == 0 {
        Seq::empty()
    } else {
        close_commands(subs[0].id, channel, requests_for(subs[0].flags, subs[0].symbols))
            + closes_for(subs.drop_first(), channel)
    }
}

/// The commands that tearing the streamer down submits: every live
/// subscription's close sequence, then the disconnect.
pub open spec fn teardown_commands(subs: Seq<SubView>, channel: u32) -> Seq<CmdView> {
    closes_for(subs, channel) + seq![CmdView::Disconnect]
}

/// Appending one subscription appends its close sequence.
pub proof fn lemma_closes_for_push(subs: Seq<SubView>, sub: SubView, channel: u32)
    ensures
        closes_for(subs.push(sub), channel) == closes_for(subs, channel) + close_commands(
            sub.id,
            channel,
            requests_for(sub.flags, sub.symbols),
        ),
    decreases subs.len(),
{
    let pushed = subs.push(sub);
    let cc = close_commands(sub.id, channel, requests_for(sub.flags, sub.symbols));
    if subs.len() == 0 {
        assert(pushed[0] == sub);
        assert(pushed.drop_first() =~= Seq::<SubView>::empty());
        assert(closes_for(pushed, channel) == cc + closes_for(pushed.drop_first(), channel));
        assert(closes_for(pushed.drop_first(), channel) == Seq::<CmdView>::empty());
        assert(cc + Seq::<CmdView>::empty() =~= cc);
        assert(closes_for(subs, channel) + cc =~= cc);
    } else {
        assert(pushed[0] == subs[0]);
        assert(pushed.drop_first() =~= subs.drop_first().push(sub));
        lemma_closes_for_push(subs.drop_first(), sub, channel);
        let head = close_commands(
            subs[0].id,
            channel,
            requests_for(subs[0].flags, subs[0].symbols),
        );
        assert(closes_for(pushed, channel) == head + (closes_for(subs.drop_first(), channel)
            + cc));
        assert(head + (closes_for(subs.drop_first(), channel) + cc) =~= (head + closes_for(
            subs.drop_first(),
            channel,
        )) + cc);
    }
}

/// Law: closing a subscription always issues the removal of its delivery
/// channels before any unsubscribe for it, so no further events are routed
/// to a channel about to disappear.
pub proof fn lemma_close_order(id: nat, channel: u32, reqs: Seq<ReqView>)
    ensures
        close_commands(id, channel, reqs)[0] == CmdView::RemoveEventSender(id),
        forall|i: int|
            0 <= i < close_commands(id, channel, reqs).len() && (#[trigger] close_commands(
                id,
                channel,
                reqs,
            )[i]) is Unsubscribe ==> i > 0,
{
}

/// Law: once a subscription's close sequence has been executed by the
/// dispatcher, the registry holds no delivery channel for that
/// subscription — whatever commands were queued before the close, as long
/// as none of them was a disconnect.
pub proof fn lemma_close_clears_registry(
    reg: Seq<EntryView>,
    prefix: Seq<CmdView>,
    id: nat,
    channel: u32,
    reqs: Seq<ReqView>,
)
    requires
        reg_wf(reg),
        queue_wf(prefix),
        !has_disconnect(prefix),
    ensures
        !reg_has_id(registry_after(reg, prefix + close_commands(id, channel, reqs)), id),
{
    reveal_with_fuel(registry_after, 4);
    let cc = close_commands(id, channel, reqs);
    lemma_registry_after_append(reg, prefix, cc);
    lemma_registry_after_wf(reg, prefix);
    let v1 = registry_after(reg, prefix);
    lemma_remove_clears(v1, id);
    let v2 = step_registry(v1, CmdView::RemoveEventSender(id));
    assert(cc[0] == CmdView::RemoveEventSender(id));
    if reqs.len() > 0 {
        assert(cc.drop_first() =~= seq![CmdView::Unsubscribe(channel, reqs)]);
        assert(registry_after(v1, cc) == registry_after(v2, cc.drop_first()));
        assert(cc.drop_first().drop_first() =~= Seq::<CmdView>::empty());
        assert(step_registry(v2, CmdView::Unsubscribe(channel, reqs)) == v2);
        assert(registry_after(v1, cc) == v2);
    } else {
        assert(cc.drop_first() =~= Seq::<CmdView>::empty());
        assert(registry_after(v1, cc) == v2);
    }
}

/// The close sequences of a subscription list hold no disconnect and no
/// channel registration, and hold a sender removal for each of the
/// subscriptions.
pub proof fn lemma_closes_for_props(subs: Seq<SubView>, channel: u32)
    ensures
        !has_disconnect(closes_for(subs, channel)),
        forall|i: int|
            0 <= i < closes_for(subs, channel).len() ==> !((#[trigger] closes_for(subs, channel)[i])
                is AddEventSender),
        forall|k: int|
            0 <= k < subs.len() ==> exists|i: int|
                0 <= i < closes_for(subs, channel).len() && closes_for(subs, channel)[i]
                    == CmdView::RemoveEventSender((#[trigger] subs[k]).id),
    decreases subs.len(),
{
    let cs = closes_for(subs, channel);
    if subs.len() == 0 {
    } else {
        let head = close_commands(
            subs[0].id,
            channel,
            requests_for(subs[0].flags, subs[0].symbols),
        );
        let tail = closes_for(subs.drop_first(), channel);
        lemma_closes_for_props(subs.drop_first(), channel);
        assert(cs == head + tail);
        assert(!has_disconnect(cs)) by {
            assert forall|i: int| 0 <= i < cs.len() implies !((#[trigger] cs[i])
                is Disconnect) by {
                if i < head.len() {
                    assert(cs[i] == head[i]);
                } else {
                    assert(cs[i] == tail[i - head.len()]);
                    if tail[i - head.len()] is Disconnect {
                        assert(has_disconnect(tail));
                    }
                }
            }
        }
        assert forall|i: int| 0 <= i < cs.len() implies !((#[trigger] cs[i])
            is AddEventSender) by {
            if i < head.len() {
                assert(cs[i] == head[i]);
            } else {
                assert(cs[i] == tail[i - head.len()]);
            }
        }
        assert forall|k: int| 0 <= k < subs.len() implies exists|i: int|
            0 <= i < cs.len() && cs[i] == CmdView::RemoveEventSender(
                (#[trigger] subs[k]).id,
            ) by {
            if k == 0 {
                assert(cs[0] == head[0]);
                assert(cs[0] == CmdView::RemoveEventSender(subs[0].id));
            } else {
                assert(subs.drop_first()[k - 1] == subs[k]);
                let i0 = choose|i0: int|
                    0 <= i0 < tail.len() && tail[i0] == CmdView::RemoveEventSender(
                        subs.drop_first()[k - 1].id,
                    );
                assert(cs[head.len() + i0] == tail[i0]);
            }
        }
    }
}

/// Law: tearing a streamer down issues the disconnect only after every live
/// subscription's close sequence has been submitted: the disconnect is the
/// last command, no earlier command is a disconnect, and each
/// subscription's sender removal stands before it.
pub proof fn lemma_teardown_disconnect_last(subs: Seq<SubView>, channel: u32)
    ensures
        teardown_commands(subs, channel).len() == closes_for(subs, channel).len() + 1,
        teardown_commands(subs, channel).last() == CmdView::Disconnect,
        forall|i: int|
            0 <= i < teardown_commands(subs, channel).len() - 1 ==> !((
            #[trigger] teardown_commands(subs, channel)[i]) is Disconnect),
        forall|k: int|
            0 <= k < subs.len() ==> exists|i: int|
                0 <= i < teardown_commands(subs, channel).len() - 1 && teardown_commands(
                    subs,
                    channel,
                )[i] == CmdView::RemoveEventSender((#[trigger] subs[k]).id),
{
    let cs = closes_for(subs, channel);
    let td = teardown_commands(subs, channel);
    lemma_closes_for_props(subs, channel);
    assert(td[td.len() - 1] == CmdView::Disconnect);
    assert forall|i: int| 0 <= i < td.len() - 1 implies !((#[trigger] td[i]) is Disconnect) by {
        assert(td[i] == cs[i]);
        if cs[i] is Disconnect {
            assert(has_disconnect(cs));
        }
    }
    assert forall|k: int| 0 <= k < subs.len() implies exists|i: int|
        0 <= i < td.len() - 1 && td[i] == CmdView::RemoveEventSender((#[trigger] subs[k]).id) by {
        let i0 = choose|i0: int|
            0 <= i0 < cs.len() && cs[i0] == CmdView::RemoveEventSender(subs[k].id);
        assert(td[i0] == cs[i0]);
    }
}

/// After the dispatcher executes the close sequences of a subscription
/// list, the registry holds no delivery channel for any of them.
pub proof fn lemma_closes_clear_registry(reg: Seq<EntryView>, subs: Seq<SubView>, channel: u32)
    requires
        reg_wf(reg),
    ensures
        forall|k: int|
            0 <= k < subs.len() ==> !reg_has_id(
                registry_after(reg, closes_for(subs, channel)),
                (#[trigger] subs[k]).id,
            ),
    decreases subs.len(),
{
    if subs.len() > 0 {
        let s0 = subs[0];
        let reqs = requests_for(s0.flags, s0.symbols);
        let cc0 = close_commands(s0.id, channel, reqs);
        let rest = closes_for(subs.drop_first(), channel);
        assert(closes_for(subs, channel) == cc0 + rest);
        assert(queue_wf(cc0)) by {
            assert forall|i: int| 0 <= i < cc0.len() implies cmd_wf(#[trigger] cc0[i]) by {
                if i == 0 {
                    assert(cc0[0] == CmdView::RemoveEventSender(s0.id));
                } else {
                    assert(cc0[i] == CmdView::Unsubscribe(channel, reqs));
                }
            }
        }
        assert(!has_disconnect(cc0)) by {
            assert forall|i: int| 0 <= i < cc0.len() implies !((#[trigger] cc0[i])
                is Disconnect) by {
                if i == 0 {
                    assert(cc0[0] == CmdView::RemoveEventSender(s0.id));
                } else {
                    assert(cc0[i] == CmdView::Unsubscribe(channel, reqs));
                }
            }
        }
        lemma_registry_after_append(reg, cc0, rest);
        let v1 = registry_after(reg, cc0);
        lemma_registry_after_wf(reg, cc0);
        lemma_close_clears_registry(reg, Seq::empty(), s0.id, channel, reqs);
        assert(Seq::<CmdView>::empty() + cc0 =~= cc0);
        assert(!reg_has_id(v1, s0.id));
        lemma_closes_for_props(subs.drop_first(), channel);
        assert forall|i: int| 0 <= i < rest.len() implies !((#[trigger] rest[i]) matches
            CmdView::AddEventSender(id2, _cap) && id2 == s0.id) by {
            assert(!(rest[i] is AddEventSender));
        }
        crate::streaming::command::lemma_drain_preserves_absence(v1, rest, s0.id);
        lemma_closes_clear_registry(v1, subs.drop_first(), channel);
        assert forall|k: int| 0 <= k < subs.len() implies !reg_has_id(
            registry_after(reg, closes_for(subs, channel)),
            (#[trigger] subs[k]).id,
        ) by {
            if k > 0 {
                assert(subs.drop_first()[k - 1] == subs[k]);
                assert(!reg_has_id(registry_after(v1, rest), subs[k].id));
            }
        }
    }
}

/// Law: teardown closes every live subscription before disconnecting:
/// after the dispatcher executes a teardown, the registry holds no
/// delivery channel for any subscription that was live when the teardown
/// was submitted.
pub proof fn lemma_teardown_clears_live_subs(
    reg: Seq<EntryView>,
    subs: Seq<SubView>,
    channel: u32,
)
    requires
        reg_wf(reg),
    ensures
        forall|k: int|
            0 <= k < subs.len() ==> !reg_has_id(
                registry_after(reg, teardown_commands(subs, channel)),
                (#[trigger] subs[k]).id,
            ),
{
    let cs = closes_for(subs, channel);
    lemma_closes_for_props(subs, channel);
    lemma_registry_after_append(reg, cs, seq![CmdView::Disconnect]);
    assert(registry_after(registry_after(reg, cs), seq![CmdView::Disconnect]) == registry_after(
        reg,
        cs,
    ));
    lemma_closes_clear_registry(reg, subs, channel);
}

/// Law: a freshly allocated identifier never collides with a live
/// subscription's: identifiers are allocated monotonically and never
/// reused while the streamer is alive.
pub proof fn lemma_fresh_id(subs: Seq<SubView>, next_id: nat)
    requires
        subs_wf(subs, next_id),
    ensures
        !sub_has_id(subs, next_id),
{
    if sub_has_id(subs, next_id) {
        let i = choose|i: int| 0 <= i < subs.len() && subs[i].id == next_id;
        assert(subs[i].id < next_id);
    }
}

/// In well-formed bookkeeping, an identifier's subscription index is unique.
pub proof fn lemma_sub_index(subs: Seq<SubView>, next_id: nat, id: nat)
    requires
        subs_wf(subs, next_id),
        sub_has_id(subs, id),
    ensures
        0 <= sub_index_of(subs, id) < subs.len(),
        subs[sub_index_of(subs, id)].id == id,
        forall|i: int| 0 <= i < subs.len() && subs[i].id == id ==> i == sub_index_of(subs, id),
{
    let k = sub_index_of(subs, id);
    assert(0 <= k < subs.len() && subs[k].id == id);
}

/// A handle to one logical subscription.
///
/// The handle records which subscription it belongs to and which of that
/// subscription's delivery channels is its own. Handles sharing an
/// identifier (clones) have distinct channels, so each receives its own copy
/// of every delivered event.
#[derive(Debug, PartialEq, Eq, Clone, Copy, Structural)]
pub struct QuoteSubscription {
    /// The subscription this handle belongs to.
    pub id: SubscriptionId,
    /// The event-kind flags the subscription was created with.
    pub event_types: i32,
    /// The position of this handle's delivery channel among the
    /// subscription's channels.
    pub channel: usize,
}

/// The market-data streamer.
pub struct QuoteStreamer {
    channel_id: u32,
    next_sub_id: usize,
    subs: Vec<SubEntry>,
    queue: Vec<Command>,
    registry: Registry,
    stream_requested: bool,
}

struct SubEntry {
    id: usize,
    flags: i32,
    symbols: Vec<Symbol>,
    senders: usize,
}

impl View for SubEntry {
    type V = SubView;

    closed spec fn view(&self) -> SubView {
        SubView {
            id: self.id as nat,
            flags: self.flags,
            symbols: self.symbols@.map_values(|s: Symbol| s@),
            senders: self.senders as nat,
        }
    }
}

impl View for QuoteStreamer {
    type V = StreamerView;

    closed spec fn view(&self) -> StreamerView {
        StreamerView {
            channel_id: self.channel_id,
            next_id: self.next_sub_id as nat,
            subs: self.subs@.map_values(|s: SubEntry| s@),
            queue: self.queue@.map_values(|c: Command| c@),
            registry: self.registry@,
            stream_requested: self.stream_requested,
        }
    }
}

impl QuoteStreamer {
    /// Whether the streamer is well formed.
    pub open spec fn wf(&self) -> bool {
        &&& reg_wf(self@.registry)
        &&& queue_wf(self@.queue)
        &&& subs_wf(self@.subs, self@.next_id)
    }

    /// Creates the streamer's state for a freshly connected transport, bound
    /// to the feed channel the transport assigned.
    pub fn new(channel_id: u32) -> (r: QuoteStreamer)
        ensures
            r.wf(),
            r@.channel_id == channel_id,
            r@.next_id == 0,
            r@.subs == Seq::<SubView>::empty(),
            r@.queue == Seq::<CmdView>::empty(),
            r@.registry == Seq::<EntryView>::empty(),
            !r@.stream_requested,
    {
        let r = QuoteStreamer {
            channel_id,
            next_sub_id: 0,
            subs: Vec::new(),
            queue: Vec::new(),
            registry: Registry::new(),
            stream_requested: false,
        };
        proof {
            assert(r@.subs =~= Seq::<SubView>::empty());
            assert(r@.queue =~= Seq::<CmdView>::empty());
        }
        r
    }

    /// Returns the transport feed channel the streamer works on.
    pub fn channel_id(&self) -> (r: u32)
        ensures
            r == self@.channel_id,
    {
        self.channel_id
    }

    /// Returns the queued, not yet executed commands, oldest first.
    pub fn pending_commands(&self) -> (r: &Vec<Command>)
        ensures
            r@.map_values(|c: Command| c@) == self@.queue,
    {
        &self.queue
    }

    /// Returns how many subscriptions are live.
    pub fn live_subscriptions(&self) -> (r: usize)
        ensures
            r == self@.subs.len(),
    {
        self.subs.len()
    }

    /// Returns the next subscription identifier to be allocated.
    pub fn next_id(&self) -> (r: usize)
        ensures
            r == self@.next_id,
    {
        self.next_sub_id
    }

    /// Returns how many handles (the original plus its clones) a live
    /// subscription has; a missing identifier has none.
    pub fn handle_count(&self, id: SubscriptionId) -> (r: usize)
        requires
            self.wf(),
        ensures
            sub_has_id(self@.subs, id.0 as nat) ==> r == sub_at(self@.subs, id.0 as nat).senders,
            !sub_has_id(self@.subs, id.0 as nat) ==> r == 0,
    {
        match self.find_sub(id.0) {
            Some(k) => {
                proof {
                    lemma_sub_index(self@.subs, self@.next_id, id.0 as nat);
                    assert(self@.subs[k as int] == self.subs@[k as int]@);
                }
                self.subs[k].senders
            },
            None => 0,
        }
    }

    /// Creates a subscription: allocates the next identifier, queues the
    /// registration of its delivery channel and, if this is the first
    /// subscription ever created on this streamer, the event-stream request,
    /// and returns the handle.
    pub fn create_sub(&mut self, flags: i32) -> (h: QuoteSubscription)
        requires
            old(self).wf(),
            old(self)@.next_id < usize::MAX,
        ensures
            final(self).wf(),
            h.id.0 == old(self)@.next_id,
            h.event_types == flags,
            h.channel == 0,
            final(self)@.channel_id == old(self)@.channel_id,
            final(self)@.next_id == old(self)@.next_id + 1,
            final(self)@.subs == old(self)@.subs.push(
                SubView {
                    id: old(self)@.next_id,
                    flags,
                    symbols: Seq::empty(),
                    senders: 1,
                },
            ),
            final(self)@.queue == old(self)@.queue + create_commands(
                old(self)@.next_id,
                EVENT_CHANNEL_CAPACITY as nat,
                !old(self)@.stream_requested,
            ),
            final(self)@.registry == old(self)@.registry,
            final(self)@.stream_requested,
    {
        let id = self.next_sub_id;
        self.next_sub_id = self.next_sub_id + 1;
        let ghost q0 = self@.queue;
        self.queue.push(Command::AddEventSender(id, EVENT_CHANNEL_CAPACITY));
        let first = !self.stream_requested;
        if first {
            self.queue.push(Command::CreateEventStream);
        }
        self.stream_requested = true;
        let entry = SubEntry { id, flags, symbols: Vec::new(), senders: 1 };
        self.subs.push(entry);
        proof {
            assert(self@.queue =~= q0 + create_commands(
                id as nat,
                EVENT_CHANNEL_CAPACITY as nat,
                first,
            ));
            assert(self@.subs =~~= old(self)@.subs.push(
                SubView { id: id as nat, flags, symbols: Seq::empty(), senders: 1 },
            ));
        }
        QuoteSubscription { id: SubscriptionId(id), event_types: flags, channel: 0 }
    }

    /// Drains the queued commands through the dispatcher, mutating the
    /// registry, and returns the transport actions to perform, in order.
    /// This is the only path by which queued commands take effect.
    pub fn process_commands(&mut self) -> (acts: Vec<TransportAction>)
        requires
            old(self).wf(),
        ensures
            final(self).wf(),
            final(self)@.registry == registry_after(old(self)@.registry, old(self)@.queue),
            acts@.map_values(|a: TransportAction| a@) == crate::streaming::command::actions_after(
                old(self)@.queue,
            ),
            final(self)@.queue == Seq::<CmdView>::empty(),
            final(self)@.channel_id == old(self)@.channel_id,
            final(self)@.next_id == old(self)@.next_id,
            final(self)@.subs == old(self)@.subs,
            final(self)@.stream_requested == old(self)@.stream_requested,
    {
        proof {
            assert forall|i: int| 0 <= i < self.queue@.len() implies cmd_wf(
                #[trigger] self.queue@[i]@,
            ) by {
                assert(self@.queue[i] == self.queue@[i]@);
            }
        }
        let acts = run_dispatcher(&mut self.registry, &mut self.queue);
        proof {
            assert(self@.queue =~= Seq::<CmdView>::empty());
        }
        acts
    }

    /// Returns the position of the identifier's subscription, if it is live.
    fn find_sub(&self, id: usize) -> (r: Option<usize>)
        ensures
            match r {
                Some(i) => i < self@.subs.len() && self@.subs[i as int].id == id,
                None => !sub_has_id(self@.subs, id as nat),
            },
    {
        let mut i: usize = 0;
        while i < self.subs.len()
            invariant
                i <= self@.subs.len(),
                forall|k: int| 0 <= k < i ==> self@.subs[k].id != id,
            decreases self@.subs.len() - i,
        {
            if self.subs[i].id == id {
                proof {
                    assert(self@.subs[i as int] == self.subs@[i as int]@);
                }
                return Some(i);
            }
            proof {
                assert(self@.subs[i as int] == self.subs@[i as int]@);
            }
            i = i + 1;
        }
        None
    }

    /// Expands the given symbols into wire requests under the
    /// subscription's flags, queues the subscribe (unless it would be
    /// empty), and merges the symbols into the subscription's tracked symbol
    /// set; a missing identifier is a no-op.
    pub fn add_symbols(&mut self, id: SubscriptionId, symbols: &Vec<Symbol>)
        requires
            old(self).wf(),
        ensures
            final(self).wf(),
            final(self)@.channel_id == old(self)@.channel_id,
            final(self)@.next_id == old(self)@.next_id,
            final(self)@.registry == old(self)@.registry,
            final(self)@.stream_requested == old(self)@.stream_requested,
            !sub_has_id(old(self)@.subs, id.0 as nat) ==> final(self)@.subs == old(self)@.subs
                && final(self)@.queue == old(self)@.queue,
            sub_has_id(old(self)@.subs, id.0 as nat) ==> ({
                let k = sub_index_of(old(self)@.subs, id.0 as nat);
                let sub = old(self)@.subs[k];
                let reqs = requests_for(sub.flags, symbols@.map_values(|s: Symbol| s@));
                &&& final(self)@.subs == old(self)@.subs.update(
                    k,
                    SubView {
                        symbols: merge_symbols(
                            sub.symbols,
                            symbols@.map_values(|s: Symbol| s@),
                        ),
                        ..sub
                    },
                )
                &&& final(self)@.queue == old(self)@.queue + (if reqs.len() > 0 {
                    seq![CmdView::Subscribe(old(self)@.channel_id, reqs)]
                } else {
                    Seq::<CmdView>::empty()
                })
            }),
    {
        let found = self.find_sub(id.0);
        match found {
            None => {},
            Some(k) => {
                proof {
                    lemma_sub_index(old(self)@.subs, old(self)@.next_id, id.0 as nat);
                }
                let ghost subs0 = self@.subs;
                let ghost q0 = self@.queue;
                let mut entry = self.subs.remove(k);
                let ghost sub0 = entry@;
                proof {
                    assert(sub0 == subs0[k as int]);
                }
                let ghost bviews = symbols@.map_values(|s: Symbol| s@);
                proof {
                    assert(bviews.skip(0) =~= bviews);
                }
                let mut i: usize = 0;
                while i < symbols.len()
                    invariant
                        i <= symbols.len(),
                        bviews == symbols@.map_values(|s: Symbol| s@),
                        entry@.id == sub0.id,
                        entry@.flags == sub0.flags,
                        entry@.senders == sub0.senders,
                        merge_symbols(sub0.symbols, bviews) == merge_symbols(
                            entry@.symbols,
                            bviews.skip(i as int),
                        ),
                    decreases symbols.len() - i,
                {
                    let ghost syms_pre = entry@.symbols;
                    let s = &symbols[i];
                    proof {
                        assert(bviews[i as int] == s@);
                        assert(bviews.skip(i as int)[0] == bviews[i as int]);
                        assert(bviews.skip(i as int).drop_first() =~= bviews.skip(i + 1));
                    }
                    if !contains_symbol(&entry.symbols, s) {
                        entry.symbols.push(s.clone());
                        proof {
                            assert(entry@.symbols =~= syms_pre.push(s@));
                        }
                    }
                    i = i + 1;
                }
                proof {
                    assert(bviews.skip(symbols@.len() as int) =~= Seq::<Seq<char>>::empty());
                    assert(entry@.symbols == merge_symbols(sub0.symbols, bviews));
                }
                let reqs = build_requests(entry.flags, symbols);
                if reqs.len() > 0 {
                    self.queue.push(Command::Subscribe(self.channel_id, reqs));
                    proof {
                        assert(self@.queue =~= q0 + seq![CmdView::Subscribe(
                            old(self)@.channel_id,
                            requests_for(sub0.flags, bviews),
                        )]);
                    }
                } else {
                    proof {
                        assert(requests_for(sub0.flags, bviews).len() == 0);
                    }
                }
                self.subs.insert(k, entry);
                proof {
                    assert(self@.subs =~~= subs0.update(
                        k as int,
                        SubView { symbols: merge_symbols(sub0.symbols, bviews), ..sub0 },
                    ));
                }
            },
        }
    }

    /// Registers one more delivery channel for the subscription, as cloning
    /// a handle does, and returns the clone's handle; cloning must not share
    /// a channel, so the clone receives events independently of the
    /// original. A missing identifier yields no handle.
    pub fn clone_sub(&mut self, id: SubscriptionId) -> (h: Option<QuoteSubscription>)
        requires
            old(self).wf(),
            sub_has_id(old(self)@.subs, id.0 as nat) ==> sub_at(
                old(self)@.subs,
                id.0 as nat,
            ).senders < usize::MAX,
        ensures
            final(self).wf(),
            final(self)@.channel_id == old(self)@.channel_id,
            final(self)@.next_id == old(self)@.next_id,
            final(self)@.registry == old(self)@.registry,
            final(self)@.stream_requested == old(self)@.stream_requested,
            !sub_has_id(old(self)@.subs, id.0 as nat) ==> final(self)@.subs == old(self)@.subs
                && final(self)@.queue == old(self)@.queue && h is None,
            sub_has_id(old(self)@.subs, id.0 as nat) ==> ({
                let k = sub_index_of(old(self)@.subs, id.0 as nat);
                let sub = old(self)@.subs[k];
                &&& h matches Some(handle)
                &&& handle.id == id
                &&& handle.event_types == sub.flags
                &&& handle.channel == sub.senders
                &&& final(self)@.subs == old(self)@.subs.update(
                    k,
                    SubView { senders: sub.senders + 1, ..sub },
                )
                &&& final(self)@.queue == old(self)@.queue + seq![CmdView::AddEventSender(
                    id.0 as nat,
                    EVENT_CHANNEL_CAPACITY as nat,
                )]
            }),
    {
        let found = self.find_sub(id.0);
        match found {
            None => None,
            Some(k) => {
                proof {
                    lemma_sub_index(old(self)@.subs, old(self)@.next_id, id.0 as nat);
                }
                let ghost subs0 = self@.subs;
                let ghost q0 = self@.queue;
                let mut entry = self.subs.remove(k);
                let ghost sub0 = entry@;
                proof {
                    assert(sub0 == subs0[k as int]);
                }
                let chan = entry.senders;
                entry.senders = entry.senders + 1;
                let flags = entry.flags;
                self.subs.insert(k, entry);
                self.queue.push(Command::AddEventSender(id.0, EVENT_CHANNEL_CAPACITY));
                proof {
                    assert(self@.subs =~~= subs0.update(
                        k as int,
                        SubView { senders: sub0.senders + 1, ..sub0 },
                    ));
                    assert(self@.queue =~= q0 + seq![CmdView::AddEventSender(
                        id.0 as nat,
                        EVENT_CHANNEL_CAPACITY as nat,
                    )]);
                }
                Some(QuoteSubscription { id, event_types: flags, channel: chan })
            },
        }
    }

    /// Closes the subscription: queues the removal of its delivery channels
    /// first, then the unsubscribe for every symbol and flag it tracks, and
    /// forgets its bookkeeping. Closing an identifier that is not live (for
    /// instance, already closed) is a no-op.
    pub fn close_sub(&mut self, id: SubscriptionId)
        requires
            old(self).wf(),
        ensures
            final(self).wf(),
            final(self)@.channel_id == old(self)@.channel_id,
            final(self)@.next_id == old(self)@.next_id,
            final(self)@.registry == old(self)@.registry,
            final(self)@.stream_requested == old(self)@.stream_requested,
            !sub_has_id(final(self)@.subs, id.0 as nat),
            !sub_has_id(old(self)@.subs, id.0 as nat) ==> final(self)@.subs == old(self)@.subs
                && final(self)@.queue == old(self)@.queue,
            sub_has_id(old(self)@.subs, id.0 as nat) ==> ({
                let k = sub_index_of(old(self)@.subs, id.0 as nat);
                let sub = old(self)@.subs[k];
                &&& final(self)@.subs == old(self)@.subs.remove(k)
                &&& final(self)@.queue == old(self)@.queue + close_commands(
                    id.0 as nat,
                    old(self)@.channel_id,
                    requests_for(sub.flags, sub.symbols),
                )
            }),
    {
        let found = self.find_sub(id.0);
        match found {
            None => {},
            Some(k) => {
                proof {
                    lemma_sub_index(old(self)@.subs, old(self)@.next_id, id.0 as nat);
                }
                let ghost subs0 = self@.subs;
                let ghost q0 = self@.queue;
                let entry = self.subs.remove(k);
                let ghost sub0 = entry@;
                proof {
                    assert(sub0 == subs0[k as int]);
                    assert(self@.subs =~= subs0.remove(k as int));
                }
                let reqs = build_requests(entry.flags, &entry.symbols);
                self.queue.push(Command::RemoveEventSender(id.0));
                if reqs.len() > 0 {
                    self.queue.push(Command::Unsubscribe(self.channel_id, reqs));
                }
                proof {
                    assert(self@.queue =~= q0 + close_commands(
                        id.0 as nat,
                        old(self)@.channel_id,
                        requests_for(sub0.flags, sub0.symbols),
                    ));
                    assert(subs_wf(self@.subs, self@.next_id)) by {
                        assert forall|a: int, b: int|
                            0 <= a < b < self@.subs.len() implies self@.subs[a].id
                            != self@.subs[b].id by {
                            let a0 = if a < k {
                                a
                            } else {
                                a + 1
                            };
                            let b0 = if b < k {
                                b
                            } else {
                                b + 1
                            };
                            assert(self@.subs[a] == subs0[a0]);
                            assert(self@.subs[b] == subs0[b0]);
                        }
                        assert forall|a: int| 0 <= a < self@.subs.len() implies (
                        #[trigger] self@.subs[a]).id < self@.next_id && self@.subs[a].senders
                            >= 1 by {
                            let a0 = if a < k {
                                a
                            } else {
                                a + 1
                            };
                            assert(self@.subs[a] == subs0[a0]);
                        }
                    }
                }
            },
        }
    }

    /// Tears the streamer down: queues every live subscription's close
    /// sequence, in creation order, and then, last of all, the disconnect.
    pub fn shutdown(&mut self)
        requires
            old(self).wf(),
        ensures
            final(self).wf(),
            final(self)@.channel_id == old(self)@.channel_id,
            final(self)@.next_id == old(self)@.next_id,
            final(self)@.registry == old(self)@.registry,
            final(self)@.stream_requested == old(self)@.stream_requested,
            final(self)@.subs == Seq::<SubView>::empty(),
            final(self)@.queue == old(self)@.queue + teardown_commands(
                old(self)@.subs,
                old(self)@.channel_id,
            ),
    {
        let ghost subs0 = self@.subs;
        let ghost q0 = self@.queue;
        let mut i: usize = 0;
        while i < self.subs.len()
            invariant
                self.wf(),
                i <= self@.subs.len(),
                self@.subs == subs0,
                self@.channel_id == old(self)@.channel_id,
                self@.next_id == old(self)@.next_id,
                self@.registry == old(self)@.registry,
                self@.stream_requested == old(self)@.stream_requested,
                self@.queue == q0 + closes_for(subs0.take(i as int), old(self)@.channel_id),
            decreases self@.subs.len() - i,
        {
            let ghost qpre = self@.queue;
            proof {
                assert(self@.subs[i as int] == self.subs@[i as int]@);
            }
            let flags = self.subs[i].flags;
            let id = self.subs[i].id;
            let reqs = build_requests(flags, &self.subs[i].symbols);
            self.queue.push(Command::RemoveEventSender(id));
            if reqs.len() > 0 {
                self.queue.push(Command::Unsubscribe(self.channel_id, reqs));
            }
            proof {
                assert(self@.queue =~= qpre + close_commands(
                    id as nat,
                    old(self)@.channel_id,
                    requests_for(subs0[i as int].flags, subs0[i as int].symbols),
                ));
                lemma_closes_for_push(
                    subs0.take(i as int),
                    subs0[i as int],
                    old(self)@.channel_id,
                );
                assert(subs0.take(i + 1) =~= subs0.take(i as int).push(subs0[i as int]));
            }
            i = i + 1;
        }
        proof {
            assert(i == subs0.len());
            assert(subs0.take(subs0.len() as int) =~= subs0);
            assert(self@.queue == q0 + closes_for(subs0, old(self)@.channel_id));
        }
        self.subs.clear();
        let ghost q_pre = self@.queue;
        self.queue.push(Command::Disconnect);
        proof {
            assert(self@.subs =~= Seq::<SubView>::empty());
            assert(self@.queue =~= q_pre.push(CmdView::Disconnect));
            assert(q_pre.push(CmdView::Disconnect) =~= q0 + teardown_commands(
                subs0,
                old(self)@.channel_id,
            ));
            assert(queue_wf(self@.queue)) by {
                assert forall|m: int| 0 <= m < self@.queue.len() implies cmd_wf(
                    #[trigger] self@.queue[m],
                ) by {
                    if m < q_pre.len() {
                        assert(self@.queue[m] == q_pre[m]);
                        assert(cmd_wf(q_pre[m]));
                    } else {
                        assert(self@.queue[m] == CmdView::Disconnect);
                    }
                }
            }
        }
    }

    /// Fans one incoming event out: offers a copy to every delivery channel
    /// currently in the registry, never waiting on any of them.
    pub fn deliver_event(&mut self, e: &WireEvent)
        requires
            old(self).wf(),
        ensures
            final(self).wf(),
            final(self)@ == (StreamerView {
                registry: old(self)@.registry.map_values(
                    |en: EntryView| crate::streaming::registry::entry_offer(en, e@),
                ),
                ..old(self)@
            }),
    {
        self.registry.deliver(e);
        proof {
            assert(final(self)@ =~~= StreamerView {
                registry: old(self)@.registry.map_values(
                    |en: EntryView| crate::streaming::registry::entry_offer(en, e@),
                ),
                ..old(self)@
            });
        }
    }

    /// Marks the transport's event sequence as ended: every delivery channel
    /// is closed, so every handle's next read after draining sees
    /// end-of-stream.
    pub fn end_stream(&mut self)
        requires
            old(self).wf(),
        ensures
            final(self).wf(),
            final(self)@ == (StreamerView {
                registry: old(self)@.registry.map_values(
                    |en: EntryView| crate::streaming::registry::entry_close(en),
                ),
                ..old(self)@
            }),
    {
        self.registry.close_all();
        proof {
            assert(final(self)@ =~~= StreamerView {
                registry: old(self)@.registry.map_values(
                    |en: EntryView| crate::streaming::registry::entry_close(en),
                ),
                ..old(self)@
            });
        }
    }

    /// Reads the next event for the handle from its own delivery channel:
    /// the oldest buffered event, or pending when the channel is open and
    /// empty, or end-of-stream when the channel is gone or closed and
    /// drained. A returned event is consumed from that one channel alone;
    /// no other channel — in particular no clone's — is touched, so
    /// successive reads deliver each handle's events in order, once each.
    pub fn get_event(&mut self, handle: &QuoteSubscription) -> (r: RecvOutcome)
        requires
            old(self).wf(),
        ensures
            final(self).wf(),
            final(self)@.channel_id == old(self)@.channel_id,
            final(self)@.next_id == old(self)@.next_id,
            final(self)@.subs == old(self)@.subs,
            final(self)@.queue == old(self)@.queue,
            final(self)@.stream_requested == old(self)@.stream_requested,
            !(reg_has_id(old(self)@.registry, handle.id.0 as nat) && handle.channel
                < crate::streaming::registry::reg_queues(
                old(self)@.registry,
                handle.id.0 as nat,
            ).len()) ==> (final(self)@.registry == old(self)@.registry
                && r matches RecvOutcome::EndOfStream),
            reg_has_id(old(self)@.registry, handle.id.0 as nat) && handle.channel
                < crate::streaming::registry::reg_queues(
                old(self)@.registry,
                handle.id.0 as nat,
            ).len() ==> ({
                let q = crate::streaming::registry::reg_queues(
                    old(self)@.registry,
                    handle.id.0 as nat,
                )[handle.channel as int];
                &&& (q.events.len() > 0 ==> ({
                    &&& r matches RecvOutcome::Event(e)
                    &&& e@ == q.events[0]
                }))
                &&& (q.events.len() > 0 ==> final(self)@.registry == old(self)@.registry.update(
                    crate::streaming::registry::reg_index_of(
                        old(self)@.registry,
                        handle.id.0 as nat,
                    ),
                    (EntryView {
                        id: handle.id.0 as nat,
                        queues: crate::streaming::registry::reg_queues(
                            old(self)@.registry,
                            handle.id.0 as nat,
                        ).update(
                            handle.channel as int,
                            (QueueView {
                                capacity: q.capacity,
                                events: q.events.drop_first(),
                                closed: q.closed,
                            }),
                        ),
                    }),
                ))
                &&& (q.events.len() == 0 ==> final(self)@.registry == old(self)@.registry && ((
                r matches RecvOutcome::Pending) <==> !q.closed) && ((r matches
                RecvOutcome::EndOfStream) <==> q.closed))
            }),
    {
        let r = self.registry.pop_event(handle.id.0, handle.channel);
        proof {
            let reg0 = old(self)@.registry;
            let idn = handle.id.0 as nat;
            if reg_has_id(reg0, idn) && (handle.channel as int) < crate::streaming::registry::reg_queues(
                reg0,
                idn,
            ).len() {
                crate::streaming::registry::lemma_reg_index(reg0, idn);
                let k = crate::streaming::registry::reg_index_of(reg0, idn);
                let qs = crate::streaming::registry::reg_queues(reg0, idn);
                let q = qs[handle.channel as int];
                if q.events.len() == 0 {
                    assert(qs.update(handle.channel as int, q) =~= qs);
                    assert(reg0.update(k, EntryView { id: idn, queues: qs }) =~~= reg0);
                    assert(self@.registry =~~= reg0);
                }
            }
        }
        r
    }
}

/// Returns whether the symbol's text occurs in the list.
fn contains_symbol(v: &Vec<Symbol>, s: &Symbol) -> (r: bool)
    ensures
        r == v@.map_values(|x: Symbol| x@).contains(s@),
{
    let ghost views = v@.map_values(|x: Symbol| x@);
    let mut i: usize = 0;
    while i < v.len()
        invariant
            i <= v@.len(),
            views == v@.map_values(|x: Symbol| x@),
            forall|k: int| 0 <= k < i ==> views[k] != s@,
        decreases v@.len() - i,
    {
        if v[i].0 == s.0 {
            proof {
                assert(views[i as int] == v@[i as int]@);
                assert(views.contains(s@));
            }
            return true;
        }
        proof {
            assert(views[i as int] == v@[i as int]@);
        }
        i = i + 1;
    }
    proof {
        if views.contains(s@) {
            let k = choose|k: int| 0 <= k < views.len() && views[k] == s@;
            assert(views[k] != s@);
        }
    }
    false
}

} // verus!
