//! The subscription registry: which delivery channels belong to which
//! subscription identifier.
//!
//! A subscription may have been cloned, so one identifier can own several
//! independent delivery channels. The registry is mutated only through the
//! dispatcher's commands and read by the fan-out step, which offers every
//! incoming event to every registered channel.
//!
//! Routing is by subscription identity, not by per-symbol filtering at
//! fan-out time: symbol selection happens upstream, because wire
//! subscriptions are only ever issued for symbols a subscription asked
//! for. A subscriber therefore receives every event for its own symbols,
//! and — as a deliberate simplification of sharing one connection — may
//! also see events that another live subscription's symbols brought onto
//! the connection.

use vstd::prelude::*;

use crate::streaming::channel::{DeliveryQueue, QueueView, RecvOutcome};
use crate::streaming::wire::{EventView, WireEvent};

verus! {

/// The mathematical value of one registry entry: a subscription identifier
/// and its delivery channels.
#[verifier::ext_equal]
pub struct EntryView {
    /// The subscription identifier.
    pub id: nat,
    /// The channels registered under the identifier, oldest first.
    pub queues: Seq<QueueView>,
}

/// Whether the identifier owns an entry in the registry value.
pub open spec fn reg_has_id(v: Seq<EntryView>, id: nat) -> bool {
    exists|i: int| 0 <= i < v.len() && v[i].id == id
}

/// The index of the identifier's entry in the registry value.
pub open spec fn reg_index_of(v: Seq<EntryView>, id: nat) -> int {
    choose|i: int| 0 <= i < v.len() && v[i].id == id
}

/// The channels registered under the identifier.
pub open spec fn reg_queues(v: Seq<EntryView>, id: nat) -> Seq<QueueView> {
    v[reg_index_of(v, id)].queues
}

/// Whether a registry value is well formed: identifiers are distinct and
/// every channel is well formed.
pub open spec fn reg_wf(v: Seq<EntryView>) -> bool {
    &&& forall|i: int, j: int| 0 <= i < j < v.len() ==> v[i].id != v[j].id
    &&& forall|i: int, j: int|
        0 <= i < v.len() && 0 <= j < v[i].queues.len() ==> (#[trigger] v[i].queues[j]).wf()
}

/// In a well-formed registry value, an identifier's entry index is unique.
pub proof fn lemma_reg_index(v: Seq<EntryView>, id: nat)
    requires
        reg_wf(v),
        reg_has_id(v, id),
    ensures
        0 <= reg_index_of(v, id) < v.len(),
        v[reg_index_of(v, id)].id == id,
        forall|i: int| 0 <= i < v.len() && v[i].id == id ==> i == reg_index_of(v, id),
{
    let k = reg_index_of(v, id);
    assert(0 <= k < v.len() && v[k].id == id);
}

/// An entry after an event was offered to each of its channels.
pub open spec fn entry_offer(en: EntryView, ev: EventView) -> EntryView {
    EntryView { id: en.id, queues: Seq::new(en.queues.len(), |j: int| en.queues[j].offer(ev)) }
}

/// An entry with each of its channels closed.
pub open spec fn entry_close(en: EntryView) -> EntryView {
    EntryView { id: en.id, queues: Seq::new(en.queues.len(), |j: int| en.queues[j].close()) }
}

/// A fresh, open, empty channel of the given capacity.
pub open spec fn fresh_queue(capacity: nat) -> QueueView {
    QueueView { capacity, events: Seq::empty(), closed: false }
}

/// Law: fan-out reaches every delivery channel of a subscription
/// independently. After an event is delivered, each of the identifier's
/// channels — the original handle's and every clone's — holds its own copy
/// of the event at the end of its buffer, except a channel that was full or
/// closed, which alone drops it; no channel takes an event away from
/// another.
pub proof fn lemma_fanout_reaches_clones(v: Seq<EntryView>, ev: EventView, id: nat)
    requires
        reg_wf(v),
        reg_has_id(v, id),
    ensures
        reg_has_id(v.map_values(|en: EntryView| entry_offer(en, ev)), id),
        reg_queues(v.map_values(|en: EntryView| entry_offer(en, ev)), id).len() == reg_queues(
            v,
            id,
        ).len(),
        forall|j: int|
            0 <= j < reg_queues(v, id).len() ==> reg_queues(
                v.map_values(|en: EntryView| entry_offer(en, ev)),
                id,
            )[j] == (#[trigger] reg_queues(v, id)[j]).offer(ev),
{
    let m = v.map_values(|en: EntryView| entry_offer(en, ev));
    lemma_reg_index(v, id);
    let k = reg_index_of(v, id);
    assert(m[k].id == id);
    assert(reg_has_id(m, id));
    let k2 = reg_index_of(m, id);
    assert(0 <= k2 < m.len() && m[k2].id == id);
    assert(v[k2].id == id);
    assert(k2 == k);
    assert(reg_queues(m, id) == entry_offer(v[k], ev).queues);
}

struct RegistryEntry {
    id: usize,
    queues: Vec<DeliveryQueue>,
}

impl View for RegistryEntry {
    type V = EntryView;

    closed spec fn view(&self) -> EntryView {
        EntryView {
            id: self.id as nat,
            queues: self.queues@.map_values(|q: DeliveryQueue| q@),
        }
    }
}

/// The subscription registry: a mapping from subscription identifier to its
/// delivery channels.
pub struct Registry {
    entries: Vec<RegistryEntry>,
}

impl View for Registry {
    type V = Seq<EntryView>;

    closed spec fn view(&self) -> Seq<EntryView> {
        self.entries@.map_values(|en: RegistryEntry| en@)
    }
}

impl Registry {
    /// Whether the registry is well formed.
    pub open spec fn wf(&self) -> bool {
        reg_wf(self@)
    }

    /// Creates an empty registry.
    pub fn new() -> (r: Registry)
        ensures
            r.wf(),
            r@ == Seq::<EntryView>::empty(),
    {
        let r = Registry { entries: Vec::new() };
        proof {
            assert(r@ =~= Seq::<EntryView>::empty());
        }
        r
    }

    /// Returns the position of the identifier's entry, if any.
    fn find(&self, id: usize) -> (r: Option<usize>)
        ensures
            match r {
                Some(i) => i < self@.len() && self@[i as int].id == id,
                None => !reg_has_id(self@, id as nat),
            },
    {
        let mut i: usize = 0;
        while i < self.entries.len()
            invariant
                i <= self@.len(),
                forall|k: int| 0 <= k < i ==> self@[k].id != id,
            decreases self@.len() - i,
        {
            if self.entries[i].id == id {
                return Some(i);
            }
            i = i + 1;
        }
        None
    }

    /// Registers one more delivery channel of the given capacity under the
    /// identifier, creating the entry if the identifier is new, and returns
    /// the channel's position among the identifier's channels.
    pub fn add_sender(&mut self, id: usize, capacity: usize) -> (chan: usize)
        requires
            old(self).wf(),
            capacity >= 1,
        ensures
            final(self).wf(),
            reg_has_id(final(self)@, id as nat),
            old(self).has(id as nat) ==> ({
                &&& final(self)@ == old(self)@.update(
                    reg_index_of(old(self)@, id as nat),
                    EntryView {
                        id: id as nat,
                        queues: reg_queues(old(self)@, id as nat).push(
                            fresh_queue(capacity as nat),
                        ),
                    },
                )
                &&& chan == reg_queues(old(self)@, id as nat).len()
            }),
            !old(self).has(id as nat) ==> ({
                &&& final(self)@ == old(self)@.push(
                    EntryView { id: id as nat, queues: seq![fresh_queue(capacity as nat)] },
                )
                &&& chan == 0
            }),
    {
        let q = DeliveryQueue::new(capacity);
        match self.find(id) {
            Some(i) => {
                proof {
                    lemma_reg_index(old(self)@, id as nat);
                }
                let mut entry = self.entries.remove(i);
                let chan = entry.queues.len();
                entry.queues.push(q);
                self.entries.insert(i, entry);
                proof {
                    assert(entry@.queues =~= reg_queues(old(self)@, id as nat).push(
                        fresh_queue(capacity as nat),
                    ));
                    assert(self@ =~= old(self)@.update(
                        reg_index_of(old(self)@, id as nat),
                        entry@,
                    ));
                    assert(entry@ =~= EntryView {
                        id: id as nat,
                        queues: reg_queues(old(self)@, id as nat).push(
                            fresh_queue(capacity as nat),
                        ),
                    });
                    assert(reg_has_id(self@, id as nat)) by {
                        assert(self@[i as int].id == id as nat);
                    }
                }
                chan
            },
            None => {
                let mut queues = Vec::new();
                queues.push(q);
                let entry = RegistryEntry { id, queues };
                self.entries.push(entry);
                proof {
                    assert(entry@.queues =~= seq![fresh_queue(capacity as nat)]);
                    assert(entry@ =~= EntryView {
                        id: id as nat,
                        queues: seq![fresh_queue(capacity as nat)],
                    });
                    assert(self@ =~= old(self)@.push(entry@));
                    assert(reg_has_id(self@, id as nat)) by {
                        assert(self@[old(self)@.len() as int].id == id as nat);
                    }
                }
                0
            },
        }
    }

    /// Removes the identifier's entry, with all its delivery channels;
    /// removing an absent identifier is a no-op.
    pub fn remove_senders(&mut self, id: usize)
        requires
            old(self).wf(),
        ensures
            final(self).wf(),
            !reg_has_id(final(self)@, id as nat),
            old(self).has(id as nat) ==> final(self)@ == old(self)@.remove(
                reg_index_of(old(self)@, id as nat),
            ),
            !old(self).has(id as nat) ==> final(self)@ == old(self)@,
    {
        match self.find(id) {
            Some(i) => {
                proof {
                    lemma_reg_index(old(self)@, id as nat);
                }
                let _ = self.entries.remove(i);
                proof {
                    assert(self@ =~= old(self)@.remove(reg_index_of(old(self)@, id as nat)));
                    assert(!reg_has_id(self@, id as nat)) by {
                        let k = reg_index_of(old(self)@, id as nat);
                        assert forall|m: int| 0 <= m < self@.len() implies self@[m].id
                            != id as nat by {
                            if m < k {
                                assert(self@[m] == old(self)@[m]);
                            } else {
                                assert(self@[m] == old(self)@[m + 1]);
                            }
                        }
                    }
                }
            },
            None => {},
        }
    }

    /// Whether the identifier owns an entry.
    pub open spec fn has(&self, id: nat) -> bool {
        reg_has_id(self@, id)
    }

    /// Returns whether the identifier owns an entry.
    pub fn contains_id(&self, id: usize) -> (r: bool)
        ensures
            r == self.has(id as nat),
    {
        match self.find(id) {
            Some(_) => true,
            None => false,
        }
    }

    /// Returns how many delivery channels the identifier owns.
    pub fn sender_count(&self, id: usize) -> (r: usize)
        requires
            self.wf(),
        ensures
            self.has(id as nat) ==> r == reg_queues(self@, id as nat).len(),
            !self.has(id as nat) ==> r == 0,
    {
        match self.find(id) {
            Some(i) => {
                proof {
                    lemma_reg_index(self@, id as nat);
                }
                self.entries[i].queues.len()
            },
            None => 0,
        }
    }

    /// Offers the event to every registered delivery channel: each open
    /// channel with room buffers its own copy; full or closed channels drop
    /// it. No channel is ever waited on.
    pub fn deliver(&mut self, e: &WireEvent)
        requires
            old(self).wf(),
        ensures
            final(self).wf(),
            final(self)@ == old(self)@.map_values(|en: EntryView| entry_offer(en, e@)),
    {
        let ghost v0 = old(self)@;
        let mut i: usize = 0;
        while i < self.entries.len()
            invariant
                self.wf(),
                i <= self@.len(),
                self@.len() == v0.len(),
                forall|k: int| 0 <= k < i ==> self@[k] == entry_offer(v0[k], e@),
                forall|k: int| i <= k < v0.len() ==> self@[k] == v0[k],
            decreases self@.len() - i,
        {
            let ghost v_outer = self@;
            let mut entry = self.entries.remove(i);
            let ghost en0 = entry@;
            proof {
                assert(en0 =~= v_outer[i as int]);
                assert forall|m: int| 0 <= m < en0.queues.len() implies (
                #[trigger] en0.queues[m]).wf() by {
                    assert(v_outer[i as int].queues[m].wf());
                }
            }
            let mut j: usize = 0;
            while j < entry.queues.len()
                invariant
                    entry@.id == en0.id,
                    j <= entry@.queues.len(),
                    entry@.queues.len() == en0.queues.len(),
                    forall|m: int| 0 <= m < j ==> entry@.queues[m] == en0.queues[m].offer(e@),
                    forall|m: int| j <= m < en0.queues.len() ==> entry@.queues[m] == en0.queues[m],
                    forall|m: int| 0 <= m < en0.queues.len() ==> (#[trigger] en0.queues[m]).wf(),
                decreases entry@.queues.len() - j,
            {
                let ghost qs_prev = entry@.queues;
                let mut q = entry.queues.remove(j);
                proof {
                    assert(qs_prev[j as int] == en0.queues[j as int]);
                    assert(q@ == qs_prev[j as int]);
                    assert(q@.wf());
                }
                let _ = q.try_push(e.clone());
                entry.queues.insert(j, q);
                proof {
                    assert(entry@.queues =~= qs_prev.update(
                        j as int,
                        qs_prev[j as int].offer(e@),
                    ));
                }
                j = j + 1;
            }
            self.entries.insert(i, entry);
            proof {
                assert(entry@ =~= entry_offer(en0, e@));
                assert(self@ =~= v_outer.update(i as int, entry@));
                assert(reg_wf(self@)) by {
                    assert forall|a: int, b: int| 0 <= a < b < self@.len() implies self@[a].id
                        != self@[b].id by {
                        assert(self@[a].id == v_outer[a].id);
                        assert(self@[b].id == v_outer[b].id);
                    }
                    assert forall|a: int, m: int|
                        0 <= a < self@.len() && 0 <= m < self@[a].queues.len() implies (
                    #[trigger] self@[a].queues[m]).wf() by {
                        if a == i {
                            assert(self@[a].queues[m] == en0.queues[m].offer(e@));
                            assert(en0.queues[m].wf());
                        } else {
                            assert(self@[a].queues[m] == v_outer[a].queues[m]);
                            assert(v_outer[a].queues[m].wf());
                        }
                    }
                }
            }
            i = i + 1;
        }
        proof {
            assert(self@ =~= v0.map_values(|en: EntryView| entry_offer(en, e@)));
        }
    }

    /// Closes every registered delivery channel, as when the transport's
    /// event sequence ends: buffered events stay readable, and every reader
    /// eventually sees end-of-stream.
    pub fn close_all(&mut self)
        requires
            old(self).wf(),
        ensures
            final(self).wf(),
            final(self)@ == old(self)@.map_values(|en: EntryView| entry_close(en)),
    {
        let ghost v0 = old(self)@;
        let mut i: usize = 0;
        while i < self.entries.len()
            invariant
                self.wf(),
                i <= self@.len(),
                self@.len() == v0.len(),
                forall|k: int| 0 <= k < i ==> self@[k] == entry_close(v0[k]),
                forall|k: int| i <= k < v0.len() ==> self@[k] == v0[k],
            decreases self@.len() - i,
        {
            let ghost v_outer = self@;
            let mut entry = self.entries.remove(i);
            let ghost en0 = entry@;
            proof {
                assert(en0 =~= v_outer[i as int]);
                assert forall|m: int| 0 <= m < en0.queues.len() implies (
                #[trigger] en0.queues[m]).wf() by {
                    assert(v_outer[i as int].queues[m].wf());
                }
            }
            let mut j: usize = 0;
            while j < entry.queues.len()
                invariant
                    entry@.id == en0.id,
                    j <= entry@.queues.len(),
                    entry@.queues.len() == en0.queues.len(),
                    forall|m: int| 0 <= m < j ==> entry@.queues[m] == en0.queues[m].close(),
                    forall|m: int| j <= m < en0.queues.len() ==> entry@.queues[m] == en0.queues[m],
                    forall|m: int| 0 <= m < en0.queues.len() ==> (#[trigger] en0.queues[m]).wf(),
                decreases entry@.queues.len() - j,
            {
                let ghost qs_prev = entry@.queues;
                let mut q = entry.queues.remove(j);
                proof {
                    assert(qs_prev[j as int] == en0.queues[j as int]);
                    assert(q@ == qs_prev[j as int]);
                    assert(q@.wf());
                }
                q.close();
                entry.queues.insert(j, q);
                proof {
                    assert(entry@.queues =~= qs_prev.update(j as int, qs_prev[j as int].close()));
                }
                j = j + 1;
            }
            self.entries.insert(i, entry);
            proof {
                assert(entry@ =~= entry_close(en0));
                assert(self@ =~= v_outer.update(i as int, entry@));
                assert(reg_wf(self@)) by {
                    assert forall|a: int, b: int| 0 <= a < b < self@.len() implies self@[a].id
                        != self@[b].id by {
                        assert(self@[a].id == v_outer[a].id);
                        assert(self@[b].id == v_outer[b].id);
                    }
                    assert forall|a: int, m: int|
                        0 <= a < self@.len() && 0 <= m < self@[a].queues.len() implies (
                    #[trigger] self@[a].queues[m]).wf() by {
                        if a == i {
                            assert(self@[a].queues[m] == en0.queues[m].close());
                            assert(en0.queues[m].wf());
                        } else {
                            assert(self@[a].queues[m] == v_outer[a].queues[m]);
                            assert(v_outer[a].queues[m].wf());
                        }
                    }
                }
            }
            i = i + 1;
        }
        proof {
            assert(self@ =~= v0.map_values(|en: EntryView| entry_close(en)));
        }
    }

    /// Takes the oldest event buffered on one delivery channel, identified
    /// by its subscription identifier and its position among that
    /// identifier's channels. A channel that no longer exists (its
    /// subscription was closed) reads as end-of-stream. No other channel is
    /// touched.
    pub fn pop_event(&mut self, id: usize, chan: usize) -> (r: RecvOutcome)
        requires
            old(self).wf(),
        ensures
            final(self).wf(),
            !(old(self).has(id as nat) && chan < reg_queues(old(self)@, id as nat).len()) ==> (
            final(self)@ == old(self)@ && r matches RecvOutcome::EndOfStream),
            old(self).has(id as nat) && chan < reg_queues(old(self)@, id as nat).len() ==> ({
                let k = reg_index_of(old(self)@, id as nat);
                let q = reg_queues(old(self)@, id as nat)[chan as int];
                let q1 = QueueView {
                    capacity: q.capacity,
                    events: if q.events.len() > 0 {
                        q.events.drop_first()
                    } else {
                        q.events
                    },
                    closed: q.closed,
                };
                &&& final(self)@ == old(self)@.update(
                    k,
                    EntryView {
                        id: id as nat,
                        queues: reg_queues(old(self)@, id as nat).update(chan as int, q1),
                    },
                )
                &&& (q.events.len() > 0 ==> ({
                    &&& r matches RecvOutcome::Event(e)
                    &&& e@ == q.events[0]
                }))
                &&& (q.events.len() == 0 ==> ((r matches RecvOutcome::Pending) <==> !q.closed) && ((
                r matches RecvOutcome::EndOfStream) <==> q.closed))
            }),
    {
        match self.find(id) {
            Some(i) => {
                proof {
                    lemma_reg_index(old(self)@, id as nat);
                }
                if chan < self.entries[i].queues.len() {
                    let ghost v0 = self@;
                    let mut entry = self.entries.remove(i);
                    let ghost en0 = entry@;
                    let mut q = entry.queues.remove(chan);
                    proof {
                        assert(en0 =~= v0[i as int]);
                        assert(q@ == en0.queues[chan as int]);
                        assert(v0[i as int].queues[chan as int].wf());
                    }
                    let r = q.pop();
                    entry.queues.insert(chan, q);
                    self.entries.insert(i, entry);
                    proof {
                        assert(entry@.queues =~= en0.queues.update(chan as int, q@));
                        assert(self@ =~= v0.update(i as int, entry@));
                        assert(reg_wf(self@)) by {
                            assert forall|a: int, b: int|
                                0 <= a < b < self@.len() implies self@[a].id != self@[b].id by {
                                assert(self@[a].id == v0[a].id);
                                assert(self@[b].id == v0[b].id);
                            }
                            assert forall|a: int, m: int|
                                0 <= a < self@.len() && 0 <= m < self@[a].queues.len() implies (
                            #[trigger] self@[a].queues[m]).wf() by {
                                if a == i && m == chan {
                                    assert(self@[a].queues[m] == q@);
                                } else {
                                    assert(self@[a].queues[m] == v0[a].queues[m]);
                                    assert(v0[a].queues[m].wf());
                                }
                            }
                        }
                    }
                    r
                } else {
                    RecvOutcome::EndOfStream
                }
            },
            None => RecvOutcome::EndOfStream,
        }
    }
}

} // verus!
