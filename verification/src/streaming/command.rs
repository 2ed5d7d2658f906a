//! Administrative commands and the dispatcher that executes them.
//!
//! Commands are queued by streamers and subscription handles and drained in
//! first-in-first-out order by a single dispatcher, the only code path that
//! may touch the streaming transport. Executing a command mutates the
//! subscription registry ([`Command::AddEventSender`],
//! [`Command::RemoveEventSender`]) or yields a [`TransportAction`] for the
//! transport to perform; [`Command::Disconnect`] is always the last command
//! executed, and everything queued after it is discarded.

use vstd::prelude::*;

use crate::streaming::registry::{
    fresh_queue, reg_has_id, reg_index_of, reg_queues, reg_wf, EntryView, Registry,
};
use crate::streaming::wire::{ReqView, WireSubscriptionRequest};

verus! {

/// The mathematical value of a [`Command`].
pub enum CmdView {
    /// Forward subscription requests to the transport.
    Subscribe(u32, Seq<ReqView>),
    /// Forward unsubscription requests to the transport.
    Unsubscribe(u32, Seq<ReqView>),
    /// Start the transport's decoded event stream (the fan-out loop).
    CreateEventStream,
    /// Register one more delivery channel, of the given capacity, under the
    /// subscription identifier.
    AddEventSender(nat, nat),
    /// Remove every delivery channel of the subscription identifier.
    RemoveEventSender(nat),
    /// Close the transport; the dispatcher stops afterwards.
    Disconnect,
}

/// An administrative command, executed by the dispatcher in queue order.
#[derive(Debug)]
pub enum Command {
    /// Forward subscription requests to the transport, on the given channel.
    Subscribe(u32, Vec<WireSubscriptionRequest>),
    /// Forward unsubscription requests to the transport, on the given
    /// channel.
    Unsubscribe(u32, Vec<WireSubscriptionRequest>),
    /// Start the transport's decoded event stream (the fan-out loop).
    CreateEventStream,
    /// Register one more delivery channel, of the given capacity, under the
    /// subscription identifier.
    AddEventSender(usize, usize),
    /// Remove every delivery channel of the subscription identifier.
    RemoveEventSender(usize),
    /// Close the transport; the dispatcher stops afterwards.
    Disconnect,
}

impl View for Command {
    type V = CmdView;

    open spec fn view(&self) -> CmdView {
        match self {
            Command::Subscribe(ch, rs) => CmdView::Subscribe(
                *ch,
                rs@.map_values(|r: WireSubscriptionRequest| r@),
            ),
            Command::Unsubscribe(ch, rs) => CmdView::Unsubscribe(
                *ch,
                rs@.map_values(|r: WireSubscriptionRequest| r@),
            ),
            Command::CreateEventStream => CmdView::CreateEventStream,
            Command::AddEventSender(id, cap) => CmdView::AddEventSender(*id as nat, *cap as nat),
            Command::RemoveEventSender(id) => CmdView::RemoveEventSender(*id as nat),
            Command::Disconnect => CmdView::Disconnect,
        }
    }
}

/// The mathematical value of a [`TransportAction`].
pub enum ActView {
    /// Subscribe the channel to the requests.
    Subscribe(u32, Seq<ReqView>),
    /// Unsubscribe the channel from the requests.
    Unsubscribe(u32, Seq<ReqView>),
    /// Obtain the decoded event stream.
    StartEventStream,
    /// Close the connection.
    Disconnect,
}

/// One operation for the streaming transport to perform, produced by the
/// dispatcher; only the dispatcher may perform these.
#[derive(Debug)]
pub enum TransportAction {
    /// Subscribe the channel to the requests.
    Subscribe(u32, Vec<WireSubscriptionRequest>),
    /// Unsubscribe the channel from the requests.
    Unsubscribe(u32, Vec<WireSubscriptionRequest>),
    /// Obtain the decoded event stream.
    StartEventStream,
    /// Close the connection.
    Disconnect,
}

impl View for TransportAction {
    type V = ActView;

    open spec fn view(&self) -> ActView {
        match self {
            TransportAction::Subscribe(ch, rs) => ActView::Subscribe(
                *ch,
                rs@.map_values(|r: WireSubscriptionRequest| r@),
            ),
            TransportAction::Unsubscribe(ch, rs) => ActView::Unsubscribe(
                *ch,
                rs@.map_values(|r: WireSubscriptionRequest| r@),
            ),
            TransportAction::StartEventStream => ActView::StartEventStream,
            TransportAction::Disconnect => ActView::Disconnect,
        }
    }
}

/// Whether a command is well formed: a registered delivery channel must have
/// room for at least one event.
pub open spec fn cmd_wf(c: CmdView) -> bool {
    c matches CmdView::AddEventSender(_id, cap) ==> cap >= 1
}

/// The registry after one command is executed.
pub open spec fn step_registry(v: Seq<EntryView>, c: CmdView) -> Seq<EntryView> {
    match c {
        CmdView::AddEventSender(id, cap) => if reg_has_id(v, id) {
            v.update(
                reg_index_of(v, id),
                EntryView { id, queues: reg_queues(v, id).push(fresh_queue(cap)) },
            )
        } else {
            v.push(EntryView { id, queues: seq![fresh_queue(cap)] })
        },
        CmdView::RemoveEventSender(id) => if reg_has_id(v, id) {
            v.remove(reg_index_of(v, id))
        } else {
            v
        },
        _ => v,
    }
}

/// The transport action one command asks for, if any.
pub open spec fn step_action(c: CmdView) -> Option<ActView> {
    match c {
        CmdView::Subscribe(ch, rs) => Option::Some(ActView::Subscribe(ch, rs)),
        CmdView::Unsubscribe(ch, rs) => Option::Some(ActView::Unsubscribe(ch, rs)),
        CmdView::CreateEventStream => Option::Some(ActView::StartEventStream),
        CmdView::AddEventSender(_id, _cap) => Option::None,
        CmdView::RemoveEventSender(_id) => Option::None,
        CmdView::Disconnect => Option::Some(ActView::Disconnect),
    }
}

/// Whether the command sequence holds a disconnect, at which the dispatcher
/// stops.
pub open spec fn has_disconnect(cmds: Seq<CmdView>) -> bool {
    exists|i: int| 0 <= i < cmds.len() && cmds[i] is Disconnect
}

/// The registry after the dispatcher drains the command sequence in order,
/// stopping at a disconnect.
pub open spec fn registry_after(v: Seq<EntryView>, cmds: Seq<CmdView>) -> Seq<EntryView>
    decreases cmds.len(),
{
    if cmds.len() == 0 {
        v
    } else if cmds[0] is Disconnect {
        v
    } else {
        registry_after(step_registry(v, cmds[0]), cmds.drop_first())
    }
}

/// The transport actions the dispatcher performs while draining the command
/// sequence in order, stopping right after a disconnect.
pub open spec fn actions_after(cmds: Seq<CmdView>) -> Seq<ActView>
    decreases cmds.len(),
{
    if cmds.len() == 0 {
        Seq::empty()
    } else if cmds[0] is Disconnect {
        seq![ActView::Disconnect]
    } else {
        (match step_action(cmds[0]) {
            Option::Some(a) => seq![a],
            Option::None => Seq::empty(),
        }) + actions_after(cmds.drop_first())
    }
}

/// Law: the disconnect is always the last action the dispatcher performs:
/// it appears in a drained action sequence only as the final element, so no
/// transport operation ever follows the close of the connection.
pub proof fn lemma_disconnect_action_is_last(cmds: Seq<CmdView>)
    ensures
        forall|i: int|
            0 <= i < actions_after(cmds).len() && (#[trigger] actions_after(cmds)[i])
                is Disconnect ==> i == actions_after(cmds).len() - 1,
    decreases cmds.len(),
{
    let acts = actions_after(cmds);
    if cmds.len() == 0 {
    } else if cmds[0] is Disconnect {
    } else {
        lemma_disconnect_action_is_last(cmds.drop_first());
        let head = (match step_action(cmds[0]) {
            Option::Some(a) => seq![a],
            Option::None => Seq::<ActView>::empty(),
        });
        let tail = actions_after(cmds.drop_first());
        assert forall|i: int| 0 <= i < acts.len() && (#[trigger] acts[i])
            is Disconnect implies i == acts.len() - 1 by {
            if i < head.len() {
                assert(acts[i] == head[0]);
                assert(!(step_action(cmds[0]) matches Option::Some(a) && a is Disconnect));
            } else {
                assert(acts[i] == tail[i - head.len()]);
                assert(i - head.len() == tail.len() - 1);
            }
        }
    }
}

/// Executing one command preserves registry well-formedness.
pub proof fn lemma_step_preserves_wf(v: Seq<EntryView>, c: CmdView)
    requires
        reg_wf(v),
        cmd_wf(c),
    ensures
        reg_wf(step_registry(v, c)),
{
    let v1 = step_registry(v, c);
    match c {
        CmdView::AddEventSender(id, cap) => {
            if reg_has_id(v, id) {
                let k = reg_index_of(v, id);
                assert(0 <= k < v.len() && v[k].id == id);
                assert forall|a: int, b: int| 0 <= a < b < v1.len() implies v1[a].id
                    != v1[b].id by {
                    assert(v1[a].id == v[a].id);
                    assert(v1[b].id == v[b].id);
                }
                assert forall|a: int, m: int|
                    0 <= a < v1.len() && 0 <= m < v1[a].queues.len() implies (
                #[trigger] v1[a].queues[m]).wf() by {
                    if a == k && m == v[k].queues.len() {
                        assert(v1[a].queues[m] == fresh_queue(cap));
                    } else {
                        assert(v1[a].queues[m] == v[a].queues[m]);
                        assert(v[a].queues[m].wf());
                    }
                }
            } else {
                assert forall|a: int, b: int| 0 <= a < b < v1.len() implies v1[a].id
                    != v1[b].id by {
                    if b == v.len() {
                        assert(v1[a].id == v[a].id);
                        assert(!(v[a].id == id)) by {
                            assert(!reg_has_id(v, id));
                        }
                    } else {
                        assert(v1[a].id == v[a].id);
                        assert(v1[b].id == v[b].id);
                    }
                }
                assert forall|a: int, m: int|
                    0 <= a < v1.len() && 0 <= m < v1[a].queues.len() implies (
                #[trigger] v1[a].queues[m]).wf() by {
                    if a == v.len() {
                        assert(v1[a].queues[m] == fresh_queue(cap));
                    } else {
                        assert(v1[a].queues[m] == v[a].queues[m]);
                        assert(v[a].queues[m].wf());
                    }
                }
            }
        },
        CmdView::RemoveEventSender(id) => {
            if reg_has_id(v, id) {
                let k = reg_index_of(v, id);
                assert(0 <= k < v.len() && v[k].id == id);
                assert forall|a: int, b: int| 0 <= a < b < v1.len() implies v1[a].id
                    != v1[b].id by {
                    let a0 = if a < k {
                        a
                    } else {
                        a + 1
                    };
                    let b0 = if b < k {
                        b
                    } else {
                        b + 1
                    };
                    assert(v1[a].id == v[a0].id);
                    assert(v1[b].id == v[b0].id);
                }
                assert forall|a: int, m: int|
                    0 <= a < v1.len() && 0 <= m < v1[a].queues.len() implies (
                #[trigger] v1[a].queues[m]).wf() by {
                    let a0 = if a < k {
                        a
                    } else {
                        a + 1
                    };
                    assert(v1[a] == v[a0]);
                    assert(v[a0].queues[m].wf());
                }
            }
        },
        _ => {},
    }
}

/// After removing a subscription's delivery channels, the registry holds no
/// entry for it.
pub proof fn lemma_remove_clears(v: Seq<EntryView>, id: nat)
    requires
        reg_wf(v),
    ensures
        !reg_has_id(step_registry(v, CmdView::RemoveEventSender(id)), id),
{
    let v1 = step_registry(v, CmdView::RemoveEventSender(id));
    if reg_has_id(v, id) {
        let k = reg_index_of(v, id);
        assert(0 <= k < v.len() && v[k].id == id);
        assert forall|m: int| 0 <= m < v1.len() implies v1[m].id != id by {
            if m < k {
                assert(v1[m] == v[m]);
            } else {
                assert(v1[m] == v[m + 1]);
            }
        }
    }
}

/// Executing a command that does not register a channel for the
/// identifier cannot make the identifier appear in the registry.
pub proof fn lemma_step_preserves_absence(v: Seq<EntryView>, c: CmdView, id: nat)
    requires
        !reg_has_id(v, id),
        !(c matches CmdView::AddEventSender(id2, _cap) && id2 == id),
    ensures
        !reg_has_id(step_registry(v, c), id),
{
    let v1 = step_registry(v, c);
    match c {
        CmdView::AddEventSender(id2, cap) => {
            if reg_has_id(v, id2) {
                let k = reg_index_of(v, id2);
                assert forall|m: int| 0 <= m < v1.len() implies v1[m].id != id by {
                    if m == k {
                        assert(v1[m].id == id2);
                    } else {
                        assert(v1[m] == v[m]);
                    }
                }
            } else {
                assert forall|m: int| 0 <= m < v1.len() implies v1[m].id != id by {
                    if m < v.len() {
                        assert(v1[m] == v[m]);
                    } else {
                        assert(v1[m].id == id2);
                    }
                }
            }
        },
        CmdView::RemoveEventSender(id2) => {
            if reg_has_id(v, id2) {
                let k = reg_index_of(v, id2);
                assert forall|m: int| 0 <= m < v1.len() implies v1[m].id != id by {
                    if m < k {
                        assert(v1[m] == v[m]);
                    } else {
                        assert(v1[m] == v[m + 1]);
                    }
                }
            }
        },
        _ => {},
    }
}

/// Draining commands that never register a channel for the identifier
/// cannot make the identifier appear in the registry.
pub proof fn lemma_drain_preserves_absence(v: Seq<EntryView>, cmds: Seq<CmdView>, id: nat)
    requires
        !reg_has_id(v, id),
        forall|i: int|
            0 <= i < cmds.len() ==> !((#[trigger] cmds[i]) matches CmdView::AddEventSender(
                id2,
                _cap,
            ) && id2 == id),
    ensures
        !reg_has_id(registry_after(v, cmds), id),
    decreases cmds.len(),
{
    if cmds.len() == 0 || cmds[0] is Disconnect {
    } else {
        lemma_step_preserves_absence(v, cmds[0], id);
        assert forall|i: int| 0 <= i < cmds.drop_first().len() implies !((
        #[trigger] cmds.drop_first()[i]) matches CmdView::AddEventSender(id2, _cap) && id2
            == id) by {
            assert(cmds.drop_first()[i] == cmds[i + 1]);
        }
        lemma_drain_preserves_absence(step_registry(v, cmds[0]), cmds.drop_first(), id);
    }
}

/// Draining a command sequence preserves registry well-formedness.
pub proof fn lemma_registry_after_wf(v: Seq<EntryView>, cmds: Seq<CmdView>)
    requires
        reg_wf(v),
        forall|i: int| 0 <= i < cmds.len() ==> cmd_wf(#[trigger] cmds[i]),
    ensures
        reg_wf(registry_after(v, cmds)),
    decreases cmds.len(),
{
    if cmds.len() == 0 || cmds[0] is Disconnect {
    } else {
        lemma_step_preserves_wf(v, cmds[0]);
        lemma_registry_after_wf(step_registry(v, cmds[0]), cmds.drop_first());
    }
}

/// Draining a concatenation of command sequences, none of the first holding
/// a disconnect, drains them one after the other.
pub proof fn lemma_registry_after_append(v: Seq<EntryView>, a: Seq<CmdView>, b: Seq<CmdView>)
    requires
        !has_disconnect(a),
    ensures
        registry_after(v, a + b) == registry_after(registry_after(v, a), b),
    decreases a.len(),
{
    if a.len() == 0 {
        assert(a + b =~= b);
    } else {
        assert(!(a[0] is Disconnect));
        assert((a + b)[0] == a[0]);
        assert((a + b).drop_first() =~= a.drop_first() + b);
        assert(!has_disconnect(a.drop_first())) by {
            assert forall|i: int| 0 <= i < a.drop_first().len() implies !(a.drop_first()[i]
                is Disconnect) by {
                assert(a.drop_first()[i] == a[i + 1]);
                assert(!has_disconnect(a));
                assert(!(a[i + 1] is Disconnect));
            }
        }
        lemma_registry_after_append(step_registry(v, a[0]), a.drop_first(), b);
    }
}

/// Executes one command against the registry: registry mutations take effect
/// at once; transport-facing commands come back as the action to perform.
pub fn dispatch_step(registry: &mut Registry, cmd: Command) -> (a: Option<TransportAction>)
    requires
        old(registry).wf(),
        cmd_wf(cmd@),
    ensures
        final(registry).wf(),
        final(registry)@ == step_registry(old(registry)@, cmd@),
        match step_action(cmd@) {
            Option::Some(av) => a matches Some(act) && act@ == av,
            Option::None => a is None,
        },
{
    match cmd {
        Command::Subscribe(ch, rs) => Some(TransportAction::Subscribe(ch, rs)),
        Command::Unsubscribe(ch, rs) => Some(TransportAction::Unsubscribe(ch, rs)),
        Command::CreateEventStream => Some(TransportAction::StartEventStream),
        Command::AddEventSender(id, cap) => {
            let _ = registry.add_sender(id, cap);
            None
        },
        Command::RemoveEventSender(id) => {
            registry.remove_senders(id);
            None
        },
        Command::Disconnect => Some(TransportAction::Disconnect),
    }
}

/// Drains the queued commands in first-in-first-out order, executing each
/// against the registry, and returns the transport actions to perform, in
/// order. Stops at a disconnect: the disconnect action is the last one
/// returned and every command queued after it is discarded.
pub fn run_dispatcher(registry: &mut Registry, queue: &mut Vec<Command>) -> (acts: Vec<
    TransportAction,
>)
    requires
        old(registry).wf(),
        forall|i: int| 0 <= i < old(queue)@.len() ==> cmd_wf(#[trigger] old(queue)@[i]@),
    ensures
        final(registry).wf(),
        final(registry)@ == registry_after(
            old(registry)@,
            old(queue)@.map_values(|c: Command| c@),
        ),
        acts@.map_values(|a: TransportAction| a@) == actions_after(
            old(queue)@.map_values(|c: Command| c@),
        ),
        final(queue)@ == Seq::<Command>::empty(),
{
    let ghost v0 = old(registry)@;
    let ghost cmds0 = old(queue)@.map_values(|c: Command| c@);
    let mut acts: Vec<TransportAction> = Vec::new();
    let mut done = false;
    while !done && queue.len() > 0
        invariant
            registry.wf(),
            forall|i: int| 0 <= i < queue@.len() ==> cmd_wf(#[trigger] queue@[i]@),
            registry_after(v0, cmds0) == (if done {
                registry@
            } else {
                registry_after(registry@, queue@.map_values(|c: Command| c@))
            }),
            actions_after(cmds0) == acts@.map_values(|a: TransportAction| a@) + (if done {
                Seq::<ActView>::empty()
            } else {
                actions_after(queue@.map_values(|c: Command| c@))
            }),
            done ==> queue@.len() == 0,
        decreases queue@.len() + (if done {
            0int
        } else {
            1int
        }),
    {
        let ghost qv = queue@.map_values(|c: Command| c@);
        let cmd = queue.remove(0);
        proof {
            assert(qv[0] == cmd@);
            assert(queue@.map_values(|c: Command| c@) =~= qv.drop_first());
        }
        if matches!(cmd, Command::Disconnect) {
            let ghost acts_before = acts@;
            acts.push(TransportAction::Disconnect);
            queue.clear();
            done = true;
            proof {
                assert(actions_after(qv) =~= seq![ActView::Disconnect]);
                assert(acts@.map_values(|a: TransportAction| a@) =~= acts_before.map_values(
                    |a: TransportAction| a@,
                ).push(ActView::Disconnect));
            }
        } else {
            proof {
                assert(!(qv[0] is Disconnect));
            }
            let ghost acts_before = acts@;
            let a = dispatch_step(registry, cmd);
            match a {
                Some(act) => {
                    acts.push(act);
                    proof {
                        assert(acts@.map_values(|x: TransportAction| x@) =~= acts_before.map_values(
                            |x: TransportAction| x@,
                        ).push(act@));
                    }
                },
                None => {},
            }
            proof {
                assert(actions_after(qv) == (match step_action(qv[0]) {
                    Option::Some(av) => seq![av],
                    Option::None => Seq::<ActView>::empty(),
                }) + actions_after(qv.drop_first()));
                assert(acts_before.map_values(|x: TransportAction| x@) + (match step_action(
                    qv[0],
                ) {
                    Option::Some(av) => seq![av],
                    Option::None => Seq::<ActView>::empty(),
                }) =~= acts@.map_values(|x: TransportAction| x@));
                assert(acts@.map_values(|x: TransportAction| x@) + actions_after(qv.drop_first())
                    =~= acts_before.map_values(|x: TransportAction| x@) + actions_after(qv));
            }
        }
    }
    proof {
        if !done {
            assert(queue@.map_values(|c: Command| c@) =~= Seq::<CmdView>::empty());
            assert(acts@.map_values(|a: TransportAction| a@) + Seq::<ActView>::empty()
                =~= acts@.map_values(|a: TransportAction| a@));
        } else {
            assert(acts@.map_values(|a: TransportAction| a@) + Seq::<ActView>::empty()
                =~= acts@.map_values(|a: TransportAction| a@));
        }
        assert(queue@ =~= Seq::<Command>::empty());
    }
    acts
}

} // verus!
