//! Event management in the daemon: the subscription table, the commands that
//! drive it, and the fan-out decision for raised events.
//!
//! The manager owns the table mapping `(unit id, event type)` to subscribed
//! clients.  It consumes [`EventManagerCmd`] values one at a time; for a
//! dispatched event it answers with the exact list of deliveries owed, in
//! table order.

use crate::ipc::{spec_event_type, ServerEvent, ServerEventType, ServerEventV};
use crate::text::str_eq;
use vstd::prelude::*;
use vstd::seq_lib::group_seq_properties;
use vstd::string::*;

verus! {

/// One entry of the subscription table: the named client wants events of the
/// named type from the named unit.
#[derive(Debug)]
pub struct Subscription {
    pub server_id: String,
    pub event_type: ServerEventType,
    pub client_id: u32,
}

/// Spec view of a [`Subscription`].
pub struct SubscriptionV {
    pub server_id: Seq<char>,
    pub event_type: ServerEventType,
    pub client_id: u32,
}

impl View for Subscription {
    type V = SubscriptionV;

    open spec fn view(&self) -> SubscriptionV {
        SubscriptionV {
            server_id: self.server_id@,
            event_type: self.event_type,
            client_id: self.client_id,
        }
    }
}

impl DeepView for Subscription {
    type V = SubscriptionV;

    open spec fn deep_view(&self) -> SubscriptionV {
        self@
    }
}

/// Commands to control an [`EventManager`]
#[derive(Debug)]
pub enum EventManagerCmd {
    /// Dispatch an event received from the unit identified by `server_id`.
    DispatchEvent { server_id: String, event: ServerEvent },
    /// Client with the given client id wants to listen for events of type
    /// `event_type` on server `server_id`.
    AddSubscription { server_id: String, event_type: ServerEventType, client_id: u32 },
    /// Remove a subscription of a client for a specific server and event type
    RemoveSubscription { server_id: String, event_type: ServerEventType, client_id: u32 },
    /// Remove all subscriptions of a given client
    RemoveAllSubscriptions { client_id: u32 },
}

/// Spec view of an [`EventManagerCmd`].
pub enum EventManagerCmdV {
    DispatchEvent { server_id: Seq<char>, event: ServerEventV },
    AddSubscription { server_id: Seq<char>, event_type: ServerEventType, client_id: u32 },
    RemoveSubscription { server_id: Seq<char>, event_type: ServerEventType, client_id: u32 },
    RemoveAllSubscriptions { client_id: u32 },
}

impl View for EventManagerCmd {
    type V = EventManagerCmdV;

    open spec fn view(&self) -> EventManagerCmdV {
        match self {
            EventManagerCmd::DispatchEvent { server_id, event } => EventManagerCmdV::DispatchEvent {
                server_id: server_id@,
                event: event@,
            },
            EventManagerCmd::AddSubscription { server_id, event_type, client_id } => {
                EventManagerCmdV::AddSubscription {
                    server_id: server_id@,
                    event_type: *event_type,
                    client_id: *client_id,
                }
            },
            EventManagerCmd::RemoveSubscription { server_id, event_type, client_id } => {
                EventManagerCmdV::RemoveSubscription {
                    server_id: server_id@,
                    event_type: *event_type,
                    client_id: *client_id,
                }
            },
            EventManagerCmd::RemoveAllSubscriptions { client_id } => {
                EventManagerCmdV::RemoveAllSubscriptions { client_id: *client_id }
            },
        }
    }
}

impl DeepView for EventManagerCmd {
    type V = EventManagerCmdV;

    open spec fn deep_view(&self) -> EventManagerCmdV {
        self@
    }
}

/// The predicate keeping entries of other clients.
pub open spec fn keeps_other_clients(client_id: u32) -> spec_fn(SubscriptionV) -> bool {
    |s: SubscriptionV| s.client_id != client_id
}

/// The predicate keeping everything but one client's entries for one key.
pub open spec fn keeps_other_keys(
    server_id: Seq<char>,
    event_type: ServerEventType,
    client_id: u32,
) -> spec_fn(SubscriptionV) -> bool {
    |s: SubscriptionV|
        !(s.server_id == server_id && s.event_type == event_type && s.client_id == client_id)
}

/// The predicate selecting the entries subscribed to one key.
pub open spec fn matches_key(
    server_id: Seq<char>,
    event_type: ServerEventType,
) -> spec_fn(SubscriptionV) -> bool {
    |s: SubscriptionV| s.server_id == server_id && s.event_type == event_type
}

/// The table without every entry of the given client.
pub open spec fn without_client(subs: Seq<SubscriptionV>, client_id: u32) -> Seq<SubscriptionV> {
    subs.filter(keeps_other_clients(client_id))
}

/// The table without the given client's entries for one `(unit, type)` key.
pub open spec fn without_subscription(
    subs: Seq<SubscriptionV>,
    server_id: Seq<char>,
    event_type: ServerEventType,
    client_id: u32,
) -> Seq<SubscriptionV> {
    subs.filter(keeps_other_keys(server_id, event_type, client_id))
}

/// The entries subscribed to a `(unit, type)` key, in table order.
pub open spec fn matching_entries(
    subs: Seq<SubscriptionV>,
    server_id: Seq<char>,
    event_type: ServerEventType,
) -> Seq<SubscriptionV> {
    subs.filter(matches_key(server_id, event_type))
}

/// The clients subscribed to a `(unit, type)` key, in table order.
pub open spec fn subscribers_of(
    subs: Seq<SubscriptionV>,
    server_id: Seq<char>,
    event_type: ServerEventType,
) -> Seq<u32> {
    matching_entries(subs, server_id, event_type).map_values(|s: SubscriptionV| s.client_id)
}

/// Filtering a sequence extended by one element keeps the element exactly
/// when the predicate holds of it.
pub proof fn lemma_filter_push<A>(s: Seq<A>, x: A, pred: spec_fn(A) -> bool)
    ensures
        s.push(x).filter(pred) == if pred(x) {
            s.filter(pred).push(x)
        } else {
            s.filter(pred)
        },
{
    reveal(Seq::filter);
    assert(s.push(x).drop_last() =~= s);
    assert(s.push(x).last() == x);
}

/// Manages subscriptions and decides the dispatch of events.
#[derive(Debug)]
pub struct EventManager {
    /// The subscriptions which are currently handled
    pub subscriptions: Vec<Subscription>,
}

impl View for EventManager {
    type V = Seq<SubscriptionV>;

    open spec fn view(&self) -> Seq<SubscriptionV> {
        self.subscriptions.deep_view()
    }
}

impl EventManager {
    /// Creates a new EventManager with an empty subscription table.
    pub fn new() -> (r: EventManager)
        ensures
            r@ =~= Seq::<SubscriptionV>::empty(),
    {
        EventManager { subscriptions: Vec::new() }
    }

    /// Appends an entry to the subscription table.  Duplicates are admitted.
    pub fn add_subscription(
        &mut self,
        server_id: String,
        event_type: ServerEventType,
        client_id: u32,
    )
        ensures
            final(self)@ =~= old(self)@.push(
                SubscriptionV { server_id: server_id@, event_type, client_id },
            ),
    {
        self.subscriptions.push(Subscription { server_id, event_type, client_id });
        proof {
            assert(final(self)@ =~= old(self)@.push(
                SubscriptionV { server_id: server_id@, event_type, client_id },
            ));
        }
    }

    /// Removes the given client's entries for one `(unit, type)` key; every
    /// other entry stays, in order.
    pub fn remove_subscription(
        &mut self,
        server_id: &str,
        event_type: ServerEventType,
        client_id: u32,
    )
        ensures
            final(self)@ == without_subscription(old(self)@, server_id@, event_type, client_id),
    {
        broadcast use group_seq_properties;

        let ghost pred = keeps_other_keys(server_id@, event_type, client_id);
        let mut kept: Vec<Subscription> = Vec::new();
        let n = self.subscriptions.len();
        let mut i: usize = 0;
        proof {
            reveal(Seq::filter);
            assert(old(self)@.subrange(0, 0) =~= Seq::<SubscriptionV>::empty());
        }
        while i < n
            invariant
                0 <= i <= n,
                n == self.subscriptions.len(),
                self@ == old(self)@,
                pred == keeps_other_keys(server_id@, event_type, client_id),
                kept.deep_view() == old(self)@.subrange(0, i as int).filter(pred),
            decreases n - i,
        {
            let ghost pre = kept.deep_view();
            let sub = &self.subscriptions[i];
            let keep = !(str_eq(sub.server_id.as_str(), server_id) && sub.event_type == event_type
                && sub.client_id == client_id);
            proof {
                assert(sub@ == old(self)@[i as int]);
                assert(old(self)@.subrange(0, i + 1) =~= old(self)@.subrange(0, i as int).push(
                    old(self)@[i as int],
                ));
                lemma_filter_push(old(self)@.subrange(0, i as int), old(self)@[i as int], pred);
            }
            if keep {
                let copy = Subscription {
                    server_id: sub.server_id.clone(),
                    event_type: sub.event_type,
                    client_id: sub.client_id,
                };
                kept.push(copy);
                proof {
                    assert(copy@ == old(self)@[i as int]);
                    assert(kept.deep_view() =~= pre.push(old(self)@[i as int]));
                }
            }
            i = i + 1;
        }
        proof {
            assert(old(self)@.subrange(0, n as int) =~= old(self)@);
        }
        self.subscriptions = kept;
    }

    /// Removes every entry of the given client, over all keys; every other
    /// entry stays, in order.
    pub fn remove_all_subscriptions(&mut self, client_id: u32)
        ensures
            final(self)@ == without_client(old(self)@, client_id),
    {
        broadcast use group_seq_properties;

        let ghost pred = keeps_other_clients(client_id);
        let mut kept: Vec<Subscription> = Vec::new();
        let n = self.subscriptions.len();
        let mut i: usize = 0;
        proof {
            reveal(Seq::filter);
            assert(old(self)@.subrange(0, 0) =~= Seq::<SubscriptionV>::empty());
        }
        while i < n
            invariant
                0 <= i <= n,
                n == self.subscriptions.len(),
                self@ == old(self)@,
                pred == keeps_other_clients(client_id),
                kept.deep_view() == old(self)@.subrange(0, i as int).filter(pred),
            decreases n - i,
        {
            let ghost pre = kept.deep_view();
            let sub = &self.subscriptions[i];
            proof {
                assert(sub@ == old(self)@[i as int]);
                assert(old(self)@.subrange(0, i + 1) =~= old(self)@.subrange(0, i as int).push(
                    old(self)@[i as int],
                ));
                lemma_filter_push(old(self)@.subrange(0, i as int), old(self)@[i as int], pred);
            }
            if sub.client_id != client_id {
                let copy = Subscription {
                    server_id: sub.server_id.clone(),
                    event_type: sub.event_type,
                    client_id: sub.client_id,
                };
                kept.push(copy);
                proof {
                    assert(copy@ == old(self)@[i as int]);
                    assert(kept.deep_view() =~= pre.push(old(self)@[i as int]));
                }
            }
            i = i + 1;
        }
        proof {
            assert(old(self)@.subrange(0, n as int) =~= old(self)@);
        }
        self.subscriptions = kept;
    }

    /// The deliveries owed for an event raised by `server_id`: one per entry
    /// subscribed to `(server_id, type of the event)`, in table order, each
    /// carrying a copy of the event.  An unknown key yields none.
    pub fn dispatch_event(&self, server_id: &str, event: &ServerEvent) -> (r: Vec<
        (u32, ServerEvent),
    >)
        ensures
            r@.map_values(|d: (u32, ServerEvent)| d.0) == subscribers_of(
                self@,
                server_id@,
                spec_event_type(event@),
            ),
            forall|j: int| 0 <= j < r@.len() ==> (#[trigger] r@[j].1)@ == event@,
    {
        broadcast use group_seq_properties;

        let event_type = event.get_event_type();
        let ghost pred = matches_key(server_id@, event_type);
        let mut out: Vec<(u32, ServerEvent)> = Vec::new();
        let n = self.subscriptions.len();
        let mut i: usize = 0;
        proof {
            reveal(Seq::filter);
            assert(self@.subrange(0, 0) =~= Seq::<SubscriptionV>::empty());
            assert(out@.map_values(|d: (u32, ServerEvent)| d.0) =~= self@.subrange(0, 0).filter(
                pred,
            ).map_values(|s: SubscriptionV| s.client_id));
        }
        while i < n
            invariant
                0 <= i <= n,
                n == self.subscriptions.len(),
                event_type == spec_event_type(event@),
                pred == matches_key(server_id@, event_type),
                out@.map_values(|d: (u32, ServerEvent)| d.0) == self@.subrange(0, i as int).filter(
                    pred,
                ).map_values(|s: SubscriptionV| s.client_id),
                forall|j: int| 0 <= j < out@.len() ==> (#[trigger] out@[j].1)@ == event@,
            decreases n - i,
        {
            let ghost pre = out@.map_values(|d: (u32, ServerEvent)| d.0);
            let sub = &self.subscriptions[i];
            proof {
                assert(sub@ == self@[i as int]);
                assert(self@.subrange(0, i + 1) =~= self@.subrange(0, i as int).push(
                    self@[i as int],
                ));
                lemma_filter_push(self@.subrange(0, i as int), self@[i as int], pred);
            }
            if str_eq(sub.server_id.as_str(), server_id) && sub.event_type == event_type {
                out.push((sub.client_id, event.duplicate()));
                proof {
                    assert(out@.map_values(|d: (u32, ServerEvent)| d.0) =~= pre.push(
                        self@[i as int].client_id,
                    ));
                    assert(self@.subrange(0, i + 1).filter(pred).map_values(
                        |s: SubscriptionV| s.client_id,
                    ) =~= self@.subrange(0, i as int).filter(pred).map_values(
                        |s: SubscriptionV| s.client_id,
                    ).push(self@[i as int].client_id));
                }
            }
            i = i + 1;
        }
        proof {
            assert(self@.subrange(0, n as int) =~= self@);
        }
        out
    }

    /// Consumes one command: dispatch decisions are returned as
    /// `(client, event)` deliveries, table mutations happen in place.
    pub fn handle_cmd(&mut self, cmd: EventManagerCmd) -> (r: Vec<(u32, ServerEvent)>)
        ensures
            match cmd@ {
                EventManagerCmdV::DispatchEvent { server_id, event } => {
                    &&& final(self)@ == old(self)@
                    &&& r@.map_values(|d: (u32, ServerEvent)| d.0) == subscribers_of(
                        old(self)@,
                        server_id,
                        spec_event_type(event),
                    )
                    &&& forall|j: int| 0 <= j < r@.len() ==> (#[trigger] r@[j].1)@ == event
                },
                EventManagerCmdV::AddSubscription { server_id, event_type, client_id } => {
                    &&& final(self)@ == old(self)@.push(
                        SubscriptionV { server_id, event_type, client_id },
                    )
                    &&& r@.len() == 0
                },
                EventManagerCmdV::RemoveSubscription { server_id, event_type, client_id } => {
                    &&& final(self)@ == without_subscription(
                        old(self)@,
                        server_id,
                        event_type,
                        client_id,
                    )
                    &&& r@.len() == 0
                },
                EventManagerCmdV::RemoveAllSubscriptions { client_id } => {
                    &&& final(self)@ == without_client(old(self)@, client_id)
                    &&& r@.len() == 0
                },
            },
    {
        match cmd {
            EventManagerCmd::DispatchEvent { server_id, event } => {
                let r = self.dispatch_event(server_id.as_str(), &event);
                r
            },
            EventManagerCmd::AddSubscription { server_id, event_type, client_id } => {
                self.add_subscription(server_id, event_type, client_id);
                Vec::new()
            },
            EventManagerCmd::RemoveSubscription { server_id, event_type, client_id } => {
                self.remove_subscription(server_id.as_str(), event_type, client_id);
                Vec::new()
            },
            EventManagerCmd::RemoveAllSubscriptions { client_id } => {
                self.remove_all_subscriptions(client_id);
                Vec::new()
            },
        }
    }
}

/// Law: evicting a client removes every entry matching that client id, and
/// no entry of any other client.
pub proof fn lemma_eviction_exact(subs: Seq<SubscriptionV>, client_id: u32)
    ensures
        forall|i: int|
            0 <= i < without_client(subs, client_id).len() ==> (#[trigger] without_client(
                subs,
                client_id,
            )[i]).client_id != client_id,
        forall|i: int|
            0 <= i < subs.len() && (#[trigger] subs[i]).client_id != client_id ==> without_client(
                subs,
                client_id,
            ).contains(subs[i]),
{
    broadcast use group_seq_properties;

    let pred = |s: SubscriptionV| s.client_id != client_id;
    assert forall|i: int| 0 <= i < without_client(subs, client_id).len() implies (
    #[trigger] without_client(subs, client_id)[i]).client_id != client_id by {
        subs.lemma_filter_pred(pred, i);
    }
    assert forall|i: int|
        0 <= i < subs.len() && (#[trigger] subs[i]).client_id != client_id implies without_client(
        subs,
        client_id,
    ).contains(subs[i]) by {
        subs.lemma_filter_contains(pred, i);
    }
}

/// Handler for events: collects raised events as dispatch commands for the
/// event manager; whoever runs the manager drains the queue.
#[derive(Debug)]
pub struct EventHandler {
    /// Dispatch commands raised so far and not yet drained, oldest first.
    pub pending: Vec<EventManagerCmd>,
}

impl View for EventHandler {
    type V = Seq<EventManagerCmdV>;

    open spec fn view(&self) -> Seq<EventManagerCmdV> {
        self.pending.deep_view()
    }
}

impl EventHandler {
    /// Creates a new [`EventHandler`] with nothing pending.
    pub fn new() -> (r: EventHandler)
        ensures
            r@ =~= Seq::<EventManagerCmdV>::empty(),
    {
        EventHandler { pending: Vec::new() }
    }

    /// Raise an event: the event is encapsulated into an [`EventManagerCmd`]
    /// and queued for the event manager.
    pub fn raise_event(&mut self, server_id: &str, event: ServerEvent)
        ensures
            final(self)@ =~= old(self)@.push(
                EventManagerCmdV::DispatchEvent { server_id: server_id@, event: event@ },
            ),
    {
        let id = String::from_str(server_id);
        self.pending.push(EventManagerCmd::DispatchEvent { server_id: id, event });
    }

    /// Hands the pending commands over, oldest first, leaving none behind.
    pub fn drain(&mut self) -> (r: Vec<EventManagerCmd>)
        ensures
            r.deep_view() == old(self)@,
            final(self)@ =~= Seq::<EventManagerCmdV>::empty(),
    {
        let mut out: Vec<EventManagerCmd> = Vec::new();
        core::mem::swap(&mut out, &mut self.pending);
        out
    }
}

} // verus!
