//! The shared alert store: the set of currently subscribed sessions, the
//! standing unresolved grid incident, and the bounded broadcast channel that
//! fans incident events out to every live session. A session that subscribes
//! while an incident is standing gets it handed back for immediate replay.

use vstd::prelude::*;

use std::collections::HashSet;

verus! {

broadcast use vstd::std_specs::hash::group_hash_axioms;

/// An unresolved grid incident, described by its message.
#[derive(Debug, PartialEq)]
pub struct PowerGridError {
    pub error: String,
}

impl Clone for PowerGridError {
    fn clone(&self) -> (r: Self)
        ensures
            r.error@ == self.error@,
    {
        PowerGridError { error: self.error.clone() }
    }
}

impl PowerGridError {
    pub fn error(&self) -> (r: &String)
        ensures
            r@ == self.error@,
    {
        &self.error
    }
}

/// An event on the broadcast channel.
#[derive(Clone, Debug, PartialEq)]
pub enum Message {
    PowerGridError(PowerGridError),
    PowerGridErrorResolved {},
}

#[verifier::external_type_specification]
#[verifier::external_body]
#[verifier::reject_recursive_types(T)]
pub struct ExSender<T>(tokio::sync::broadcast::Sender<T>);

#[verifier::external_type_specification]
#[verifier::external_body]
#[verifier::reject_recursive_types(T)]
pub struct ExReceiver<T>(tokio::sync::broadcast::Receiver<T>);

/// Relies on tokio::sync::broadcast::channel: creates the bounded channel
/// backing the store. The capacity bounds keep the call from panicking.
#[verifier::external_body]
fn new_broadcast_channel(capacity: usize) -> (r: (
    tokio::sync::broadcast::Sender<Message>,
    tokio::sync::broadcast::Receiver<Message>,
))
    requires
        1 <= capacity <= usize::MAX / 2,
{
    tokio::sync::broadcast::channel(capacity)
}

/// Relies on tokio::sync::broadcast::Sender::send: hands the event to every
/// receiver subscribed at this moment; the result reports whether at least
/// one receiver existed. Which sessions are still listening depends on the
/// runtime, so nothing more is assumed of it.
#[verifier::external_body]
fn send_event(tx: &tokio::sync::broadcast::Sender<Message>, event: Message) -> (r: bool) {
    tx.send(event).is_ok()
}

/// Relies on tokio::sync::broadcast::Sender::subscribe: a fresh receiver
/// observing the events sent from this point on.
#[verifier::external_body]
fn subscribe_to(tx: &tokio::sync::broadcast::Sender<Message>) -> (r:
    tokio::sync::broadcast::Receiver<Message>) {
    tx.subscribe()
}

/// Two optional alerts carry the same incident message.
pub open spec fn same_alert(a: Option<PowerGridError>, b: Option<PowerGridError>) -> bool {
    match (a, b) {
        (Some(x), Some(y)) => x.error@ == y.error@,
        (None, None) => true,
        _ => false,
    }
}

/// The subscription transition on the store model: the new subscriber set and
/// whether the request was accepted.
pub open spec fn spec_subscribe(clients: Set<u64>, cid: u64) -> (Set<u64>, bool) {
    if clients.contains(cid) {
        (clients, false)
    } else {
        (clients.insert(cid), true)
    }
}

pub struct Store {
    pub tx: tokio::sync::broadcast::Sender<Message>,
    pub alert: Option<PowerGridError>,
    pub clients: HashSet<u64>,
}

impl Store {
    pub fn new(capacity: usize) -> (r: Store)
        requires
            1 <= capacity <= usize::MAX / 2,
        ensures
            r.alert is None,
            r.clients@ == Set::<u64>::empty(),
    {
        let channel: (
            tokio::sync::broadcast::Sender<Message>,
            tokio::sync::broadcast::Receiver<Message>,
        ) = new_broadcast_channel(capacity);
        Store { tx: channel.0, alert: None, clients: HashSet::new() }
    }

    /// Register a session. A duplicate id is refused; a fresh id is handed
    /// the standing alert, if any, for immediate replay — the alert itself
    /// stays standing — together with a fresh receiver on the channel.
    pub fn subscribe(&mut self, cid: u64) -> (r: Option<
        (Option<PowerGridError>, tokio::sync::broadcast::Receiver<Message>),
    >)
        ensures
            final(self).clients@ == spec_subscribe(old(self).clients@, cid).0,
            (r is Some) == spec_subscribe(old(self).clients@, cid).1,
            final(self).alert == old(self).alert,
            final(self).tx == old(self).tx,
            old(self).clients@.contains(cid) ==> r is None,
            !old(self).clients@.contains(cid) ==> (r matches Some(p) && same_alert(
                p.0,
                old(self).alert,
            )),
    {
        if !self.clients.insert(cid) {
            return None;
        }
        let replay: Option<PowerGridError> = match &self.alert {
            Some(a) => Some(a.clone()),
            None => None,
        };
        Some((replay, subscribe_to(&self.tx)))
    }

    /// Deregister a session; idempotent.
    pub fn unsubscribe(&mut self, cid: u64)
        ensures
            final(self).clients@ == old(self).clients@.remove(cid),
            final(self).alert == old(self).alert,
            final(self).tx == old(self).tx,
    {
        self.clients.remove(&cid);
    }

    /// Publish a grid incident: every subscribed receiver is offered the
    /// event (dropped silently when none is listening), and the incident
    /// becomes the standing alert replayed to later subscribers.
    pub fn broadcast_err(&mut self, error: &str)
        ensures
            (final(self).alert matches Some(a) && a.error@ == error@),
            final(self).clients@ == old(self).clients@,
            final(self).tx == old(self).tx,
    {
        let alert: PowerGridError = PowerGridError { error: error.to_string() };
        send_event(&self.tx, Message::PowerGridError(alert.clone()));
        self.alert = Some(alert);
    }

    /// Publish the all-clear and drop the standing alert.
    pub fn broadcast_resolved(&mut self)
        ensures
            final(self).alert is None,
            final(self).clients@ == old(self).clients@,
            final(self).tx == old(self).tx,
    {
        send_event(&self.tx, Message::PowerGridErrorResolved {});
        self.alert = None;
    }
}

/// Duplicate subscribe: without an intervening unsubscribe, a second
/// subscription under the same id is refused.
pub proof fn lemma_duplicate_subscribe(clients: Set<u64>, cid: u64)
    ensures
        spec_subscribe(spec_subscribe(clients, cid).0, cid).1 == false,
{
}

/// After unsubscribing, the same id is accepted again.
pub proof fn lemma_resubscribe_after_unsubscribe(clients: Set<u64>, cid: u64)
    ensures
        spec_subscribe(spec_subscribe(clients, cid).0.remove(cid), cid).1 == true,
{
}

} // verus!
