//! The authorization broker: at most one pending decision per identity.
//!
//! A login check calls [`Authorizations::request_authorization`] and waits on
//! the receiver it gets back; the owner's click calls
//! [`Authorizations::allow`] or [`Authorizations::deny`], which takes the
//! pending entry out of the registry and hands the decision to that receiver.
//! Because the entry is removed before anything is sent, a decision is
//! delivered at most once, and a late or repeated click finds nothing.
use vstd::prelude::*;

use dashmap::DashMap;
use tokio::sync::oneshot::{Receiver, Sender};

verus! {

/// The decision that the owner of an account takes on a login attempt.
#[derive(Debug, Clone, Copy, PartialEq, Eq, Structural)]
pub enum Authorization {
    Allow,
    Deny,
}

/// dashmap::DashMap, the concurrent map that holds the registry; opaque.
#[verifier::external_type_specification]
#[verifier::external_body]
#[verifier::reject_recursive_types(K)]
#[verifier::reject_recursive_types(V)]
#[verifier::reject_recursive_types(S)]
pub struct ExDashMap<K, V, S>(DashMap<K, V, S>);

/// tokio::sync::oneshot::Sender, the half that delivers a decision; opaque.
#[verifier::external_type_specification]
#[verifier::external_body]
#[verifier::reject_recursive_types(T)]
pub struct ExSender<T>(Sender<T>);

/// tokio::sync::oneshot::Receiver, the half that a login check waits on;
/// opaque.
#[verifier::external_type_specification]
#[verifier::external_body]
#[verifier::reject_recursive_types(T)]
pub struct ExReceiver<T>(Receiver<T>);

/// tokio::sync::oneshot::error::RecvError, what a wait ends with when its
/// sender was dropped; opaque.
#[verifier::external_type_specification]
#[verifier::external_body]
pub struct ExRecvError(tokio::sync::oneshot::error::RecvError);

/// The receiver paired with a sender: the one that `channel` handed out
/// beside it.
pub uninterp spec fn receiver_of(s: Sender<Authorization>) -> Receiver<Authorization>;

/// The decision that was sent to a receiver, if one was.
pub uninterp spec fn sent_to(r: Receiver<Authorization>) -> Option<Authorization>;

/// Whether a receiver was gone (dropped or closed) when its sender tried to
/// send, so that nothing was sent to it.
pub uninterp spec fn closed_before_send(r: Receiver<Authorization>) -> bool;

/// Relies on tokio::sync::oneshot::channel: a sender and the receiver that
/// is paired with it.
#[verifier::external_body]
fn new_channel() -> (r: (Sender<Authorization>, Receiver<Authorization>))
    ensures
        receiver_of(r.0) == r.1,
{
    tokio::sync::oneshot::channel()
}

/// Relies on tokio::sync::oneshot::Sender::send: `Ok` when the value was
/// stored for the paired receiver; `Err`, with the value handed back unsent,
/// when that receiver had already gone.
#[verifier::external_body]
fn deliver(sender: Sender<Authorization>, t: Authorization) -> (r: Result<(), Authorization>)
    ensures
        r is Ok ==> sent_to(receiver_of(sender)) == Some(t),
        r matches Err(v) ==> v == t && closed_before_send(receiver_of(sender)),
{
    sender.send(t)
}

/// The entries of a registry map: each pending identity with the sender of
/// its request.
pub uninterp spec fn pending_senders(m: DashMap<u64, Sender<Authorization>>) -> Map<u64, Sender<Authorization>>;

/// Relies on dashmap::DashMap::new: a map with no entries.
#[verifier::external_body]
fn empty_registry() -> (r: DashMap<u64, Sender<Authorization>>)
    ensures
        pending_senders(r) =~= Map::empty(),
{
    DashMap::new()
}

/// Relies on dashmap::DashMap::insert: the key maps to the new value
/// afterwards, other keys keep theirs, and the value it replaced, if any, is
/// handed back.
#[verifier::external_body]
fn registry_insert(
    m: &mut DashMap<u64, Sender<Authorization>>,
    id: u64,
    sender: Sender<Authorization>,
) -> (r: Option<Sender<Authorization>>)
    ensures
        pending_senders(*final(m)) == pending_senders(*old(m)).insert(id, sender),
        r.is_some() == pending_senders(*old(m)).contains_key(id),
        r matches Some(replaced) ==> replaced == pending_senders(*old(m))[id],
{
    m.insert(id, sender)
}

/// Relies on dashmap::DashMap::remove: the key is absent afterwards, other
/// keys keep their values, and the entry is handed back exactly when it was
/// present.
#[verifier::external_body]
fn registry_remove(m: &mut DashMap<u64, Sender<Authorization>>, id: u64) -> (r: Option<(u64, Sender<Authorization>)>)
    ensures
        pending_senders(*final(m)) == pending_senders(*old(m)).remove(id),
        r.is_some() == pending_senders(*old(m)).contains_key(id),
        r matches Some(entry) ==> entry.0 == id && entry.1 == pending_senders(*old(m))[id],
{
    m.remove(&id)
}

/// The registry of pending authorizations, keyed by the identity of the
/// account's owner.
///
/// Its view is the set of identities that have a pending request; for each
/// of them, [`Authorizations::waiter`] is the receiver on which that
/// request's decision arrives.
///
/// Every call takes the registry exclusively (`&mut self`), so that its
/// contract can say how the registry changes, and returns at once; the wait
/// for a decision happens on the returned receiver, away from the registry.
/// This departs from a registry shared by all tasks with a lock per
/// identity: tasks that share one registry put it behind a single lock,
/// held only for one call and never across a wait, so calls on different
/// identities do wait for each other, but only for the length of one map
/// operation.
#[derive(Debug)]
pub struct Authorizations {
    authorizations: DashMap<u64, Sender<Authorization>>,
}

impl View for Authorizations {
    type V = Set<u64>;

    closed spec fn view(&self) -> Set<u64> {
        pending_senders(self.authorizations).dom()
    }
}

impl Authorizations {
    /// The receiver of the pending request of `id`; meaningful where `id`
    /// is pending.
    pub closed spec fn waiter(&self, id: u64) -> Receiver<Authorization> {
        receiver_of(pending_senders(self.authorizations)[id])
    }

    /// A registry with nothing pending.
    pub fn new() -> (r: Authorizations)
        ensures
            r@ == Set::<u64>::empty(),
    {
        Authorizations { authorizations: empty_registry() }
    }

    /// Settles the pending request of `id` with `authorization`.
    ///
    /// Returns whether a request was pending; it is removed either way, so
    /// only the first of several decisions for one request takes effect.
    /// The decision is handed to the waiting receiver; where that receiver
    /// has already gone it is dropped, and the result is still `true`.
    pub fn send(&mut self, id: u64, authorization: Authorization) -> (r: bool)
        ensures
            r == old(self)@.contains(id),
            final(self)@ == old(self)@.remove(id),
            r ==> (sent_to(old(self).waiter(id)) == Some(authorization) || closed_before_send(
                old(self).waiter(id),
            )),
            forall|k: u64| k != id ==> final(self).waiter(k) == old(self).waiter(k),
    {
        match registry_remove(&mut self.authorizations, id) {
            Some((_, sender)) => {
                let _unreceived = deliver(sender, authorization);
                true
            },
            None => false,
        }
    }

    /// Settles the pending request of `id` with [`Authorization::Allow`].
    pub fn allow(&mut self, id: u64) -> (r: bool)
        ensures
            r == old(self)@.contains(id),
            final(self)@ == old(self)@.remove(id),
            r ==> (sent_to(old(self).waiter(id)) == Some(Authorization::Allow) || closed_before_send(
                old(self).waiter(id),
            )),
            forall|k: u64| k != id ==> final(self).waiter(k) == old(self).waiter(k),
    {
        self.send(id, Authorization::Allow)
    }

    /// Settles the pending request of `id` with [`Authorization::Deny`].
    pub fn deny(&mut self, id: u64) -> (r: bool)
        ensures
            r == old(self)@.contains(id),
            final(self)@ == old(self)@.remove(id),
            r ==> (sent_to(old(self).waiter(id)) == Some(Authorization::Deny) || closed_before_send(
                old(self).waiter(id),
            )),
            forall|k: u64| k != id ==> final(self).waiter(k) == old(self).waiter(k),
    {
        self.send(id, Authorization::Deny)
    }

    /// Opens a pending request for `id` and returns the receiver on which its
    /// decision arrives.
    ///
    /// A request already pending for `id` is replaced: its sender is dropped,
    /// so its receiver ends without a decision.
    pub fn request_authorization(&mut self, id: u64) -> (r: Receiver<Authorization>)
        ensures
            final(self)@ == old(self)@.insert(id),
            final(self).waiter(id) == r,
            forall|k: u64| k != id ==> final(self).waiter(k) == old(self).waiter(k),
    {
        let (sender, receiver) = new_channel();
        let _replaced = registry_insert(&mut self.authorizations, id, sender);
        receiver
    }
}

} // verus!
