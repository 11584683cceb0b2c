//! Laws of the broker over sequences of calls.
//!
//! A history is replayed on the view of [`Authorizations`]: each call changes
//! the set of pending identities as the contract of its method says.
//!
//! [`Authorizations`]: crate::authorizations::Authorizations
use vstd::prelude::*;

verus! {

/// One call on the registry: `Request` stands for
/// `request_authorization`, `Settle` for `send`, `allow` or `deny`.
pub enum Call {
    Request(u64),
    Settle(u64),
}

impl Call {
    pub open spec fn identity(self) -> u64 {
        match self {
            Call::Request(id) => id,
            Call::Settle(id) => id,
        }
    }
}

/// The pending identities after `calls`, starting from `s`.
pub open spec fn replay(s: Set<u64>, calls: Seq<Call>) -> Set<u64>
    decreases calls.len(),
{
    if calls.len() == 0 {
        s
    } else {
        let before = replay(s, calls.drop_last());
        match calls.last() {
            Call::Request(id) => before.insert(id),
            Call::Settle(id) => before.remove(id),
        }
    }
}

/// Whether the call at position `i` finds a request pending for its identity:
/// for a settle, this is the `bool` that it returns.
pub open spec fn finds_pending(s: Set<u64>, calls: Seq<Call>, i: int) -> bool {
    replay(s, calls.take(i)).contains(calls[i].identity())
}

/// The calls of `calls` on `id`, in their order.
pub open spec fn concerning(calls: Seq<Call>, id: u64) -> Seq<Call>
    decreases calls.len(),
{
    if calls.len() == 0 {
        calls
    } else if calls.last().identity() == id {
        concerning(calls.drop_last(), id).push(calls.last())
    } else {
        concerning(calls.drop_last(), id)
    }
}

/// Without a request for `id`, an identity is pending at the end exactly when
/// it was pending at the start and no call settled it.
proof fn lemma_pending_without_request(s: Set<u64>, calls: Seq<Call>, id: u64)
    requires
        forall|i: int| 0 <= i < calls.len() ==> calls[i] != Call::Request(id),
    ensures
        replay(s, calls).contains(id) <==> (s.contains(id) && forall|i: int|
            0 <= i < calls.len() ==> calls[i] != Call::Settle(id)),
    decreases calls.len(),
{
    if calls.len() > 0 {
        let front = calls.drop_last();
        assert forall|i: int| 0 <= i < front.len() implies front[i] != Call::Request(id) by {
            assert(front[i] == calls[i]);
        }
        lemma_pending_without_request(s, front, id);
        if calls.last() != Call::Settle(id) {
            assert forall|i: int| 0 <= i < front.len() && front[i] == Call::Settle(id) implies
                calls[i] == Call::Settle(id) by {
                assert(front[i] == calls[i]);
            }
            assert forall|i: int| 0 <= i < calls.len() && calls[i] == Call::Settle(id) implies
                front[i] == Call::Settle(id) && i < front.len() by {
                if i == calls.len() - 1 {
                    assert(calls[i] == calls.last());
                }
            }
        }
    }
}

/// An identity that no call has requested is never pending: settling it
/// returns `false` and leaves the registry as it was.
pub proof fn lemma_unrequested_never_settles(calls: Seq<Call>, id: u64)
    requires
        forall|i: int| 0 <= i < calls.len() ==> calls[i] != Call::Request(id),
    ensures
        !replay(Set::empty(), calls).contains(id),
        replay(Set::empty(), calls).remove(id) == replay(Set::empty(), calls),
{
    lemma_pending_without_request(Set::empty(), calls, id);
    assert(replay(Set::empty(), calls).remove(id) =~= replay(Set::empty(), calls));
}

/// After a request for `id`, and until the next one, the first settle of
/// `id` finds it pending and every later settle of `id` finds nothing.
pub proof fn lemma_one_settle_per_request(s: Set<u64>, id: u64, calls: Seq<Call>)
    requires
        forall|i: int| 0 <= i < calls.len() ==> calls[i] != Call::Request(id),
    ensures
        forall|i: int|
            0 <= i < calls.len() && calls[i] == Call::Settle(id) ==> (#[trigger] finds_pending(
                s.insert(id),
                calls,
                i,
            ) <==> forall|j: int| 0 <= j < i ==> calls[j] != Call::Settle(id)),
{
    let start = s.insert(id);
    assert forall|i: int| 0 <= i < calls.len() && calls[i] == Call::Settle(id) implies (
    #[trigger] finds_pending(start, calls, i) <==> forall|j: int|
        0 <= j < i ==> calls[j] != Call::Settle(id)) by {
        let prefix = calls.take(i);
        assert forall|j: int| 0 <= j < prefix.len() implies prefix[j] != Call::Request(id) by {
            assert(prefix[j] == calls[j]);
        }
        lemma_pending_without_request(start, prefix, id);
        assert forall|j: int| 0 <= j < i implies prefix[j] == calls[j] by {}
    }
}

/// A second request for `id` before any settle replaces the first: one
/// settle afterwards finds a request pending, and the next finds none.
pub proof fn lemma_second_request_replaces(s: Set<u64>, id: u64)
    ensures
        replay(s, seq![Call::Request(id), Call::Request(id)]) == replay(s, seq![Call::Request(id)]),
        finds_pending(s, seq![Call::Request(id), Call::Request(id), Call::Settle(id), Call::Settle(id)], 2),
        !finds_pending(s, seq![Call::Request(id), Call::Request(id), Call::Settle(id), Call::Settle(id)], 3),
{
    let calls = seq![Call::Request(id), Call::Request(id), Call::Settle(id), Call::Settle(id)];
    assert(seq![Call::Request(id), Call::Request(id)].drop_last() =~= seq![Call::Request(id)]);
    assert(seq![Call::Request(id)].drop_last() =~= Seq::<Call>::empty());
    assert(calls.take(2) =~= seq![Call::Request(id), Call::Request(id)]);
    assert(calls.take(3).drop_last() =~= seq![Call::Request(id), Call::Request(id)]);
    assert(replay(s, seq![Call::Request(id), Call::Request(id)]) =~= replay(s, seq![Call::Request(id)]));
    assert(calls[2].identity() == id);
    assert(calls[3].identity() == id);
}

/// Whether `id` is pending depends only on the calls on `id`: calls on other
/// identities neither add nor remove it.
pub proof fn lemma_identities_isolated(s: Set<u64>, calls: Seq<Call>, id: u64)
    ensures
        replay(s, calls).contains(id) == replay(s, concerning(calls, id)).contains(id),
    decreases calls.len(),
{
    if calls.len() > 0 {
        let front = calls.drop_last();
        lemma_identities_isolated(s, front, id);
        if calls.last().identity() == id {
            assert(concerning(calls, id).drop_last() =~= concerning(front, id));
        }
    }
}

} // verus!
