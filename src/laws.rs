use vstd::prelude::*;
use crate::inbound::{Inbound, Notification};
use crate::bus::{NotificationBus, publishes};
use crate::hooks::{TaskHooks, ended_task, task_gid};
use crate::client::{Client, Dispatch, closes, dispatched};

verus! {

/// A reply resolves only the call named by its identifier: every other
/// pending call stays pending with its deadline, and the result goes to
/// the identifier of the reply.
pub proof fn lemma_reply_touches_only_its_call<C>(
    old: Client<C>,
    new: Client<C>,
    c: Inbound,
    r: Dispatch<C>,
    other: u64,
)
    requires
        dispatched(old, new, c, r),
        c matches Inbound::Reply { id, .. } && id != other,
        old.registry()@.contains_key(other),
    ensures
        new.registry()@.contains_key(other),
        new.registry()@[other] == old.registry()@[other],
        r matches Dispatch::Resolved { id, .. } ==> c matches Inbound::Reply { id: rid, .. } && id
            == rid,
{
}

/// A call resolves at most once: after a reply has resolved call `id`, a
/// second reply with the same identifier is discarded.
pub proof fn lemma_reply_resolves_once<C>(
    c0: Client<C>,
    c1: Client<C>,
    c2: Client<C>,
    first: Inbound,
    second: Inbound,
    r1: Dispatch<C>,
    r2: Dispatch<C>,
)
    requires
        dispatched(c0, c1, first, r1),
        dispatched(c1, c2, second, r2),
        first matches Inbound::Reply { id: a, .. },
        second matches Inbound::Reply { id: b, .. },
        first->id == second->id,
    ensures
        r2 is Discarded,
        c2 == c1,
{
    let id = first->id;
    if c0.registry()@.contains_key(id) {
        assert(!c1.registry()@.contains_key(id));
    } else {
        assert(c1 == c0);
    }
}

/// A reply whose identifier is not pending (never issued, already
/// resolved, timed out) is discarded and changes nothing.
pub proof fn lemma_unknown_reply_discarded<C>(
    old: Client<C>,
    new: Client<C>,
    c: Inbound,
    r: Dispatch<C>,
)
    requires
        dispatched(old, new, c, r),
        c matches Inbound::Reply { id, .. } && !old.registry()@.contains_key(id),
    ensures
        r is Discarded,
        new == old,
{
}

/// Through any run of publications, a live subscription stays live and
/// its queue grows by exactly the published notifications, in order: a
/// subscription opened with an empty queue receives exactly what was
/// published after it opened.
pub proof fn lemma_subscription_receives_published(
    states: Seq<NotificationBus>,
    ns: Seq<Notification>,
    h: int,
)
    requires
        states.len() == ns.len() + 1,
        states[0].live(h),
        forall|i: int| 0 <= i < ns.len() ==> publishes(#[trigger] states[i], states[i + 1], ns[i]),
    ensures
        states.last().live(h),
        states.last().queue(h) == states[0].queue(h) + ns,
    decreases ns.len(),
{
    if ns.len() == 0 {
        assert(states[0].queue(h) + ns =~= states[0].queue(h));
    } else {
        let k = ns.len() - 1;
        let prefix = states.subrange(0, k + 1);
        let firsts = ns.subrange(0, k);
        assert forall|i: int| 0 <= i < firsts.len() implies publishes(
            #[trigger] prefix[i],
            prefix[i + 1],
            firsts[i],
        ) by {
            assert(publishes(states[i], states[i + 1], ns[i]));
        }
        lemma_subscription_receives_published(prefix, firsts, h);
        assert(publishes(states[k], states[k + 1], ns[k]));
        assert(prefix.last() == states[k]);
        assert(states[0].queue(h) + ns =~= (states[0].queue(h) + firsts).push(ns[k]));
    }
}

/// A hook fires at most once: once a terminal event has ended the
/// registration of a task, no later event for that task, of either class,
/// fires anything.
pub proof fn lemma_hook_fires_once<C>(
    m: Map<Seq<char>, TaskHooks<C>>,
    first: Notification,
    later: Notification,
    gid: Seq<char>,
)
    requires
        ended_task(m, first) matches Some((g, _)) && g == gid,
        task_gid(later.params@) == Some(gid),
    ensures
        ended_task(m.remove(gid), later) is None,
{
}

/// On closure every pending call is handed back exactly once to be failed
/// as closed, nothing stays pending, and no hook registration survives to
/// fire: no notification ends any task.
pub proof fn lemma_closure_fails_calls_and_fires_nothing<C>(
    old: Client<C>,
    new: Client<C>,
    ids: Seq<u64>,
    id: u64,
    n: Notification,
)
    requires
        closes(old, new, ids),
    ensures
        old.registry()@.contains_key(id) <==> ids.contains(id),
        !new.registry()@.contains_key(id),
        ended_task(new.hooks()@, n) is None,
{
    assert(ids.to_set().contains(id) <==> ids.contains(id));
}

} // verus!
