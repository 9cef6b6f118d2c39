use vstd::prelude::*;

use crate::pool::acquire_decision;
use crate::pool::acquire_next;
use crate::pool::release_action;
use crate::pool::release_next;
use crate::pool::shutdown_next;
use crate::pool::wf;
use crate::pool::AcquireDecision;
use crate::pool::PoolModel;
use crate::pool::Recycle;
use crate::pool::ReleaseAction;

verus! {

broadcast use vstd::seq_lib::seq_to_set_is_finite;

/// Occupancy never exceeds the capacity: in every well-formed state the idle
/// connections and the checked-out connections together stay within
/// `max`. The two counts are naturals, so neither can go negative; the
/// transition lemmas below show that every operation keeps the state
/// well-formed, so the bound holds after any sequence of acquires and
/// releases.
pub proof fn lemma_occupancy_bounded(m: PoolModel)
    requires
        wf(m),
    ensures
        m.idle.len() + m.loaned.len() <= m.max,
{
}

/// The initial state is well-formed: together with the preservation lemmas
/// below, well-formedness — and with it the occupancy bound — holds after
/// every sequence of acquires, releases, cancellations and shutdowns.
pub proof fn lemma_init_wf(max: nat)
    ensures
        wf(crate::pool::init_model(max)),
{
}

/// An acquisition keeps the state well-formed.
pub proof fn lemma_acquire_preserves_wf(m: PoolModel)
    requires
        wf(m),
        m.next_handle < u64::MAX,
        m.next_waiter < u64::MAX,
    ensures
        wf(acquire_next(m)),
{
}

/// A release keeps the state well-formed, whatever the verdict.
pub proof fn lemma_release_preserves_wf(m: PoolModel, h: u64, v: Recycle)
    requires
        wf(m),
        m.loaned.contains(h),
        m.next_handle < u64::MAX,
    ensures
        wf(release_next(m, h, v)),
{
}

/// A shutdown keeps the state well-formed.
pub proof fn lemma_shutdown_preserves_wf(m: PoolModel)
    requires
        wf(m),
    ensures
        wf(shutdown_next(m)),
{
    assert forall|h: u64| shutdown_next(m).retired.contains(h) implies h < m.next_handle by {
        if m.idle.to_set().contains(h) {
            let i = choose|i: int| 0 <= i < m.idle.len() && m.idle[i] == h;
            assert(m.idle[i] == h);
        }
    }
    assert forall|h: u64| shutdown_next(m).loaned.contains(h) implies !shutdown_next(
        m,
    ).retired.contains(h) by {
        if m.idle.to_set().contains(h) {
            let i = choose|i: int| 0 <= i < m.idle.len() && m.idle[i] == h;
            assert(m.idle[i] == h);
        }
    }
}

/// A handle released with the `Accepted` verdict while nobody waits goes
/// into the idle set, and the very next acquisition reuses exactly that
/// handle without asking the factory for a new connection: `next_handle`,
/// the count of connections ever created, does not move.
pub proof fn lemma_accepted_handle_reusable(m: PoolModel, h: u64)
    requires
        wf(m),
        !m.closed,
        m.loaned.contains(h),
        m.waiters.len() == 0,
    ensures
        release_action(m, h, Recycle::Accepted) == ReleaseAction::Idled,
        acquire_decision(release_next(m, h, Recycle::Accepted)) == AcquireDecision::Reuse(h),
        acquire_next(release_next(m, h, Recycle::Accepted)).next_handle == m.next_handle,
{
}

/// A handle released with the `Discarded` verdict is retired, and when
/// somebody waits, a replacement connection is created in its place: the
/// first waiter is dequeued and a fresh id is issued for the factory.
pub proof fn lemma_discard_retires(m: PoolModel, h: u64)
    requires
        wf(m),
        m.loaned.contains(h),
        m.next_handle < u64::MAX,
    ensures
        release_next(m, h, Recycle::Discarded).retired.contains(h),
        !m.closed && m.waiters.len() > 0 ==> release_action(m, h, Recycle::Discarded)
            == ReleaseAction::Replaced(m.waiters[0], m.next_handle),
        !m.closed && m.waiters.len() > 0 ==> release_next(
            m,
            h,
            Recycle::Discarded,
        ).next_handle == m.next_handle + 1,
{
}

/// A retired handle is never handed out again: no acquisition on a
/// well-formed state reuses it, and a freshly created handle never carries
/// its id.
pub proof fn lemma_retired_never_reused(m: PoolModel, h: u64)
    requires
        wf(m),
        m.retired.contains(h),
    ensures
        acquire_decision(m) != AcquireDecision::Reuse(h),
        acquire_decision(m) matches AcquireDecision::Create(h2) ==> h2 != h,
{
    if !m.closed && m.idle.len() > 0 {
        assert(m.idle.last() == m.idle[m.idle.len() - 1]);
        assert(!m.retired.contains(m.idle[m.idle.len() - 1]));
    }
}

/// Retirement is permanent: no transition forgets a retired handle.
pub proof fn lemma_retired_monotone(m: PoolModel, h: u64, v: Recycle)
    ensures
        m.retired.subset_of(acquire_next(m).retired),
        m.retired.subset_of(release_next(m, h, v).retired),
        m.retired.subset_of(shutdown_next(m).retired),
{
}

/// Waiters are served in arrival order: a release on a state with waiters
/// always serves the waiter at the front of the queue — handing the accepted
/// handle over, or starting a replacement build after a discard — and the
/// queue loses exactly its first element. Together with
/// `lemma_exhausted_acquire_waits`, which shows that new waiters join at the
/// back, this is the FIFO policy; that every waiter is in fact woken is a
/// duty of the runtime that performs the actions, not of the state.
pub proof fn lemma_waiters_served_in_arrival_order(m: PoolModel, h: u64)
    requires
        wf(m),
        !m.closed,
        m.loaned.contains(h),
        m.waiters.len() > 0,
    ensures
        release_action(m, h, Recycle::Accepted) == ReleaseAction::HandedOver(m.waiters[0]),
        release_next(m, h, Recycle::Accepted).waiters == m.waiters.drop_first(),
        release_action(m, h, Recycle::Discarded) == ReleaseAction::Replaced(
            m.waiters[0],
            m.next_handle,
        ),
        release_next(m, h, Recycle::Discarded).waiters == m.waiters.drop_first(),
{
}

/// An acquisition on an exhausted pool does not overtake anybody: the caller
/// is enqueued behind every waiter already present, and the pool's counts do
/// not change.
pub proof fn lemma_exhausted_acquire_waits(m: PoolModel)
    requires
        wf(m),
        !m.closed,
        m.idle.len() == 0,
        m.loaned.len() >= m.max,
    ensures
        acquire_decision(m) == AcquireDecision::Wait(m.next_waiter),
        acquire_next(m).waiters == m.waiters.push(m.next_waiter),
        acquire_next(m).idle == m.idle,
        acquire_next(m).loaned == m.loaned,
{
}

/// A release never loses the handle: with the `Accepted` verdict on an open
/// pool the handle either stays checked out, handed to the first waiter, or
/// becomes the most recently idled connection. Since withdrawing a waiter
/// (`PoolCore::cancel_wait`) touches nothing but the queue, a release after
/// a cancellation still delivers the handle to the idle set or to the next
/// waiter.
pub proof fn lemma_release_never_loses_handle(m: PoolModel, h: u64)
    requires
        wf(m),
        !m.closed,
        m.loaned.contains(h),
    ensures
        m.waiters.len() > 0 ==> release_action(m, h, Recycle::Accepted)
            == ReleaseAction::HandedOver(m.waiters[0]) && release_next(
            m,
            h,
            Recycle::Accepted,
        ).loaned.contains(h),
        m.waiters.len() == 0 ==> release_action(m, h, Recycle::Accepted)
            == ReleaseAction::Idled && release_next(m, h, Recycle::Accepted).idle.last() == h,
{
}

} // verus!
