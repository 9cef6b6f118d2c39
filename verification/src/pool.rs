use vstd::prelude::*;

verus! {

broadcast use vstd::seq_lib::seq_to_set_is_finite;

/// The verdict of the recycle policy on a handle returning to the pool.
#[derive(Clone, Copy, Debug, PartialEq, Eq, Structural)]
pub enum Recycle {
    /// The handle remains usable and may be handed out again.
    Accepted,
    /// The handle must be torn down and never handed out again.
    Discarded,
}

/// What an `acquire` call must do next. The pool only does bookkeeping; the
/// caller performs the network work (creating a connection) or the waiting
/// that the decision names.
#[derive(Clone, Copy, Debug, PartialEq, Eq, Structural)]
pub enum AcquireDecision {
    /// An idle connection with this id was checked out; no network work is
    /// needed.
    Reuse(u64),
    /// No idle connection exists but the bound allows one more: a slot was
    /// reserved under this fresh id and the factory must now build the
    /// connection. If building fails, the slot is given back by releasing
    /// the id as `Discarded`.
    Create(u64),
    /// The pool is exhausted: the caller was enqueued as the waiter with this
    /// ticket and must wait for a release or give up by `cancel_wait`.
    Wait(u64),
    /// The pool has been shut down and refuses the acquisition.
    PoolClosed,
}

/// What a `release` call decided, and what the caller must do with the
/// returned connection.
#[derive(Clone, Copy, Debug, PartialEq, Eq, Structural)]
pub enum ReleaseAction {
    /// The handle stays checked out: hand it directly to the waiter with this
    /// ticket, who has been dequeued.
    HandedOver(u64),
    /// The handle went back into the idle set.
    Idled,
    /// The handle was retired. The waiter with the first ticket was dequeued
    /// and a slot was reserved under the second, fresh, id: the factory must
    /// build a replacement connection for that waiter.
    Replaced(u64, u64),
    /// The handle was retired; its transport is to be closed. Nobody was
    /// waiting (or the pool is shut down), so nothing else happens.
    Dropped,
}

/// The mathematical state of the pool: what the contracts of `PoolCore`
/// speak of.
#[verifier::ext_equal]
pub ghost struct PoolModel {
    /// The fixed capacity: idle plus checked-out connections never exceed it.
    pub max: nat,
    /// Ids of the idle connections, oldest first; reuse takes from the back.
    pub idle: Seq<u64>,
    /// Ids of the connections currently checked out (including slots reserved
    /// for a factory build that has not finished).
    pub loaned: Set<u64>,
    /// Tickets of the callers waiting for a connection, in arrival order.
    pub waiters: Seq<u64>,
    /// Ids of the connections that were torn down: these never come back.
    pub retired: Set<u64>,
    /// Whether the pool has been shut down.
    pub closed: bool,
    /// The next connection id to issue; doubles as the count of connections
    /// ever asked of the factory, since ids are issued consecutively from 0.
    pub next_handle: u64,
    /// The next waiter ticket to issue.
    pub next_waiter: u64,
}

/// Well-formedness of a pool state: the occupancy bound, distinctness of the
/// idle ids and of the waiter tickets, exclusive ownership (no id is at once
/// idle and on loan, none that was retired is either), freshness of unissued
/// ids, exhaustion discipline (nobody waits while a connection is idle or a
/// slot is free), and an empty idle set and waiter queue once shut down.
pub open spec fn wf(m: PoolModel) -> bool {
    &&& m.loaned.finite()
    &&& m.retired.finite()
    &&& m.idle.len() + m.loaned.len() <= m.max
    &&& (forall|i: int, j: int| 0 <= i < j < m.idle.len() ==> m.idle[i] != m.idle[j])
    &&& (forall|i: int|
        0 <= i < m.idle.len() ==> !m.loaned.contains(#[trigger] m.idle[i])
            && !m.retired.contains(m.idle[i]) && m.idle[i] < m.next_handle)
    &&& (forall|h: u64|
        m.loaned.contains(h) ==> !m.retired.contains(h) && h < m.next_handle)
    &&& (forall|h: u64| m.retired.contains(h) ==> h < m.next_handle)
    &&& (forall|i: int, j: int| 0 <= i < j < m.waiters.len() ==> m.waiters[i] != m.waiters[j])
    &&& (forall|i: int| 0 <= i < m.waiters.len() ==> #[trigger] m.waiters[i] < m.next_waiter)
    &&& (m.waiters.len() > 0 ==> m.idle.len() == 0 && m.loaned.len() == m.max)
    &&& (m.closed ==> m.idle.len() == 0 && m.waiters.len() == 0)
}

/// The state of a freshly constructed pool: everything empty, nothing issued.
pub open spec fn init_model(max: nat) -> PoolModel {
    PoolModel {
        max,
        idle: Seq::empty(),
        loaned: Set::empty(),
        waiters: Seq::empty(),
        retired: Set::empty(),
        closed: false,
        next_handle: 0,
        next_waiter: 0,
    }
}

/// The decision `acquire` returns on state `m`: reuse the most recently idled
/// connection if one exists; otherwise create under a fresh id if the bound
/// allows; otherwise enqueue a fresh waiter ticket; a shut-down pool refuses.
pub open spec fn acquire_decision(m: PoolModel) -> AcquireDecision {
    if m.closed {
        AcquireDecision::PoolClosed
    } else if m.idle.len() > 0 {
        AcquireDecision::Reuse(m.idle.last())
    } else if m.loaned.len() < m.max {
        AcquireDecision::Create(m.next_handle)
    } else {
        AcquireDecision::Wait(m.next_waiter)
    }
}

/// The state after `acquire` on state `m`.
pub open spec fn acquire_next(m: PoolModel) -> PoolModel {
    if m.closed {
        m
    } else if m.idle.len() > 0 {
        PoolModel { idle: m.idle.drop_last(), loaned: m.loaned.insert(m.idle.last()), ..m }
    } else if m.loaned.len() < m.max {
        PoolModel {
            loaned: m.loaned.insert(m.next_handle),
            next_handle: (m.next_handle + 1) as u64,
            ..m
        }
    } else {
        PoolModel {
            waiters: m.waiters.push(m.next_waiter),
            next_waiter: (m.next_waiter + 1) as u64,
            ..m
        }
    }
}

/// The action `release` returns when handle `h` comes back to state `m` with
/// verdict `v`: on a shut-down pool the handle is dropped whatever the
/// verdict; an accepted handle goes to the first waiter if one exists, else
/// idles; a discarded handle is dropped, and if somebody waits, a replacement
/// build is started for the first waiter under a fresh id.
pub open spec fn release_action(m: PoolModel, h: u64, v: Recycle) -> ReleaseAction {
    if m.closed {
        ReleaseAction::Dropped
    } else if v == Recycle::Accepted {
        if m.waiters.len() > 0 {
            ReleaseAction::HandedOver(m.waiters[0])
        } else {
            ReleaseAction::Idled
        }
    } else {
        if m.waiters.len() > 0 {
            ReleaseAction::Replaced(m.waiters[0], m.next_handle)
        } else {
            ReleaseAction::Dropped
        }
    }
}

/// The state after `release(h, v)` on state `m`.
pub open spec fn release_next(m: PoolModel, h: u64, v: Recycle) -> PoolModel {
    if m.closed {
        PoolModel { loaned: m.loaned.remove(h), retired: m.retired.insert(h), ..m }
    } else if v == Recycle::Accepted {
        if m.waiters.len() > 0 {
            PoolModel { waiters: m.waiters.drop_first(), ..m }
        } else {
            PoolModel { idle: m.idle.push(h), loaned: m.loaned.remove(h), ..m }
        }
    } else {
        if m.waiters.len() > 0 {
            PoolModel {
                loaned: m.loaned.remove(h).insert(m.next_handle),
                retired: m.retired.insert(h),
                waiters: m.waiters.drop_first(),
                next_handle: (m.next_handle + 1) as u64,
                ..m
            }
        } else {
            PoolModel { loaned: m.loaned.remove(h), retired: m.retired.insert(h), ..m }
        }
    }
}

/// The state after `shutdown` on state `m`: the idle connections are retired,
/// the waiter queue is emptied (each waiter is refused), checked-out
/// connections stay out until released.
pub open spec fn shutdown_next(m: PoolModel) -> PoolModel {
    PoolModel {
        idle: Seq::empty(),
        waiters: Seq::empty(),
        retired: m.retired.union(m.idle.to_set()),
        closed: true,
        ..m
    }
}

/// The bookkeeping core of the connection pool. It owns no connection and
/// performs no network work: connections are named by the ids it issues, and
/// every operation returns a decision naming the work — reuse, build, wait,
/// hand over, tear down — that the surrounding runtime then performs. All
/// operations preserve the well-formedness `wf` of the state and are exact
/// transitions of the model returned by `view`.
pub struct PoolCore {
    max_size: usize,
    idle: Vec<u64>,
    on_loan: usize,
    waiters: Vec<u64>,
    closed: bool,
    next_handle: u64,
    next_waiter: u64,
    loaned: Ghost<Set<u64>>,
    retired: Ghost<Set<u64>>,
}

impl View for PoolCore {
    type V = PoolModel;

    closed spec fn view(&self) -> PoolModel {
        PoolModel {
            max: self.max_size as nat,
            idle: self.idle@,
            loaned: self.loaned@,
            waiters: self.waiters@,
            retired: self.retired@,
            closed: self.closed,
            next_handle: self.next_handle,
            next_waiter: self.next_waiter,
        }
    }
}

impl PoolCore {
    /// The invariant every operation preserves: the model is well-formed and
    /// the loan counter counts the loaned ids.
    pub closed spec fn inv(&self) -> bool {
        &&& wf(self@)
        &&& self.on_loan == self@.loaned.len()
    }

    /// The invariant implies well-formedness of the visible model.
    pub proof fn inv_implies_wf(&self)
        requires
            self.inv(),
        ensures
            wf(self@),
    {
    }

    /// A new pool: empty idle set, nothing on loan, no waiters, the given
    /// fixed capacity.
    pub fn new(max_size: usize) -> (p: PoolCore)
        ensures
            p.inv(),
            p@ == init_model(max_size as nat),
    {
        let p = PoolCore {
            max_size,
            idle: Vec::new(),
            on_loan: 0,
            waiters: Vec::new(),
            closed: false,
            next_handle: 0,
            next_waiter: 0,
            loaned: Ghost(Set::empty()),
            retired: Ghost(Set::empty()),
        };
        proof {
            assert(p@ =~= init_model(max_size as nat));
        }
        p
    }

    /// Whether fresh connection ids and waiter tickets are still available.
    /// Every practical run stays far below the bound; the runtime checks this
    /// before `acquire` and `release`.
    pub fn can_issue(&self) -> (b: bool)
        ensures
            b == (self@.next_handle < u64::MAX && self@.next_waiter < u64::MAX),
    {
        self.next_handle < u64::MAX && self.next_waiter < u64::MAX
    }

    /// Observability: the number of idle connections and the number checked
    /// out.
    pub fn size(&self) -> (s: (usize, usize))
        requires
            self.inv(),
        ensures
            s.0 == self@.idle.len(),
            s.1 == self@.loaned.len(),
    {
        (self.idle.len(), self.on_loan)
    }

    /// How many connections the pool has ever asked the factory to build.
    /// Ids are issued consecutively from 0, so the next id is the count.
    pub fn connections_created(&self) -> (n: u64)
        ensures
            n == self@.next_handle,
    {
        self.next_handle
    }

    /// Whether the pool has been shut down.
    pub fn is_closed(&self) -> (b: bool)
        ensures
            b == self@.closed,
    {
        self.closed
    }

    /// The acquisition step: an exact transition of the model. Reuses an idle
    /// connection when one exists (no network work), reserves a fresh slot
    /// for the factory when the bound allows, and otherwise enqueues the
    /// caller; a shut-down pool refuses. The caller performs the decided
    /// work.
    pub fn acquire(&mut self) -> (d: AcquireDecision)
        requires
            old(self).inv(),
            old(self)@.next_handle < u64::MAX,
            old(self)@.next_waiter < u64::MAX,
        ensures
            final(self).inv(),
            wf(final(self)@),
            final(self)@ == acquire_next(old(self)@),
            d == acquire_decision(old(self)@),
    {
        if self.closed {
            AcquireDecision::PoolClosed
        } else if self.idle.len() > 0 {
            let h = self.idle.pop().unwrap();
            self.on_loan = self.on_loan + 1;
            self.loaned = Ghost(self.loaned@.insert(h));
            proof {
                assert(self@ =~= acquire_next(old(self)@));
            }
            AcquireDecision::Reuse(h)
        } else if self.on_loan < self.max_size {
            let h = self.next_handle;
            self.next_handle = self.next_handle + 1;
            self.on_loan = self.on_loan + 1;
            self.loaned = Ghost(self.loaned@.insert(h));
            proof {
                assert(self@ =~= acquire_next(old(self)@));
            }
            AcquireDecision::Create(h)
        } else {
            let w = self.next_waiter;
            self.next_waiter = self.next_waiter + 1;
            self.waiters.push(w);
            proof {
                assert(self@ =~= acquire_next(old(self)@));
            }
            AcquireDecision::Wait(w)
        }
    }

    /// The release step: an exact transition of the model. Never blocks and
    /// never loses the handle: an accepted handle is handed to the first
    /// waiter or idled; a discarded one is retired, and the first waiter, if
    /// any, gets a replacement slot under a fresh id. On a shut-down pool the
    /// handle is retired whatever the verdict.
    pub fn release(&mut self, h: u64, verdict: Recycle) -> (a: ReleaseAction)
        requires
            old(self).inv(),
            old(self)@.loaned.contains(h),
            old(self)@.next_handle < u64::MAX,
        ensures
            final(self).inv(),
            wf(final(self)@),
            final(self)@ == release_next(old(self)@, h, verdict),
            a == release_action(old(self)@, h, verdict),
    {
        if self.closed {
            self.on_loan = self.on_loan - 1;
            self.loaned = Ghost(self.loaned@.remove(h));
            self.retired = Ghost(self.retired@.insert(h));
            proof {
                assert(self@ =~= release_next(old(self)@, h, verdict));
            }
            ReleaseAction::Dropped
        } else {
            match verdict {
                Recycle::Accepted => {
                    if self.waiters.len() > 0 {
                        let w = self.waiters.remove(0);
                        proof {
                            assert(self@.waiters =~= old(self)@.waiters.drop_first());
                            assert(self@ =~= release_next(old(self)@, h, verdict));
                        }
                        ReleaseAction::HandedOver(w)
                    } else {
                        self.idle.push(h);
                        self.on_loan = self.on_loan - 1;
                        self.loaned = Ghost(self.loaned@.remove(h));
                        proof {
                            assert(self@ =~= release_next(old(self)@, h, verdict));
                        }
                        ReleaseAction::Idled
                    }
                },
                Recycle::Discarded => {
                    self.loaned = Ghost(self.loaned@.remove(h));
                    self.retired = Ghost(self.retired@.insert(h));
                    if self.waiters.len() > 0 {
                        let w = self.waiters.remove(0);
                        let h2 = self.next_handle;
                        self.next_handle = self.next_handle + 1;
                        self.loaned = Ghost(self.loaned@.insert(h2));
                        proof {
                            assert(self@.waiters =~= old(self)@.waiters.drop_first());
                            assert(self@ =~= release_next(old(self)@, h, verdict));
                        }
                        ReleaseAction::Replaced(w, h2)
                    } else {
                        self.on_loan = self.on_loan - 1;
                        proof {
                            assert(self@ =~= release_next(old(self)@, h, verdict));
                        }
                        ReleaseAction::Dropped
                    }
                },
            }
        }
    }

    /// Withdraws the waiter with ticket `w` from the queue, whether the wait
    /// was cancelled or timed out. Touches nothing but the queue: the idle
    /// set, the loan count, and every other part of the state are unchanged.
    /// Returns whether the ticket was still queued; when it was not, the
    /// waiter has already been served and the state is untouched.
    pub fn cancel_wait(&mut self, w: u64) -> (found: bool)
        requires
            old(self).inv(),
        ensures
            final(self).inv(),
            wf(final(self)@),
            found == old(self)@.waiters.contains(w),
            final(self)@.idle == old(self)@.idle,
            final(self)@.loaned == old(self)@.loaned,
            final(self)@.retired == old(self)@.retired,
            final(self)@.closed == old(self)@.closed,
            final(self)@.max == old(self)@.max,
            final(self)@.next_handle == old(self)@.next_handle,
            final(self)@.next_waiter == old(self)@.next_waiter,
            !old(self)@.waiters.contains(w) ==> final(self)@.waiters == old(self)@.waiters,
            old(self)@.waiters.contains(w) ==> exists|i: int|
                0 <= i < old(self)@.waiters.len() && old(self)@.waiters[i] == w
                    && final(self)@.waiters == old(self)@.waiters.remove(i),
    {
        let n = self.waiters.len();
        let mut i: usize = 0;
        while i < n && self.waiters[i] != w
            invariant
                *self == *old(self),
                n == self.waiters@.len(),
                i <= n,
                forall|j: int| 0 <= j < i ==> self.waiters@[j] != w,
            decreases n - i,
        {
            i = i + 1;
        }
        if i < n {
            self.waiters.remove(i);
            proof {
                assert(old(self)@.waiters[i as int] == w);
                assert(old(self)@.waiters.contains(w));
            }
            true
        } else {
            proof {
                assert(forall|j: int|
                    0 <= j < old(self)@.waiters.len() ==> old(self)@.waiters[j] != w);
                assert(!old(self)@.waiters.contains(w));
            }
            false
        }
    }

    /// Shuts the pool down: returns the idle connections, which the caller
    /// must close, and the waiter tickets, whose waits the caller must refuse
    /// with the closed-pool error. Connections still checked out stay valid
    /// until released, after which they are retired rather than reinserted.
    pub fn shutdown(&mut self) -> (out: (Vec<u64>, Vec<u64>))
        requires
            old(self).inv(),
        ensures
            final(self).inv(),
            wf(final(self)@),
            final(self)@ == shutdown_next(old(self)@),
            out.0@ == old(self)@.idle,
            out.1@ == old(self)@.waiters,
    {
        let mut drained_idle: Vec<u64> = Vec::new();
        core::mem::swap(&mut drained_idle, &mut self.idle);
        let mut drained_waiters: Vec<u64> = Vec::new();
        core::mem::swap(&mut drained_waiters, &mut self.waiters);
        self.closed = true;
        self.retired = Ghost(self.retired@.union(drained_idle@.to_set()));
        proof {
            assert(self@ =~= shutdown_next(old(self)@));
            assert forall|h: u64| self@.retired.contains(h) implies h
                < self@.next_handle by {
                if drained_idle@.to_set().contains(h) {
                    let i = choose|i: int|
                        0 <= i < drained_idle@.len() && drained_idle@[i] == h;
                    assert(old(self)@.idle[i] == h);
                }
            }
            assert forall|h: u64| self@.loaned.contains(h) implies !self@.retired.contains(
                h,
            ) by {
                if drained_idle@.to_set().contains(h) {
                    let i = choose|i: int|
                        0 <= i < drained_idle@.len() && drained_idle@[i] == h;
                    assert(old(self)@.idle[i] == h);
                }
            }
        }
        (drained_idle, drained_waiters)
    }
}

} // verus!
