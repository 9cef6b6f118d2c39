use redmond_pool::pool::PoolCore;
use redmond_pool::AcquireDecision;
use redmond_pool::Recycle;
use redmond_pool::ReleaseAction;

#[test]
fn fresh_pool_is_empty() {
    let p = PoolCore::new(5);
    assert_eq!(p.size(), (0, 0));
    assert_eq!(p.connections_created(), 0);
    assert!(!p.is_closed());
    assert!(p.can_issue());
}

#[test]
fn occupancy_never_exceeds_max() {
    let max: usize = 3;
    let mut p = PoolCore::new(max);
    let mut handles = Vec::new();
    for _ in 0..10 {
        match p.acquire() {
            AcquireDecision::Create(h) => handles.push(h),
            AcquireDecision::Reuse(h) => handles.push(h),
            AcquireDecision::Wait(_) => {}
            AcquireDecision::PoolClosed => panic!("pool is not closed"),
        }
        let (idle, loaned) = p.size();
        assert!(idle + loaned <= max);
    }
    assert_eq!(handles.len(), max);
    for h in handles {
        p.release(h, Recycle::Accepted);
        let (idle, loaned) = p.size();
        assert!(idle + loaned <= max);
    }
}

#[test]
fn accepted_handle_reused_without_new_connection() {
    let mut p = PoolCore::new(5);
    let h = match p.acquire() {
        AcquireDecision::Create(h) => h,
        other => panic!("expected a creation, got {:?}", other),
    };
    let created_before = p.connections_created();
    assert_eq!(p.release(h, Recycle::Accepted), ReleaseAction::Idled);
    assert_eq!(p.acquire(), AcquireDecision::Reuse(h));
    assert_eq!(p.connections_created(), created_before);
}

#[test]
fn discarded_handle_never_returned_again() {
    let mut p = PoolCore::new(5);
    let h = match p.acquire() {
        AcquireDecision::Create(h) => h,
        other => panic!("expected a creation, got {:?}", other),
    };
    assert_eq!(p.release(h, Recycle::Discarded), ReleaseAction::Dropped);
    // The discarded id is gone for good: the next acquire builds a fresh
    // connection under a different id.
    match p.acquire() {
        AcquireDecision::Create(h2) => assert_ne!(h2, h),
        other => panic!("expected a creation, got {:?}", other),
    }
}

#[test]
fn discard_with_waiter_creates_replacement() {
    let mut p = PoolCore::new(1);
    assert_eq!(p.acquire(), AcquireDecision::Create(0));
    assert_eq!(p.acquire(), AcquireDecision::Wait(0));
    assert_eq!(
        p.release(0, Recycle::Discarded),
        ReleaseAction::Replaced(0, 1)
    );
    assert_eq!(p.connections_created(), 2);
    let (idle, loaned) = p.size();
    assert_eq!((idle, loaned), (0, 1));
}

#[test]
fn waiters_are_served_in_arrival_order() {
    let mut p = PoolCore::new(1);
    assert_eq!(p.acquire(), AcquireDecision::Create(0));
    assert_eq!(p.acquire(), AcquireDecision::Wait(0));
    assert_eq!(p.acquire(), AcquireDecision::Wait(1));
    assert_eq!(p.acquire(), AcquireDecision::Wait(2));
    assert_eq!(p.release(0, Recycle::Accepted), ReleaseAction::HandedOver(0));
    assert_eq!(p.release(0, Recycle::Accepted), ReleaseAction::HandedOver(1));
    assert_eq!(p.release(0, Recycle::Accepted), ReleaseAction::HandedOver(2));
    assert_eq!(p.release(0, Recycle::Accepted), ReleaseAction::Idled);
    assert_eq!(p.connections_created(), 1);
}

#[test]
fn cancelled_wait_changes_no_counts_and_loses_no_handle() {
    let mut p = PoolCore::new(1);
    assert_eq!(p.acquire(), AcquireDecision::Create(0));
    assert_eq!(p.acquire(), AcquireDecision::Wait(0));
    let before = p.size();
    assert!(p.cancel_wait(0));
    assert_eq!(p.size(), before);
    // The handle released afterwards is not lost: it lands in the idle set.
    assert_eq!(p.release(0, Recycle::Accepted), ReleaseAction::Idled);
    assert_eq!(p.size(), (1, 0));
}

#[test]
fn cancel_of_served_waiter_is_a_no_op() {
    let mut p = PoolCore::new(1);
    assert_eq!(p.acquire(), AcquireDecision::Create(0));
    assert_eq!(p.acquire(), AcquireDecision::Wait(0));
    assert_eq!(p.release(0, Recycle::Accepted), ReleaseAction::HandedOver(0));
    // The waiter was already served: its ticket is no longer queued.
    assert!(!p.cancel_wait(0));
    assert_eq!(p.size(), (0, 1));
}

#[test]
fn cancel_middle_waiter_keeps_order_of_the_rest() {
    let mut p = PoolCore::new(1);
    assert_eq!(p.acquire(), AcquireDecision::Create(0));
    assert_eq!(p.acquire(), AcquireDecision::Wait(0));
    assert_eq!(p.acquire(), AcquireDecision::Wait(1));
    assert_eq!(p.acquire(), AcquireDecision::Wait(2));
    assert!(p.cancel_wait(1));
    assert_eq!(p.release(0, Recycle::Accepted), ReleaseAction::HandedOver(0));
    assert_eq!(p.release(0, Recycle::Accepted), ReleaseAction::HandedOver(2));
}

#[test]
fn failed_creation_releases_the_slot() {
    let mut p = PoolCore::new(2);
    let h = match p.acquire() {
        AcquireDecision::Create(h) => h,
        other => panic!("expected a creation, got {:?}", other),
    };
    assert_eq!(p.size(), (0, 1));
    // The factory failed: the reserved slot is given back as a discard.
    assert_eq!(p.release(h, Recycle::Discarded), ReleaseAction::Dropped);
    assert_eq!(p.size(), (0, 0));
}

#[test]
fn shutdown_drains_and_refuses() {
    let mut p = PoolCore::new(3);
    assert_eq!(p.acquire(), AcquireDecision::Create(0));
    assert_eq!(p.acquire(), AcquireDecision::Create(1));
    assert_eq!(p.release(0, Recycle::Accepted), ReleaseAction::Idled);
    let (to_close, woken) = p.shutdown();
    assert_eq!(to_close, vec![0]);
    assert_eq!(woken, Vec::<u64>::new());
    assert!(p.is_closed());
    assert_eq!(p.acquire(), AcquireDecision::PoolClosed);
    // The outstanding handle is retired, not reinserted, once released.
    assert_eq!(p.release(1, Recycle::Accepted), ReleaseAction::Dropped);
    assert_eq!(p.size(), (0, 0));
}

#[test]
fn shutdown_wakes_every_waiter() {
    let mut p = PoolCore::new(1);
    assert_eq!(p.acquire(), AcquireDecision::Create(0));
    assert_eq!(p.acquire(), AcquireDecision::Wait(0));
    assert_eq!(p.acquire(), AcquireDecision::Wait(1));
    let (to_close, woken) = p.shutdown();
    assert_eq!(to_close, Vec::<u64>::new());
    assert_eq!(woken, vec![0, 1]);
}

#[test]
fn ten_callers_share_five_connections() {
    // Ten callers arrive at once against a capacity of five: five get fresh
    // connections, five wait; as handles come back they are handed over in
    // order, and no connection beyond the five is ever created.
    let mut p = PoolCore::new(5);
    let mut held = Vec::new();
    let mut queued = Vec::new();
    for _ in 0..10 {
        match p.acquire() {
            AcquireDecision::Create(h) => held.push(h),
            AcquireDecision::Wait(w) => queued.push(w),
            other => panic!("unexpected decision {:?}", other),
        }
    }
    assert_eq!(held.len(), 5);
    assert_eq!(queued.len(), 5);
    assert_eq!(p.connections_created(), 5);
    let mut served = Vec::new();
    for h in held {
        match p.release(h, Recycle::Accepted) {
            ReleaseAction::HandedOver(w) => served.push(w),
            other => panic!("unexpected action {:?}", other),
        }
        let (idle, loaned) = p.size();
        assert!(idle + loaned <= 5);
    }
    assert_eq!(served, queued);
    for h in 0..5u64 {
        assert_eq!(p.release(h, Recycle::Accepted), ReleaseAction::Idled);
    }
    assert_eq!(p.size(), (5, 0));
    assert_eq!(p.connections_created(), 5);
}

#[test]
fn zero_capacity_pool_only_waits() {
    let mut p = PoolCore::new(0);
    assert_eq!(p.acquire(), AcquireDecision::Wait(0));
    assert_eq!(p.acquire(), AcquireDecision::Wait(1));
    assert_eq!(p.size(), (0, 0));
}
