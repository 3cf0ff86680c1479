use std::cell::RefCell;
use std::collections::{HashSet, VecDeque};

use vipc::interface::{IPCSharedEntity, SharedEntityIf};
use vipc::item::IPCItem;
use vipc::queue_based::{any_reply, notify_target, QueueBasedLocalEntity, Routed, YieldNowFuture, ANY_MSG_TYPE};

fn item(sender: u64, msg_type: u64, rep_type: u64, word: u64) -> IPCItem {
    IPCItem::new(sender, msg_type, rep_type, [word; 8])
}

fn same(a: &IPCItem, b: &IPCItem) -> bool {
    a.sender == b.sender && a.msg_type == b.msg_type && a.rep_type == b.rep_type && a.data == b.data
}

fn entity() -> QueueBasedLocalEntity<u32> {
    QueueBasedLocalEntity::new(Some(3), false, true).unwrap()
}

#[test]
fn queue_based_new_reports_a_failed_registration() {
    let r: Result<QueueBasedLocalEntity<u32>, String> = QueueBasedLocalEntity::new(None, true, true);
    assert_eq!(r.err().unwrap(), "register queue failed.");
}

#[test]
fn new_builds_a_queue_based_entity() {
    let e: QueueBasedLocalEntity<u32> = QueueBasedLocalEntity::new(Some(17), true, false).unwrap();
    assert_eq!(e.queue_id(), 17);
    assert!(e.use_notify());
    assert!(!e.use_default_dispatcher());
    assert!(matches!(e.shared(), IPCSharedEntity::QueueBased(_)));
    assert_eq!(e.shared().id(), 0x0100_0000_0000_0011);
}

#[test]
fn recv_any_needs_no_default_dispatcher() {
    let with: QueueBasedLocalEntity<u32> = QueueBasedLocalEntity::new(Some(1), false, true).unwrap();
    assert_eq!(
        with.check_recv_any().err().unwrap(),
        "`recv_any` not supported with default dispatcher"
    );
    let without: QueueBasedLocalEntity<u32> = QueueBasedLocalEntity::new(Some(1), false, false).unwrap();
    assert_eq!(without.check_recv_any(), Ok(()));
}

#[test]
fn any_reply_gives_type_reply_type_and_data() {
    assert_eq!(any_reply(item(1, 2, 3, 4)), (2, 3, [4; 8]));
}

#[test]
fn dispatched_message_is_received() {
    let mut e = entity();
    let live = |_: &u32| true;
    assert!(e.poll_dispatch(7, 100).is_none());
    let woken = e.dispatch(item(9, 7, 8, 1), &live);
    assert_eq!(woken, Some(100));
    let got = e.poll_dispatch(7, 101).unwrap();
    assert!(same(&got, &item(9, 7, 8, 1)));
    // taken once: the next receiver waits again
    assert!(e.poll_dispatch(7, 102).is_none());
}

#[test]
fn message_without_waiter_is_kept() {
    let mut e = entity();
    let live = |_: &u32| true;
    assert_eq!(e.dispatch(item(1, 5, 0, 3), &live), None);
    let got = e.poll_dispatch(5, 1).unwrap();
    assert!(same(&got, &item(1, 5, 0, 3)));
}

#[test]
fn messages_of_a_type_received_in_order() {
    let mut e = entity();
    let live = |_: &u32| true;
    e.dispatch(item(1, 5, 0, 1), &live);
    e.dispatch(item(2, 5, 0, 2), &live);
    e.dispatch(item(3, 5, 0, 3), &live);
    assert!(same(&e.poll_dispatch(5, 0).unwrap(), &item(1, 5, 0, 1)));
    assert!(same(&e.poll_dispatch(5, 0).unwrap(), &item(2, 5, 0, 2)));
    e.dispatch(item(4, 5, 0, 4), &live);
    assert!(same(&e.poll_dispatch(5, 0).unwrap(), &item(3, 5, 0, 3)));
    assert!(same(&e.poll_dispatch(5, 0).unwrap(), &item(4, 5, 0, 4)));
    assert!(e.poll_dispatch(5, 0).is_none());
}

#[test]
fn routed_messages_of_a_type_received_in_order() {
    let mut e = entity();
    let live = |_: &u32| true;
    assert!(matches!(e.route(1, item(0, 2, 0, 1), &live), Routed::Stashed(None)));
    assert!(matches!(e.route(1, item(0, 2, 0, 2), &live), Routed::Stashed(None)));
    assert!(same(&e.poll_dispatch(2, 0).unwrap(), &item(0, 2, 0, 1)));
    assert!(same(&e.poll_dispatch(2, 0).unwrap(), &item(0, 2, 0, 2)));
}

#[test]
fn messages_of_other_types_stay_apart() {
    let mut e = entity();
    let live = |_: &u32| true;
    e.dispatch(item(1, 5, 0, 1), &live);
    e.dispatch(item(2, 6, 0, 2), &live);
    assert!(same(&e.poll_dispatch(6, 0).unwrap(), &item(2, 6, 0, 2)));
    assert!(same(&e.poll_dispatch(5, 0).unwrap(), &item(1, 5, 0, 1)));
}

#[test]
fn latest_waiter_is_woken_first() {
    let mut e = entity();
    let live = |_: &u32| true;
    assert!(e.poll_dispatch(4, 1).is_none());
    assert!(e.poll_dispatch(4, 2).is_none());
    assert!(e.poll_dispatch(4, 3).is_none());
    assert_eq!(e.dispatch(item(0, 4, 0, 0), &live), Some(3));
    assert_eq!(e.poll_dispatch(4, 9).map(|i| i.msg_type), Some(4));
    assert_eq!(e.dispatch(item(0, 4, 0, 0), &live), Some(2));
}

#[test]
fn dead_waiters_are_skipped_and_dropped() {
    let mut e = entity();
    let dead: HashSet<u32> = [3u32, 2].into_iter().collect();
    let asked = RefCell::new(Vec::new());
    let live = |w: &u32| {
        asked.borrow_mut().push(*w);
        !dead.contains(w)
    };
    for w in 1..=3u32 {
        assert!(e.poll_dispatch(8, w).is_none());
    }
    assert_eq!(e.dispatch(item(0, 8, 0, 0), &live), Some(1));
    assert_eq!(*asked.borrow(), vec![3, 2, 1]);
    e.poll_dispatch(8, 0);
    // nobody is left for type 8 but the waiter registered by the poll above
    asked.borrow_mut().clear();
    let all_live = |w: &u32| {
        asked.borrow_mut().push(*w);
        true
    };
    e.poll_dispatch(8, 0).map(|_| ()).unwrap_or(());
    assert_eq!(e.dispatch(item(0, 8, 0, 0), &all_live), Some(0));
}

#[test]
fn no_live_waiter_wakes_nobody() {
    let mut e = entity();
    let dead = |_: &u32| false;
    e.poll_dispatch(2, 1);
    e.poll_dispatch(2, 2);
    assert_eq!(e.dispatch(item(0, 2, 0, 0), &dead), None);
    // the dead waiters are gone: a later message finds nobody
    let live = |_: &u32| true;
    e.poll_dispatch(2, 5).unwrap();
    assert_eq!(e.dispatch(item(0, 2, 0, 0), &live), None);
}

#[test]
fn route_delivers_own_type_and_keeps_others() {
    let mut e = entity();
    let live = |_: &u32| true;
    match e.route(3, item(1, 3, 4, 5), &live) {
        Routed::Deliver(got) => assert!(same(&got, &item(1, 3, 4, 5))),
        Routed::Stashed(_) => panic!("own message kept"),
    }
    assert!(e.poll_dispatch(3, 0).is_none());
    assert!(e.poll_dispatch(9, 77).is_none());
    match e.route(3, item(1, 9, 4, 5), &live) {
        Routed::Stashed(woken) => assert_eq!(woken, Some(77)),
        Routed::Deliver(_) => panic!("message of another type delivered"),
    }
    assert!(same(&e.poll_dispatch(9, 0).unwrap(), &item(1, 9, 4, 5)));
}

#[test]
fn notify_target_prefers_the_any_type_entry() {
    assert_eq!(notify_target(0, Some(1), Some(2)), None);
    assert_eq!(notify_target(0, None, None), None);
    assert_eq!(notify_target(10, Some(1), Some(2)), Some((10, 1)));
    assert_eq!(notify_target(10, None, Some(2)), Some((10, 2)));
    assert_eq!(notify_target(10, None, None), None);
    assert_eq!(ANY_MSG_TYPE, usize::MAX);
}

#[test]
fn yield_now_is_pending_once_then_ready() {
    let mut y = YieldNowFuture::new();
    assert!(!y.poll());
    assert!(y.poll());
    assert!(y.poll());
}

#[test]
fn no_message_lost_between_receives() {
    let mut e = entity();
    let live = |_: &u32| true;
    let mut sent: [VecDeque<u64>; 3] = [VecDeque::new(), VecDeque::new(), VecDeque::new()];
    let mut received: [Vec<u64>; 3] = [Vec::new(), Vec::new(), Vec::new()];
    let mut expected: [Vec<u64>; 3] = [Vec::new(), Vec::new(), Vec::new()];
    let mut x: u64 = 7;
    for n in 0..300u64 {
        x = x.wrapping_mul(6364136223846793005).wrapping_add(1442695040888963407);
        let t = ((x >> 33) % 3) as usize;
        if (x >> 40) % 3 != 0 {
            e.dispatch(item(n, t as u64, 0, n), &live);
            sent[t].push_back(n);
            expected[t].push(n);
        } else if let Some(got) = e.poll_dispatch(t as u64, 0) {
            assert_eq!(got.msg_type, t as u64);
            received[t].push(got.sender);
            assert_eq!(sent[t].pop_front(), Some(got.sender));
        } else {
            assert!(sent[t].is_empty());
        }
    }
    for t in 0..3 {
        while let Some(got) = e.poll_dispatch(t as u64, 0) {
            received[t].push(got.sender);
        }
        assert_eq!(received[t], expected[t]);
    }
}
