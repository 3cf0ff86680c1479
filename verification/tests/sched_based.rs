use std::collections::VecDeque;

use vipc::interface::{IPCSharedEntity, LocalEntityIf, SharedEntityIf};
use vipc::item::IPCItem;
use vipc::sched_based::SchedBasedLocalEntity;

fn item(sender: u64, msg_type: u64, rep_type: u64, word: u64) -> IPCItem {
    IPCItem::new(sender, msg_type, rep_type, [word; 8])
}

const ACTIVE: isize = 0;
const INACTIVE: isize = 1;

fn request_queue() -> SchedBasedLocalEntity {
    SchedBasedLocalEntity::new(Some(21), true, ACTIVE, INACTIVE).unwrap()
}

fn response_queue() -> SchedBasedLocalEntity {
    SchedBasedLocalEntity::new(Some(22), false, ACTIVE, INACTIVE).unwrap()
}

#[test]
fn sched_based_new_reports_a_failed_registration() {
    let r = SchedBasedLocalEntity::new(None, true, 0, 1);
    assert_eq!(r.err().unwrap(), "register queue failed.");
}

#[test]
fn new_builds_a_sched_based_entity() {
    let e = request_queue();
    assert!(e.recv_any());
    assert_eq!(e.queue_id(), 21);
    assert!(matches!(e.shared(), IPCSharedEntity::SchedBased(_)));
    assert_eq!(e.deref().id(), 0x0200_0000_0000_0015);
}

#[test]
fn request_queue_priority() {
    let mut e = request_queue();
    assert_eq!(e.hightest_priority(true), INACTIVE);
    // a message but nobody waiting
    assert_eq!(e.hightest_priority(false), INACTIVE);
    assert!(e.poll_recv_any(None, 0x1000).is_none());
    assert_eq!(e.hightest_priority(false), ACTIVE);
    assert_eq!(e.hightest_priority(true), INACTIVE);
}

#[test]
fn response_queue_priority() {
    let e = response_queue();
    assert_eq!(e.hightest_priority(true), INACTIVE);
    assert_eq!(e.hightest_priority(false), ACTIVE);
}

#[test]
fn recv_any_takes_a_pending_message() {
    let mut e = request_queue();
    let got = e.poll_recv_any(Some(item(5, 42, 7, 1)), 0x1000).unwrap();
    assert_eq!(got.msg_type, 42);
    // the receiver did not start waiting
    assert_eq!(e.take_request_task(false), (0, INACTIVE));
}

#[test]
fn waiting_receivers_served_in_order() {
    let mut e = request_queue();
    assert!(e.poll_recv_any(None, 0x1000).is_none());
    assert!(e.poll_recv_any(None, 0x2000).is_none());
    assert!(e.poll_recv_any(None, 0x3000).is_none());
    assert_eq!(e.take_request_task(false), (0x1000, ACTIVE));
    assert_eq!(e.take_request_task(false), (0x2000, ACTIVE));
    assert_eq!(e.take_request_task(false), (0x3000, INACTIVE));
    assert_eq!(e.take_request_task(false), (0, INACTIVE));
}

#[test]
fn empty_queue_hands_out_nobody() {
    let mut e = request_queue();
    e.poll_recv_any(None, 0x1000);
    assert_eq!(e.take_request_task(true), (0, INACTIVE));
    // the receiver still waits
    assert_eq!(e.take_request_task(false), (0x1000, INACTIVE));
}

#[test]
fn take_task_priority_is_the_priority_after_the_take() {
    let mut e = request_queue();
    e.poll_recv_any(None, 1);
    e.poll_recv_any(None, 2);
    let (_, p) = e.take_request_task(false);
    assert_eq!(p, e.hightest_priority(false));
    let (_, p) = e.take_request_task(false);
    assert_eq!(p, e.hightest_priority(false));

    let mut r = response_queue();
    let (_, p) = r.take_response_task(Some(item(0, 5, 0, 0)), false);
    assert_eq!(p, r.hightest_priority(false));
    let (_, p) = r.take_response_task(Some(item(0, 6, 0, 0)), true);
    assert_eq!(p, r.hightest_priority(true));
    let (_, p) = r.take_response_task(None, true);
    assert_eq!(p, r.hightest_priority(true));
}

#[test]
fn response_reaches_its_task() {
    let mut e = response_queue();
    assert!(e.poll_recv(0x5000).is_none());
    let (task, prio) = e.take_response_task(Some(item(9, 0x5000, 42, 3)), true);
    assert_eq!((task, prio), (0x5000, INACTIVE));
    let got = e.poll_recv(0x5000).unwrap();
    assert_eq!((got.sender, got.msg_type, got.rep_type, got.data), (9, 0x5000, 42, [3; 8]));
    assert!(e.poll_recv(0x5000).is_none());
}

#[test]
fn response_queue_without_message_hands_out_nobody() {
    let mut e = response_queue();
    assert_eq!(e.take_response_task(None, true), (0, INACTIVE));
    assert_eq!(e.take_response_task(None, false), (0, INACTIVE));
}

#[test]
fn responses_of_a_task_received_in_order() {
    let mut e = response_queue();
    assert_eq!(e.take_response_task(Some(item(1, 0x10, 0, 1)), false), (0x10, ACTIVE));
    assert_eq!(e.take_response_task(Some(item(2, 0x10, 0, 2)), true), (0x10, INACTIVE));
    let got = e.poll_recv(0x10).unwrap();
    assert_eq!((got.sender, got.data), (1, [1; 8]));
    let got = e.poll_recv(0x10).unwrap();
    assert_eq!((got.sender, got.data), (2, [2; 8]));
    assert!(e.poll_recv(0x10).is_none());
}

// A client with many workers calls a server that echoes each request back
// to the worker named by its reply type; every worker gets its own replies.
#[test]
fn request_response_exchange() {
    const WORKERS: u64 = 50;
    const PER_WORKER: u64 = 10;
    let mut server = request_queue();
    let mut client = response_queue();
    let server_id = server.deref().id();
    let client_id = client.deref().id();
    let mut server_queue: VecDeque<IPCItem> = VecDeque::new();
    let mut client_queue: VecDeque<IPCItem> = VecDeque::new();
    let server_task: usize = 0x9000;

    // server starts and waits
    assert!(server.poll_recv_any(server_queue.pop_front(), server_task).is_none());

    for round in 0..PER_WORKER {
        // every worker sends a request whose reply type names the worker
        for w in 1..=WORKERS {
            let plan = client.send(server_id, 42, w * 0x100, [round; 8]).unwrap();
            assert_eq!(plan.queue_id, server.queue_id());
            server_queue.push_back(plan.item);
        }
        // the scheduler hands the waiting server task out while requests are pending
        let (task, prio) = server.take_request_task(server_queue.is_empty());
        assert_eq!((task, prio), (server_task, INACTIVE));
        // the server task runs until it finds the queue empty and waits again
        let mut answered = 0;
        while let Some(req) = server.poll_recv_any(server_queue.pop_front(), server_task) {
            assert_eq!(req.msg_type, 42);
            assert_eq!(req.sender, client_id);
            let plan = server.send(client_id, req.rep_type, req.msg_type, req.data).unwrap();
            assert_eq!(plan.queue_id, client.queue_id());
            client_queue.push_back(plan.item);
            answered += 1;
        }
        assert_eq!(answered, WORKERS);
        assert_eq!(server.take_request_task(true), (0, INACTIVE));
        // the scheduler hands each reply to the worker it names
        let mut served = 0;
        loop {
            let popped = client_queue.pop_front();
            let (task, _) = client.take_response_task(popped, client_queue.is_empty());
            if task == 0 {
                break;
            }
            let rep = client.poll_recv(task as u64).unwrap();
            assert_eq!(rep.msg_type, task as u64);
            assert_eq!(rep.sender, server_id);
            assert_eq!(rep.data, [round; 8]);
            served += 1;
        }
        assert_eq!(served, WORKERS);
    }
}

#[test]
fn no_response_lost_between_receives() {
    let mut e = response_queue();
    let mut expected: [Vec<u64>; 2] = [Vec::new(), Vec::new()];
    let mut received: [Vec<u64>; 2] = [Vec::new(), Vec::new()];
    for n in 0..100u64 {
        let t = (n % 2) as usize;
        let (task, _) = e.take_response_task(Some(item(n, 0x100 + t as u64, 0, n)), false);
        assert_eq!(task, 0x100 + t);
        expected[t].push(n);
        if n % 5 == 0 {
            let got = e.poll_recv(0x100 + t as u64).unwrap();
            received[t].push(got.sender);
        }
    }
    for t in 0..2 {
        while let Some(got) = e.poll_recv(0x100 + t as u64) {
            received[t].push(got.sender);
        }
        assert_eq!(received[t], expected[t]);
    }
}
