//! IPC entities whose queues are event sources of the scheduler: the
//! scheduler picks the receiving task by the messages that arrive.
use vstd::prelude::*;

use crate::interface::{plan_send, queue_id_in_range, IPCSharedEntity, LocalEntityIf, SendPlan, SharedEntityIf, SCHED_BASED_HIGH8};
use crate::item::{IPCItem, Stashed};
use crate::stash::{kept, law_no_message_lost, received_of, sent_of, stash_run, with_put, with_taken, Stash, StashOp};
use crate::text::from_literal;
use std::collections::VecDeque;

verus! {

/// The shared part of a scheduler-integrated IPC entity: the queue that messages for
/// it go to. The queue id leaves the high byte of an entity id free for the
/// kind of the entity.
#[derive(Clone, Copy)]
pub struct SchedBasedSharedEntity {
    queue_id: usize,
}

impl SchedBasedSharedEntity {
    /// The queue id leaves the high byte free.
    #[verifier::type_invariant]
    closed spec fn queue_in_range(&self) -> bool {
        queue_id_in_range(self.queue_id)
    }

    /// The entity of the queue `queue_id`.
    pub fn new(queue_id: usize) -> (r: Self)
        requires
            queue_id_in_range(queue_id),
        ensures
            r.spec_queue() == queue_id,
    {
        SchedBasedSharedEntity { queue_id }
    }

    /// The queue of the entity.
    pub fn queue_id(&self) -> (r: usize)
        ensures
            r == self.spec_queue(),
            queue_id_in_range(r),
    {
        proof {
            use_type_invariant(self);
        }
        self.queue_id
    }
}

impl SharedEntityIf for SchedBasedSharedEntity {
    closed spec fn spec_queue(&self) -> usize {
        self.queue_id
    }

    open spec fn spec_id(&self) -> u64 {
        self.spec_queue() as u64
    }

    open spec fn spec_notifies(&self) -> bool {
        false
    }

    open spec fn id_fits(id: u64) -> bool {
        ((id as usize) as u64) == id
    }

    /// An id that leaves the high byte free.
    open spec fn accepts_id(id: u64) -> bool {
        id < 0x0100_0000_0000_0000
    }

    /// The id without the kind byte: the queue id, whose high byte is free.
    fn id(&self) -> (r: u64)
        ensures
            r >> 56 == 0,
    {
        proof {
            use_type_invariant(self);
        }
        let r = self.queue_id as u64;
        assert(r < 0x0100_0000_0000_0000 ==> r >> 56 == 0) by (bit_vector);
        r
    }

    /// The entity of the queue that `id` names; it never fails.
    fn from_id(id: u64) -> (r: Result<Self, String>)
        ensures
            r matches Ok(e) && e.spec_queue() == id as usize,
    {
        let queue_id = id as usize;
        assert(id < 0x0100_0000_0000_0000 ==> ((id as usize) as u64) < 0x0100_0000_0000_0000) by (bit_vector);
        Ok(SchedBasedSharedEntity { queue_id })
    }

    /// A message for this entity goes to its queue; the scheduler finds it
    /// there, so nobody is notified.
    fn send_to(&self, item: IPCItem) -> (plan: SendPlan) {
        SendPlan { queue_id: self.queue_id, item, notify: false }
    }
}

} // verus!

verus! {

/// The local part of a scheduler-integrated IPC entity.
///
/// As a request queue (`recv_any`), one kind of receiver serves every
/// message: a receiver that finds the queue empty waits in `wait_queue`, and
/// the scheduler hands the waiting receivers out, first come first served,
/// while messages are pending.
///
/// As a response queue (not `recv_any`), the message type of a message names
/// the task that receives it: the scheduler takes the message from the queue,
/// keeps it behind the responses of its type and hands out the task that
/// the type names.
///
/// A task is named by its pointer, as a `usize`; the scheduler takes `0`
/// (the null pointer) as no task.
pub struct SchedBasedLocalEntity {
    shared: IPCSharedEntity,
    recv_any: bool,
    wait_queue: VecDeque<usize>,
    immediate_values: Stash,
    active_prio: isize,
    inactive_prio: isize,
}

impl LocalEntityIf for SchedBasedLocalEntity {
    open spec fn spec_deref(&self) -> IPCSharedEntity {
        self.spec_shared()
    }

    fn deref(&self) -> (r: &IPCSharedEntity) {
        &self.shared
    }

    fn send(&self, dst_id: u64, msg_type: u64, rep_type: u64, data: [u64; 8]) -> (r: Result<
        SendPlan,
        String,
    >) {
        plan_send(&self.shared, dst_id, msg_type, rep_type, data)
    }
}

impl SchedBasedLocalEntity {
    /// The entity is built on a scheduler-integrated shared entity.
    pub closed spec fn wf(&self) -> bool {
        self.shared is SchedBased
    }

    /// The shared part of the entity.
    pub closed spec fn spec_shared(&self) -> IPCSharedEntity {
        self.shared
    }

    /// Whether the entity is a request queue.
    pub closed spec fn spec_recv_any(&self) -> bool {
        self.recv_any
    }

    /// Receivers waiting for a request, first come first.
    pub closed spec fn waiting(&self) -> Seq<usize> {
        self.wait_queue@
    }

    /// Responses that wait for their task, by type.
    pub closed spec fn stash(&self) -> Map<u64, Seq<Stashed>> {
        self.immediate_values@
    }

    /// The priority of the event source while it has work to hand out.
    pub closed spec fn spec_active_prio(&self) -> isize {
        self.active_prio
    }

    /// The priority of the event source while it has nothing to hand out.
    pub closed spec fn spec_inactive_prio(&self) -> isize {
        self.inactive_prio
    }

    /// The priority that the event source reports, given whether the queue
    /// is empty.
    pub open spec fn spec_highest_priority(&self, queue_empty: bool) -> isize {
        if self.spec_recv_any() {
            if queue_empty || self.waiting().len() == 0 {
                self.spec_inactive_prio()
            } else {
                self.spec_active_prio()
            }
        } else {
            if queue_empty {
                self.spec_inactive_prio()
            } else {
                self.spec_active_prio()
            }
        }
    }

    /// Everything but the waiting receivers and the kept responses is as in
    /// `other`.
    pub open spec fn same_config(&self, other: &Self) -> bool {
        &&& self.wf() == other.wf()
        &&& self.spec_shared() == other.spec_shared()
        &&& self.spec_recv_any() == other.spec_recv_any()
        &&& self.spec_active_prio() == other.spec_active_prio()
        &&& self.spec_inactive_prio() == other.spec_inactive_prio()
    }

    /// A local entity; `registered` is what registering the queue gave
    /// (`None` when it failed). A registered queue id leaves the high byte of
    /// an entity id free.
    pub fn new(registered: Option<usize>, recv_any: bool, active_prio: isize, inactive_prio: isize) -> (r:
        Result<Self, String>)
        requires
            registered matches Some(q) ==> queue_id_in_range(q),
        ensures
            match r {
                Ok(e) => {
                    &&& registered is Some
                    &&& e.wf()
                    &&& e.spec_shared()@ == (SCHED_BASED_HIGH8, registered->Some_0)
                    &&& e.spec_recv_any() == recv_any
                    &&& e.spec_active_prio() == active_prio
                    &&& e.spec_inactive_prio() == inactive_prio
                    &&& e.waiting() == Seq::<usize>::empty()
                    &&& e.stash() == Map::<u64, Seq<Stashed>>::empty()
                },
                Err(msg) => registered is None && msg@ == "register queue failed."@,
            },
    {
        match registered {
            Some(queue_id) => Ok(SchedBasedLocalEntity {
                shared: IPCSharedEntity::SchedBased(SchedBasedSharedEntity::new(queue_id)),
                recv_any,
                wait_queue: VecDeque::new(),
                immediate_values: Stash::new(),
                active_prio,
                inactive_prio,
            }),
            None => {
                proof {
                    reveal_strlit("register queue failed.");
                }
                Err(from_literal("register queue failed."))
            },
        }
    }

    /// The shared part of the entity.
    pub fn shared(&self) -> (r: &IPCSharedEntity)
        ensures
            *r == self.spec_shared(),
    {
        &self.shared
    }

    /// Whether the entity is a request queue.
    pub fn recv_any(&self) -> (r: bool)
        ensures
            r == self.spec_recv_any(),
    {
        self.recv_any
    }

    /// The queue that the entity receives from.
    pub fn queue_id(&self) -> (r: usize)
        ensures
            r == self.spec_shared()@.1,
    {
        match &self.shared {
            IPCSharedEntity::QueueBased(ent) => ent.queue_id(),
            IPCSharedEntity::SchedBased(ent) => ent.queue_id(),
        }
    }

    /// A task of a response queue looks for the response of type
    /// `msg_type`: it takes the oldest one kept under that type, if any.
    pub fn poll_recv(&mut self, msg_type: u64) -> (r: Option<IPCItem>)
        requires
            !old(self).spec_recv_any(),
        ensures
            poll_recv_post(*old(self), *final(self), msg_type, r),
    {
        self.immediate_values.take(msg_type)
    }

    /// The receiver `current_task` of a request queue polled the queue and
    /// got `popped`: a message is its own; without one, the receiver waits
    /// behind those already waiting.
    pub fn poll_recv_any(&mut self, popped: Option<IPCItem>, current_task: usize) -> (r: Option<IPCItem>)
        requires
            old(self).spec_recv_any(),
        ensures
            poll_recv_any_post(*old(self), *final(self), popped, current_task, r),
    {
        match popped {
            Some(item) => Some(item),
            None => {
                self.wait_queue.push_back(current_task);
                None
            },
        }
    }

    /// The priority of the event source, given whether the queue is empty:
    /// active while a message is pending (and, for a request queue, a
    /// receiver waits for it), inactive otherwise.
    pub fn hightest_priority(&self, queue_empty: bool) -> (r: isize)
        ensures
            r == self.spec_highest_priority(queue_empty),
    {
        if self.recv_any {
            if queue_empty || self.wait_queue.len() == 0 {
                self.inactive_prio
            } else {
                self.active_prio
            }
        } else {
            if queue_empty {
                self.inactive_prio
            } else {
                self.active_prio
            }
        }
    }

    /// The scheduler asks a request queue for a task, the queue being empty
    /// or not: while a message is pending, the receiver that waited longest
    /// is handed out, with the priority that the source has after it left.
    /// Otherwise no task (`0`) and the inactive priority.
    pub fn take_request_task(&mut self, queue_empty: bool) -> (r: (usize, isize))
        requires
            old(self).spec_recv_any(),
        ensures
            take_request_task_post(*old(self), *final(self), queue_empty, r),
            r.1 == final(self).spec_highest_priority(queue_empty),
    {
        if queue_empty {
            (0, self.inactive_prio)
        } else {
            match self.wait_queue.pop_front() {
                Some(task) => {
                    if self.wait_queue.len() == 0 {
                        (task, self.inactive_prio)
                    } else {
                        (task, self.active_prio)
                    }
                },
                None => (0, self.inactive_prio),
            }
        }
    }

    /// The scheduler asks a response queue for a task: `popped` is what it
    /// took from the queue and `empty_after` whether the queue was empty
    /// then. A response is kept behind those of its type, and the task that the type
    /// names is handed out, with the priority that the source has after it.
    /// Without a response, no task (`0`) and the inactive priority.
    pub fn take_response_task(&mut self, popped: Option<IPCItem>, empty_after: bool) -> (r: (usize, isize))
        requires
            !old(self).spec_recv_any(),
        ensures
            take_response_task_post(*old(self), *final(self), popped, empty_after, r),
            r.1 == final(self).spec_highest_priority(popped is None || empty_after),
    {
        match popped {
            Some(item) => {
                let task = item.msg_type as usize;
                self.immediate_values.put(item);
                if empty_after {
                    (task, self.inactive_prio)
                } else {
                    (task, self.active_prio)
                }
            },
            None => (0, self.inactive_prio),
        }
    }
}


/// A task of a response queue looked for the response of type `msg_type` in
/// `old`, leaving `new` and getting `r`: the oldest response kept under that
/// type, taken out, if there is one.
pub open spec fn poll_recv_post(
    old: SchedBasedLocalEntity,
    new: SchedBasedLocalEntity,
    msg_type: u64,
    r: Option<IPCItem>,
) -> bool {
    &&& new.same_config(&old)
    &&& new.waiting() == old.waiting()
    &&& match r {
        Some(item) => {
            &&& kept(old.stash(), msg_type).len() > 0
            &&& item == IPCItem::from_stashed(msg_type, kept(old.stash(), msg_type)[0])
            &&& new.stash() == with_taken(old.stash(), msg_type)
        },
        None => {
            &&& kept(old.stash(), msg_type).len() == 0
            &&& new.stash() == old.stash()
        },
    }
}

/// The receiver `current_task` of a request queue got `popped` from the
/// queue in `old`, leaving `new` and getting `r`: the message if there was
/// one; otherwise the receiver now waits behind those already waiting.
pub open spec fn poll_recv_any_post(
    old: SchedBasedLocalEntity,
    new: SchedBasedLocalEntity,
    popped: Option<IPCItem>,
    current_task: usize,
    r: Option<IPCItem>,
) -> bool {
    &&& new.same_config(&old)
    &&& new.stash() == old.stash()
    &&& r == popped
    &&& popped is Some ==> new.waiting() == old.waiting()
    &&& popped is None ==> new.waiting() == old.waiting().push(current_task)
}

/// The scheduler asked the request queue `old` for a task, the queue being
/// empty or not, leaving `new` and getting `r`: while a message is pending
/// and a receiver waits, the one that waited longest, with the inactive
/// priority when nobody waits behind it and the active one otherwise; else
/// no task (`0`) and the inactive priority.
pub open spec fn take_request_task_post(
    old: SchedBasedLocalEntity,
    new: SchedBasedLocalEntity,
    queue_empty: bool,
    r: (usize, isize),
) -> bool {
    &&& new.same_config(&old)
    &&& new.stash() == old.stash()
    &&& if queue_empty || old.waiting().len() == 0 {
        &&& r == (0usize, old.spec_inactive_prio())
        &&& new.waiting() == old.waiting()
    } else {
        &&& r.0 == old.waiting()[0]
        &&& new.waiting() == old.waiting().drop_first()
        &&& r.1 == (if new.waiting().len() == 0 {
            old.spec_inactive_prio()
        } else {
            old.spec_active_prio()
        })
    }
}

/// The scheduler took `popped` from the response queue `old` (the queue
/// being empty afterwards or not), leaving `new` and getting `r`: a response
/// is kept behind those of its type and the task that its type names is handed out,
/// with the inactive priority when the queue is empty afterwards and the
/// active one otherwise; without a response, no task (`0`) and the inactive
/// priority.
pub open spec fn take_response_task_post(
    old: SchedBasedLocalEntity,
    new: SchedBasedLocalEntity,
    popped: Option<IPCItem>,
    empty_after: bool,
    r: (usize, isize),
) -> bool {
    &&& new.same_config(&old)
    &&& new.waiting() == old.waiting()
    &&& match popped {
        Some(item) => {
            &&& new.stash() == with_put(old.stash(), item)
            &&& r.0 == item.msg_type as usize
            &&& r.1 == (if empty_after {
                old.spec_inactive_prio()
            } else {
                old.spec_active_prio()
            })
        },
        None => {
            &&& new.stash() == old.stash()
            &&& r == (0usize, old.spec_inactive_prio())
        },
    }
}

/// A response that the scheduler took from the queue, while none of its type
/// was kept, is what the task that its type names finds when it looks for
/// it; the task handed out is that task.
pub proof fn law_response_reaches_its_task(
    e0: SchedBasedLocalEntity,
    e1: SchedBasedLocalEntity,
    e2: SchedBasedLocalEntity,
    item: IPCItem,
    empty_after: bool,
    taken: (usize, isize),
    r: Option<IPCItem>,
)
    requires
        kept(e0.stash(), item.msg_type).len() == 0,
        take_response_task_post(e0, e1, Some(item), empty_after, taken),
        poll_recv_post(e1, e2, item.msg_type, r),
    ensures
        taken.0 == item.msg_type as usize,
        r == Some(item),
        e2.stash() == e0.stash().insert(item.msg_type, Seq::empty()),
{
    assert(kept(e1.stash(), item.msg_type) =~= seq![item.stashed()]);
    assert(kept(e1.stash(), item.msg_type).drop_first() =~= Seq::<Stashed>::empty());
    assert(e2.stash() =~= e0.stash().insert(item.msg_type, Seq::empty()));
}

/// No response is lost: of two responses for one task taken from the queue
/// before the task looks (none for it being kept before), the task finds the
/// first, then the second.
pub proof fn law_responses_of_a_task_received_in_order(
    e0: SchedBasedLocalEntity,
    e1: SchedBasedLocalEntity,
    e2: SchedBasedLocalEntity,
    e3: SchedBasedLocalEntity,
    e4: SchedBasedLocalEntity,
    first: IPCItem,
    second: IPCItem,
    empty1: bool,
    empty2: bool,
    t1: (usize, isize),
    t2: (usize, isize),
    r1: Option<IPCItem>,
    r2: Option<IPCItem>,
)
    requires
        first.msg_type == second.msg_type,
        kept(e0.stash(), first.msg_type).len() == 0,
        take_response_task_post(e0, e1, Some(first), empty1, t1),
        take_response_task_post(e1, e2, Some(second), empty2, t2),
        poll_recv_post(e2, e3, first.msg_type, r1),
        poll_recv_post(e3, e4, first.msg_type, r2),
    ensures
        r1 == Some(first),
        r2 == Some(second),
        kept(e4.stash(), first.msg_type).len() == 0,
{
    let t = first.msg_type;
    assert(kept(e2.stash(), t) =~= seq![first.stashed(), second.stashed()]);
    assert(kept(e3.stash(), t) =~= seq![second.stashed()]);
}

/// Receivers of a request queue are handed out in the order in which they
/// started waiting: of two receivers that found the queue empty one after
/// the other, the first is handed out first, then the second.
pub proof fn law_waiting_receivers_served_in_order(
    e0: SchedBasedLocalEntity,
    e1: SchedBasedLocalEntity,
    e2: SchedBasedLocalEntity,
    e3: SchedBasedLocalEntity,
    e4: SchedBasedLocalEntity,
    first: usize,
    second: usize,
    r1: Option<IPCItem>,
    r2: Option<IPCItem>,
    t1: (usize, isize),
    t2: (usize, isize),
)
    requires
        e0.waiting().len() == 0,
        poll_recv_any_post(e0, e1, None, first, r1),
        poll_recv_any_post(e1, e2, None, second, r2),
        take_request_task_post(e2, e3, false, t1),
        take_request_task_post(e3, e4, false, t2),
    ensures
        t1.0 == first,
        t2.0 == second,
        e4.waiting().len() == 0,
{
    assert(e2.waiting() =~= seq![first, second]);
    assert(e3.waiting() =~= seq![second]);
}

/// One step of a response queue on the responses kept for its tasks.
pub enum ResponseStep {
    /// `take_response_task` that took a response from the queue, with
    /// whether the queue was empty afterwards and what it handed out.
    Take(IPCItem, bool, (usize, isize)),
    /// `poll_recv` of the task of a type, with what it got.
    Recv(u64, Option<IPCItem>),
}

impl ResponseStep {
    /// What the step does to the kept responses.
    pub open spec fn stash_op(self) -> StashOp {
        match self {
            ResponseStep::Take(item, _, _) => StashOp::Put(item),
            ResponseStep::Recv(msg_type, r) => StashOp::Take(msg_type, r),
        }
    }
}

/// `step` took the entity from `old` to `new`, as `take_response_task` and
/// `poll_recv` state it. (A `take_response_task` that found no response, and
/// the steps of a request queue, leave the kept responses as they were.)
pub open spec fn response_step_post(old: SchedBasedLocalEntity, new: SchedBasedLocalEntity, step: ResponseStep) -> bool {
    match step {
        ResponseStep::Take(item, empty_after, r) => take_response_task_post(old, new, Some(item), empty_after, r),
        ResponseStep::Recv(msg_type, r) => poll_recv_post(old, new, msg_type, r),
    }
}

/// A run of `steps` that took the entity through `states`.
pub open spec fn response_run(states: Seq<SchedBasedLocalEntity>, steps: Seq<ResponseStep>) -> bool {
    &&& states.len() == steps.len() + 1
    &&& forall|i: int|
        0 <= i < steps.len() ==> response_step_post(states[i], states[i + 1], #[trigger] steps[i])
}

/// The steps of a run as steps on the kept responses.
pub open spec fn response_stash_ops(steps: Seq<ResponseStep>) -> Seq<StashOp> {
    steps.map_values(|step: ResponseStep| step.stash_op())
}

/// A task that takes its responses in a loop loses none: over any run in
/// which the scheduler takes responses from the queue and tasks look for
/// them, for every task (message type), the responses kept for it at the
/// start followed by those taken from the queue are, in order, those that it
/// received followed by those still kept at the end.
pub proof fn law_no_response_lost_between_receives(
    states: Seq<SchedBasedLocalEntity>,
    steps: Seq<ResponseStep>,
    msg_type: u64,
)
    requires
        response_run(states, steps),
    ensures
        kept(states[0].stash(), msg_type) + sent_of(response_stash_ops(steps), msg_type) == received_of(
            response_stash_ops(steps),
            msg_type,
        ) + kept(states.last().stash(), msg_type),
{
    let stashes = states.map_values(|e: SchedBasedLocalEntity| e.stash());
    let ops = response_stash_ops(steps);
    assert forall|i: int| 0 <= i < ops.len() implies crate::stash::stash_op_post(
        stashes[i],
        stashes[i + 1],
        #[trigger] ops[i],
    ) by {
        assert(response_step_post(states[i], states[i + 1], steps[i]));
    }
    assert(stash_run(stashes, ops));
    law_no_message_lost(stashes, ops, msg_type);
}

/// A receiver of a request queue that got a message from the queue returns
/// that message exactly as it came; one that got none returns none and now
/// waits last, behind every receiver that waited before.
pub proof fn law_request_returned_as_popped(
    e0: SchedBasedLocalEntity,
    e1: SchedBasedLocalEntity,
    popped: Option<IPCItem>,
    current_task: usize,
    r: Option<IPCItem>,
)
    requires
        poll_recv_any_post(e0, e1, popped, current_task, r),
    ensures
        popped matches Some(item) ==> r == Some(item) && e1.waiting() == e0.waiting(),
        popped is None ==> {
            &&& r is None
            &&& e1.waiting().len() == e0.waiting().len() + 1
            &&& e1.waiting().last() == current_task
            &&& e1.waiting().subrange(0, e0.waiting().len() as int) == e0.waiting()
        },
{
    if popped is None {
        assert(e1.waiting().subrange(0, e0.waiting().len() as int) =~= e0.waiting());
    }
}

/// A request queue hands out a receiver only while a request is pending: with
/// the queue empty it hands out no task (`0`), reports the inactive
/// priority and every receiver keeps waiting. A receiver handed out is the
/// one that waited longest, and the others keep waiting in their order.
pub proof fn law_no_receiver_without_request(
    e0: SchedBasedLocalEntity,
    e1: SchedBasedLocalEntity,
    queue_empty: bool,
    r: (usize, isize),
)
    requires
        take_request_task_post(e0, e1, queue_empty, r),
    ensures
        queue_empty ==> r == (0usize, e0.spec_inactive_prio()) && e1.waiting() == e0.waiting(),
        e0.waiting().len() == 0 ==> r == (0usize, e0.spec_inactive_prio()) && e1.waiting() == e0.waiting(),
        !queue_empty && e0.waiting().len() > 0 ==> {
            &&& r.0 == e0.waiting()[0]
            &&& e1.waiting().len() + 1 == e0.waiting().len()
            &&& forall|i: int| 0 <= i < e1.waiting().len() ==> e1.waiting()[i] == e0.waiting()[i + 1]
        },
        r.1 == e0.spec_inactive_prio() || r.1 == e0.spec_active_prio(),
{
}

/// The event source reports only the two priorities it was configured with:
/// the inactive one whenever the queue is empty, and for a response queue
/// the active one whenever a message is pending; a request queue with a
/// message pending reports the active one exactly when a receiver waits.
pub proof fn law_priority_is_a_configured_one(e: SchedBasedLocalEntity, queue_empty: bool)
    ensures
        e.spec_highest_priority(queue_empty) == e.spec_inactive_prio() || e.spec_highest_priority(
            queue_empty,
        ) == e.spec_active_prio(),
        queue_empty ==> e.spec_highest_priority(queue_empty) == e.spec_inactive_prio(),
        !queue_empty && !e.spec_recv_any() ==> e.spec_highest_priority(queue_empty)
            == e.spec_active_prio(),
        !queue_empty && e.spec_recv_any() ==> e.spec_highest_priority(queue_empty) == (if e.waiting().len()
            == 0 {
            e.spec_inactive_prio()
        } else {
            e.spec_active_prio()
        }),
{
}

/// A response queue hands out, with a response, the task that its type
/// names, and reports one of its two configured priorities: the inactive one
/// when no response was taken or the queue is empty afterwards, the active
/// one otherwise.
pub proof fn law_response_task_priority(
    e0: SchedBasedLocalEntity,
    e1: SchedBasedLocalEntity,
    popped: Option<IPCItem>,
    empty_after: bool,
    r: (usize, isize),
)
    requires
        take_response_task_post(e0, e1, popped, empty_after, r),
    ensures
        popped is None ==> r == (0usize, e0.spec_inactive_prio()),
        popped matches Some(item) ==> r.0 == item.msg_type as usize,
        popped is Some && empty_after ==> r.1 == e0.spec_inactive_prio(),
        popped is Some && !empty_after ==> r.1 == e0.spec_active_prio(),
        e1.spec_inactive_prio() == e0.spec_inactive_prio(),
        e1.spec_active_prio() == e0.spec_active_prio(),
{
}

} // verus!
