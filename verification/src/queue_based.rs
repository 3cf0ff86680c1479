//! IPC entities whose receivers are woken by a dispatching task or by a
//! notification.
use vstd::prelude::*;

use crate::interface::{plan_send, queue_id_in_range, IPCSharedEntity, LocalEntityIf, SendPlan, SharedEntityIf, QUEUE_BASED_HIGH8};
use crate::item::{IPCItem, Stashed};
use crate::stash::{kept, law_no_message_lost, received_of, sent_of, stash_run, with_put, with_taken, Stash, StashOp};
use crate::text::from_literal;
use std::collections::BTreeMap;

verus! {

/// The shared part of a queue-based IPC entity: the queue that messages for
/// it go to. The queue id leaves the high byte of an entity id free for the
/// kind of the entity.
#[derive(Clone, Copy)]
pub struct QueueBasedSharedEntity {
    queue_id: usize,
}

impl QueueBasedSharedEntity {
    /// The queue id leaves the high byte free.
    #[verifier::type_invariant]
    closed spec fn queue_in_range(&self) -> bool {
        queue_id_in_range(self.queue_id)
    }

    /// The entity of the queue `queue_id`.
    pub fn new(queue_id: usize) -> (r: Self)
        requires
            queue_id_in_range(queue_id),
        ensures
            r.spec_queue() == queue_id,
    {
        QueueBasedSharedEntity { queue_id }
    }

    /// The queue of the entity.
    pub fn queue_id(&self) -> (r: usize)
        ensures
            r == self.spec_queue(),
            queue_id_in_range(r),
    {
        proof {
            use_type_invariant(self);
        }
        self.queue_id
    }
}

impl SharedEntityIf for QueueBasedSharedEntity {
    closed spec fn spec_queue(&self) -> usize {
        self.queue_id
    }

    open spec fn spec_id(&self) -> u64 {
        self.spec_queue() as u64
    }

    open spec fn spec_notifies(&self) -> bool {
        true
    }

    open spec fn id_fits(id: u64) -> bool {
        ((id as usize) as u64) == id
    }

    /// An id that leaves the high byte free.
    open spec fn accepts_id(id: u64) -> bool {
        id < 0x0100_0000_0000_0000
    }

    /// The id without the kind byte: the queue id, whose high byte is free.
    fn id(&self) -> (r: u64)
        ensures
            r >> 56 == 0,
    {
        proof {
            use_type_invariant(self);
        }
        let r = self.queue_id as u64;
        assert(r < 0x0100_0000_0000_0000 ==> r >> 56 == 0) by (bit_vector);
        r
    }

    /// The entity of the queue that `id` names; it never fails.
    fn from_id(id: u64) -> (r: Result<Self, String>)
        ensures
            r matches Ok(e) && e.spec_queue() == id as usize,
    {
        let queue_id = id as usize;
        assert(id < 0x0100_0000_0000_0000 ==> ((id as usize) as u64) < 0x0100_0000_0000_0000) by (bit_vector);
        Ok(QueueBasedSharedEntity { queue_id })
    }

    /// A message for this entity goes to its queue, and the owner of the
    /// queue is then notified.
    fn send_to(&self, item: IPCItem) -> (plan: SendPlan) {
        SendPlan { queue_id: self.queue_id, item, notify: true }
    }
}

} // verus!

verus! {

/// The messages of a queue-based entity that a receiver collects, and the
/// receivers that wait for them.
///
/// Receivers wait by message type. A message that leaves the queue is kept
/// behind the earlier messages of its type, and the receiver
/// that registered last for that type, among those still waiting, is woken.
/// A waiter is any value the caller chooses to stand for a waiting receiver
/// (a handle that can wake it).
pub struct QueueBasedLocalEntity<W> {
    shared: IPCSharedEntity,
    use_notify: bool,
    use_default_dispatcher: bool,
    wait_queue: BTreeMap<u64, Vec<W>>,
    immediate_values: Stash,
}

/// What becomes of a message that a receiver took from the queue.
pub enum Routed<W> {
    /// The message is of the receiver's own type: it is the receiver's.
    Deliver(IPCItem),
    /// The message was kept for its own receiver; the waiter to wake, if one
    /// is still waiting.
    Stashed(Option<W>),
}

/// The waiters registered for `msg_type`, most recent last.
pub open spec fn waiting<W>(waiters: Map<u64, Seq<W>>, msg_type: u64) -> Seq<W> {
    if waiters.contains_key(msg_type) {
        waiters[msg_type]
    } else {
        Seq::empty()
    }
}

/// The waiter map after waking for `msg_type`: the list for that type, if it
/// has one, keeps its first `kept` waiters.
pub open spec fn after_wake<W>(waiters: Map<u64, Seq<W>>, msg_type: u64, kept: nat) -> Map<u64, Seq<W>> {
    if waiters.contains_key(msg_type) {
        waiters.insert(msg_type, waiters[msg_type].take(kept as int))
    } else {
        waiters
    }
}

/// How waking for one message type went, given the waiters `list` registered
/// for it before: the last `list.len() - kept` waiters were taken off the
/// list, most recent first; `woken` is the last of those taken off (the one
/// at index `kept`) when the liveness check found it alive, and every other
/// one taken off was found dead. When nobody was woken, the whole list was taken off.
pub open spec fn wake_outcome<W, F: Fn(&W) -> bool>(
    list: Seq<W>,
    kept: nat,
    woken: Option<W>,
    is_live: F,
) -> bool {
    &&& kept <= list.len()
    &&& match woken {
        Some(w) => {
            &&& kept < list.len()
            &&& list[kept as int] == w
            &&& is_live.ensures((&w,), true)
            &&& forall|i: int| kept < i < list.len() ==> is_live.ensures((&list[i],), false)
        },
        None => {
            &&& kept == 0
            &&& forall|i: int| 0 <= i < list.len() ==> is_live.ensures((&list[i],), false)
        },
    }
}


/// Everything but the kept messages and the waiters is as in `old`.
pub open spec fn same_config<W>(old: QueueBasedLocalEntity<W>, new: QueueBasedLocalEntity<W>) -> bool {
    &&& new.wf() == old.wf()
    &&& new.spec_shared() == old.spec_shared()
    &&& new.spec_use_notify() == old.spec_use_notify()
    &&& new.spec_use_default_dispatcher() == old.spec_use_default_dispatcher()
}

/// A receiver of `msg_type` with the waiter `waiter` looked for its message
/// in `old`, leaving `new` and getting `r`: the oldest message kept for its
/// type is taken if there is one; otherwise the waiter is registered for the
/// type, after those registered before it.
pub open spec fn poll_dispatch_post<W>(
    old: QueueBasedLocalEntity<W>,
    new: QueueBasedLocalEntity<W>,
    msg_type: u64,
    waiter: W,
    r: Option<IPCItem>,
) -> bool {
    &&& same_config(old, new)
    &&& match r {
        Some(item) => {
            &&& kept(old.stash(), msg_type).len() > 0
            &&& item == IPCItem::from_stashed(msg_type, kept(old.stash(), msg_type)[0])
            &&& new.stash() == with_taken(old.stash(), msg_type)
            &&& new.waiters() == old.waiters()
        },
        None => {
            &&& kept(old.stash(), msg_type).len() == 0
            &&& new.stash() == old.stash()
            &&& new.waiters() == old.waiters().insert(
                msg_type,
                waiting(old.waiters(), msg_type).push(waiter),
            )
        },
    }
}

/// `item` was dispatched in `old`, leaving `new`, and `woken` was to be
/// woken: the message is kept behind the messages of its type, and the
/// waiters for its type were taken off their list, most recent
/// first, until one was found alive.
pub open spec fn dispatch_post<W, F: Fn(&W) -> bool>(
    old: QueueBasedLocalEntity<W>,
    new: QueueBasedLocalEntity<W>,
    item: IPCItem,
    is_live: F,
    woken: Option<W>,
) -> bool {
    let list = waiting(old.waiters(), item.msg_type);
    let kept = waiting(new.waiters(), item.msg_type).len();
    &&& same_config(old, new)
    &&& new.stash() == with_put(old.stash(), item)
    &&& new.waiters() == after_wake(old.waiters(), item.msg_type, kept)
    &&& wake_outcome(list, kept, woken, is_live)
}

impl<W> LocalEntityIf for QueueBasedLocalEntity<W> {
    open spec fn spec_deref(&self) -> IPCSharedEntity {
        self.spec_shared()
    }

    fn deref(&self) -> (r: &IPCSharedEntity) {
        &self.shared
    }

    fn send(&self, dst_id: u64, msg_type: u64, rep_type: u64, data: [u64; 8]) -> (r: Result<
        SendPlan,
        String,
    >) {
        plan_send(&self.shared, dst_id, msg_type, rep_type, data)
    }
}

impl<W> QueueBasedLocalEntity<W> {
    /// The entity is built on a queue-based shared entity.
    pub closed spec fn wf(&self) -> bool {
        self.shared is QueueBased
    }

    /// The shared part of the entity.
    pub closed spec fn spec_shared(&self) -> IPCSharedEntity {
        self.shared
    }

    /// Whether receivers are woken by notifications as well as by a
    /// dispatching task.
    pub closed spec fn spec_use_notify(&self) -> bool {
        self.use_notify
    }

    /// Whether a dispatching task distributes the messages by type (so that
    /// `recv` is available and `recv_any` is not).
    pub closed spec fn spec_use_default_dispatcher(&self) -> bool {
        self.use_default_dispatcher
    }

    /// Messages that wait for their receiver, by type, oldest first.
    pub closed spec fn stash(&self) -> Map<u64, Seq<Stashed>> {
        self.immediate_values@
    }

    /// Waiters by message type, most recent last.
    pub closed spec fn waiters(&self) -> Map<u64, Seq<W>> {
        self.wait_queue@.map_values(|v: Vec<W>| v@)
    }

    /// A local entity on the queue that registering gave (`registered`,
    /// `None` when registering failed), with nothing kept and nobody waiting.
    /// A registered queue id leaves the high byte of an entity id free.
    pub fn new(registered: Option<usize>, use_notify: bool, use_default_dispatcher: bool) -> (r:
        Result<Self, String>)
        requires
            registered matches Some(q) ==> queue_id_in_range(q),
        ensures
            match r {
                Ok(e) => {
                    &&& registered is Some
                    &&& e.wf()
                    &&& e.spec_shared()@ == (QUEUE_BASED_HIGH8, registered->Some_0)
                    &&& e.spec_use_notify() == use_notify
                    &&& e.spec_use_default_dispatcher() == use_default_dispatcher
                    &&& e.stash() == Map::<u64, Seq<Stashed>>::empty()
                    &&& e.waiters() == Map::<u64, Seq<W>>::empty()
                },
                Err(msg) => registered is None && msg@ == "register queue failed."@,
            },
    {
        match registered {
            Some(queue_id) => {
                let e = QueueBasedLocalEntity {
                    shared: IPCSharedEntity::QueueBased(QueueBasedSharedEntity::new(queue_id)),
                    use_notify,
                    use_default_dispatcher,
                    wait_queue: BTreeMap::new(),
                    immediate_values: Stash::new(),
                };
                proof {
                    assert(e.waiters() =~= Map::<u64, Seq<W>>::empty());
                }
                Ok(e)
            },
            None => {
                proof {
                    reveal_strlit("register queue failed.");
                }
                Err(from_literal("register queue failed."))
            },
        }
    }

    /// The shared part of the entity.
    pub fn shared(&self) -> (r: &IPCSharedEntity)
        ensures
            *r == self.spec_shared(),
    {
        &self.shared
    }

    /// Whether receivers are woken by notifications as well.
    pub fn use_notify(&self) -> (r: bool)
        ensures
            r == self.spec_use_notify(),
    {
        self.use_notify
    }

    /// Whether a dispatching task distributes the messages by type.
    pub fn use_default_dispatcher(&self) -> (r: bool)
        ensures
            r == self.spec_use_default_dispatcher(),
    {
        self.use_default_dispatcher
    }

    /// The queue that the entity receives from.
    pub fn queue_id(&self) -> (r: usize)
        ensures
            r == self.spec_shared()@.1,
    {
        match &self.shared {
            IPCSharedEntity::QueueBased(ent) => ent.queue_id(),
            IPCSharedEntity::SchedBased(ent) => ent.queue_id(),
        }
    }

    /// Whether `recv_any` may be used: only without the default dispatcher.
    pub fn check_recv_any(&self) -> (r: Result<(), String>)
        ensures
            match r {
                Ok(()) => !self.spec_use_default_dispatcher(),
                Err(msg) => self.spec_use_default_dispatcher()
                    && msg@ == "`recv_any` not supported with default dispatcher"@,
            },
    {
        if self.use_default_dispatcher {
            proof {
                reveal_strlit("`recv_any` not supported with default dispatcher");
            }
            Err(from_literal("`recv_any` not supported with default dispatcher"))
        } else {
            Ok(())
        }
    }

    /// A receiver of `msg_type` looks for its message: it takes the oldest
    /// message kept for its type if there is one; otherwise `waiter` is registered
    /// for the type, after those registered before it.
    pub fn poll_dispatch(&mut self, msg_type: u64, waiter: W) -> (r: Option<IPCItem>)
        ensures
            poll_dispatch_post(*old(self), *final(self), msg_type, waiter, r),
    {
        let taken = self.immediate_values.take(msg_type);
        if taken.is_some() {
            return taken;
        }
        let mut list = match self.wait_queue.remove(&msg_type) {
            Some(list) => list,
            None => Vec::new(),
        };
        proof {
            assert(list@ == waiting(old(self).waiters(), msg_type));
        }
        list.push(waiter);
        self.wait_queue.insert(msg_type, list);
        proof {
            assert(self.waiters() =~= old(self).waiters().insert(
                msg_type,
                waiting(old(self).waiters(), msg_type).push(waiter),
            ));
        }
        None
    }

    /// A message for another receiver left the queue: it is kept behind the
    /// messages of its type, and the waiters for that type are taken off their list, most
    /// recent first, until one is found alive by `is_live`; that one is
    /// returned, to be woken.
    pub fn dispatch<F: Fn(&W) -> bool>(&mut self, item: IPCItem, is_live: &F) -> (woken: Option<W>)
        requires
            forall|w: &W| is_live.requires((w,)),
        ensures
            dispatch_post(*old(self), *final(self), item, *is_live, woken),
    {
        self.immediate_values.put(item);
        let msg_type = item.msg_type;
        match self.wait_queue.remove(&msg_type) {
            None => {
                proof {
                    assert(self.wait_queue@ =~= old(self).wait_queue@);
                }
                None
            },
            Some(list) => {
                let ghost full = list@;
                let mut list = list;
                let mut woken: Option<W> = None;
                while list.len() > 0
                    invariant_except_break
                        woken is None,
                    invariant
                        list@ == full.take(list@.len() as int),
                        list@.len() <= full.len(),
                        forall|i: int| list@.len() < i < full.len() ==> is_live.ensures((&full[i],), false),
                        forall|w: &W| is_live.requires((w,)),
                        woken is None ==> forall|i: int| list@.len() <= i < full.len() ==> is_live.ensures((&full[i],), false),
                        woken matches Some(w) ==> list@.len() < full.len() && full[list@.len() as int] == w && is_live.ensures((&w,), true),
                    ensures
                        woken is None ==> list@.len() == 0,
                    decreases list@.len(),
                {
                    let w = list.pop().unwrap();
                    proof {
                        assert(full.take(list@.len() as int + 1)[list@.len() as int] == w);
                        assert(list@ =~= full.take(list@.len() as int));
                    }
                    if is_live(&w) {
                        woken = Some(w);
                        break;
                    }
                }
                self.wait_queue.insert(msg_type, list);
                proof {
                    assert(self.waiters() =~= after_wake(old(self).waiters(), msg_type, list@.len()));
                }
                woken
            },
        }
    }

    /// A receiver of `msg_type` took `item` from the queue: it is the
    /// receiver's own if it has that type; otherwise it is dispatched to its
    /// own receiver.
    pub fn route<F: Fn(&W) -> bool>(&mut self, msg_type: u64, item: IPCItem, is_live: &F) -> (r: Routed<W>)
        requires
            forall|w: &W| is_live.requires((w,)),
        ensures
            item.msg_type == msg_type ==> {
                &&& r == Routed::<W>::Deliver(item)
                &&& *final(self) == *old(self)
            },
            item.msg_type != msg_type ==> (r matches Routed::Stashed(woken) && dispatch_post(
                *old(self),
                *final(self),
                item,
                *is_live,
                woken,
            )),
    {
        if item.msg_type == msg_type {
            Routed::Deliver(item)
        } else {
            let woken = self.dispatch(item, is_live);
            Routed::Stashed(woken)
        }
    }
}

/// The key under which a receiver of any message type registers for
/// notification.
pub const ANY_MSG_TYPE: usize = usize::MAX;

/// The notification that follows a delivery to a queue whose owner has the
/// process id `pid`: `any_entry` is the notification id registered for any
/// message type and `typed_entry` the one registered for the message's type
/// (looked up only when there is none for any type). Nobody is notified when
/// `pid` is `0`. The result is `(pid, notification id)`.
pub fn notify_target(pid: usize, any_entry: Option<usize>, typed_entry: Option<usize>) -> (r: Option<
    (u64, u64),
>)
    ensures
        r == (if pid == 0 {
            None
        } else if any_entry is Some {
            Some((pid as u64, any_entry->Some_0 as u64))
        } else if typed_entry is Some {
            Some((pid as u64, typed_entry->Some_0 as u64))
        } else {
            None::<(u64, u64)>
        }),
{
    if pid == 0 {
        None
    } else {
        match any_entry {
            Some(ntf_id) => Some((pid as u64, ntf_id as u64)),
            None => match typed_entry {
                Some(ntf_id) => Some((pid as u64, ntf_id as u64)),
                None => None,
            },
        }
    }
}

/// One step of yielding to the executor: the first poll is pending (and the
/// task is woken at once, so it is polled again), the second is ready.
pub struct YieldNowFuture(bool);

impl YieldNowFuture {
    /// Whether the next poll is the first one.
    pub closed spec fn first_poll(&self) -> bool {
        self.0
    }

    /// A yield that has not been polled yet.
    pub fn new() -> (r: Self)
        ensures
            r.first_poll(),
    {
        YieldNowFuture(true)
    }

    /// Polls the yield; returns whether it is ready. When it is not, the
    /// caller wakes the task before returning pending.
    pub fn poll(&mut self) -> (ready: bool)
        ensures
            ready == !old(self).first_poll(),
            !final(self).first_poll(),
    {
        if self.0 {
            self.0 = false;
            false
        } else {
            true
        }
    }
}

/// What `recv_any` hands back of a message: its type, its reply type and its
/// data.
pub fn any_reply(item: IPCItem) -> (r: (u64, u64, [u64; 8]))
    ensures
        r == (item.msg_type, item.rep_type, item.data),
{
    (item.msg_type, item.rep_type, item.data)
}

} // verus!

verus! {

/// A message dispatched for a type while none of that type is kept is what
/// the next receiver of that type takes, and taking it leaves the kept
/// messages as they were before.
pub proof fn law_dispatched_message_is_received<W, F: Fn(&W) -> bool>(
    e0: QueueBasedLocalEntity<W>,
    e1: QueueBasedLocalEntity<W>,
    e2: QueueBasedLocalEntity<W>,
    item: IPCItem,
    is_live: F,
    woken: Option<W>,
    waiter: W,
    r: Option<IPCItem>,
)
    requires
        kept(e0.stash(), item.msg_type).len() == 0,
        dispatch_post(e0, e1, item, is_live, woken),
        poll_dispatch_post(e1, e2, item.msg_type, waiter, r),
    ensures
        r == Some(item),
        e2.stash() == e0.stash().insert(item.msg_type, Seq::empty()),
{
    assert(kept(e1.stash(), item.msg_type) =~= seq![item.stashed()]);
    assert(kept(e1.stash(), item.msg_type).drop_first() =~= Seq::<Stashed>::empty());
    assert(e2.stash() =~= e0.stash().insert(item.msg_type, Seq::empty()));
}

/// No message is lost: of two messages of one type dispatched before any
/// receiver of that type looks (none of that type being kept before), the
/// first receiver takes the first message and the next receiver the second.
pub proof fn law_messages_of_a_type_received_in_order<W, F: Fn(&W) -> bool>(
    e0: QueueBasedLocalEntity<W>,
    e1: QueueBasedLocalEntity<W>,
    e2: QueueBasedLocalEntity<W>,
    e3: QueueBasedLocalEntity<W>,
    e4: QueueBasedLocalEntity<W>,
    first: IPCItem,
    second: IPCItem,
    is_live: F,
    woken1: Option<W>,
    woken2: Option<W>,
    waiter1: W,
    waiter2: W,
    r1: Option<IPCItem>,
    r2: Option<IPCItem>,
)
    requires
        first.msg_type == second.msg_type,
        kept(e0.stash(), first.msg_type).len() == 0,
        dispatch_post(e0, e1, first, is_live, woken1),
        dispatch_post(e1, e2, second, is_live, woken2),
        poll_dispatch_post(e2, e3, first.msg_type, waiter1, r1),
        poll_dispatch_post(e3, e4, first.msg_type, waiter2, r2),
    ensures
        r1 == Some(first),
        r2 == Some(second),
        kept(e4.stash(), first.msg_type).len() == 0,
{
    let t = first.msg_type;
    assert(kept(e2.stash(), t) =~= seq![first.stashed(), second.stashed()]);
    assert(kept(e3.stash(), t) =~= seq![second.stashed()]);
}

/// The receiver that registered last for a type is the one that the next
/// message of that type wakes, unless the liveness check found it no longer
/// waiting.
pub proof fn law_latest_waiter_is_woken<W, F: Fn(&W) -> bool>(
    e0: QueueBasedLocalEntity<W>,
    e1: QueueBasedLocalEntity<W>,
    e2: QueueBasedLocalEntity<W>,
    waiter: W,
    item: IPCItem,
    is_live: F,
    woken: Option<W>,
)
    requires
        poll_dispatch_post(e0, e1, item.msg_type, waiter, None),
        dispatch_post(e1, e2, item, is_live, woken),
    ensures
        woken == Some(waiter) || is_live.ensures((&waiter,), false),
{
    let list = waiting(e1.waiters(), item.msg_type);
    let kept = waiting(e2.waiters(), item.msg_type).len();
    assert(list == waiting(e0.waiters(), item.msg_type).push(waiter));
    let last = list.len() - 1;
    assert(list[last] == waiter);
    match woken {
        Some(w) => {
            if kept < last {
                assert(is_live.ensures((&list[last],), false));
            }
        },
        None => {
            assert(is_live.ensures((&list[last],), false));
        },
    }
}

/// One step of a queue-based entity on the messages of its receivers.
pub enum DispatchStep<W, F> {
    /// `dispatch` of a message, with the liveness check it was given and the
    /// waiter it woke.
    Dispatch(IPCItem, F, Option<W>),
    /// `poll_dispatch` of a receiver of a type, with its waiter and what it
    /// got.
    Poll(u64, W, Option<IPCItem>),
}

impl<W, F> DispatchStep<W, F> {
    /// What the step does to the kept messages.
    pub open spec fn stash_op(self) -> StashOp {
        match self {
            DispatchStep::Dispatch(item, _, _) => StashOp::Put(item),
            DispatchStep::Poll(msg_type, _, r) => StashOp::Take(msg_type, r),
        }
    }
}

/// `step` took the entity from `old` to `new`, as `dispatch` and
/// `poll_dispatch` state it. (A `route` of a message of another type is a
/// dispatch; one of the receiver's own type leaves the entity as it was.)
pub open spec fn dispatch_step_post<W, F: Fn(&W) -> bool>(
    old: QueueBasedLocalEntity<W>,
    new: QueueBasedLocalEntity<W>,
    step: DispatchStep<W, F>,
) -> bool {
    match step {
        DispatchStep::Dispatch(item, is_live, woken) => dispatch_post(old, new, item, is_live, woken),
        DispatchStep::Poll(msg_type, waiter, r) => poll_dispatch_post(old, new, msg_type, waiter, r),
    }
}

/// A run of `steps` that took the entity through `states`.
pub open spec fn dispatch_run<W, F: Fn(&W) -> bool>(
    states: Seq<QueueBasedLocalEntity<W>>,
    steps: Seq<DispatchStep<W, F>>,
) -> bool {
    &&& states.len() == steps.len() + 1
    &&& forall|i: int|
        0 <= i < steps.len() ==> dispatch_step_post(states[i], states[i + 1], #[trigger] steps[i])
}

/// The steps of a run as steps on the kept messages.
pub open spec fn dispatch_stash_ops<W, F>(steps: Seq<DispatchStep<W, F>>) -> Seq<StashOp> {
    steps.map_values(|step: DispatchStep<W, F>| step.stash_op())
}

/// A receiver that takes its messages in a loop loses none: over any run of
/// dispatches and receives, for every message type, the messages of that
/// type kept at the start followed by those dispatched are, in order, those
/// that the receivers of that type took followed by those still kept at the
/// end. Each message is taken once, and in the order in which it came.
pub proof fn law_no_message_lost_between_receives<W, F: Fn(&W) -> bool>(
    states: Seq<QueueBasedLocalEntity<W>>,
    steps: Seq<DispatchStep<W, F>>,
    msg_type: u64,
)
    requires
        dispatch_run(states, steps),
    ensures
        kept(states[0].stash(), msg_type) + sent_of(dispatch_stash_ops(steps), msg_type) == received_of(
            dispatch_stash_ops(steps),
            msg_type,
        ) + kept(states.last().stash(), msg_type),
{
    let stashes = states.map_values(|e: QueueBasedLocalEntity<W>| e.stash());
    let ops = dispatch_stash_ops(steps);
    assert forall|i: int| 0 <= i < ops.len() implies crate::stash::stash_op_post(
        stashes[i],
        stashes[i + 1],
        #[trigger] ops[i],
    ) by {
        assert(dispatch_step_post(states[i], states[i + 1], steps[i]));
    }
    assert(stash_run(stashes, ops));
    law_no_message_lost(stashes, ops, msg_type);
}

/// Dispatching a message of one type touches only that type: the waiters
/// registered for every other type, and the messages kept for it, are as
/// they were.
pub proof fn law_dispatch_leaves_other_types<W, F: Fn(&W) -> bool>(
    e0: QueueBasedLocalEntity<W>,
    e1: QueueBasedLocalEntity<W>,
    item: IPCItem,
    is_live: F,
    woken: Option<W>,
    other: u64,
)
    requires
        dispatch_post(e0, e1, item, is_live, woken),
        other != item.msg_type,
    ensures
        waiting(e1.waiters(), other) == waiting(e0.waiters(), other),
        kept(e1.stash(), other) == kept(e0.stash(), other),
{
}

/// Dispatching a message wakes, if anyone, a waiter that was registered for
/// the message's own type, and leaves registered for that type exactly the
/// waiters registered before it (none of them found dead is kept, none
/// registered is lost from the front).
pub proof fn law_dispatch_wakes_a_waiter_of_its_type<W, F: Fn(&W) -> bool>(
    e0: QueueBasedLocalEntity<W>,
    e1: QueueBasedLocalEntity<W>,
    item: IPCItem,
    is_live: F,
    woken: Option<W>,
)
    requires
        dispatch_post(e0, e1, item, is_live, woken),
    ensures
        woken matches Some(w) ==> {
            let before = waiting(e0.waiters(), item.msg_type);
            let after = waiting(e1.waiters(), item.msg_type);
            &&& after.len() < before.len()
            &&& before[after.len() as int] == w
            &&& after == before.subrange(0, after.len() as int)
        },
        woken is None ==> waiting(e1.waiters(), item.msg_type).len() == 0,
        kept(e1.stash(), item.msg_type) == kept(e0.stash(), item.msg_type).push(item.stashed()),
{
    let t = item.msg_type;
    if e0.waiters().contains_key(t) {
        assert(waiting(e1.waiters(), t) == waiting(e0.waiters(), t).take(waiting(e1.waiters(), t).len() as int));
    }
}

/// A receiver that finds a kept message takes it without touching any
/// registration; one that finds none registers its own waiter behind the
/// others of its type and touches no other type.
pub proof fn law_receive_touches_only_its_own_registration<W>(
    e0: QueueBasedLocalEntity<W>,
    e1: QueueBasedLocalEntity<W>,
    msg_type: u64,
    waiter: W,
    r: Option<IPCItem>,
    other: u64,
)
    requires
        poll_dispatch_post(e0, e1, msg_type, waiter, r),
        other != msg_type,
    ensures
        r is Some ==> e1.waiters() == e0.waiters(),
        r matches Some(item) ==> item.msg_type == msg_type,
        r is None ==> waiting(e1.waiters(), msg_type) == waiting(e0.waiters(), msg_type).push(waiter),
        waiting(e1.waiters(), other) == waiting(e0.waiters(), other),
        kept(e1.stash(), other) == kept(e0.stash(), other),
{
}

/// A receiver still waiting is not forgotten when another receiver of its
/// type takes a message: after waiters `a` then `b` registered for a type by
/// missing, a message of that type woke `b`, and a third receiver took a
/// kept message of that type, the next message of that type wakes `a`
/// unless the liveness check finds it dead (`a` and `b` being different
/// receivers).
pub proof fn law_waiting_receiver_survives_other_receives<W, F: Fn(&W) -> bool>(
    e0: QueueBasedLocalEntity<W>,
    e1: QueueBasedLocalEntity<W>,
    e2: QueueBasedLocalEntity<W>,
    e3: QueueBasedLocalEntity<W>,
    e4: QueueBasedLocalEntity<W>,
    e5: QueueBasedLocalEntity<W>,
    t: u64,
    a: W,
    b: W,
    c: W,
    m1: IPCItem,
    m2: IPCItem,
    is_live1: F,
    is_live2: F,
    got: IPCItem,
    woken2: Option<W>,
)
    requires
        waiting(e0.waiters(), t).len() == 0,
        a != b,
        m1.msg_type == t,
        m2.msg_type == t,
        poll_dispatch_post(e0, e1, t, a, None),
        poll_dispatch_post(e1, e2, t, b, None),
        dispatch_post(e2, e3, m1, is_live1, Some(b)),
        poll_dispatch_post(e3, e4, t, c, Some(got)),
        dispatch_post(e4, e5, m2, is_live2, woken2),
    ensures
        woken2 == Some(a) || is_live2.ensures((&a,), false),
{
    assert(waiting(e2.waiters(), t) =~= seq![a, b]);
    let kept3 = waiting(e3.waiters(), t).len();
    assert(kept3 == 1);
    assert(waiting(e3.waiters(), t) =~= seq![a]);
    assert(waiting(e4.waiters(), t) =~= seq![a]);
    let list = waiting(e4.waiters(), t);
    assert(list[0] == a);
    assert(wake_outcome(list, waiting(e5.waiters(), t).len(), woken2, is_live2));
    if woken2 is None {
        assert(is_live2.ensures((&list[0],), false));
    }
}

} // verus!
