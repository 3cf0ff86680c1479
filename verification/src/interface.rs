//! The interface shared by every kind of IPC entity, and the entity type that
//! carries the kind of an entity in the high byte of its id.
use vstd::prelude::*;

use crate::item::IPCItem;
use crate::queue_based::QueueBasedSharedEntity;
use crate::sched_based::SchedBasedSharedEntity;
use crate::text::{decimal, from_literal, push_decimal};

verus! {

/// High byte of the id of a queue-based entity.
pub const QUEUE_BASED_HIGH8: u64 = 0x0100_0000_0000_0000;

/// High byte of the id of an entity integrated with the scheduler.
pub const SCHED_BASED_HIGH8: u64 = 0x0200_0000_0000_0000;

/// The bits of an id that name the kind of the entity.
pub const KIND_MASK: u64 = 0xFF00_0000_0000_0000;

/// The bits of an id that name the queue of the entity.
pub const QUEUE_MASK: u64 = 0x00FF_FFFF_FFFF_FFFF;

/// Kind bits of an id.
pub open spec fn kind_bits(id: u64) -> u64 {
    id & KIND_MASK
}

/// Queue bits of an id.
pub open spec fn queue_bits(id: u64) -> u64 {
    id & QUEUE_MASK
}

/// Whether a queue id can stand in the low bits of an entity id without
/// touching the kind byte.
pub open spec fn queue_id_in_range(queue_id: usize) -> bool {
    (queue_id as u64) < 0x0100_0000_0000_0000
}

/// Where a message goes and what follows its delivery.
///
/// The message is pushed onto the queue `queue_id`; when `notify` holds, the
/// process that owns the queue is then told of it (see
/// [`crate::queue_based::notify_target`]).
#[derive(Clone, Copy, Debug)]
pub struct SendPlan {
    pub queue_id: usize,
    pub item: IPCItem,
    pub notify: bool,
}

/// The part of an IPC entity that can be shared between processes.
///
/// A shared entity converts to and from an id, and tells where a message sent
/// to it goes.
pub trait SharedEntityIf: Sized {
    /// The id of the entity.
    spec fn spec_id(&self) -> u64;

    /// The queue that messages sent to the entity go to.
    spec fn spec_queue(&self) -> usize;

    /// Whether the owner of the queue is notified after a delivery.
    spec fn spec_notifies(&self) -> bool;

    /// Whether decoding `id` and encoding the result gives `id` back on this
    /// machine (the queue part of `id` fits in a `usize`).
    spec fn id_fits(id: u64) -> bool;

    /// Whether `id` is one that this kind of entity gives out (an id of an
    /// entity of this kind is always one).
    spec fn accepts_id(id: u64) -> bool;

    /// The id of the entity.
    fn id(&self) -> (r: u64)
        ensures
            r == self.spec_id(),
    ;

    /// The entity that `id` names; `id` must be one that this kind of entity
    /// gives out.
    fn from_id(id: u64) -> (r: Result<Self, String>)
        requires
            Self::accepts_id(id),
        ensures
            Self::id_fits(id) ==> (r matches Ok(e) ==> e.spec_id() == id),
    ;

    /// Where `item` goes when it is sent to this entity.
    fn send_to(&self, item: IPCItem) -> (plan: SendPlan)
        ensures
            plan.queue_id == self.spec_queue(),
            plan.item == item,
            plan.notify == self.spec_notifies(),
    ;
}

/// An IPC entity of either kind, as it is shared between processes.
///
/// Its id carries the kind in the high byte, so that ids of entities of
/// different kinds never collide and an id can be turned back into an entity.
#[derive(Clone, Copy)]
pub enum IPCSharedEntity {
    /// An entity based on a plain message queue.
    QueueBased(QueueBasedSharedEntity),
    /// An entity whose queue is an event source of the scheduler.
    SchedBased(SchedBasedSharedEntity),
}

/// The text of the error for an id of no known kind.
pub open spec fn unknown_kind_message(id: u64) -> Seq<char> {
    "Unknown IPC entity type with id: "@ + decimal(id as nat)
}

impl View for IPCSharedEntity {
    /// The kind byte and the queue of the entity.
    type V = (u64, usize);

    open spec fn view(&self) -> (u64, usize) {
        match self {
            IPCSharedEntity::QueueBased(e) => (QUEUE_BASED_HIGH8, e.spec_queue()),
            IPCSharedEntity::SchedBased(e) => (SCHED_BASED_HIGH8, e.spec_queue()),
        }
    }
}

impl IPCSharedEntity {
    /// The queue of the entity; it leaves the kind byte of an id clear.
    pub fn queue_id(&self) -> (r: usize)
        ensures
            r == self@.1,
            queue_id_in_range(r),
    {
        match self {
            IPCSharedEntity::QueueBased(e) => e.queue_id(),
            IPCSharedEntity::SchedBased(e) => e.queue_id(),
        }
    }

    /// Whether `id` names an entity of a known kind.
    pub open spec fn known_kind(id: u64) -> bool {
        kind_bits(id) == QUEUE_BASED_HIGH8 || kind_bits(id) == SCHED_BASED_HIGH8
    }

    /// The entity that an id of a known kind names, by its view.
    pub open spec fn decoded(id: u64) -> (u64, usize) {
        (kind_bits(id), queue_bits(id) as usize)
    }
}

impl SharedEntityIf for IPCSharedEntity {
    open spec fn spec_id(&self) -> u64 {
        self@.0 | (self@.1 as u64)
    }

    open spec fn spec_queue(&self) -> usize {
        self@.1
    }

    open spec fn spec_notifies(&self) -> bool {
        self is QueueBased
    }

    open spec fn id_fits(id: u64) -> bool {
        ((queue_bits(id) as usize) as u64) == queue_bits(id)
    }

    /// Any id: one of no known kind is refused with an error.
    open spec fn accepts_id(id: u64) -> bool {
        true
    }

    /// The id, with the kind in the high byte and the queue in the others:
    /// it decodes to this entity.
    fn id(&self) -> (r: u64)
        ensures
            kind_bits(r) == self@.0,
            Self::known_kind(r),
            Self::decoded(r) == self@,
    {
        let (high, low) = match self {
            IPCSharedEntity::QueueBased(ent) => (QUEUE_BASED_HIGH8, ent.id()),
            IPCSharedEntity::SchedBased(ent) => (SCHED_BASED_HIGH8, ent.id()),
        };
        proof {
            assert(low >> 56 == 0 ==> low < 0x0100_0000_0000_0000) by (bit_vector);
            lemma_compose(high, low);
        }
        high | low
    }

    /// The entity that an id with a kind byte names.
    fn from_id(id: u64) -> (r: Result<Self, String>)
        ensures
            match r {
                Ok(e) => Self::known_kind(id) && e@ == Self::decoded(id),
                Err(msg) => !Self::known_kind(id) && msg@ == unknown_kind_message(id),
            },
    {
        let high8 = id & KIND_MASK;
        let low = id & QUEUE_MASK;
        proof {
            lemma_id_parts(id);
        }
        if high8 == QUEUE_BASED_HIGH8 {
            let ent = QueueBasedSharedEntity::from_id(low);
            match ent {
                Ok(ent) => Ok(IPCSharedEntity::QueueBased(ent)),
                Err(e) => Err(e),
            }
        } else if high8 == SCHED_BASED_HIGH8 {
            let ent = SchedBasedSharedEntity::from_id(low);
            match ent {
                Ok(ent) => Ok(IPCSharedEntity::SchedBased(ent)),
                Err(e) => Err(e),
            }
        } else {
            let mut msg = from_literal("Unknown IPC entity type with id: ");
            push_decimal(&mut msg, id);
            Err(msg)
        }
    }

    fn send_to(&self, item: IPCItem) -> (plan: SendPlan) {
        match self {
            IPCSharedEntity::QueueBased(ent) => ent.send_to(item),
            IPCSharedEntity::SchedBased(ent) => ent.send_to(item),
        }
    }
}

/// The kind bits and queue bits of an id put together give the id back; an
/// id made of a kind byte and a queue id in range splits back into them.
proof fn lemma_id_parts(id: u64)
    ensures
        (id & KIND_MASK) | (id & QUEUE_MASK) == id,
        (id & QUEUE_MASK) < 0x0100_0000_0000_0000,
{
    assert((id & 0xFF00_0000_0000_0000u64) | (id & 0x00FF_FFFF_FFFF_FFFFu64) == id) by (bit_vector);
    assert((id & 0x00FF_FFFF_FFFF_FFFFu64) < 0x0100_0000_0000_0000u64) by (bit_vector);
}

proof fn lemma_compose(high: u64, q: u64)
    requires
        high == QUEUE_BASED_HIGH8 || high == SCHED_BASED_HIGH8,
        q < 0x0100_0000_0000_0000,
    ensures
        (high | q) & KIND_MASK == high,
        (high | q) & QUEUE_MASK == q,
{
    assert((high == 0x0100_0000_0000_0000u64 || high == 0x0200_0000_0000_0000u64)
        && q < 0x0100_0000_0000_0000u64 ==> (high | q) & 0xFF00_0000_0000_0000u64 == high
        && (high | q) & 0x00FF_FFFF_FFFF_FFFFu64 == q) by (bit_vector);
}

/// What a delivery gives back, `pushed` telling whether the queue took the
/// message.
pub fn send_result(pushed: bool) -> (r: Result<(), String>)
    ensures
        match r {
            Ok(()) => pushed,
            Err(msg) => !pushed && msg@ == "send failed"@,
        },
{
    if pushed {
        Ok(())
    } else {
        proof {
            reveal_strlit("send failed");
        }
        Err(from_literal("send failed"))
    }
}

/// The IPC entity that a local entity holds, and the sending that every
/// local entity offers on top of it.
pub trait LocalEntityIf {
    /// The shared part of the local entity.
    spec fn spec_deref(&self) -> IPCSharedEntity;

    /// The shared part of the local entity.
    fn deref(&self) -> (r: &IPCSharedEntity)
        ensures
            *r == self.spec_deref(),
    ;

    /// Where a message from this entity to the entity `dst_id` goes: the
    /// queue that `dst_id` names, with this entity as its sender. Fails when
    /// `dst_id` names no known kind of entity.
    fn send(&self, dst_id: u64, msg_type: u64, rep_type: u64, data: [u64; 8]) -> (r: Result<
        SendPlan,
        String,
    >)
        ensures
            match r {
                Ok(plan) => {
                    &&& IPCSharedEntity::known_kind(dst_id)
                    &&& plan.queue_id == IPCSharedEntity::decoded(dst_id).1
                    &&& plan.notify == (kind_bits(dst_id) == QUEUE_BASED_HIGH8)
                    &&& plan.item == (IPCItem {
                        sender: self.spec_deref().spec_id(),
                        msg_type,
                        rep_type,
                        data,
                    })
                },
                Err(msg) => !IPCSharedEntity::known_kind(dst_id) && msg@ == unknown_kind_message(
                    dst_id,
                ),
            },
    ;
}

/// Where a message from `sender` to the entity `dst_id` goes: the queue that
/// `dst_id` names, with `sender` as the sender. Fails when `dst_id` names no
/// known kind of entity.
pub fn plan_send(sender: &IPCSharedEntity, dst_id: u64, msg_type: u64, rep_type: u64, data: [u64; 8]) -> (r:
    Result<SendPlan, String>)
    ensures
        match r {
            Ok(plan) => {
                &&& IPCSharedEntity::known_kind(dst_id)
                &&& plan.queue_id == IPCSharedEntity::decoded(dst_id).1
                &&& plan.notify == (kind_bits(dst_id) == QUEUE_BASED_HIGH8)
                &&& plan.item == (IPCItem {
                    sender: sender.spec_id(),
                    msg_type,
                    rep_type,
                    data,
                })
            },
            Err(msg) => !IPCSharedEntity::known_kind(dst_id) && msg@ == unknown_kind_message(dst_id),
        },
{
    let dst = IPCSharedEntity::from_id(dst_id);
    match dst {
        Ok(dst) => {
            let sender_id = sender.id();
            let item = IPCItem::new(sender_id, msg_type, rep_type, data);
            Ok(dst.send_to(item))
        },
        Err(msg) => Err(msg),
    }
}

/// Turning an entity into its id and the id back into an entity gives the
/// same entity, when its queue id leaves the kind byte clear.
pub proof fn law_id_round_trip(e: IPCSharedEntity)
    requires
        queue_id_in_range(e@.1),
    ensures
        IPCSharedEntity::known_kind(e.spec_id()),
        IPCSharedEntity::decoded(e.spec_id()) == e@,
{
    lemma_compose(e@.0, e@.1 as u64);
}

/// An id that names an entity of a known kind is that entity's id.
pub proof fn law_decode_then_id(id: u64)
    requires
        IPCSharedEntity::known_kind(id),
        IPCSharedEntity::id_fits(id),
    ensures
        IPCSharedEntity::decoded(id).0 | (IPCSharedEntity::decoded(id).1 as u64) == id,
{
    lemma_id_parts(id);
}

} // verus!
