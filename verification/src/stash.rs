//! Messages that have left the queue and wait for their receiver, kept by
//! message type in the order in which they arrived: none is lost, and the
//! receivers of a type get its messages first come, first served.
use vstd::prelude::*;

use crate::item::{IPCItem, Stashed};
use std::collections::{BTreeMap, VecDeque};

verus! {

broadcast use vstd::laws_cmp::group_laws_cmp;

/// Messages waiting for their receiver, by message type, oldest first.
pub struct Stash {
    values: BTreeMap<u64, VecDeque<Stashed>>,
}

/// The messages kept under `msg_type`, oldest first.
pub open spec fn kept(m: Map<u64, Seq<Stashed>>, msg_type: u64) -> Seq<Stashed> {
    if m.contains_key(msg_type) {
        m[msg_type]
    } else {
        Seq::empty()
    }
}

/// The kept messages after `item` arrived: it is kept behind the messages of
/// its type.
pub open spec fn with_put(m: Map<u64, Seq<Stashed>>, item: IPCItem) -> Map<u64, Seq<Stashed>> {
    m.insert(item.msg_type, kept(m, item.msg_type).push(item.stashed()))
}

/// The kept messages after the oldest of type `msg_type` was taken.
pub open spec fn with_taken(m: Map<u64, Seq<Stashed>>, msg_type: u64) -> Map<u64, Seq<Stashed>> {
    m.insert(msg_type, kept(m, msg_type).drop_first())
}

impl View for Stash {
    type V = Map<u64, Seq<Stashed>>;

    closed spec fn view(&self) -> Map<u64, Seq<Stashed>> {
        self.values@.map_values(|q: VecDeque<Stashed>| q@)
    }
}

impl Stash {
    /// An empty stash.
    pub fn new() -> (r: Stash)
        ensures
            r@ == Map::<u64, Seq<Stashed>>::empty(),
    {
        let r = Stash { values: BTreeMap::new() };
        proof {
            assert(r@ =~= Map::<u64, Seq<Stashed>>::empty());
        }
        r
    }

    /// Keeps `item` behind the messages of its type.
    pub fn put(&mut self, item: IPCItem)
        ensures
            final(self)@ == with_put(old(self)@, item),
    {
        let (msg_type, stashed) = item.split();
        let mut list = match self.values.remove(&msg_type) {
            Some(list) => list,
            None => VecDeque::new(),
        };
        proof {
            assert(list@ == kept(old(self)@, msg_type));
        }
        list.push_back(stashed);
        self.values.insert(msg_type, list);
        proof {
            assert(self@ =~= with_put(old(self)@, item));
        }
    }

    /// Takes out the oldest message kept under `msg_type`, if any.
    pub fn take(&mut self, msg_type: u64) -> (r: Option<IPCItem>)
        ensures
            match r {
                Some(item) => {
                    &&& kept(old(self)@, msg_type).len() > 0
                    &&& item == IPCItem::from_stashed(msg_type, kept(old(self)@, msg_type)[0])
                    &&& final(self)@ == with_taken(old(self)@, msg_type)
                },
                None => {
                    &&& kept(old(self)@, msg_type).len() == 0
                    &&& final(self)@ == old(self)@
                },
            },
    {
        match self.values.remove(&msg_type) {
            None => {
                proof {
                    assert(self@ =~= old(self)@);
                }
                None
            },
            Some(mut list) => {
                proof {
                    assert(list@ == kept(old(self)@, msg_type));
                }
                match list.pop_front() {
                    Some(stashed) => {
                        self.values.insert(msg_type, list);
                        proof {
                            assert(self@ =~= with_taken(old(self)@, msg_type));
                        }
                        Some(IPCItem::join(msg_type, stashed))
                    },
                    None => {
                        self.values.insert(msg_type, list);
                        proof {
                            assert(self@ =~= old(self)@);
                        }
                        None
                    },
                }
            },
        }
    }
}

/// Of the messages of one type, the oldest kept is taken first: putting a
/// message behind those of its type leaves the oldest one in front, and once
/// the earlier ones are taken the new one comes out.
pub proof fn law_kept_in_arrival_order(m: Map<u64, Seq<Stashed>>, item: IPCItem)
    ensures
        kept(with_put(m, item), item.msg_type) == kept(m, item.msg_type).push(item.stashed()),
        kept(m, item.msg_type).len() == 0 ==> IPCItem::from_stashed(
            item.msg_type,
            kept(with_put(m, item), item.msg_type)[0],
        ) == item,
{
}

/// One step on the kept messages: a message put in, or a receiver of a type
/// taking (or not finding) one.
pub enum StashOp {
    /// `put` of a message.
    Put(IPCItem),
    /// `take` for a message type, with what it gave.
    Take(u64, Option<IPCItem>),
}

/// `op` took the kept messages from `old` to `new`, as `put` and `take`
/// state it.
pub open spec fn stash_op_post(old: Map<u64, Seq<Stashed>>, new: Map<u64, Seq<Stashed>>, op: StashOp) -> bool {
    match op {
        StashOp::Put(item) => new == with_put(old, item),
        StashOp::Take(msg_type, r) => match r {
            Some(item) => {
                &&& kept(old, msg_type).len() > 0
                &&& item == IPCItem::from_stashed(msg_type, kept(old, msg_type)[0])
                &&& new == with_taken(old, msg_type)
            },
            None => {
                &&& kept(old, msg_type).len() == 0
                &&& new == old
            },
        },
    }
}

/// The messages of type `msg_type` put in by `ops`, in order.
pub open spec fn sent_of(ops: Seq<StashOp>, msg_type: u64) -> Seq<Stashed>
    decreases ops.len(),
{
    if ops.len() == 0 {
        Seq::empty()
    } else {
        let before = sent_of(ops.drop_last(), msg_type);
        match ops.last() {
            StashOp::Put(item) => if item.msg_type == msg_type {
                before.push(item.stashed())
            } else {
                before
            },
            StashOp::Take(_, _) => before,
        }
    }
}

/// The messages that receivers of type `msg_type` took in `ops`, in order.
pub open spec fn received_of(ops: Seq<StashOp>, msg_type: u64) -> Seq<Stashed>
    decreases ops.len(),
{
    if ops.len() == 0 {
        Seq::empty()
    } else {
        let before = received_of(ops.drop_last(), msg_type);
        match ops.last() {
            StashOp::Take(t, Some(item)) => if t == msg_type {
                before.push(item.stashed())
            } else {
                before
            },
            _ => before,
        }
    }
}

/// A run of `ops` that took the kept messages through `stashes`.
pub open spec fn stash_run(stashes: Seq<Map<u64, Seq<Stashed>>>, ops: Seq<StashOp>) -> bool {
    &&& stashes.len() == ops.len() + 1
    &&& forall|i: int| 0 <= i < ops.len() ==> stash_op_post(stashes[i], stashes[i + 1], #[trigger] ops[i])
}

proof fn lemma_run_prefix(stashes: Seq<Map<u64, Seq<Stashed>>>, ops: Seq<StashOp>, msg_type: u64, k: int)
    requires
        stash_run(stashes, ops),
        0 <= k <= ops.len(),
    ensures
        kept(stashes[0], msg_type) + sent_of(ops.take(k), msg_type) == received_of(ops.take(k), msg_type)
            + kept(stashes[k], msg_type),
    decreases k,
{
    let t = msg_type;
    if k == 0 {
        assert(ops.take(0) =~= Seq::<StashOp>::empty());
        assert(kept(stashes[0], t) + Seq::<Stashed>::empty() =~= Seq::<Stashed>::empty() + kept(stashes[0], t));
    } else {
        lemma_run_prefix(stashes, ops, msg_type, k - 1);
        let pre = ops.take(k);
        assert(pre.drop_last() =~= ops.take(k - 1));
        assert(pre.last() == ops[k - 1]);
        let old = stashes[k - 1];
        let new = stashes[k];
        assert(stash_op_post(old, new, ops[k - 1]));
        let k0 = kept(stashes[0], t);
        let s0 = sent_of(ops.take(k - 1), t);
        let r0 = received_of(ops.take(k - 1), t);
        match ops[k - 1] {
            StashOp::Put(item) => {
                if item.msg_type == t {
                    assert(kept(new, t) == kept(old, t).push(item.stashed()));
                    assert(k0 + s0.push(item.stashed()) =~= (k0 + s0).push(item.stashed()));
                    assert(r0 + kept(old, t).push(item.stashed()) =~= (r0 + kept(old, t)).push(item.stashed()));
                } else {
                    assert(kept(new, t) == kept(old, t));
                }
            },
            StashOp::Take(u, r) => {
                match r {
                    Some(item) => {
                        if u == t {
                            let ko = kept(old, t);
                            assert(kept(new, t) == ko.drop_first());
                            assert(item.stashed() == ko[0]);
                            assert(r0 + ko =~= r0.push(item.stashed()) + ko.drop_first());
                        } else {
                            assert(kept(new, t) == kept(old, t));
                        }
                    },
                    None => {},
                }
            },
        }
    }
}

/// No message is lost and none is taken twice: over any run of puts and
/// takes, for every message type, the messages kept at the start followed by
/// those put in are, in order, those that receivers of that type took
/// followed by those still kept at the end.
pub proof fn law_no_message_lost(stashes: Seq<Map<u64, Seq<Stashed>>>, ops: Seq<StashOp>, msg_type: u64)
    requires
        stash_run(stashes, ops),
    ensures
        kept(stashes[0], msg_type) + sent_of(ops, msg_type) == received_of(ops, msg_type) + kept(
            stashes.last(),
            msg_type,
        ),
{
    lemma_run_prefix(stashes, ops, msg_type, ops.len() as int);
    assert(ops.take(ops.len() as int) =~= ops);
}

} // verus!
