//! The message that travels through an IPC queue.
use vstd::prelude::*;

verus! {

/// One IPC message.
///
/// `msg_type` selects the receiver inside the destination process,
/// `rep_type` is the type under which the reply is expected.
#[derive(Clone, Copy, Debug)]
pub struct IPCItem {
    pub sender: u64,
    pub msg_type: u64,
    pub rep_type: u64,
    pub data: [u64; 8],
}

/// What an entity keeps of a message while it waits for its receiver:
/// `(sender, rep_type, data)`, the message type being the key it is kept under.
pub type Stashed = (u64, u64, [u64; 8]);

impl IPCItem {
    /// The part of the message that is kept while it waits for its receiver.
    pub open spec fn stashed(self) -> Stashed {
        (self.sender, self.rep_type, self.data)
    }

    /// The message rebuilt from what was kept of it under `msg_type`.
    pub open spec fn from_stashed(msg_type: u64, s: Stashed) -> IPCItem {
        IPCItem { sender: s.0, msg_type, rep_type: s.1, data: s.2 }
    }

    /// Builds a message.
    pub fn new(sender: u64, msg_type: u64, rep_type: u64, data: [u64; 8]) -> (r: IPCItem)
        ensures
            r == (IPCItem { sender, msg_type, rep_type, data }),
    {
        IPCItem { sender, msg_type, rep_type, data }
    }

    /// Splits a message into its type and what is kept of it.
    pub fn split(self) -> (r: (u64, Stashed))
        ensures
            r.0 == self.msg_type,
            r.1 == self.stashed(),
    {
        (self.msg_type, (self.sender, self.rep_type, self.data))
    }

    /// Rebuilds the message kept under `msg_type`.
    pub fn join(msg_type: u64, s: Stashed) -> (r: IPCItem)
        ensures
            r == IPCItem::from_stashed(msg_type, s),
    {
        IPCItem { sender: s.0, msg_type, rep_type: s.1, data: s.2 }
    }
}

} // verus!
