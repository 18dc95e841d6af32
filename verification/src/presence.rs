//! The user-presence flag: a process-wide advisory signal that a long-running
//! operation is awaiting an external confirmation (typically a touch).
//!
//! The flag is explicit state threaded through the tick calls that read it.
//! It gates nothing: protocol handlers store it, the keepalive scheduler for
//! the authenticator protocol reads it to pick the content of the next
//! keepalive message.

use vstd::prelude::*;

verus! {

/// Whether a long-running operation currently awaits a user-presence
/// confirmation. Created once at process start (initially not waiting),
/// written by protocol handlers, read by the keepalive schedulers.
pub struct UserPresenceStatus {
    waiting: bool,
}

impl UserPresenceStatus {
    /// The value the most recent store left in the flag.
    pub closed spec fn spec_waiting(&self) -> bool {
        self.waiting
    }

    /// A fresh flag: no operation is awaiting confirmation yet.
    pub fn new() -> (r: Self)
        ensures
            !r.spec_waiting(),
    {
        UserPresenceStatus { waiting: false }
    }

    /// Unconditionally store a new value; always succeeds.
    pub fn set_waiting(&mut self, waiting: bool)
        ensures
            final(self).spec_waiting() == waiting,
    {
        self.waiting = waiting;
    }

    /// Read the value of the most recently completed store.
    pub fn waiting(&self) -> (r: bool)
        ensures
            r == self.spec_waiting(),
    {
        self.waiting
    }
}

/// The value of the flag after a sequence of stores, starting from a fresh
/// flag: the most recent store wins; before any store the flag is down.
pub open spec fn flag_after(stores: Seq<bool>) -> bool {
    if stores.len() == 0 {
        false
    } else {
        stores.last()
    }
}

/// Read-after-write consistency on a single thread: for any sequence of
/// stores, a read of the flag yields the value of the most recently completed
/// store, whatever the earlier history was.
pub proof fn presence_last_store_wins(history: Seq<bool>, v: bool)
    ensures
        flag_after(history.push(v)) == v,
{
    assert(history.push(v).last() == v);
}

} // verus!
