//! Poll outcomes and the deferred-task scheduling capability.
//!
//! A poll of a transport or protocol endpoint answers with a [`Status`]: one
//! value carries both "did something happen" and "how long the host was told
//! to wait". Newly received data obliges the runtime to arrange a re-poll
//! through the injected [`Spawner`]; everything else obliges it to do
//! nothing.

use vstd::prelude::*;

verus! {

/// Outcome of one non-blocking poll step of a transport or protocol
/// endpoint.
#[derive(Clone, Copy, Debug, PartialEq, Eq)]
pub enum Status {
    /// No new application data; nothing to schedule.
    Idle,
    /// New application data arrived and the host expects the next answer no
    /// sooner than this many milliseconds from now: a deferred re-poll after
    /// at least that delay must be scheduled.
    ReceivedData(u32),
    /// An application-specific transport signal that calls for no deferred
    /// re-poll.
    TransportSignal,
}

/// The physical interface on which the command protocol completed an
/// exchange.
#[derive(Clone, Copy, Debug, PartialEq, Eq)]
pub enum Interface {
    /// The contact (USB smart-card) path.
    Contact,
    /// The contactless (NFC) path.
    Contactless,
}

/// Failure of the deferred-task spawner (for instance queue saturation);
/// always non-fatal to the runtime.
#[derive(Clone, Copy, Debug, PartialEq, Eq)]
pub struct SpawnError;

/// The deferred-task scheduling capability the surrounding system injects:
/// "arrange for a re-poll of this spawner's transport after at least the
/// given delay". Best-effort: a request may fail, and the requested delay is
/// a lower bound, not an exact deadline.
pub trait Spawner: Sized {
    /// Every delay, in milliseconds and in request order, that [`spawn`]
    /// has been asked for over this spawner's lifetime — whether or not the
    /// request succeeded.
    ///
    /// Ghost bookkeeping: a verified implementation overrides it (the
    /// default cannot satisfy the contract of [`spawn`]); an implementation
    /// outside the verifier may leave the default.
    ///
    /// [`spawn`]: Spawner::spawn
    open spec fn log(&self) -> Seq<u32> {
        Seq::empty()
    }

    /// Request one re-poll no earlier than `delay_ms` milliseconds from now.
    fn spawn(&mut self, delay_ms: u32) -> (r: Result<(), SpawnError>)
        ensures
            final(self).log() == old(self).log().push(delay_ms),
    ;
}

/// How one poll status extends a spawner's request log: data received with
/// minimum delay `d` asks for exactly one re-poll, after exactly `d`; any
/// other status asks for none.
pub open spec fn spawn_effect(status: Status, before: Seq<u32>, after: Seq<u32>) -> bool {
    match status {
        Status::ReceivedData(d) => after == before.push(d),
        _ => after == before,
    }
}

/// Schedule a deferred re-poll if and only if `status` reports newly
/// received data, using exactly the minimum delay the status carries. A
/// spawn failure is swallowed: best-effort, no retry, no propagation.
pub fn maybe_spawn<F: Spawner>(status: Status, spawner: &mut F)
    ensures
        spawn_effect(status, old(spawner).log(), final(spawner).log()),
{
    if let Status::ReceivedData(ms) = status {
        spawner.spawn(ms).ok();
    }
}

/// A status carrying newly received data with minimum delay `d` makes the
/// spawner receive exactly one new request, its delay exactly `d` (so no
/// less than `d`), with all earlier requests untouched; any other status
/// leaves the request log unchanged.
pub proof fn spawn_effect_exactly_once(status: Status, before: Seq<u32>, after: Seq<u32>)
    requires
        spawn_effect(status, before, after),
    ensures
        match status {
            Status::ReceivedData(d) => {
                &&& after.len() == before.len() + 1
                &&& after.last() == d
                &&& after.take(before.len() as int) == before
            },
            _ => after == before,
        },
{
    if let Status::ReceivedData(d) = status {
        assert(before.push(d).take(before.len() as int) =~= before);
    }
}

} // verus!
