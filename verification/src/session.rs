//! The collaborator contracts the runtime consumes.
//!
//! The byte-level protocol state machines, the contactless link layer and
//! the secure runtime engine are external to this crate; the runtime only
//! needs the operations below from each, and each physical transport is an
//! optional session — `None` whenever the hardware is absent or not yet
//! initialized, which every tick treats as a silent no-op.
//!
//! Each session trait carries a ghost trace of the interactions it has seen
//! ([`UsbSession::events`], [`ContactlessLink::events`]). The runtime's
//! contracts are stated over these traces: what a tick appended to the trace
//! determines exactly what the tick was obliged to schedule.

use vstd::prelude::*;

use crate::status::{Interface, Status};

verus! {

/// One observable interaction with a USB transport session.
#[derive(Clone, Copy, Debug, PartialEq, Eq)]
pub enum UsbEvent {
    /// The authenticator protocol's idle-timeout check ran, with this tick
    /// timestamp in milliseconds.
    TimeoutCheck(u32),
    /// The aggregate USB class state machine advanced one step.
    Polled,
    /// The command-protocol endpoint answered a processing check or a
    /// wait-extension query with this status.
    CcidReport(Status),
    /// The authenticator-protocol endpoint answered a processing check with
    /// this status.
    CtaphidReport(Status),
    /// The authenticator-protocol endpoint was asked for a keepalive with
    /// this `waiting` value and answered with this status.
    KeepaliveQuery(bool, Status),
}

/// A live USB transport session: the aggregate USB class state machine
/// together with its command-protocol (smart-card) and authenticator-protocol
/// endpoints.
pub trait UsbSession: Sized {
    /// Every interaction this session has seen, in order, over its
    /// lifetime. Ghost bookkeeping: a verified implementation overrides it
    /// (the default cannot satisfy the method contracts); an implementation
    /// outside the verifier may leave the default.
    open spec fn events(&self) -> Seq<UsbEvent> {
        Seq::empty()
    }

    /// Advance the authenticator protocol's idle-timeout bookkeeping to the
    /// current tick timestamp.
    fn check_timeout(&mut self, now_ms: u32)
        ensures
            final(self).events() == old(self).events().push(UsbEvent::TimeoutCheck(now_ms)),
    ;

    /// Advance the aggregate USB class state machine one non-blocking step.
    fn poll(&mut self)
        ensures
            final(self).events() == old(self).events().push(UsbEvent::Polled),
    ;

    /// Whether the command-protocol endpoint just began processing a
    /// request, and if so with which minimum re-poll delay.
    fn ccid_did_start_processing(&mut self) -> (r: Status)
        ensures
            final(self).events() == old(self).events().push(UsbEvent::CcidReport(r)),
    ;

    /// Whether the authenticator-protocol endpoint just began processing a
    /// request, and if so with which minimum re-poll delay.
    fn ctaphid_did_start_processing(&mut self) -> (r: Status)
        ensures
            final(self).events() == old(self).events().push(UsbEvent::CtaphidReport(r)),
    ;

    /// Ask the command-protocol endpoint whether the host needs a wait
    /// extension; it answers with the minimum delay before the next query,
    /// if one is needed.
    fn ccid_send_wait_extension(&mut self) -> (r: Status)
        ensures
            final(self).events() == old(self).events().push(UsbEvent::CcidReport(r)),
    ;

    /// Ask the authenticator-protocol endpoint whether a keepalive must be
    /// sent to the host. The content of the keepalive message depends on
    /// `waiting`: whether a user-presence confirmation is outstanding.
    fn ctaphid_send_keepalive(&mut self, waiting: bool) -> (r: Status)
        ensures
            final(self).events() == old(self).events().push(
                UsbEvent::KeepaliveQuery(waiting, r),
            ),
    ;
}

/// One observable interaction with a contactless link session.
#[derive(Clone, Copy, Debug, PartialEq, Eq)]
pub enum LinkEvent {
    /// The link layer was driven one step and answered with this status.
    Polled(Status),
    /// The link layer was asked whether a wait extension must be sent and
    /// answered with this status.
    WaitExtensionQuery(Status),
}

/// A live contactless (NFC / ISO14443) transport session: the link layer
/// driven one non-blocking step at a time.
pub trait ContactlessLink: Sized {
    /// Every interaction this session has seen, in order, over its
    /// lifetime. Ghost bookkeeping: a verified implementation overrides it
    /// (the default cannot satisfy the method contracts); an implementation
    /// outside the verifier may leave the default.
    open spec fn events(&self) -> Seq<LinkEvent> {
        Seq::empty()
    }

    /// Drive the link layer one step; report whether new application data
    /// arrived and with which minimum re-poll delay.
    fn poll(&mut self) -> (r: Status)
        ensures
            final(self).events() == old(self).events().push(LinkEvent::Polled(r)),
    ;

    /// Ask the link layer whether a wait extension must be sent to the
    /// host; it answers with the minimum delay before the next query, if
    /// one is needed.
    fn poll_wait_extensions(&mut self) -> (r: Status)
        ensures
            final(self).events() == old(self).events().push(LinkEvent::WaitExtensionQuery(r)),
    ;
}

/// The command-protocol dispatcher: drains buffered command-protocol data
/// into the application handlers.
pub trait CommandDispatch: Sized {
    /// Which interface, if any, each completed poll reported, in order,
    /// over this dispatcher's lifetime. Ghost bookkeeping: a verified
    /// implementation overrides it (the default cannot satisfy the contract
    /// of `poll`); an implementation outside the verifier may leave the
    /// default.
    open spec fn polls(&self) -> Seq<Option<Interface>> {
        Seq::empty()
    }

    /// Forward buffered data to the handlers; report which physical
    /// interface, if any, produced a completed exchange.
    fn poll(&mut self) -> (r: Option<Interface>)
        ensures
            final(self).polls() == old(self).polls().push(r),
    ;
}

/// The authenticator-protocol dispatcher: drains buffered
/// authenticator-protocol data into the application handlers.
pub trait AuthenticatorDispatch: Sized {
    /// Whether each completed poll reported a completed exchange, in order,
    /// over this dispatcher's lifetime. Ghost bookkeeping: a verified
    /// implementation overrides it (the default cannot satisfy the contract
    /// of `poll`); an implementation outside the verifier may leave the
    /// default.
    open spec fn polls(&self) -> Seq<bool> {
        Seq::empty()
    }

    /// Forward buffered data to the handlers; report whether a completed
    /// exchange was produced (interface-agnostic).
    fn poll(&mut self) -> (r: bool)
        ensures
            final(self).polls() == old(self).polls().push(r),
    ;
}

/// The cryptographic / secure-storage engine, treated as an opaque steppable
/// resource.
pub trait SecureRuntime: Sized {
    /// How many processing steps the engine has taken so far. Ghost
    /// bookkeeping: a verified implementation overrides it (the default
    /// cannot satisfy the contract of `process`); an implementation outside
    /// the verifier may leave the default.
    open spec fn steps(&self) -> nat {
        0
    }

    /// Advance the engine by exactly one processing step.
    fn process(&mut self)
        ensures
            final(self).steps() == old(self).steps() + 1,
    ;
}

} // verus!
