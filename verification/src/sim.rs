//! In-memory realisations of the collaborator traits.
//!
//! Each type below implements one consumed capability over plain values, so
//! the runtime can be driven without hardware: a spawner that records its
//! requests, sessions whose endpoints answer with pre-set statuses and keep
//! their event trace as an ordinary vector, scripted dispatchers, and a
//! step-counting engine. The trait contracts are proved of these
//! implementations like of any other verified code.

use vstd::prelude::*;

use crate::session::{
    AuthenticatorDispatch, CommandDispatch, ContactlessLink, LinkEvent, SecureRuntime,
    UsbEvent, UsbSession,
};
use crate::status::{Interface, SpawnError, Spawner, Status};

verus! {

/// A deferred-task spawner that records every requested delay and reports
/// success or failure as configured.
pub struct RecordingSpawner {
    /// Every delay requested so far, in milliseconds and in request order.
    pub requests: Vec<u32>,
    /// Whether requests are currently rejected (a saturated queue).
    pub saturated: bool,
}

impl RecordingSpawner {
    /// A fresh spawner with an empty request log that accepts requests
    /// (or rejects them all, when `saturated` is set).
    pub fn new(saturated: bool) -> (r: Self)
        ensures
            r.log() == Seq::<u32>::empty(),
            r.saturated == saturated,
    {
        let r = RecordingSpawner { requests: Vec::new(), saturated };
        proof {
            assert(r.requests@ =~= Seq::<u32>::empty());
        }
        r
    }
}

impl Spawner for RecordingSpawner {
    open spec fn log(&self) -> Seq<u32> {
        self.requests@
    }

    fn spawn(&mut self, delay_ms: u32) -> (r: Result<(), SpawnError>) {
        self.requests.push(delay_ms);
        if self.saturated {
            Err(SpawnError)
        } else {
            Ok(())
        }
    }
}

/// A USB session whose two protocol endpoints answer every query with a
/// pre-set status and which keeps its event trace as a vector.
pub struct ScriptedUsbSession {
    /// What the command-protocol endpoint answers.
    pub ccid_status: Status,
    /// What the authenticator-protocol endpoint answers.
    pub ctaphid_status: Status,
    /// Every interaction seen so far, in order.
    pub trace: Vec<UsbEvent>,
}

impl ScriptedUsbSession {
    /// A fresh session, with an empty trace, whose endpoints answer with
    /// the two given statuses.
    pub fn new(ccid_status: Status, ctaphid_status: Status) -> (r: Self)
        ensures
            r.events() == Seq::<UsbEvent>::empty(),
            r.ccid_status == ccid_status,
            r.ctaphid_status == ctaphid_status,
    {
        let r = ScriptedUsbSession { ccid_status, ctaphid_status, trace: Vec::new() };
        proof {
            assert(r.trace@ =~= Seq::<UsbEvent>::empty());
        }
        r
    }
}

impl UsbSession for ScriptedUsbSession {
    open spec fn events(&self) -> Seq<UsbEvent> {
        self.trace@
    }

    fn check_timeout(&mut self, now_ms: u32) {
        self.trace.push(UsbEvent::TimeoutCheck(now_ms));
    }

    fn poll(&mut self) {
        self.trace.push(UsbEvent::Polled);
    }

    fn ccid_did_start_processing(&mut self) -> Status {
        let status = self.ccid_status;
        self.trace.push(UsbEvent::CcidReport(status));
        status
    }

    fn ctaphid_did_start_processing(&mut self) -> Status {
        let status = self.ctaphid_status;
        self.trace.push(UsbEvent::CtaphidReport(status));
        status
    }

    fn ccid_send_wait_extension(&mut self) -> Status {
        let status = self.ccid_status;
        self.trace.push(UsbEvent::CcidReport(status));
        status
    }

    fn ctaphid_send_keepalive(&mut self, waiting: bool) -> Status {
        let status = self.ctaphid_status;
        self.trace.push(UsbEvent::KeepaliveQuery(waiting, status));
        status
    }
}

/// A contactless link whose two queries answer with pre-set statuses and
/// which keeps its event trace as a vector.
pub struct ScriptedLink {
    /// What a poll step answers.
    pub poll_status: Status,
    /// What a wait-extension query answers.
    pub wait_status: Status,
    /// Every interaction seen so far, in order.
    pub trace: Vec<LinkEvent>,
}

impl ScriptedLink {
    /// A fresh link, with an empty trace, answering with the two given
    /// statuses.
    pub fn new(poll_status: Status, wait_status: Status) -> (r: Self)
        ensures
            r.events() == Seq::<LinkEvent>::empty(),
            r.poll_status == poll_status,
            r.wait_status == wait_status,
    {
        let r = ScriptedLink { poll_status, wait_status, trace: Vec::new() };
        proof {
            assert(r.trace@ =~= Seq::<LinkEvent>::empty());
        }
        r
    }
}

impl ContactlessLink for ScriptedLink {
    open spec fn events(&self) -> Seq<LinkEvent> {
        self.trace@
    }

    fn poll(&mut self) -> Status {
        let status = self.poll_status;
        self.trace.push(LinkEvent::Polled(status));
        status
    }

    fn poll_wait_extensions(&mut self) -> Status {
        let status = self.wait_status;
        self.trace.push(LinkEvent::WaitExtensionQuery(status));
        status
    }
}

/// A command-protocol dispatcher that reports a pre-set completed exchange.
pub struct ScriptedCommandDispatch {
    /// Which interface, if any, a poll reports as having produced a
    /// completed exchange.
    pub completed: Option<Interface>,
    /// What every poll so far answered, in order.
    pub answers: Vec<Option<Interface>>,
}

impl ScriptedCommandDispatch {
    /// A fresh dispatcher that reports the given completed exchange.
    pub fn new(completed: Option<Interface>) -> (r: Self)
        ensures
            r.polls() == Seq::<Option<Interface>>::empty(),
            r.completed == completed,
    {
        let r = ScriptedCommandDispatch { completed, answers: Vec::new() };
        proof {
            assert(r.answers@ =~= Seq::<Option<Interface>>::empty());
        }
        r
    }
}

impl CommandDispatch for ScriptedCommandDispatch {
    open spec fn polls(&self) -> Seq<Option<Interface>> {
        self.answers@
    }

    fn poll(&mut self) -> Option<Interface> {
        let completed = self.completed;
        self.answers.push(completed);
        completed
    }
}

/// An authenticator-protocol dispatcher that reports pre-set activity.
pub struct ScriptedAuthenticatorDispatch {
    /// Whether a poll reports a completed exchange.
    pub completed: bool,
    /// What every poll so far answered, in order.
    pub answers: Vec<bool>,
}

impl ScriptedAuthenticatorDispatch {
    /// A fresh dispatcher that reports the given activity.
    pub fn new(completed: bool) -> (r: Self)
        ensures
            r.polls() == Seq::<bool>::empty(),
            r.completed == completed,
    {
        let r = ScriptedAuthenticatorDispatch { completed, answers: Vec::new() };
        proof {
            assert(r.answers@ =~= Seq::<bool>::empty());
        }
        r
    }
}

impl AuthenticatorDispatch for ScriptedAuthenticatorDispatch {
    open spec fn polls(&self) -> Seq<bool> {
        self.answers@
    }

    fn poll(&mut self) -> bool {
        let completed = self.completed;
        self.answers.push(completed);
        completed
    }
}

/// A secure runtime engine that merely counts its processing steps.
pub struct CountingRuntime {
    /// How many steps have run, exactly.
    pub steps_taken: Ghost<nat>,
    /// How many steps have run, as an observable (saturating) counter.
    pub processed: u64,
}

impl CountingRuntime {
    /// A fresh engine that has taken no step.
    pub fn new() -> (r: Self)
        ensures
            r.steps() == 0,
            r.processed == 0,
    {
        CountingRuntime { steps_taken: Ghost(0), processed: 0 }
    }
}

impl SecureRuntime for CountingRuntime {
    open spec fn steps(&self) -> nat {
        self.steps_taken@
    }

    fn process(&mut self) {
        proof {
            self.steps_taken@ = self.steps_taken@ + 1;
        }
        if self.processed < u64::MAX {
            self.processed = self.processed + 1;
        }
    }
}

} // verus!
