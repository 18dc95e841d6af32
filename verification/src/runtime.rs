//! The tick entry points: transport pollers, the dispatch pass, the
//! keepalive schedulers and the secure-runtime step.
//!
//! On every fast tick the surrounding scheduler calls, in a fixed order,
//! [`poll_usb`], [`poll_nfc`], [`poll_dispatchers`] and [`run_trussed`]. On
//! a slower, independent cadence it calls [`ccid_keepalive`],
//! [`ctaphid_keepalive`] and [`nfc_keepalive`]. None of these blocks, none
//! returns an error: every operation either succeeds or performs no work.

use vstd::prelude::*;

use crate::presence::UserPresenceStatus;
use crate::session::{
    AuthenticatorDispatch, CommandDispatch, ContactlessLink, LinkEvent, SecureRuntime,
    UsbEvent, UsbSession,
};
use crate::status::{maybe_spawn, spawn_effect, Interface, Spawner, Status};

verus! {

/// The dispatch outcome of one tick, as a pair "(activity on the contact
/// path, activity on the contactless path)": the contact path saw traffic if
/// the command protocol completed an exchange over the contact interface or
/// the authenticator protocol completed any exchange; the contactless path
/// saw traffic exactly if the command protocol completed an exchange over
/// the contactless interface.
pub open spec fn spec_dispatch_outcome(
    apdu_poll: Option<Interface>,
    ctaphid_poll: bool,
) -> (bool, bool) {
    (
        apdu_poll == Some(Interface::Contact) || ctaphid_poll,
        apdu_poll == Some(Interface::Contactless),
    )
}

/// Combine what the two protocol dispatchers reported this tick into the
/// tick's dispatch outcome.
pub fn dispatch_outcome(apdu_poll: Option<Interface>, ctaphid_poll: bool) -> (r: (bool, bool))
    ensures
        r == spec_dispatch_outcome(apdu_poll, ctaphid_poll),
{
    let contact = matches!(apdu_poll, Some(Interface::Contact));
    let contactless = matches!(apdu_poll, Some(Interface::Contactless));
    (contact || ctaphid_poll, contactless)
}

/// One dispatch pass: drain buffered application data through the
/// command-protocol dispatcher, then through the authenticator-protocol
/// dispatcher, and report which physical paths produced traffic. Each
/// dispatcher is polled exactly once, and the result is the dispatch
/// outcome of exactly what the two polls answered.
pub fn poll_dispatchers<A: CommandDispatch, C: AuthenticatorDispatch>(
    apdu_dispatch: &mut A,
    ctaphid_dispatch: &mut C,
) -> (r: (bool, bool))
    ensures
        ({
            let a = final(apdu_dispatch).polls();
            let c = final(ctaphid_dispatch).polls();
            &&& a == old(apdu_dispatch).polls().push(a.last())
            &&& c == old(ctaphid_dispatch).polls().push(c.last())
            &&& r == spec_dispatch_outcome(a.last(), c.last())
        }),
{
    let apdu_poll = apdu_dispatch.poll();
    let ctaphid_poll = ctaphid_dispatch.poll();
    dispatch_outcome(apdu_poll, ctaphid_poll)
}

/// One fast-tick USB pass. An absent session is a silent no-op: nothing is
/// polled, nothing is scheduled. Otherwise: advance the authenticator
/// protocol's idle-timeout check to `t_now_ms`, advance the aggregate USB
/// class state machine one step, then for each protocol endpoint that just
/// began processing a request schedule one deferred re-poll after exactly
/// the minimum delay it reported. Spawn failures are swallowed.
pub fn poll_usb<U: UsbSession, FA: Spawner, FB: Spawner>(
    usb_classes: &mut Option<U>,
    ccid_spawner: &mut FA,
    ctaphid_spawner: &mut FB,
    t_now_ms: u32,
)
    ensures
        *old(usb_classes) is None ==> {
            &&& *final(usb_classes) == *old(usb_classes)
            &&& final(ccid_spawner).log() == old(ccid_spawner).log()
            &&& final(ctaphid_spawner).log() == old(ctaphid_spawner).log()
        },
        *old(usb_classes) is Some ==> ({
            let old_tr = (*old(usb_classes))->0.events();
            let tr = (*final(usb_classes))->0.events();
            &&& *final(usb_classes) is Some
            &&& exists|ccid_status: Status, ctaphid_status: Status|
                #![trigger spawn_effect(ccid_status, old(ccid_spawner).log(), final(ccid_spawner).log()),
                    spawn_effect(ctaphid_status, old(ctaphid_spawner).log(), final(ctaphid_spawner).log())]
                {
                    &&& tr == old_tr.push(UsbEvent::TimeoutCheck(t_now_ms)).push(
                        UsbEvent::Polled,
                    ).push(UsbEvent::CcidReport(ccid_status)).push(
                        UsbEvent::CtaphidReport(ctaphid_status),
                    )
                    &&& spawn_effect(
                        ccid_status,
                        old(ccid_spawner).log(),
                        final(ccid_spawner).log(),
                    )
                    &&& spawn_effect(
                        ctaphid_status,
                        old(ctaphid_spawner).log(),
                        final(ctaphid_spawner).log(),
                    )
                }
        }),
{
    match usb_classes {
        None => {},
        Some(usb) => {
            usb.check_timeout(t_now_ms);
            usb.poll();
            let ccid_status = usb.ccid_did_start_processing();
            maybe_spawn(ccid_status, ccid_spawner);
            let ctaphid_status = usb.ctaphid_did_start_processing();
            maybe_spawn(ctaphid_status, ctaphid_spawner);
        },
    }
}

/// One fast-tick contactless pass. An absent session is a silent no-op.
/// Otherwise drive the link layer one step; if it reports newly received
/// data, schedule one deferred re-poll after exactly the minimum delay it
/// reported. Spawn failures are swallowed.
pub fn poll_nfc<L: ContactlessLink, F: Spawner>(contactless: &mut Option<L>, nfc_spawner: &mut F)
    ensures
        *old(contactless) is None ==> {
            &&& *final(contactless) == *old(contactless)
            &&& final(nfc_spawner).log() == old(nfc_spawner).log()
        },
        *old(contactless) is Some ==> ({
            let old_tr = (*old(contactless))->0.events();
            let tr = (*final(contactless))->0.events();
            &&& *final(contactless) is Some
            &&& exists|status: Status|
                {
                    &&& tr == old_tr.push(LinkEvent::Polled(status))
                    &&& #[trigger] spawn_effect(
                        status,
                        old(nfc_spawner).log(),
                        final(nfc_spawner).log(),
                    )
                }
        }),
{
    match contactless {
        None => {},
        Some(link) => {
            let status = link.poll();
            maybe_spawn(status, nfc_spawner);
        },
    }
}

/// One slow-tick keepalive pass for the command protocol over USB. An
/// absent session is a silent no-op. Otherwise ask the command-protocol
/// endpoint whether the host needs a wait extension; if it answers with a
/// minimum re-query delay, schedule one deferred re-poll after exactly that
/// delay. Spawn failures are swallowed.
pub fn ccid_keepalive<U: UsbSession, F: Spawner>(usb_classes: &mut Option<U>, ccid_spawner: &mut F)
    ensures
        *old(usb_classes) is None ==> {
            &&& *final(usb_classes) == *old(usb_classes)
            &&& final(ccid_spawner).log() == old(ccid_spawner).log()
        },
        *old(usb_classes) is Some ==> ({
            let old_tr = (*old(usb_classes))->0.events();
            let tr = (*final(usb_classes))->0.events();
            &&& *final(usb_classes) is Some
            &&& exists|status: Status|
                {
                    &&& tr == old_tr.push(UsbEvent::CcidReport(status))
                    &&& #[trigger] spawn_effect(
                        status,
                        old(ccid_spawner).log(),
                        final(ccid_spawner).log(),
                    )
                }
        }),
{
    match usb_classes {
        None => {},
        Some(usb) => {
            let status = usb.ccid_send_wait_extension();
            maybe_spawn(status, ccid_spawner);
        },
    }
}

/// One slow-tick keepalive pass for the authenticator protocol over USB. An
/// absent session is a silent no-op. Otherwise ask the authenticator
/// endpoint whether a keepalive must be sent, passing it the current value
/// of the user-presence flag (which selects the keepalive message content);
/// if it answers with a minimum re-query delay, schedule one deferred
/// re-poll after exactly that delay. Spawn failures are swallowed.
pub fn ctaphid_keepalive<U: UsbSession, F: Spawner>(
    usb_classes: &mut Option<U>,
    ctaphid_spawner: &mut F,
    presence: &UserPresenceStatus,
)
    ensures
        *old(usb_classes) is None ==> {
            &&& *final(usb_classes) == *old(usb_classes)
            &&& final(ctaphid_spawner).log() == old(ctaphid_spawner).log()
        },
        *old(usb_classes) is Some ==> ({
            let old_tr = (*old(usb_classes))->0.events();
            let tr = (*final(usb_classes))->0.events();
            &&& *final(usb_classes) is Some
            &&& exists|status: Status|
                {
                    &&& tr == old_tr.push(
                        UsbEvent::KeepaliveQuery(presence.spec_waiting(), status),
                    )
                    &&& #[trigger] spawn_effect(
                        status,
                        old(ctaphid_spawner).log(),
                        final(ctaphid_spawner).log(),
                    )
                }
        }),
{
    match usb_classes {
        None => {},
        Some(usb) => {
            let status = usb.ctaphid_send_keepalive(presence.waiting());
            maybe_spawn(status, ctaphid_spawner);
        },
    }
}

/// One slow-tick keepalive pass for the contactless link. An absent session
/// is a silent no-op. Otherwise ask the link layer whether a wait extension
/// must be sent; if it answers with a minimum re-query delay, schedule one
/// deferred re-poll after exactly that delay. Spawn failures are swallowed.
pub fn nfc_keepalive<L: ContactlessLink, F: Spawner>(
    contactless: &mut Option<L>,
    nfc_spawner: &mut F,
)
    ensures
        *old(contactless) is None ==> {
            &&& *final(contactless) == *old(contactless)
            &&& final(nfc_spawner).log() == old(nfc_spawner).log()
        },
        *old(contactless) is Some ==> ({
            let old_tr = (*old(contactless))->0.events();
            let tr = (*final(contactless))->0.events();
            &&& *final(contactless) is Some
            &&& exists|status: Status|
                {
                    &&& tr == old_tr.push(LinkEvent::WaitExtensionQuery(status))
                    &&& #[trigger] spawn_effect(
                        status,
                        old(nfc_spawner).log(),
                        final(nfc_spawner).log(),
                    )
                }
        }),
{
    match contactless {
        None => {},
        Some(link) => {
            let status = link.poll_wait_extensions();
            maybe_spawn(status, nfc_spawner);
        },
    }
}

/// An absent transport stays absent under any number of passes. `states`
/// holds the session value observed before and after each of a run of calls
/// (poller or keepalive passes); each pass leaves an absent session exactly
/// as it was — that is what every pass here ensures — so no sequence of
/// calls, of any length, can transition an absent transport to present.
pub proof fn absent_transport_stays_absent<U>(states: Seq<Option<U>>)
    requires
        states.len() > 0,
        states.first() is None,
        forall|i: int|
            0 <= i < states.len() - 1 && states[i] is None ==> #[trigger] states[i + 1] is None,
    ensures
        states.last() is None,
{
    absent_up_to(states, states.len() - 1);
}

/// The induction behind [`absent_transport_stays_absent`]: under the same
/// preservation hypothesis, the session observed at any point of the run is
/// still absent.
proof fn absent_up_to<U>(states: Seq<Option<U>>, k: int)
    requires
        0 <= k < states.len(),
        states.first() is None,
        forall|i: int|
            0 <= i < states.len() - 1 && states[i] is None ==> #[trigger] states[i + 1] is None,
    ensures
        states[k] is None,
    decreases k,
{
    if k > 0 {
        absent_up_to(states, k - 1);
        assert(states[(k - 1) + 1] is None);
    }
}

/// Advance the secure runtime engine by exactly one processing step. Called
/// every fast tick regardless of transport activity: the engine may hold
/// queued work independent of transport traffic.
pub fn run_trussed<T: SecureRuntime>(trussed: &mut T)
    ensures
        final(trussed).steps() == old(trussed).steps() + 1,
{
    trussed.process();
}

} // verus!
