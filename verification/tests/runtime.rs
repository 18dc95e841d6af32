use token_runtime::presence::UserPresenceStatus;
use token_runtime::runtime::{
    ccid_keepalive, ctaphid_keepalive, dispatch_outcome, nfc_keepalive, poll_dispatchers,
    poll_nfc, poll_usb, run_trussed,
};
use token_runtime::session::UsbEvent;
use token_runtime::sim::{
    CountingRuntime, RecordingSpawner, ScriptedAuthenticatorDispatch, ScriptedCommandDispatch,
    ScriptedLink, ScriptedUsbSession,
};
use token_runtime::status::{maybe_spawn, Interface, Spawner, Status};

#[test]
fn presence_starts_not_waiting() {
    let p = UserPresenceStatus::new();
    assert!(!p.waiting());
}

#[test]
fn presence_last_store_wins_over_any_sequence() {
    let mut p = UserPresenceStatus::new();
    for &(v, expected) in &[
        (true, true),
        (true, true),
        (false, false),
        (true, true),
        (false, false),
        (false, false),
    ] {
        p.set_waiting(v);
        assert_eq!(p.waiting(), expected);
    }
}

#[test]
fn dispatch_outcome_truth_table() {
    // (command poll, authenticator poll) -> (contact OR authenticator, contactless)
    assert_eq!(dispatch_outcome(None, false), (false, false));
    assert_eq!(dispatch_outcome(None, true), (true, false));
    assert_eq!(dispatch_outcome(Some(Interface::Contact), false), (true, false));
    assert_eq!(dispatch_outcome(Some(Interface::Contact), true), (true, false));
    assert_eq!(dispatch_outcome(Some(Interface::Contactless), false), (false, true));
    assert_eq!(dispatch_outcome(Some(Interface::Contactless), true), (true, true));
}

#[test]
fn poll_dispatchers_combines_both_handlers() {
    let mut apdu = ScriptedCommandDispatch::new(Some(Interface::Contactless));
    let mut ctaphid = ScriptedAuthenticatorDispatch::new(true);
    assert_eq!(poll_dispatchers(&mut apdu, &mut ctaphid), (true, true));

    let mut apdu = ScriptedCommandDispatch::new(None);
    let mut ctaphid = ScriptedAuthenticatorDispatch::new(false);
    assert_eq!(poll_dispatchers(&mut apdu, &mut ctaphid), (false, false));
}

#[test]
fn maybe_spawn_received_data_spawns_exactly_once_with_that_delay() {
    let mut spawner = RecordingSpawner::new(false);
    maybe_spawn(Status::ReceivedData(1000), &mut spawner);
    assert_eq!(spawner.requests, vec![1000]);
}

#[test]
fn maybe_spawn_other_statuses_never_spawn() {
    let mut spawner = RecordingSpawner::new(false);
    maybe_spawn(Status::Idle, &mut spawner);
    maybe_spawn(Status::TransportSignal, &mut spawner);
    assert!(spawner.requests.is_empty());
}

#[test]
fn maybe_spawn_swallows_spawn_failure() {
    let mut saturated = RecordingSpawner::new(true);
    // The request is made (and rejected); the runtime neither retries nor fails.
    maybe_spawn(Status::ReceivedData(80), &mut saturated);
    assert_eq!(saturated.requests, vec![80]);
}

#[test]
fn spawner_reports_saturation_as_error() {
    let mut spawner = RecordingSpawner::new(true);
    assert!(spawner.spawn(5).is_err());
    let mut spawner = RecordingSpawner::new(false);
    assert!(spawner.spawn(5).is_ok());
}

#[test]
fn absent_usb_session_is_a_no_op_any_number_of_times() {
    let mut usb: Option<ScriptedUsbSession> = None;
    let mut ccid_spawner = RecordingSpawner::new(false);
    let mut ctaphid_spawner = RecordingSpawner::new(false);
    let presence = UserPresenceStatus::new();
    for t in 0..10 {
        poll_usb(&mut usb, &mut ccid_spawner, &mut ctaphid_spawner, t);
        ccid_keepalive(&mut usb, &mut ccid_spawner);
        ctaphid_keepalive(&mut usb, &mut ctaphid_spawner, &presence);
        assert!(usb.is_none());
    }
    assert!(ccid_spawner.requests.is_empty());
    assert!(ctaphid_spawner.requests.is_empty());
}

#[test]
fn absent_contactless_session_is_a_no_op_any_number_of_times() {
    let mut contactless: Option<ScriptedLink> = None;
    let mut nfc_spawner = RecordingSpawner::new(false);
    for _ in 0..10 {
        poll_nfc(&mut contactless, &mut nfc_spawner);
        nfc_keepalive(&mut contactless, &mut nfc_spawner);
        assert!(contactless.is_none());
    }
    assert!(nfc_spawner.requests.is_empty());
}

#[test]
fn poll_usb_with_no_data_and_no_timeout_spawns_nothing() {
    let mut usb = Some(ScriptedUsbSession::new(Status::Idle, Status::Idle));
    let mut ccid_spawner = RecordingSpawner::new(false);
    let mut ctaphid_spawner = RecordingSpawner::new(false);
    poll_usb(&mut usb, &mut ccid_spawner, &mut ctaphid_spawner, 42);
    assert!(ccid_spawner.requests.is_empty());
    assert!(ctaphid_spawner.requests.is_empty());
    let session = usb.unwrap();
    // The session itself was still driven: a timeout check with the tick
    // timestamp, one aggregate poll step, and one check of each endpoint.
    assert_eq!(
        session.trace,
        vec![
            UsbEvent::TimeoutCheck(42),
            UsbEvent::Polled,
            UsbEvent::CcidReport(Status::Idle),
            UsbEvent::CtaphidReport(Status::Idle),
        ]
    );
}

#[test]
fn poll_usb_ccid_received_data_spawns_once_with_its_delay() {
    let mut usb = Some(ScriptedUsbSession::new(Status::ReceivedData(50), Status::Idle));
    let mut ccid_spawner = RecordingSpawner::new(false);
    let mut ctaphid_spawner = RecordingSpawner::new(false);
    poll_usb(&mut usb, &mut ccid_spawner, &mut ctaphid_spawner, 7);
    assert_eq!(ccid_spawner.requests, vec![50]);
    assert!(ctaphid_spawner.requests.is_empty());
}

#[test]
fn poll_usb_ctaphid_received_data_spawns_on_its_own_spawner() {
    let mut usb = Some(ScriptedUsbSession::new(Status::Idle, Status::ReceivedData(80)));
    let mut ccid_spawner = RecordingSpawner::new(false);
    let mut ctaphid_spawner = RecordingSpawner::new(false);
    poll_usb(&mut usb, &mut ccid_spawner, &mut ctaphid_spawner, 7);
    assert!(ccid_spawner.requests.is_empty());
    assert_eq!(ctaphid_spawner.requests, vec![80]);
}

#[test]
fn poll_nfc_received_data_spawns_once_with_its_delay() {
    let mut contactless = Some(ScriptedLink::new(Status::ReceivedData(25), Status::Idle));
    let mut nfc_spawner = RecordingSpawner::new(false);
    poll_nfc(&mut contactless, &mut nfc_spawner);
    assert_eq!(nfc_spawner.requests, vec![25]);
}

#[test]
fn ccid_keepalive_schedules_the_reported_delay() {
    let mut usb = Some(ScriptedUsbSession::new(Status::ReceivedData(1000), Status::Idle));
    let mut ccid_spawner = RecordingSpawner::new(false);
    ccid_keepalive(&mut usb, &mut ccid_spawner);
    assert_eq!(ccid_spawner.requests, vec![1000]);

    let mut usb = Some(ScriptedUsbSession::new(Status::Idle, Status::Idle));
    let mut ccid_spawner = RecordingSpawner::new(false);
    ccid_keepalive(&mut usb, &mut ccid_spawner);
    assert!(ccid_spawner.requests.is_empty());
}

#[test]
fn ctaphid_keepalive_passes_the_presence_flag_and_exact_delay() {
    let mut usb = Some(ScriptedUsbSession::new(Status::Idle, Status::ReceivedData(80)));
    let mut ctaphid_spawner = RecordingSpawner::new(false);
    let mut presence = UserPresenceStatus::new();
    presence.set_waiting(true);
    ctaphid_keepalive(&mut usb, &mut ctaphid_spawner, &presence);
    assert_eq!(ctaphid_spawner.requests, vec![80]);
    assert_eq!(
        usb.as_ref().unwrap().trace,
        vec![UsbEvent::KeepaliveQuery(true, Status::ReceivedData(80))]
    );

    presence.set_waiting(false);
    ctaphid_keepalive(&mut usb, &mut ctaphid_spawner, &presence);
    assert_eq!(
        usb.unwrap().trace,
        vec![
            UsbEvent::KeepaliveQuery(true, Status::ReceivedData(80)),
            UsbEvent::KeepaliveQuery(false, Status::ReceivedData(80)),
        ]
    );
}

#[test]
fn nfc_keepalive_schedules_the_reported_delay() {
    let mut contactless = Some(ScriptedLink::new(Status::Idle, Status::ReceivedData(32)));
    let mut nfc_spawner = RecordingSpawner::new(false);
    nfc_keepalive(&mut contactless, &mut nfc_spawner);
    assert_eq!(nfc_spawner.requests, vec![32]);
}

#[test]
fn maybe_spawn_handles_extreme_delays() {
    let mut spawner = RecordingSpawner::new(false);
    maybe_spawn(Status::ReceivedData(0), &mut spawner);
    maybe_spawn(Status::ReceivedData(u32::MAX), &mut spawner);
    assert_eq!(spawner.requests, vec![0, u32::MAX]);
}

#[test]
fn poll_usb_transport_signal_spawns_nothing() {
    let mut usb = Some(ScriptedUsbSession::new(
        Status::TransportSignal,
        Status::TransportSignal,
    ));
    let mut ccid_spawner = RecordingSpawner::new(false);
    let mut ctaphid_spawner = RecordingSpawner::new(false);
    poll_usb(&mut usb, &mut ccid_spawner, &mut ctaphid_spawner, 0);
    assert!(ccid_spawner.requests.is_empty());
    assert!(ctaphid_spawner.requests.is_empty());
}

#[test]
fn run_trussed_advances_the_engine_one_step_per_call() {
    let mut engine = CountingRuntime::new();
    run_trussed(&mut engine);
    assert_eq!(engine.processed, 1);
    run_trussed(&mut engine);
    run_trussed(&mut engine);
    assert_eq!(engine.processed, 3);
}
