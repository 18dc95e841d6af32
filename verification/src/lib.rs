//! Cooperative poll-and-dispatch runtime core for a multi-transport secure
//! hardware token.
//!
//! On every fast scheduler tick the surrounding system drives each transport's
//! non-blocking state machine one step, routes newly arrived application data
//! to the protocol handlers, schedules deferred re-polls when a handler has
//! started a long-running operation, and advances the secure runtime engine.
//! On a slower, independent cadence it asks each protocol endpoint whether a
//! keepalive / wait-extension must be sent so the host does not time out.
//!
//! The transports, protocol state machines and the deferred-task scheduler are
//! external collaborators; this crate holds the scheduling and signaling
//! discipline that ties them together, stated and proved over the collaborator
//! traits of [`session`] and the event types of [`status`].

pub mod presence;
pub mod runtime;
pub mod session;
pub mod sim;
pub mod status;

pub use presence::UserPresenceStatus;
pub use runtime::{
    ccid_keepalive, ctaphid_keepalive, dispatch_outcome, nfc_keepalive, poll_dispatchers,
    poll_nfc, poll_usb, run_trussed,
};
pub use session::{
    AuthenticatorDispatch, CommandDispatch, ContactlessLink, SecureRuntime, UsbSession,
};
pub use status::{maybe_spawn, Interface, SpawnError, Spawner, Status};
