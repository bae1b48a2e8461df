//! The data model of the linking flow: lifecycle states, commands from the
//! caller, one-shot events, and the explicit outcomes of an attempt's
//! provisioning slot and of the attempt itself.

use vstd::prelude::*;

verus! {

/// Coarse lifecycle state of the linking subsystem. Exactly one value is
/// current at any instant; it is owned by the core and read by observers
/// through copies.
#[derive(Debug, Clone, PartialEq, Eq)]
pub enum SignalState {
    /// No session: the initial state, and the state an attempt that never
    /// produced a provisioning URL leaves behind.
    Unlinked,
    /// A provisioning URL was delivered; it persists in the state for as
    /// long as the linking phase lasts, for any observer to re-read.
    Linking { url: String },
    /// The registration phase between URL delivery and a confirmed
    /// session; part of the caller-facing lifecycle, though the present
    /// flow moves from `Linking` straight to `Connected`.
    Registering,
    /// A session exists and its credentials were confirmed as persisted.
    Connected,
}

/// A command sent by the caller into the core's inbox. The device name is an
/// opaque, caller-supplied, non-empty label.
#[derive(Debug, Clone, PartialEq, Eq)]
pub enum SignalCommand {
    Link { device_name: String },
}

/// A discrete, transient event: observed only by subscribers that are
/// listening when it is emitted, never replayed.
#[derive(Debug, Clone, Copy, PartialEq, Eq)]
pub enum SignalEvent {
    LinkingCancelled,
}

/// What became of an attempt's single-use provisioning slot: either the
/// provider delivered a provisioning URL through it, or it abandoned the
/// slot without ever producing one. Cancellation is this explicit signal,
/// not an implicit drop.
#[derive(Debug, Clone, PartialEq, Eq)]
pub enum SlotOutcome {
    Delivered { url: String },
    Abandoned,
}

/// How the linking attempt itself resolved, after its provisioning slot was
/// already fulfilled or abandoned. A successful attempt yields a session
/// handle that the caller forwards to its credential store; the handle
/// itself is opaque to the core.
#[derive(Debug, Clone, Copy, PartialEq, Eq)]
pub enum AttemptOutcome {
    Succeeded,
    Failed,
}

} // verus!
