//! A verified core for a secondary-device linking flow.
//!
//! The library models the orchestration heart of a desktop shell's "signal"
//! subsystem: a single-writer state machine that owns at most one linking
//! attempt at a time, bridges a one-shot provisioning notification into a
//! multi-reader broadcast of states and events, and stays observable by any
//! number of concurrent subscribers without ever blocking the writer.
//!
//! The surrounding shell (GUI command dispatch, the messaging-protocol
//! client, persistence) is an unverified caller of this core; it feeds
//! commands, slot outcomes and attempt results in, and relays the broadcast
//! output to its own subscribers.

pub mod broadcast;
pub mod cell;
pub mod signal;
pub mod state;
