//! Position sensing and command execution for a four-position selector
//! device driven through GPIO lines.
//!
//! The crate holds the decisions: how edge events become a position, how a
//! button press is timed, how a target position is sought, and how every
//! resolved position reaches its observers. Hardware access, timers and the
//! network stay with the caller, which feeds plain values in and acts on the
//! plain values that come back.

pub mod error;
mod text;
pub mod gpio;
pub mod sampler;
pub mod broadcast;
pub mod actuator;
pub mod remote;
pub mod server;
