//! Client-side message routing core of a terminal multiplexer.
//!
//! The library models the decisions made by the three routing tasks that
//! connect a local terminal to a remote tab-management daemon: which
//! `Request` to emit when the user awaits a tab, how each daemon `Response`
//! fans out to the local channels, and when local keystrokes are forwarded
//! to the selected tab.  The asynchronous bus that carries the messages
//! lives outside the library; the routing rules here are pure functions
//! from state and event to the ordered list of emissions.

pub mod tab;
pub mod state;
pub mod message;
pub mod router;
