//! The messages the routing tasks consume and emit.

use vstd::prelude::*;
use crate::tab::{CreateTabMetadata, TabId, TabMetadata};
use crate::state::TabStateAvailable;

verus! {

/// A chunk of bytes typed at the local terminal, addressed to a tab.
#[derive(Clone, PartialEq, Eq, Debug)]
pub struct InputChunk {
    pub data: Vec<u8>,
}

/// A chunk of bytes a tab wrote on the daemon side.
#[derive(Clone, PartialEq, Eq, Debug)]
pub struct OutputChunk {
    pub data: Vec<u8>,
}

/// Outbound message to the daemon.
#[derive(Clone, PartialEq, Eq, Debug)]
pub enum Request {
    CreateTab(CreateTabMetadata),
    Input(TabId, InputChunk),
}

/// Inbound message from the daemon.
#[derive(Clone, PartialEq, Eq, Debug)]
pub enum Response {
    /// Authoritative snapshot of all tabs, sent on (re)connect.
    Init(Vec<(TabId, TabMetadata)>),
    /// Bytes a tab wrote; only relevant if that tab is selected.
    Output(TabId, OutputChunk),
    /// New or changed metadata for one tab.
    TabUpdate(TabMetadata),
    /// The daemon's current tab list.
    TabList(Vec<TabMetadata>),
    /// A tab ended.
    TabTerminated(TabId),
}

/// Event from the local terminal driver.
#[derive(PartialEq, Eq, Debug)]
pub enum TerminalSend {
    Stdin(Vec<u8>),
    Resize((u16, u16)),
}

impl Clone for TerminalSend {
    fn clone(&self) -> (r: Self)
        ensures
            self matches TerminalSend::Resize(_) ==> r == *self,
            self matches TerminalSend::Stdin(data) ==> (r matches TerminalSend::Stdin(d)
                && d@ == data@),
    {
        match self {
            TerminalSend::Stdin(data) => {
                let d = data.clone();
                proof {
                    assert(d@ =~= data@);
                }
                TerminalSend::Stdin(d)
            },
            TerminalSend::Resize(dims) => TerminalSend::Resize(*dims),
        }
    }
}

/// Bytes to write on the local terminal.
#[derive(Clone, PartialEq, Eq, Debug)]
pub enum TerminalRecv {
    Stdout(Vec<u8>),
}

/// Tab-list bookkeeping events for the tab-selector UI.
#[derive(Clone, PartialEq, Eq, Debug)]
pub enum TabsRecv {
    Init(Vec<(TabId, TabMetadata)>),
    Update(TabMetadata),
    Terminated(TabId),
}

/// Notification that a tab ended, for consumers interested in
/// terminations regardless of selection.
#[derive(Clone, PartialEq, Eq, Debug)]
pub struct TabTerminated(pub TabId);

/// Signal to the supervisor that the process should shut down.
#[derive(PartialEq, Eq, Debug)]
pub struct MainShutdown {}

impl Clone for MainShutdown {
    fn clone(&self) -> (r: Self)
        ensures
            r == *self,
    {
        MainShutdown {}
    }
}

} // verus!
