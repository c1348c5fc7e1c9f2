//! Latched state shared among the routing tasks.

use vstd::prelude::*;
use crate::tab::{TabId, TabMetadata};

verus! {

/// Which tab, if any, the local terminal is attached to.
///
/// `Awaiting` names a tab the user wants but which may not exist yet on
/// the daemon; `Selected` carries the id and metadata of the unique tab
/// whose output is mirrored locally and which receives local keystrokes.
#[derive(PartialEq, Eq, Debug)]
pub enum TabState {
    Unselected,
    Awaiting(String),
    Selected(TabId, TabMetadata),
}

impl Clone for TabState {
    fn clone(&self) -> (r: Self)
        ensures
            r == *self,
    {
        match self {
            TabState::Unselected => TabState::Unselected,
            TabState::Awaiting(name) => TabState::Awaiting(name.clone()),
            TabState::Selected(id, meta) => TabState::Selected(*id, meta.clone()),
        }
    }
}

impl Default for TabState {
    /// Before the user acts, no tab is selected or awaited.
    fn default() -> (r: Self)
        ensures
            r == TabState::Unselected,
    {
        TabState::Unselected
    }
}

impl TabState {
    /// Whether this state selects exactly the tab `id`.
    pub open spec fn spec_is_selected(self, id: TabId) -> bool {
        match self {
            TabState::Selected(selected, _) => selected == id,
            _ => false,
        }
    }

    pub fn is_selected(&self, id: &TabId) -> (r: bool)
        ensures
            r == self.spec_is_selected(*id),
    {
        match self {
            TabState::Selected(selected, _) => *selected == *id,
            _ => false,
        }
    }
}

/// The set of tabs the daemon last reported, with their metadata.
/// Replaced wholesale on every `TabList` response; no stale merging.
#[derive(Clone, PartialEq, Eq, Debug)]
pub struct TabStateAvailable(pub Vec<TabMetadata>);

impl Default for TabStateAvailable {
    /// Before the daemon reports, no tab is known.
    fn default() -> (r: Self)
        ensures
            r.0@ == Seq::<TabMetadata>::empty(),
    {
        TabStateAvailable(Vec::new())
    }
}

/// The local terminal's dimensions, `(columns, rows)`; latched,
/// last writer wins.
#[derive(Clone, Copy, PartialEq, Eq, Debug)]
pub struct TerminalSizeState(pub (u16, u16));

impl Default for TerminalSizeState {
    /// Before the terminal driver reports, the size reads as zero.
    fn default() -> (r: Self)
        ensures
            r.0 == (0u16, 0u16),
    {
        TerminalSizeState((0, 0))
    }
}

} // verus!
