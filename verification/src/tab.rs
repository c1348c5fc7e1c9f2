//! Tab identity and metadata as the daemon reports it.

use vstd::prelude::*;

verus! {

/// Opaque identifier of a tab, minted by the daemon.
pub type TabId = u64;

/// Everything the daemon knows about one tab.
#[derive(PartialEq, Eq, Debug)]
pub struct TabMetadata {
    pub id: TabId,
    pub name: String,
    pub dimensions: (u16, u16),
}

impl Clone for TabMetadata {
    fn clone(&self) -> (r: Self)
        ensures
            r == *self,
    {
        TabMetadata { id: self.id, name: self.name.clone(), dimensions: self.dimensions }
    }
}

/// What the client asks the daemon for when the user awaits a tab that
/// does not exist yet: a name, and the terminal's current dimensions.
#[derive(PartialEq, Eq, Debug)]
pub struct CreateTabMetadata {
    pub name: String,
    pub dimensions: (u16, u16),
}

impl Clone for CreateTabMetadata {
    fn clone(&self) -> (r: Self)
        ensures
            r == *self,
    {
        CreateTabMetadata { name: self.name.clone(), dimensions: self.dimensions }
    }
}

} // verus!
