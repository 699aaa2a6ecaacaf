//! How instances and their content are named and what state they are in.

use vstd::prelude::*;

verus! {

/// The name of an instance: its slot, and the generation of that slot.
#[derive(Debug, Clone, Copy, PartialEq, Eq, Hash, PartialOrd, Ord, Structural)]
pub struct InstanceID {
    pub index: usize,
    pub generation: usize,
}

impl InstanceID {
    /// A name that no instance has.
    pub fn dangling() -> (id: InstanceID)
        ensures
            id.index == usize::MAX,
            id.generation == usize::MAX,
    {
        InstanceID { index: usize::MAX, generation: usize::MAX }
    }
}

/// The name of a piece of content of an instance: its slot, and the
/// generation of that slot.
#[derive(Debug, Clone, Copy, PartialEq, Eq, Hash, PartialOrd, Ord, Structural)]
pub struct InstanceContentID {
    pub index: usize,
    pub generation: usize,
}

impl InstanceContentID {
    /// A name that no content has.
    pub fn dangling() -> (id: InstanceContentID)
        ensures
            id.index == usize::MAX,
            id.generation == usize::MAX,
    {
        InstanceContentID { index: usize::MAX, generation: usize::MAX }
    }
}

/// Whether the game of an instance runs.
#[derive(Clone, Copy, Debug, PartialEq, Eq, Structural)]
pub enum InstanceStatus {
    NotRunning,
    Launching,
    Running,
}

/// What is known of updates for a piece of content.
#[derive(Clone, Copy, Debug, PartialEq, Eq, Structural)]
pub enum ContentUpdateStatus {
    Unknown,
    ManualInstall,
    ErrorNotFound,
    ErrorInvalidHash,
    AlreadyUpToDate,
    Modrinth,
}

impl ContentUpdateStatus {
    /// Whether an update can be installed: only where one was found.
    pub fn can_update(&self) -> (possible: bool)
        ensures
            possible == (*self is Modrinth),
    {
        match self {
            ContentUpdateStatus::Modrinth => true,
            _ => false,
        }
    }
}

} // verus!
