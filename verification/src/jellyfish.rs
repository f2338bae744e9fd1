//! The mountable jellyfish item's mount state. The node's rendering and
//! scene wiring stay with the host engine; the state and its tests live
//! here.

use vstd::prelude::*;

verus! {

/// Statuses, in order. This is the normal sequence of statuses; death
/// resets the state to `Dropped`.
#[derive(Clone, Copy, Debug, PartialEq, Eq, Structural)]
pub enum MountStatus {
    Dropped,
    Mounted,
    Driving,
    Dismounted,
}

impl MountStatus {
    /// Whether the item counts as thrown: it has been dropped.
    pub fn is_thrown(&self) -> (r: bool)
        ensures
            r == (*self is Dropped),
    {
        match self {
            MountStatus::Dropped => true,
            _ => false,
        }
    }
}

} // verus!
