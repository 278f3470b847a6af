//! The description of a block device handed to the engine.
//!
//! Enumeration itself is the surrounding application's: it lists the
//! candidates and flags the system disk. The engine treats the path
//! as an opaque identifier and, handed an invalid one, fails on the
//! open rather than assume anything about it.

use vstd::prelude::*;

verus! {

/// One candidate target: its platform-native path, what to show for
/// it, and the flags the caller filters on.
pub struct BlockDevice {
    pub path: String,
    pub name: String,
    pub size: u64,
    pub size_formatted: String,
    pub model: String,
    pub is_removable: bool,
    pub is_system: bool,
}

impl BlockDevice {
    /// A device flagged as the system disk is never a valid flash
    /// target.
    pub fn is_valid_target(&self) -> (r: bool)
        ensures
            r == !self.is_system,
    {
        !self.is_system
    }
}

} // verus!
