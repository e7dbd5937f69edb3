//! Workspace sizing metadata.

use vstd::prelude::*;

verus! {

/// Byte-size description for caller-owned FlashMLA workspace memory.
#[derive(Debug, Copy, Clone, PartialEq, Eq)]
pub struct WorkspaceLayout {
    /// Required workspace bytes.
    pub bytes: usize,
}

impl Default for WorkspaceLayout {
    fn default() -> (layout: WorkspaceLayout)
        ensures
            layout.bytes == 0,
    {
        WorkspaceLayout { bytes: 0 }
    }
}

impl WorkspaceLayout {
    /// Creates a workspace layout with the specified byte size.
    pub fn new(bytes: usize) -> (layout: WorkspaceLayout)
        ensures
            layout.bytes == bytes,
    {
        WorkspaceLayout { bytes }
    }

    /// Returns true when no workspace allocation is required.
    pub fn is_empty(self) -> (empty: bool)
        ensures
            empty == (self.bytes == 0),
    {
        self.bytes == 0
    }
}

} // verus!
