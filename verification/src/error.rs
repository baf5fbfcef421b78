//! The ways in which the synchronisation of a file can fail.

use vstd::prelude::*;

verus! {

/// Why the synchronisation of one file stopped.
#[derive(Clone, Copy, Debug, PartialEq, Eq, Structural)]
pub enum SyncError {
    /// A request failed or its response could not be read.
    Transport,
    /// A signature or a patch is not in the expected binary form.
    Decode,
    /// A patch copies from beyond the end of the bytes it is applied to.
    Range,
    /// A local file could not be read or written.
    Filesystem,
    /// A path is absolute or climbs out of the root directory.
    UnsafePath,
}

impl SyncError {
    /// The text shown for this error.
    pub open spec fn spec_message(self) -> Seq<char> {
        match self {
            SyncError::Transport => "transport failure"@,
            SyncError::Decode => "malformed signature or patch"@,
            SyncError::Range => "patch copies outside the data it applies to"@,
            SyncError::Filesystem => "filesystem failure"@,
            SyncError::UnsafePath => "path leaves the root directory"@,
        }
    }

    /// Returns the text shown for this error.
    pub fn message(&self) -> (text: String)
        ensures
            text@ == self.spec_message(),
    {
        match self {
            SyncError::Transport => String::from_str("transport failure"),
            SyncError::Decode => String::from_str("malformed signature or patch"),
            SyncError::Range => String::from_str("patch copies outside the data it applies to"),
            SyncError::Filesystem => String::from_str("filesystem failure"),
            SyncError::UnsafePath => String::from_str("path leaves the root directory"),
        }
    }
}

} // verus!
