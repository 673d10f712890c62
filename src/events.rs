//! Events handed to the background handlers.
use vstd::prelude::*;

verus! {

/// What the editor tells the statistics handler.
#[derive(Debug, Clone, Copy, PartialEq, Eq, Structural)]
pub enum CodeStatsEvent {
    /// An edit was counted: restart the quiet window.
    Update,
    /// Flush now (on quit, or on the "send now" command).
    ForceSend,
    /// Drop the pending flush without sending.
    Cancel,
}

/// What the editor tells the auto-save handler.
#[derive(Debug, Clone, Copy, PartialEq, Eq, Structural)]
pub enum AutoSaveEvent {
    DocumentChanged { save_after: u64 },
    LeftInsertMode,
}

} // verus!
