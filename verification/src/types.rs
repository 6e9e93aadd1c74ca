//! Core identifier and state types shared across the gateway.

use vstd::prelude::*;

verus! {

/// Identifier of a twin (agent). The all-zero identifier is the
/// distinguished global scope: tools registered under it are visible to
/// every twin.
#[derive(Debug, Clone, Copy, PartialEq, Eq, Structural)]
pub struct TwinId(pub u128);

impl TwinId {
    /// The distinguished global scope.
    pub fn nil() -> (r: TwinId)
        ensures
            r.0 == 0,
    {
        TwinId(0)
    }

    pub open spec fn is_global(self) -> bool {
        self.0 == 0
    }
}

/// Lifecycle state reported for a twin.
#[derive(Debug, Clone)]
pub struct TwinState {
    pub status: String,
    pub note: Option<String>,
}

impl Default for TwinState {
    fn default() -> (r: Self)
        ensures
            r.status@ == "registered"@,
            r.note is None,
    {
        TwinState { status: "registered".to_owned(), note: None }
    }
}

} // verus!
