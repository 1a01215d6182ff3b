//! Failures the round engine can surface to the host boundary.

use vstd::prelude::*;

verus! {

/// Everything that can go wrong inside the round engine.
#[derive(Clone, Debug, PartialEq, Eq, Structural)]
pub enum ContractError {
    /// The round id that was asked for (directly, or through the
    /// current-round pointer) has no stored record.
    GameNotFound { gamen: u8 },
}

} // verus!
