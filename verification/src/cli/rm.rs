//! The rm subcommand: remove a registered service.

use vstd::prelude::*;

verus! {

/// Asks for one registered service to be removed, after confirmation.
pub struct Cmd {
    /// The service to remove.
    pub service: String,
}

} // verus!
