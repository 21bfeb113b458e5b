//! Errors raised while turning a client event into a storage row.

use vstd::prelude::*;

verus! {

/// Why an analytics event could not be turned into a row.
#[derive(Debug, Clone, Copy, PartialEq, Eq, Structural)]
pub enum AppError {
    /// The event carries no context (client, system, timestamps).
    MissingEventContext,
    /// The event carries no event payload.
    MissingEventData,
    /// The event context carries no system information.
    MissingSystemInfo,
}

} // verus!
