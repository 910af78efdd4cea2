//! Error taxonomy of the dispatch engine.

use vstd::prelude::*;

verus! {

/// Everything that can go wrong while constructing a manager or running one
/// dispatch cycle.
#[derive(Clone, Copy, Debug, PartialEq, Eq, Structural)]
pub enum NotificationError {
    /// The environment refused to grant the notification channel; fatal to
    /// manager construction.
    ChannelUnavailable,
    /// The blocking receive on the channel failed; transient, the caller's
    /// loop may retry.
    ReceiveFailed,
    /// A matched handler reported failure; its error code is carried
    /// verbatim.
    HandlerFailed(u32),
}

/// What a handler returns: success, or a domain error code that the
/// dispatcher surfaces verbatim.
pub type NotificationHandlerResult = Result<(), u32>;

} // verus!
