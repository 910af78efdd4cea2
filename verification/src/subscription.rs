//! Subscriptions: immutable bindings from one notification kind to one
//! handler, plus the invocation logic that runs on a match.

use vstd::prelude::*;
use crate::result::NotificationError;
use crate::result::NotificationHandlerResult;

verus! {

/// A notification kind delivered over the channel. One reserved value,
/// `Termination`, signals that the owning process must shut down; every
/// other kind is a domain-specific event identified by its number.
#[derive(Clone, Copy, Debug, PartialEq, Eq, Structural)]
pub enum NotificationId {
    /// The owning process must shut down.
    Termination,
    /// A domain-specific event kind.
    Event(u32),
}

/// An immutable binding from one notification kind to one handler. The
/// handler is any callable that takes the matched kind and reports success
/// or a domain error code.
pub struct NotificationSubscription<F> where F: Fn(NotificationId) -> NotificationHandlerResult {
    pub id: NotificationId,
    pub handler: F,
}

impl<F> NotificationSubscription<F> where F: Fn(NotificationId) -> NotificationHandlerResult {
    /// Binds `handler` to `id`. Construction itself never fails; the
    /// `Result` shape leaves room for environments that restrict which
    /// kinds may be subscribed to.
    pub fn new(id: NotificationId, handler: F) -> (result: Result<
        NotificationSubscription<F>,
        NotificationError,
    >)
        ensures
            result matches Ok(s) && s.id == id && s.handler == handler,
    {
        Ok(NotificationSubscription { id, handler })
    }

    /// Invokes the bound handler with the bound kind and returns its result
    /// unchanged.
    pub fn handle_request(&self) -> (result: NotificationHandlerResult)
        requires
            call_requires(self.handler, (self.id,)),
        ensures
            call_ensures(self.handler, (self.id,), result),
    {
        (self.handler)(self.id)
    }
}

} // verus!
