//! An in-process notification subscription-and-dispatch engine.
//!
//! A service that owns a notification channel registers handlers for the
//! notification kinds it cares about, then repeatedly asks the manager to
//! classify and dispatch the next delivered notification: a termination
//! request wins over every subscription, a matching subscription runs its
//! handler, and anything else is reported as unhandled.

mod handle;
mod manager;
mod result;
mod subscription;

pub use handle::Handle;
pub use manager::NotificationManager;
pub use manager::NotificationType;
pub use manager::dispatch_outcome;
pub use manager::first_match_index;
pub use manager::has_subscription;
pub use manager::lemma_duplicate_kind_unreachable;
pub use manager::lemma_first_match_at;
pub use manager::lemma_first_match_is_earliest;
pub use manager::lemma_subscribe_keeps_earlier_matches;
pub use result::NotificationError;
pub use result::NotificationHandlerResult;
pub use subscription::NotificationId;
pub use subscription::NotificationSubscription;
