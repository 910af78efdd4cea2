//! The notification manager: owns the channel handle and an ordered registry
//! of subscriptions, and classifies each delivered notification.

use vstd::prelude::*;
use crate::handle::Handle;
use crate::result::NotificationError;
use crate::result::NotificationHandlerResult;
use crate::subscription::NotificationId;
use crate::subscription::NotificationSubscription;

verus! {

/// The three-way outcome of one dispatch cycle.
#[derive(Clone, Copy, Debug, PartialEq, Eq, Structural)]
pub enum NotificationType {
    /// A subscribed notification was handled.
    HandledSubscribed,
    /// A termination request was received.
    Termination,
    /// A notification was not handled.
    Unhandled,
}

/// How one handler's report surfaces to the caller of a dispatch cycle: a
/// success is a handled notification, a failure is carried verbatim.
pub open spec fn dispatch_outcome(hr: NotificationHandlerResult) -> Result<
    NotificationType,
    NotificationError,
> {
    match hr {
        Ok(()) => Ok(NotificationType::HandledSubscribed),
        Err(code) => Err(NotificationError::HandlerFailed(code)),
    }
}

/// Whether some subscription in `subs` is bound to `id`.
pub open spec fn has_subscription<F: Fn(NotificationId) -> NotificationHandlerResult>(
    subs: Seq<NotificationSubscription<F>>,
    id: NotificationId,
) -> bool {
    exists|i: int| 0 <= i < subs.len() && subs[i].id == id
}

/// The index of the earliest subscription in `subs` bound to `id`; equals
/// `subs.len()` when there is none.
pub open spec fn first_match_index<F: Fn(NotificationId) -> NotificationHandlerResult>(
    subs: Seq<NotificationSubscription<F>>,
    id: NotificationId,
) -> int
    decreases subs.len(),
{
    if subs.len() == 0 {
        0
    } else if subs[0].id == id {
        0
    } else {
        1 + first_match_index(subs.subrange(1, subs.len() as int), id)
    }
}

/// Dispatch resolves a kind bound more than once to the earliest registered
/// subscription: the first match is a real match, and nothing before it is.
pub proof fn lemma_first_match_is_earliest<F: Fn(NotificationId) -> NotificationHandlerResult>(
    subs: Seq<NotificationSubscription<F>>,
    id: NotificationId,
)
    requires
        has_subscription(subs, id),
    ensures
        0 <= first_match_index(subs, id) < subs.len(),
        subs[first_match_index(subs, id)].id == id,
        forall|j: int| 0 <= j < first_match_index(subs, id) ==> subs[j].id != id,
    decreases subs.len(),
{
    if subs.len() == 0 {
    } else if subs[0].id == id {
    } else {
        let rest = subs.subrange(1, subs.len() as int);
        let w = choose|i: int| 0 <= i < subs.len() && subs[i].id == id;
        assert(rest[w - 1].id == id);
        lemma_first_match_is_earliest(rest, id);
        let f = first_match_index(rest, id);
        assert(subs[1 + f].id == rest[f].id);
        assert(forall|j: int| 1 <= j < 1 + f ==> subs[j].id == rest[j - 1].id);
    }
}

/// Where a match exists at `i` and none earlier, `i` is the first match.
pub proof fn lemma_first_match_at<F: Fn(NotificationId) -> NotificationHandlerResult>(
    subs: Seq<NotificationSubscription<F>>,
    id: NotificationId,
    i: int,
)
    requires
        0 <= i < subs.len(),
        subs[i].id == id,
        forall|j: int| 0 <= j < i ==> subs[j].id != id,
    ensures
        has_subscription(subs, id),
        first_match_index(subs, id) == i,
{
    lemma_first_match_is_earliest(subs, id);
    let f = first_match_index(subs, id);
    if f < i {
        assert(subs[f].id != id);
    }
}

/// Appending a subscription never changes which subscription dispatch
/// selects for a kind that was already bound: the earliest binding keeps
/// winning. A kind not yet bound is matched by the new entry exactly where
/// the new entry binds it.
pub proof fn lemma_subscribe_keeps_earlier_matches<
    F: Fn(NotificationId) -> NotificationHandlerResult,
>(
    subs: Seq<NotificationSubscription<F>>,
    sub: NotificationSubscription<F>,
    id: NotificationId,
)
    ensures
        has_subscription(subs, id) ==> has_subscription(subs.push(sub), id) && first_match_index(
            subs.push(sub),
            id,
        ) == first_match_index(subs, id),
        !has_subscription(subs, id) && sub.id == id ==> has_subscription(subs.push(sub), id)
            && first_match_index(subs.push(sub), id) == subs.len(),
        !has_subscription(subs, id) && sub.id != id ==> !has_subscription(subs.push(sub), id),
{
    let pushed = subs.push(sub);
    assert(forall|j: int| 0 <= j < subs.len() ==> pushed[j] == subs[j]);
    if has_subscription(subs, id) {
        let w = choose|i: int| 0 <= i < subs.len() && subs[i].id == id;
        assert(pushed[w].id == id);
        lemma_first_match_is_earliest(subs, id);
        lemma_first_match_at(pushed, id, first_match_index(subs, id));
    } else {
        assert(forall|j: int| 0 <= j < subs.len() ==> subs[j].id != id);
        if sub.id == id {
            assert(pushed[subs.len() as int].id == id);
            lemma_first_match_at(pushed, id, subs.len() as int);
        } else {
            assert(forall|j: int| 0 <= j < pushed.len() ==> pushed[j].id != id);
        }
    }
}

/// Of two subscriptions bound to one kind, dispatch selects an entry no
/// later than the earlier one; the later entry is never selected.
pub proof fn lemma_duplicate_kind_unreachable<F: Fn(NotificationId) -> NotificationHandlerResult>(
    subs: Seq<NotificationSubscription<F>>,
    i: int,
    j: int,
)
    requires
        0 <= i < j < subs.len(),
        subs[i].id == subs[j].id,
    ensures
        has_subscription(subs, subs[j].id),
        first_match_index(subs, subs[j].id) <= i,
        first_match_index(subs, subs[j].id) != j,
{
    assert(has_subscription(subs, subs[j].id));
    lemma_first_match_is_earliest(subs, subs[j].id);
    let f = first_match_index(subs, subs[j].id);
    if f > i {
        assert(subs[i].id != subs[j].id);
    }
}

/// Manages notification subscriptions: owns the channel handle exclusively
/// and an ordered registry of subscriptions, ordered by registration time.
pub struct NotificationManager<F> where F: Fn(NotificationId) -> NotificationHandlerResult {
    pub handle: Handle,
    pub notification_subscriptions: Vec<NotificationSubscription<F>>,
}

impl<F> NotificationManager<F> where F: Fn(NotificationId) -> NotificationHandlerResult {
    /// The registry in registration order.
    pub open spec fn subscriptions(self) -> Seq<NotificationSubscription<F>> {
        self.notification_subscriptions@
    }

    /// Every registered handler may be invoked with its bound kind.
    pub open spec fn wf(self) -> bool {
        forall|i: int|
            0 <= i < self.subscriptions().len() ==> call_requires(
                #[trigger] self.subscriptions()[i].handler,
                (self.subscriptions()[i].id,),
            )
    }

    /// Builds a manager around the channel the environment granted, or fails
    /// with `ChannelUnavailable` where the environment denied one.
    pub fn new(channel: Option<Handle>) -> (result: Result<
        NotificationManager<F>,
        NotificationError,
    >)
        ensures
            match channel {
                Some(handle) => result matches Ok(m) && m.handle == handle
                    && m.subscriptions().len() == 0 && m.wf(),
                None => result == Err::<NotificationManager<F>, NotificationError>(
                    NotificationError::ChannelUnavailable,
                ),
            },
    {
        match channel {
            Some(handle) => Ok(NotificationManager { handle, notification_subscriptions: Vec::new() }),
            None => Err(NotificationError::ChannelUnavailable),
        }
    }

    /// Appends a subscription binding `notification_id` to `handler`. Never
    /// deduplicates: a kind bound twice keeps both entries, and dispatch
    /// resolves to the earlier one.
    pub fn subscribe(&mut self, notification_id: NotificationId, handler: F) -> (result: Result<
        (),
        NotificationError,
    >)
        requires
            old(self).wf(),
            call_requires(handler, (notification_id,)),
        ensures
            final(self).wf(),
            final(self).handle == old(self).handle,
            final(self).subscriptions() == old(self).subscriptions().push(
                (NotificationSubscription { id: notification_id, handler }),
            ),
            result == Ok::<(), NotificationError>(()),
    {
        let notification_subscription = NotificationSubscription::new(notification_id, handler)?;
        self.notification_subscriptions.push(notification_subscription);
        Ok(())
    }

    /// The owned channel handle, for composing the channel with other wait
    /// primitives; ownership stays with the manager.
    pub fn get_handle(&self) -> (handle: &Handle)
        ensures
            handle == &self.handle,
    {
        &self.handle
    }

    /// One dispatch cycle over the notification the environment delivered:
    /// `received` is the outcome of the blocking receive on the channel
    /// (`None` where the receive failed). A termination request wins over
    /// every subscription; otherwise the earliest subscription bound to the
    /// received kind handles it, its failure surfacing verbatim; a kind
    /// nobody subscribed to is reported as not handled.
    pub fn handle_notification(&self, received: Option<NotificationId>) -> (result: Result<
        NotificationType,
        NotificationError,
    >)
        requires
            self.wf(),
        ensures
            match received {
                None => result == Err::<NotificationType, NotificationError>(
                    NotificationError::ReceiveFailed,
                ),
                Some(id) => {
                    if id == NotificationId::Termination {
                        result == Ok::<NotificationType, NotificationError>(
                            NotificationType::Termination,
                        )
                    } else if has_subscription(self.subscriptions(), id) {
                        exists|hr: NotificationHandlerResult|
                            #[trigger] call_ensures(
                                self.subscriptions()[first_match_index(self.subscriptions(), id)].handler,
                                (id,),
                                hr,
                            ) && result == dispatch_outcome(hr)
                    } else {
                        result == Ok::<NotificationType, NotificationError>(NotificationType::Unhandled)
                    }
                },
            },
    {
        let notification_id = match received {
            Some(id) => id,
            None => {
                return Err(NotificationError::ReceiveFailed);
            },
        };

        if notification_id == NotificationId::Termination {
            return Ok(NotificationType::Termination);
        }

        let n = self.notification_subscriptions.len();
        let mut i: usize = 0;
        while i < n
            invariant
                self.wf(),
                received == Some(notification_id),
                notification_id != NotificationId::Termination,
                n == self.subscriptions().len(),
                0 <= i <= n,
                forall|j: int| 0 <= j < i ==> self.subscriptions()[j].id != notification_id,
            decreases n - i,
        {
            if self.notification_subscriptions[i].id == notification_id {
                proof {
                    lemma_first_match_at(self.subscriptions(), notification_id, i as int);
                }
                let handler_result = self.notification_subscriptions[i].handle_request();
                let outcome = match handler_result {
                    Ok(()) => Ok(NotificationType::HandledSubscribed),
                    Err(code) => Err(NotificationError::HandlerFailed(code)),
                };
                proof {
                    let subs = self.subscriptions();
                    let fm = first_match_index(subs, notification_id);
                    assert(call_ensures(subs[fm].handler, (notification_id,), handler_result));
                }
                return outcome;
            }
            i += 1;
        }

        Ok(NotificationType::Unhandled)
    }
}

} // verus!

