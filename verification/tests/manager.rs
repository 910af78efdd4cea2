use notification_dispatch::Handle;
use notification_dispatch::NotificationError;
use notification_dispatch::NotificationHandlerResult;
use notification_dispatch::NotificationId;
use notification_dispatch::NotificationManager;
use notification_dispatch::NotificationSubscription;
use notification_dispatch::NotificationType;

type Handler = fn(NotificationId) -> NotificationHandlerResult;

fn manager_with_channel(raw: u32) -> NotificationManager<Handler> {
    NotificationManager::new(Some(Handle::new(raw))).expect("channel was granted")
}

#[test]
fn construction_fails_without_channel() {
    let denied = NotificationManager::<Handler>::new(None);
    assert!(matches!(denied, Err(NotificationError::ChannelUnavailable)));
}

#[test]
fn construction_takes_the_granted_channel() {
    let manager = manager_with_channel(42);
    assert_eq!(manager.get_handle().get_raw(), 42);
}

#[test]
fn subscribed_kind_is_dispatched_to_its_handler() {
    let mut manager = manager_with_channel(1);
    // Succeeds only when invoked with the subscribed kind, so the outcome
    // shows both that the handler ran and what it was called with.
    let handler: Handler = |id| if id == NotificationId::Event(5) { Ok(()) } else { Err(99) };
    manager.subscribe(NotificationId::Event(5), handler).expect("subscribe succeeds");
    let outcome = manager.handle_notification(Some(NotificationId::Event(5)));
    assert_eq!(outcome, Ok(NotificationType::HandledSubscribed));
}

#[test]
fn termination_is_reported_with_no_subscriptions() {
    let manager = manager_with_channel(1);
    let outcome = manager.handle_notification(Some(NotificationId::Termination));
    assert_eq!(outcome, Ok(NotificationType::Termination));
}

#[test]
fn unmatched_kind_is_unhandled_and_invokes_nothing() {
    let mut manager = manager_with_channel(1);
    let handler: Handler = |_id| Err(77);
    manager.subscribe(NotificationId::Event(9), handler).expect("subscribe succeeds");
    let outcome = manager.handle_notification(Some(NotificationId::Event(3)));
    // Err(HandlerFailed(77)) here would mean the handler ran.
    assert_eq!(outcome, Ok(NotificationType::Unhandled));
}

#[test]
fn termination_outranks_a_termination_subscription() {
    let mut manager = manager_with_channel(1);
    let handler: Handler = |_id| Err(13);
    manager.subscribe(NotificationId::Termination, handler).expect("subscribe succeeds");
    let outcome = manager.handle_notification(Some(NotificationId::Termination));
    // Not HandledSubscribed, and not the handler's failure: the handler
    // never ran.
    assert_eq!(outcome, Ok(NotificationType::Termination));
}

#[test]
fn earliest_of_two_equal_kinds_wins() {
    let mut manager = manager_with_channel(1);
    let first: Handler = |_id| Ok(());
    let second: Handler = |_id| Err(7);
    manager.subscribe(NotificationId::Event(2), first).expect("subscribe succeeds");
    manager.subscribe(NotificationId::Event(2), second).expect("subscribe succeeds");
    // The failing duplicate is never reached.
    let outcome = manager.handle_notification(Some(NotificationId::Event(2)));
    assert_eq!(outcome, Ok(NotificationType::HandledSubscribed));
}

#[test]
fn earliest_of_two_equal_kinds_wins_even_when_it_fails() {
    let mut manager = manager_with_channel(1);
    let first: Handler = |_id| Err(7);
    let second: Handler = |_id| Ok(());
    manager.subscribe(NotificationId::Event(2), first).expect("subscribe succeeds");
    manager.subscribe(NotificationId::Event(2), second).expect("subscribe succeeds");
    // The succeeding duplicate cannot rescue the dispatch.
    let outcome = manager.handle_notification(Some(NotificationId::Event(2)));
    assert_eq!(outcome, Err(NotificationError::HandlerFailed(7)));
}

#[test]
fn handler_failure_is_surfaced_verbatim() {
    let mut manager = manager_with_channel(1);
    let handler: Handler = |_id| Err(31);
    manager.subscribe(NotificationId::Event(4), handler).expect("subscribe succeeds");
    let outcome = manager.handle_notification(Some(NotificationId::Event(4)));
    assert_eq!(outcome, Err(NotificationError::HandlerFailed(31)));
}

#[test]
fn registry_is_unchanged_by_a_handler_failure() {
    let mut manager = manager_with_channel(1);
    let failing: Handler = |_id| Err(8);
    let fine: Handler = |_id| Ok(());
    manager.subscribe(NotificationId::Event(1), failing).expect("subscribe succeeds");
    manager.subscribe(NotificationId::Event(6), fine).expect("subscribe succeeds");
    let first = manager.handle_notification(Some(NotificationId::Event(1)));
    assert_eq!(first, Err(NotificationError::HandlerFailed(8)));
    // Subsequent dispatches behave exactly as before the failure.
    let again = manager.handle_notification(Some(NotificationId::Event(1)));
    assert_eq!(again, Err(NotificationError::HandlerFailed(8)));
    let other = manager.handle_notification(Some(NotificationId::Event(6)));
    assert_eq!(other, Ok(NotificationType::HandledSubscribed));
    let termination = manager.handle_notification(Some(NotificationId::Termination));
    assert_eq!(termination, Ok(NotificationType::Termination));
}

#[test]
fn failed_receive_is_reported_without_touching_the_registry() {
    let mut manager = manager_with_channel(1);
    let handler: Handler = |_id| Ok(());
    manager.subscribe(NotificationId::Event(5), handler).expect("subscribe succeeds");
    let outcome = manager.handle_notification(None);
    assert_eq!(outcome, Err(NotificationError::ReceiveFailed));
    let retry = manager.handle_notification(Some(NotificationId::Event(5)));
    assert_eq!(retry, Ok(NotificationType::HandledSubscribed));
}

#[test]
fn subscription_invokes_its_handler_with_its_own_kind() {
    let handler: Handler = |id| if id == NotificationId::Event(11) { Err(55) } else { Ok(()) };
    let subscription =
        NotificationSubscription::new(NotificationId::Event(11), handler).expect("always succeeds");
    assert_eq!(subscription.handle_request(), Err(55));
}

#[test]
fn first_registered_handler_of_a_kind_runs_among_many() {
    let mut manager = manager_with_channel(1);
    let on_five: Handler = |_id| Err(50);
    let on_nine: Handler = |_id| Err(90);
    let on_nine_again: Handler = |_id| Ok(());
    manager.subscribe(NotificationId::Event(5), on_five).expect("subscribe succeeds");
    manager.subscribe(NotificationId::Event(9), on_nine).expect("subscribe succeeds");
    manager.subscribe(NotificationId::Event(9), on_nine_again).expect("subscribe succeeds");
    let outcome = manager.handle_notification(Some(NotificationId::Event(9)));
    // The earliest binding of kind 9 runs, not the binding of kind 5 and
    // not the later duplicate.
    assert_eq!(outcome, Err(NotificationError::HandlerFailed(90)));
}
