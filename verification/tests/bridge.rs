use canvadot_notifications::bridge::{error_notification, report_or_unwrap, report_or_unwrap_opt};
use canvadot_notifications::component::NotificationComponent;
use canvadot_notifications::notification::NotificationLevel;
use canvadot_notifications::store::NotificationStore;

#[test]
fn a_success_passes_through_and_leaves_the_store_alone() {
    let mut store = NotificationStore::new();
    let value = report_or_unwrap(Ok::<u32, &str>(17), &mut store);
    assert_eq!(value, Some(17));
    assert_eq!(store.all().len(), 0);

    let value = report_or_unwrap_opt(Some(23u32), "fallback failure", &mut store);
    assert_eq!(value, Some(23));
    assert_eq!(store.all().len(), 0);
}

#[test]
fn a_failure_puts_exactly_one_error_alert_in_the_store() {
    let mut store = NotificationStore::new();

    let value = report_or_unwrap(Err::<u32, &str>("backend unreachable"), &mut store);
    // No normal value comes back: the caller has to unwind.
    assert_eq!(value, None);

    assert_eq!(store.all().len(), 1);
    let alert = &store.all()[0];
    assert_eq!(alert.level(), NotificationLevel::Error);
    assert_eq!(alert.title(), "Unexpected Error");
    assert_eq!(
        alert.message(),
        "The application was unable to process your request."
    );
    assert_eq!(alert.components().len(), 1);
}

#[test]
fn a_missing_value_reports_like_a_failure() {
    let mut store = NotificationStore::new();
    let value = report_or_unwrap_opt(None::<u32>, "nothing there", &mut store);
    assert_eq!(value, None);
    assert_eq!(store.all().len(), 1);
    assert_eq!(store.all()[0].level(), NotificationLevel::Error);
}

#[test]
fn the_report_button_disables_itself_idempotently() {
    let mut alert = error_notification(&"some failure");

    let enabled_of = |n: &canvadot_notifications::notification::Notification| {
        match n.get_component("report_button") {
            Some(NotificationComponent::ActionButton(b)) => b.enabled(),
            _ => unreachable!("the error alert carries its report button"),
        }
    };

    assert!(enabled_of(&alert));

    // First press: the button disables itself.
    alert.invoke_action_button("report_button");
    assert!(!enabled_of(&alert));

    // Second press: the action body runs again, but the flag is already
    // down and stays down.
    alert.invoke_action_button("report_button");
    assert!(!enabled_of(&alert));
}
