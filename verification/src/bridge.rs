//! The error-to-notification bridge: the one convention by which a failed
//! operation reaches the user. The failure is promoted to an alert in the
//! ambient store and the operation yields no normal value; the surrounding
//! application then unwinds the call chain. No other error path exists in
//! the user-facing layer.

use vstd::prelude::*;

use crate::component::{
    ActionButton, ActionButtonView, ActionView, ComponentView, NotificationAction,
    NotificationComponentKind,
};
use crate::notification::{Notification, NotificationLevel, NotificationView};
use crate::store::NotificationStore;

verus! {

/// The "Report" button every error alert carries: invoking it disables
/// itself, so a report is sent at most once per alert.
pub open spec fn report_button_view() -> ComponentView {
    ComponentView::ActionButton(
        ActionButtonView {
            kind: NotificationComponentKind::Primary,
            text: "Report"@,
            action: ActionView::SetSelfEnabled(false),
            enabled: true,
            id: "report_button"@,
        },
    )
}

/// What the generic error alert looks like: fixed texts, `Error` severity,
/// the default display time, exactly the report button, no close hooks,
/// and a generated identity.
pub open spec fn is_error_notification(n: NotificationView) -> bool {
    &&& n.title == "Unexpected Error"@
    &&& n.message == "The application was unable to process your request."@
    &&& n.level == NotificationLevel::Error
    &&& n.duration == 5000
    &&& n.components == seq![report_button_view()]
    &&& n.close_hooks == Seq::<u64>::empty()
    &&& n.id.len() == 36
}

/// Builds the generic "unexpected error" alert for a failure. The failure
/// value itself is not shown to the user; it only triggers the alert.
pub fn error_notification<E>(_error: &E) -> (n: Notification)
    ensures
        is_error_notification(n@),
{
    let n = Notification::builder().title("Unexpected Error").message(
        "The application was unable to process your request.",
    ).level(NotificationLevel::Error).add_action_button(
        ActionButton::builder().text("Report").id("report_button").action(
            NotificationAction::SetSelfEnabled(false),
        ).build(),
    ).build();
    proof {
        assert(n@.components =~= seq![report_button_view()]);
    }
    n
}

/// Report-or-unwrap over a fallible computation: a success passes through
/// untouched and the store is left alone; a failure puts exactly one new
/// error alert at the end of the ambient store and yields no value, so the
/// caller has nothing to go on with and must unwind.
pub fn report_or_unwrap<T, E>(result: Result<T, E>, store: &mut NotificationStore) -> (r: Option<
    T,
>)
    ensures
        result matches Ok(v) ==> r == Some(v) && final(store)@ == old(store)@,
        result is Err ==> r is None && final(store)@ == old(store)@.push(final(store)@.last())
            && final(store)@.len() == old(store)@.len() + 1 && is_error_notification(
            final(store)@.last(),
        ),
{
    match result {
        Ok(value) => Some(value),
        Err(error) => {
            let alert = error_notification(&error);
            store.add(alert);
            None
        },
    }
}

/// Report-or-unwrap over an optional value, with the failure value the
/// caller wants reported when nothing is there; behaves as
/// [`report_or_unwrap`] does on a `Result`.
pub fn report_or_unwrap_opt<T, E>(value: Option<T>, error: E, store: &mut NotificationStore) -> (r:
    Option<T>)
    ensures
        value matches Some(v) ==> r == Some(v) && final(store)@ == old(store)@,
        value is None ==> r is None && final(store)@ == old(store)@.push(final(store)@.last())
            && final(store)@.len() == old(store)@.len() + 1 && is_error_notification(
            final(store)@.last(),
        ),
{
    match value {
        Some(inner) => Some(inner),
        None => {
            let alert = error_notification(&error);
            store.add(alert);
            None
        },
    }
}

} // verus!
