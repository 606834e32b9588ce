use canvadot_notifications::component::{
    ActionButton, Dropdown, NotificationAction, NotificationComponent, NotificationComponentKind,
    RedirectButton,
};
use canvadot_notifications::grouping::group_components;
use canvadot_notifications::notification::{Notification, NotificationLevel, Rgb};

fn uuid_like(id: &str) -> bool {
    id.len() == 36 && id.as_bytes()[14] == b'4'
}

#[test]
fn test_notification_builders() {
    let mut notification = Notification::builder()
        .title("test")
        .message("test")
        .level(NotificationLevel::Info)
        .duration(5000)
        .add_redirect_button(
            RedirectButton::builder()
                .text("test")
                .id("test_redirect_button")
                .target("/")
                .kind(NotificationComponentKind::Primary)
                .enabled(false)
                .build(),
        )
        .add_action_button(
            ActionButton::builder()
                .text("test")
                .id("test_action_button")
                .action(NotificationAction::SetTitle("test 2".to_string()))
                .kind(NotificationComponentKind::Secondary)
                .enabled(true)
                .build(),
        )
        .add_dropdown(
            Dropdown::builder()
                .id("test_dropdown")
                .default(0)
                .add_value("test", "test")
                .enabled(true)
                .build(),
        )
        .build();

    {
        assert!(uuid_like(notification.id()));
        assert_eq!(notification.level(), NotificationLevel::Info);
        assert_eq!(notification.title(), "test");
        assert_eq!(notification.message(), "test");
        assert_eq!(notification.duration(), 5000);
    }

    {
        let redirect_button = notification
            .get_component("test_redirect_button")
            .expect("Test Button to Exist.");

        if let NotificationComponent::RedirectButton(button) = redirect_button {
            assert_eq!(button.id(), "test_redirect_button");
            assert_eq!(button.text(), "test");
            assert_eq!(button.target(), "/");
            assert_eq!(button.kind(), NotificationComponentKind::Primary);
            assert!(!button.enabled())
        } else {
            unreachable!("Redirect Button is not a Redirect Button.");
        }
    }

    {
        let action_button = notification
            .get_component("test_action_button")
            .expect("Test Button to Exist.");

        if let NotificationComponent::ActionButton(button) = action_button {
            assert_eq!(button.id(), "test_action_button");
            assert_eq!(button.text(), "test");
            assert_eq!(button.kind(), NotificationComponentKind::Secondary);
            assert!(button.enabled());
        } else {
            unreachable!("Action Button is not an Action Button.");
        }

        notification.invoke_action_button("test_action_button");
        assert_eq!(notification.title(), "test 2");
    }

    {
        {
            let dropdown = notification
                .get_component("test_dropdown")
                .expect("Test Dropdown To Exist.");

            if let NotificationComponent::Dropdown(dropdown) = dropdown {
                assert_eq!(dropdown.id(), "test_dropdown");
                assert_eq!(dropdown.values().len(), 1);
                assert_eq!(dropdown.default(), 0);
                assert!(dropdown.enabled());
            } else {
                unreachable!("Dropdown is not a Dropdown");
            }
        }

        notification.select_dropdown_value("test_dropdown", "test");
        let dropdown = notification
            .get_component("test_dropdown")
            .expect("Test Dropdown To Exist.");

        if let NotificationComponent::Dropdown(dropdown) = dropdown {
            assert_eq!(dropdown.current_value(), "test");
        } else {
            unreachable!("The dropdown does not exist or is not a Dropdown.");
        }
    }
}

#[test]
fn test_default_builder_options() {
    let mut notification = Notification::builder()
        .title("test")
        .message("test")
        .add_redirect_button(
            RedirectButton::builder()
                .text("test")
                .id("test_redirect_button")
                .target("/")
                .build(),
        )
        .add_action_button(
            ActionButton::builder()
                .text("test")
                .id("test_action_button")
                .build(),
        )
        .add_dropdown(Dropdown::builder().id("test_dropdown").build())
        .build();

    {
        assert!(uuid_like(notification.id()));
        assert_eq!(notification.level(), NotificationLevel::Info);
        assert_eq!(notification.title(), "test");
        assert_eq!(notification.message(), "test");
        assert_eq!(notification.duration(), 5000);
    }

    {
        let redirect_button = notification
            .get_component("test_redirect_button")
            .expect("Test Button to Exist.");

        if let NotificationComponent::RedirectButton(button) = redirect_button {
            assert_eq!(button.id(), "test_redirect_button");
            assert_eq!(button.text(), "test");
            assert_eq!(button.target(), "/");
            assert_eq!(button.kind(), NotificationComponentKind::Primary);
            assert!(button.enabled())
        } else {
            unreachable!("Redirect Button is not a Redirect Button.");
        }
    }

    {
        // The default action is a no-op: invoking it changes nothing.
        notification.invoke_action_button("test_action_button");

        let action_button = notification
            .get_component("test_action_button")
            .expect("Test Button to Exist.");

        if let NotificationComponent::ActionButton(button) = action_button {
            assert_eq!(button.id(), "test_action_button");
            assert_eq!(button.text(), "test");
            assert_eq!(button.kind(), NotificationComponentKind::Primary);
            assert!(button.enabled());
        } else {
            unreachable!("Action Button is not an Action Button.");
        }
        assert_eq!(notification.title(), "test");
    }

    {
        let dropdown = notification
            .get_component("test_dropdown")
            .expect("Test Dropdown To Exist.");

        if let NotificationComponent::Dropdown(dropdown) = dropdown {
            assert_eq!(dropdown.id(), "test_dropdown");
            assert_eq!(dropdown.values().len(), 0);
            assert_eq!(dropdown.default(), 0);
            assert!(dropdown.enabled());
        } else {
            unreachable!("Dropdown is not a Dropdown");
        }
    }
}

#[test]
fn test_setters() {
    let mut notification = Notification::builder()
        .title("")
        .message("")
        .duration(5000) // immutable
        .add_redirect_button(
            RedirectButton::builder()
                .text("")
                .id("test_redirect_button") // immutable
                .target("")
                .build(),
        )
        .add_action_button(
            ActionButton::builder()
                .text("")
                .id("test_action_button") // immutable
                .build(),
        )
        .add_dropdown(
            Dropdown::builder()
                .id("test_dropdown") // immutable
                .build(),
        )
        .build();

    {
        notification.set_title("test".into());
        notification.set_message("test".into());
        notification.set_level(NotificationLevel::Info);

        assert!(uuid_like(notification.id()));
        assert_eq!(notification.level(), NotificationLevel::Info);
        assert_eq!(notification.title(), "test");
        assert_eq!(notification.message(), "test");
        assert_eq!(notification.duration(), 5000);
    }

    {
        let redirect_button = notification
            .get_component("test_redirect_button")
            .expect("Test Button to Exist.")
            .clone();

        if let NotificationComponent::RedirectButton(mut button) = redirect_button {
            button.set_text("test".into());
            button.set_target("/".into());
            button.set_kind(NotificationComponentKind::Secondary);
            button.set_enabled(false);

            assert_eq!(button.id(), "test_redirect_button");
            assert_eq!(button.text(), "test");
            assert_eq!(button.target(), "/");
            assert_eq!(button.kind(), NotificationComponentKind::Secondary);
            assert!(!button.enabled());

            assert!(notification.replace_component(
                "test_redirect_button",
                NotificationComponent::RedirectButton(button),
            ));
        } else {
            unreachable!("Redirect Button is not a Redirect Button.");
        }
    }

    {
        let action_button = notification
            .get_component("test_action_button")
            .expect("Test Button to Exist.")
            .clone();

        if let NotificationComponent::ActionButton(mut button) = action_button {
            button.set_text("test".into());
            button.set_kind(NotificationComponentKind::Secondary);
            button.set_enabled(true);

            assert_eq!(button.id(), "test_action_button");
            assert_eq!(button.text(), "test");
            assert_eq!(button.kind(), NotificationComponentKind::Secondary);
            assert!(button.enabled());

            assert!(notification.replace_component(
                "test_action_button",
                NotificationComponent::ActionButton(button),
            ));
        } else {
            unreachable!("Action Button is not an Action Button.");
        }
    }

    {
        let dropdown = notification
            .get_component("test_dropdown")
            .expect("Test Dropdown To Exist.")
            .clone();

        if let NotificationComponent::Dropdown(mut dropdown) = dropdown {
            dropdown.set_enabled(true);
            dropdown.set_values(vec![("test".into(), "test".into())]);
            dropdown.set_default(0);
            dropdown.set_enabled(true);

            assert_eq!(dropdown.id(), "test_dropdown");
            assert_eq!(dropdown.values().len(), 1);
            assert_eq!(dropdown.default(), 0);
            assert!(dropdown.enabled());

            assert!(notification.replace_component(
                "test_dropdown",
                NotificationComponent::Dropdown(dropdown),
            ));
        } else {
            unreachable!("Dropdown is not a Dropdown");
        }
    }
}

#[test]
fn test_group_components() {
    let notification = Notification::builder()
        .title("test")
        .message("test")
        .add_redirect_button(
            RedirectButton::builder().text("test").target("/").build(),
        )
        .add_redirect_button(
            RedirectButton::builder().text("test2").target("/").build(),
        )
        .add_dropdown(Dropdown::builder().build())
        .add_action_button(ActionButton::builder().text("test3").build())
        .build();

    let grouped_components = group_components(notification.components());

    let first_row = grouped_components
        .get(0)
        .expect("For a first two button row to exist.");

    assert!(matches!(first_row.get(0), Some(NotificationComponent::RedirectButton(_))));
    assert!(matches!(first_row.get(1), Some(NotificationComponent::RedirectButton(_))));

    let second_row = grouped_components
        .get(1)
        .expect("For the dropdown row to exist.");

    assert!(matches!(second_row.get(0), Some(NotificationComponent::Dropdown(_))));

    let third_row = grouped_components
        .get(2)
        .expect("For the third single action button row to exist.");

    assert!(matches!(third_row.get(0), Some(NotificationComponent::ActionButton(_))));
}

#[test]
fn notification_level_colors() {
    assert_eq!(
        NotificationLevel::Info.to_color(),
        Rgb { red: 0, green: 105, blue: 255 }
    );
    assert_eq!(
        NotificationLevel::Success.to_color(),
        Rgb { red: 0, green: 173, blue: 12 }
    );
    assert_eq!(
        NotificationLevel::Error.to_color(),
        Rgb { red: 230, green: 23, blue: 23 }
    );
}

#[test]
fn notification_close_hooks() {
    let mut flag = false;

    let mut notification = Notification::builder().title("test").message("test").build();

    notification.hook_close(1);

    for hook in notification.close() {
        if hook == 1 {
            flag = true;
        }
    }
    assert!(flag);
}

#[test]
fn close_hooks_fire_newest_first() {
    let mut notification = Notification::builder().title("a").message("b").build();
    notification.hook_close(1);
    notification.hook_close(2);
    assert_eq!(notification.close(), vec![2, 1]);
    // Dismissing again hands back the same chain: close itself does not
    // unregister anything.
    assert_eq!(notification.close(), vec![2, 1]);
}

#[test]
fn expiry_is_strict_at_the_boundary() {
    let notification = Notification::builder()
        .title("a")
        .message("b")
        .duration(100)
        .build();
    let created_at = notification.created_at();

    assert!(!notification.is_expired_at(created_at));
    assert!(!notification.is_expired_at(created_at + 99));
    assert!(!notification.is_expired_at(created_at + 100));
    assert!(notification.is_expired_at(created_at + 101));
}

#[test]
fn generated_ids_are_distinct() {
    let first = Notification::builder().title("a").message("b").build();
    let second = Notification::builder().title("a").message("b").build();

    assert!(uuid_like(first.id()));
    assert!(uuid_like(second.id()));
    assert_ne!(first.id(), second.id());
}

#[test]
fn empty_component_ids_are_unaddressable() {
    let notification = Notification::builder()
        .title("a")
        .message("b")
        .add_action_button(ActionButton::builder().text("t").build())
        .build();

    // The button carries the default empty id, so no lookup reaches it.
    assert!(notification.get_component("").is_none());
    assert!(notification.get_component("missing").is_none());
}

#[test]
fn dropdown_default_index_is_clamped() {
    let dropdown = Dropdown::builder()
        .add_value("k1", "v1")
        .add_value("k2", "v2")
        .default(17)
        .build();

    assert_eq!(dropdown.default(), 1);
    assert_eq!(dropdown.current_value(), "k2");

    let empty = Dropdown::builder().default(3).build();
    assert_eq!(empty.default(), 0);
    assert_eq!(empty.current_value(), "");
}

#[test]
fn grouping_concatenation_restores_the_input() {
    let notification = Notification::builder()
        .title("test")
        .message("test")
        .add_redirect_button(
            RedirectButton::builder().text("b1").target("/").id("b1").build(),
        )
        .add_redirect_button(
            RedirectButton::builder().text("b2").target("/").id("b2").build(),
        )
        .add_dropdown(Dropdown::builder().id("d1").build())
        .add_dropdown(Dropdown::builder().id("d2").build())
        .add_redirect_button(
            RedirectButton::builder().text("b3").target("/").id("b3").build(),
        )
        .build();

    let groups = group_components(notification.components());

    // [Button, Button, Dropdown, Dropdown, Button] clusters as
    // [[B, B], [D], [D], [B]]: dropdowns never merge, even when adjacent.
    assert_eq!(groups.len(), 4);
    assert_eq!(groups[0].len(), 2);
    assert_eq!(groups[1].len(), 1);
    assert_eq!(groups[2].len(), 1);
    assert_eq!(groups[3].len(), 1);
    assert!(matches!(groups[1][0], NotificationComponent::Dropdown(_)));
    assert!(matches!(groups[2][0], NotificationComponent::Dropdown(_)));

    let flattened: Vec<&str> = groups.iter().flatten().map(|c| c.id()).collect();
    let original: Vec<&str> = notification.components().iter().map(|c| c.id()).collect();
    assert_eq!(flattened, original);
}
