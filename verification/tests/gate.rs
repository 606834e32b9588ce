use canvadot_notifications::gate::DeliveryGate;
use canvadot_notifications::notification::Notification;

#[test]
fn sends_wait_until_a_consumer_registers() {
    let mut gate = DeliveryGate::new();
    assert!(!gate.is_ready());

    // Before any registration a send attempt does nothing: the producer
    // has to park and retry. Nothing is buffered, nothing is dropped.
    let early = Notification::builder().title("early").message("m").build();
    let early_id = early.id().to_string();
    assert!(!gate.send_notification(early.clone()));
    assert_eq!(gate.take_pending().len(), 0);

    // The first consumer registration brings readiness.
    assert!(gate.start_listening_notifications());
    assert!(gate.is_ready());

    // The retried send now goes through and reaches the consumer.
    assert!(gate.send_notification(early));
    let drained = gate.take_pending();
    assert_eq!(drained.len(), 1);
    assert_eq!(drained[0].id(), early_id);
    assert_eq!(gate.take_pending().len(), 0);
}

#[test]
fn a_second_registration_is_refused() {
    let mut gate = DeliveryGate::new();
    assert!(gate.start_listening_notifications());
    // The consumer registration is one-time: a stray second attempt gets
    // no endpoint and changes nothing.
    assert!(!gate.start_listening_notifications());
    assert!(gate.is_ready());
}

#[test]
fn deliveries_arrive_in_send_order() {
    let mut gate = DeliveryGate::new();
    assert!(gate.start_listening_notifications());

    gate.send_notification(Notification::builder().title("one").message("m").build());
    gate.send_notification(Notification::builder().title("two").message("m").build());
    gate.send_notification(Notification::builder().title("three").message("m").build());

    let titles: Vec<String> = gate
        .take_pending()
        .iter()
        .map(|n| n.title().to_string())
        .collect();
    assert_eq!(titles, vec!["one", "two", "three"]);
}
