use remote_control::broadcast::{Broadcaster, Subscription};
use remote_control::gpio::Input;

#[test]
fn new_slot_holds_the_initial_value() {
    let slot = Broadcaster::new(Input::P2);
    assert_eq!(slot.current(), Input::P2);
    assert_eq!(slot, Broadcaster { value: Input::P2, version: 0 });
    assert!(slot.has_room());
}

#[test]
fn publish_overwrites_and_counts() {
    let mut slot = Broadcaster::new(Input::P1);
    slot.publish(Input::P2);
    assert_eq!(slot, Broadcaster { value: Input::P2, version: 1 });
    slot.publish(Input::P2);
    assert_eq!(slot, Broadcaster { value: Input::P2, version: 2 });
}

#[test]
fn publish_reaches_every_existing_subscriber() {
    let mut slot = Broadcaster::new(Input::P1);
    let mut first = slot.subscribe();
    let mut second = slot.subscribe();
    slot.publish(Input::P3);
    assert_eq!(first.wait_for_change(&slot), Some(Input::P3));
    assert_eq!(second.wait_for_change(&slot), Some(Input::P3));
}

#[test]
fn new_subscription_reads_latest_without_waiting() {
    let mut slot = Broadcaster::new(Input::P1);
    slot.publish(Input::P4);
    let mut handle = slot.subscribe();
    assert_eq!(handle.current(&slot), Input::P4);
    assert!(!handle.has_changed(&slot));
    assert_eq!(handle.wait_for_change(&slot), None);
}

#[test]
fn subscriber_has_nothing_to_take_before_a_publish() {
    let slot = Broadcaster::new(Input::P1);
    let mut handle = slot.subscribe();
    assert_eq!(handle.wait_for_change(&slot), None);
    assert_eq!(handle, Subscription { seen: 0 });
}

#[test]
fn change_is_taken_once() {
    let mut slot = Broadcaster::new(Input::P1);
    let mut handle = slot.subscribe();
    slot.publish(Input::P2);
    assert!(handle.has_changed(&slot));
    assert_eq!(handle.wait_for_change(&slot), Some(Input::P2));
    assert!(!handle.has_changed(&slot));
    assert_eq!(handle.wait_for_change(&slot), None);
}

#[test]
fn slow_subscriber_sees_only_the_latest() {
    let mut slot = Broadcaster::new(Input::P1);
    let mut handle = slot.subscribe();
    slot.publish(Input::P2);
    slot.publish(Input::P3);
    slot.publish(Input::P4);
    assert_eq!(handle.wait_for_change(&slot), Some(Input::P4));
    assert_eq!(handle.wait_for_change(&slot), None);
}

#[test]
fn republishing_the_same_value_is_a_change() {
    let mut slot = Broadcaster::new(Input::P1);
    let mut handle = slot.subscribe();
    slot.publish(Input::P1);
    assert_eq!(handle.wait_for_change(&slot), Some(Input::P1));
}

#[test]
fn subscribers_are_independent() {
    let mut slot = Broadcaster::new(Input::P1);
    let mut fast = slot.subscribe();
    let mut slow = slot.subscribe();
    slot.publish(Input::P2);
    assert_eq!(fast.wait_for_change(&slot), Some(Input::P2));
    assert!(slow.has_changed(&slot));
    slot.publish(Input::P3);
    assert_eq!(fast.wait_for_change(&slot), Some(Input::P3));
    assert_eq!(slow.wait_for_change(&slot), Some(Input::P3));
}

#[test]
fn full_counter_has_no_room() {
    let slot = Broadcaster { value: Input::P1, version: u64::MAX };
    assert!(!slot.has_room());
    let almost = Broadcaster { value: Input::P1, version: u64::MAX - 1 };
    assert!(almost.has_room());
}
