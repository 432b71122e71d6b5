use comm_messenger::message::Message;
use comm_messenger::address::Address;
use comm_messenger::registry::{Observable, ObserverSet};
use std::cell::RefCell;

#[test]
fn handles_are_issued_in_order_from_zero() {
    let mut set: ObserverSet<&str> = ObserverSet::new();
    assert_eq!(set.len(), 0);
    assert_eq!(set.insert("first"), 0);
    assert_eq!(set.insert("second"), 1);
    assert_eq!(set.insert("third"), 2);
    assert_eq!(set.len(), 3);
    assert_eq!(set.get(&1), Some(&"second"));
}

#[test]
fn handles_are_never_reused_after_removal() {
    let mut set: ObserverSet<u32> = ObserverSet::new();
    let a = set.insert(10);
    let b = set.insert(20);
    set.remove(&b);
    set.remove(&a);
    assert_eq!(set.len(), 0);
    let c = set.insert(30);
    assert_eq!(c, 2);
    assert!(!set.contains(&a));
    assert!(!set.contains(&b));
    assert_eq!(set.get(&c), Some(&30));
}

#[test]
fn removing_an_unknown_handle_changes_nothing() {
    let mut set: ObserverSet<u32> = ObserverSet::new();
    let a = set.insert(10);
    set.remove(&17);
    assert_eq!(set.len(), 1);
    assert_eq!(set.get(&a), Some(&10));
    set.remove(&a);
    set.remove(&a);
    assert_eq!(set.len(), 0);
    assert_eq!(set.insert(11), 1);
}

#[test]
fn notify_reaches_every_subscriber_once() {
    let mut set: ObserverSet<u32> = ObserverSet::new();
    set.insert(3);
    let gone = set.insert(5);
    set.insert(8);
    set.remove(&gone);
    let seen = RefCell::new(Vec::new());
    set.notify(|observer| seen.borrow_mut().push(*observer));
    let mut seen = seen.into_inner();
    seen.sort();
    assert_eq!(seen, vec![3, 8]);
}

#[test]
fn notify_lets_subscribers_change_themselves() {
    let mut set: ObserverSet<RefCell<u32>> = ObserverSet::new();
    let a = set.insert(RefCell::new(1));
    let b = set.insert(RefCell::new(2));
    set.notify(|observer| *observer.borrow_mut() += 10);
    assert_eq!(*set.get(&a).unwrap().borrow(), 11);
    assert_eq!(*set.get(&b).unwrap().borrow(), 12);
}

#[test]
fn notify_on_an_empty_set_calls_nothing() {
    let set: ObserverSet<u32> = ObserverSet::new();
    let calls = RefCell::new(0);
    set.notify(|_| *calls.borrow_mut() += 1);
    assert_eq!(calls.into_inner(), 0);
}

#[test]
fn observable_registers_and_deregisters() {
    let mut message: Message<&str> = Message::sent(Address::null(), String::from("hello"));
    let a = message.register_observer("label");
    let b = message.register_observer("bubble");
    assert_eq!((a, b), (0, 1));
    message.deregister_observer(&a);
    message.deregister_observer(&99);
    assert_eq!(message.observers().len(), 1);
    assert_eq!(message.observers().get(&b), Some(&"bubble"));
    assert_eq!(message.register_observer("again"), 2);
    assert_eq!(message.text(), "hello");
    assert!(!message.acknowledged());
}

#[test]
fn next_id_tells_the_handle_to_come() {
    let mut set: ObserverSet<u32> = ObserverSet::new();
    assert_eq!(set.next_id(), 0);
    let a = set.insert(1);
    assert_eq!(set.next_id(), a + 1);
    set.remove(&a);
    assert_eq!(set.next_id(), 1);
    assert_eq!(set.insert(2), 1);
    assert_eq!(set.next_id(), 2);
}
