use comm_messenger::address::Address;
use comm_messenger::message::{Message, MessageDirection};
use comm_messenger::notice::MessageNotice;

fn id(n: u8) -> Address {
    Address::from_bytes([n; 20])
}

#[test]
fn new_message_is_not_acknowledged() {
    let message: Message<u32> = Message::new(id(1), String::from("hi"), MessageDirection::Sent);
    assert_eq!(message.id(), id(1));
    assert_eq!(message.text(), "hi");
    assert!(!message.acknowledged());
    assert!(message.was_sent());
    assert!(!message.was_received());
}

#[test]
fn sent_and_received_messages_know_their_direction() {
    let sent: Message<u32> = Message::sent(id(1), String::from("out"));
    let received: Message<u32> = Message::received(id(2), String::from("in"));
    assert!(sent.was_sent() && !sent.was_received());
    assert!(received.was_received() && !received.was_sent());
    assert_eq!(sent.text(), "out");
    assert_eq!(received.text(), "in");
    assert_eq!(received.id(), id(2));
    assert!(!sent.acknowledged() && !received.acknowledged());
}

#[test]
fn acknowledgement_is_told_once() {
    let mut message: Message<u32> = Message::sent(id(1), String::from("hi"));
    assert_eq!(
        message.receive_acknowledgement(),
        Some(MessageNotice::Acknowledged)
    );
    assert!(message.acknowledged());
    assert_eq!(message.receive_acknowledgement(), None);
    assert!(message.acknowledged());
    assert_eq!(message.receive_acknowledgement(), None);
    assert!(message.acknowledged());
    assert_eq!(message.text(), "hi");
    assert_eq!(message.id(), id(1));
    assert!(message.was_sent());
}
