use comm_messenger::address::Address;
use comm_messenger::configuration::Configuration;
use comm_messenger::connection::{Connection, ConnectionState};
use comm_messenger::conversation::Conversation;
use comm_messenger::message::Message;
use comm_messenger::network::{Task, TextMessage};
use comm_messenger::notice::ConversationNotice;

fn id(n: u8) -> Address {
    Address::from_bytes([n; 20])
}

fn derive(secret: &str) -> Address {
    let mut bytes = [7u8; 20];
    for (i, byte) in secret.bytes().enumerate() {
        bytes[i % 20] ^= byte;
    }
    Address::from_bytes(bytes)
}

fn make_id(sender: Address, text: &str) -> Address {
    let mut bytes = sender.to_bytes();
    for (i, byte) in text.bytes().enumerate() {
        bytes[i % 20] = bytes[i % 20].wrapping_add(byte).rotate_left(3);
    }
    Address::from_bytes(bytes)
}

fn running() -> Connection<u32> {
    let mut configuration = Configuration::empty();
    configuration.update(Some(String::from("abc")), None, Some(9000));
    let mut connection = Connection::new();
    connection.start(&configuration, derive).unwrap();
    connection.handle_started();
    connection
}

#[test]
fn new_conversation_is_empty() {
    let conversation: Conversation<u32> = Conversation::new();
    assert_eq!(conversation.recipient(), None);
    assert_eq!(conversation.pending_message(), "");
    assert!(conversation.messages().is_empty());
    assert!(!conversation.has_started());
    assert_eq!(conversation.title(), "New Conversation");
}

#[test]
fn set_recipient_tells_the_new_recipient() {
    let mut conversation: Conversation<u32> = Conversation::new();
    assert_eq!(
        conversation.set_recipient(Some(id(4))),
        ConversationNotice::RecipientChanged(Some(id(4)))
    );
    assert_eq!(conversation.recipient(), Some(id(4)));
    assert_eq!(
        conversation.set_recipient(None),
        ConversationNotice::RecipientChanged(None)
    );
    assert_eq!(conversation.recipient(), None);
}

#[test]
fn set_pending_message_tells_the_new_draft() {
    let mut conversation: Conversation<u32> = Conversation::new();
    assert_eq!(
        conversation.set_pending_message(String::from("hel")),
        ConversationNotice::PendingMessageChanged(String::from("hel"))
    );
    assert_eq!(conversation.pending_message(), "hel");
    conversation.set_pending_message(String::from("hello"));
    assert_eq!(conversation.pending_message(), "hello");
    assert!(!conversation.has_started());
}

#[test]
fn receive_message_appends_in_order() {
    let mut conversation: Conversation<u32> = Conversation::new();
    assert_eq!(
        conversation.receive_message(Message::received(id(1), String::from("one"))),
        ConversationNotice::MessageReceived(0)
    );
    assert_eq!(
        conversation.receive_message(Message::received(id(2), String::from("two"))),
        ConversationNotice::MessageReceived(1)
    );
    assert!(conversation.has_started());
    let texts: Vec<&str> = conversation.messages().iter().map(|m| m.text()).collect();
    assert_eq!(texts, vec!["one", "two"]);
    assert!(conversation.messages().iter().all(|m| m.was_received()));
    assert_eq!(conversation.recipient(), None);
}

#[test]
fn send_without_recipient_does_nothing() {
    let mut connection = running();
    let mut conversation: Conversation<u32> = Conversation::new();
    conversation.set_pending_message(String::from("lost?"));
    let notices = conversation.send_message(&mut connection, make_id);
    assert_eq!(notices, Vec::new());
    assert_eq!(conversation.pending_message(), "lost?");
    assert!(conversation.messages().is_empty());
    assert!(connection.commands().is_empty());
    assert_eq!(connection.state(), ConnectionState::Running);
}

#[test]
fn send_without_recipient_needs_no_connection() {
    let mut connection: Connection<u32> = Connection::new();
    let mut conversation: Conversation<u32> = Conversation::new();
    conversation.set_pending_message(String::from("lost?"));
    let notices = conversation.send_message(&mut connection, make_id);
    assert!(notices.is_empty());
    assert_eq!(conversation.pending_message(), "lost?");
    assert!(!conversation.has_started());
    assert_eq!(connection.state(), ConnectionState::Stopped);
}

#[test]
fn send_empties_the_draft_and_adds_one_sent_message() {
    let mut connection = running();
    let mut conversation: Conversation<u32> = Conversation::new();
    conversation.set_recipient(Some(id(9)));
    conversation.receive_message(Message::received(id(1), String::from("ping")));
    conversation.set_pending_message(String::from("pong"));

    let notices = conversation.send_message(&mut connection, make_id);

    assert_eq!(
        notices,
        vec![
            ConversationNotice::PendingMessageChanged(String::new()),
            ConversationNotice::MessageSent(1),
        ]
    );
    assert_eq!(conversation.pending_message(), "");
    assert_eq!(conversation.messages().len(), 2);
    let sent = &conversation.messages()[1];
    assert_eq!(sent.text(), "pong");
    assert!(sent.was_sent());
    assert!(!sent.acknowledged());
    assert_eq!(sent.id(), make_id(derive("abc"), "pong"));
    assert_eq!(conversation.messages()[0].text(), "ping");
    assert_eq!(conversation.recipient(), Some(id(9)));

    let expected = TextMessage::new(
        make_id(derive("abc"), "pong"),
        String::from("pong"),
        derive("abc"),
    );
    assert_eq!(
        connection.commands(),
        &vec![Task::ScheduleMessageDelivery(id(9), expected)]
    );
}

#[test]
fn send_twice_sends_the_draft_once() {
    let mut connection = running();
    let mut conversation: Conversation<u32> = Conversation::new();
    conversation.set_recipient(Some(id(9)));
    conversation.set_pending_message(String::from("once"));
    conversation.send_message(&mut connection, make_id);
    let notices = conversation.send_message(&mut connection, make_id);
    assert_eq!(
        notices,
        vec![
            ConversationNotice::PendingMessageChanged(String::new()),
            ConversationNotice::MessageSent(1),
        ]
    );
    let texts: Vec<&str> = conversation.messages().iter().map(|m| m.text()).collect();
    assert_eq!(texts, vec!["once", ""]);
    assert_eq!(connection.commands().len(), 2);
}

#[test]
fn acknowledge_marks_every_message_of_that_identity() {
    let mut conversation: Conversation<u32> = Conversation::new();
    conversation.receive_message(Message::sent(id(1), String::from("a")));
    conversation.receive_message(Message::sent(id(2), String::from("b")));
    conversation.receive_message(Message::sent(id(1), String::from("c")));
    conversation.receive_message(Message::sent(id(3), String::from("d")));

    assert_eq!(conversation.acknowledge(id(1)), vec![0, 2]);
    let marks: Vec<bool> = conversation
        .messages()
        .iter()
        .map(|m| m.acknowledged())
        .collect();
    assert_eq!(marks, vec![true, false, true, false]);

    assert_eq!(conversation.acknowledge(id(1)), Vec::<usize>::new());
    assert_eq!(conversation.acknowledge(id(7)), Vec::<usize>::new());
    assert_eq!(conversation.acknowledge(id(3)), vec![3]);
    let marks: Vec<bool> = conversation
        .messages()
        .iter()
        .map(|m| m.acknowledged())
        .collect();
    assert_eq!(marks, vec![true, false, true, true]);
}

#[test]
fn enter_recipient_waits_for_forty_characters() {
    let mut conversation: Conversation<u32> = Conversation::new();
    conversation.set_recipient(Some(id(4)));
    assert_eq!(conversation.enter_recipient(""), None);
    assert_eq!(
        conversation.enter_recipient("0909090909090909090909090909090909090"),
        None
    );
    assert_eq!(
        conversation.enter_recipient("09090909090909090909090909090909090909090"),
        None
    );
    assert_eq!(conversation.recipient(), Some(id(4)));
}

#[test]
fn enter_recipient_takes_an_address() {
    let mut conversation: Conversation<u32> = Conversation::new();
    assert_eq!(
        conversation.enter_recipient("0909090909090909090909090909090909090909"),
        Some(ConversationNotice::RecipientChanged(Some(id(9))))
    );
    assert_eq!(conversation.recipient(), Some(id(9)));
    assert_eq!(
        conversation.title(),
        "0909090909090909090909090909090909090909"
    );
}

#[test]
fn enter_recipient_forgets_the_recipient_for_forty_other_characters() {
    let mut conversation: Conversation<u32> = Conversation::new();
    conversation.set_recipient(Some(id(4)));
    assert_eq!(
        conversation.enter_recipient("this is not an address, but forty long.."),
        Some(ConversationNotice::RecipientChanged(None))
    );
    assert_eq!(conversation.recipient(), None);
    assert_eq!(conversation.title(), "New Conversation");
}
