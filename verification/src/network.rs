//! What is exchanged with the network client: the commands handed to it and
//! the events that come back from it.

use crate::address::Address;
use vstd::prelude::*;

verus! {

/// A text message as it travels over the network.
#[derive(Clone, Debug, PartialEq, Eq)]
pub struct TextMessage {
    pub id: Address,
    pub text: String,
    pub sender: Address,
}

/// What a `TextMessage` holds.
pub struct TextMessageModel {
    pub id: Address,
    pub text: Seq<char>,
    pub sender: Address,
}

impl View for TextMessage {
    type V = TextMessageModel;

    open spec fn view(&self) -> TextMessageModel {
        TextMessageModel { id: self.id, text: self.text@, sender: self.sender }
    }
}

impl TextMessage {
    /// A message with the given identity, text and sender.
    pub fn new(id: Address, text: String, sender: Address) -> (message: TextMessage)
        ensures
            message@ == (TextMessageModel { id, text: text@, sender }),
    {
        TextMessage { id, text, sender }
    }
}

/// The confirmation that a message has reached its recipient.
#[derive(Clone, Copy, Debug, PartialEq, Eq)]
pub struct MessageAcknowledgement {
    pub message_id: Address,
}

/// A command for the network client.
#[derive(Clone, Debug, PartialEq, Eq)]
pub enum Task {
    /// Deliver the message to the recipient.
    ScheduleMessageDelivery(Address, TextMessage),
    /// Leave the network.
    Shutdown,
}

/// What a `Task` holds.
pub enum TaskModel {
    ScheduleMessageDelivery(Address, TextMessageModel),
    Shutdown,
}

impl View for Task {
    type V = TaskModel;

    open spec fn view(&self) -> TaskModel {
        match *self {
            Task::ScheduleMessageDelivery(recipient, message) => TaskModel::ScheduleMessageDelivery(
                recipient,
                message@,
            ),
            Task::Shutdown => TaskModel::Shutdown,
        }
    }
}

impl DeepView for Task {
    type V = TaskModel;

    open spec fn deep_view(&self) -> TaskModel {
        self@
    }
}

/// Something that the network client reports.
#[derive(Clone, Debug, PartialEq, Eq)]
pub enum Event {
    /// A message from another peer has arrived.
    ReceivedTextMessage(TextMessage),
    /// A message sent earlier has reached its recipient.
    ReceivedMessageAcknowledgement(MessageAcknowledgement),
    /// A message has left for the network.
    SentTextMessage(TextMessage),
    /// The client has left the network.
    Shutdown,
    /// The client has joined the network.
    Started,
}

/// What an `Event` holds.
pub enum EventModel {
    ReceivedTextMessage(TextMessageModel),
    ReceivedMessageAcknowledgement(MessageAcknowledgement),
    SentTextMessage(TextMessageModel),
    Shutdown,
    Started,
}

impl View for Event {
    type V = EventModel;

    open spec fn view(&self) -> EventModel {
        match *self {
            Event::ReceivedTextMessage(message) => EventModel::ReceivedTextMessage(message@),
            Event::ReceivedMessageAcknowledgement(ack) => EventModel::ReceivedMessageAcknowledgement(
                ack,
            ),
            Event::SentTextMessage(message) => EventModel::SentTextMessage(message@),
            Event::Shutdown => EventModel::Shutdown,
            Event::Started => EventModel::Started,
        }
    }
}

impl DeepView for Event {
    type V = EventModel;

    open spec fn deep_view(&self) -> EventModel {
        self@
    }
}

} // verus!
