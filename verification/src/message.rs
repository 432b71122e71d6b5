//! A single chat message.

use crate::address::Address;
use crate::notice::MessageNotice;
use crate::registry::{Observable, ObserverSet};
use vstd::prelude::*;

verus! {

/// Whether a message was written here or came from the other side.
#[derive(Clone, Copy, Debug, PartialEq, Eq, Structural)]
pub enum MessageDirection {
    Sent,
    Received,
}

/// What a message holds, apart from its subscribers.
pub struct MessageModel {
    pub id: Address,
    pub text: Seq<char>,
    pub direction: MessageDirection,
    pub acknowledged: bool,
}

impl MessageModel {
    /// The message once its acknowledgement has come in.
    pub open spec fn acknowledge(self) -> MessageModel {
        MessageModel { acknowledged: true, ..self }
    }

    /// What the subscribers are told when the acknowledgement comes in:
    /// something only if it is the first.
    pub open spec fn acknowledge_notice(self) -> Option<MessageNotice> {
        if self.acknowledged {
            None
        } else {
            Some(MessageNotice::Acknowledged)
        }
    }
}

/// A chat message, with those who want to hear of its acknowledgement.
pub struct Message<O> {
    id: Address,
    text: String,
    direction: MessageDirection,
    acknowledged: bool,
    observers: ObserverSet<O>,
}

impl<O> View for Message<O> {
    type V = MessageModel;

    closed spec fn view(&self) -> MessageModel {
        MessageModel {
            id: self.id,
            text: self.text@,
            direction: self.direction,
            acknowledged: self.acknowledged,
        }
    }
}

impl<O> DeepView for Message<O> {
    type V = MessageModel;

    open spec fn deep_view(&self) -> MessageModel {
        self@
    }
}

impl<O> Observable<O> for Message<O> {
    closed spec fn observer_set(&self) -> ObserverSet<O> {
        self.observers
    }

    open spec fn same_state(&self, other: &Self) -> bool {
        self@ == other@
    }

    fn observers(&mut self) -> (set: &mut ObserverSet<O>) {
        &mut self.observers
    }
}

impl<O> Message<O> {
    /// Those who have subscribed, to tell them something.
    pub fn subscribers(&self) -> (set: &ObserverSet<O>)
        ensures
            *set == self.observer_set(),
    {
        &self.observers
    }

    /// A message that nobody has acknowledged or subscribed to yet.
    pub fn new(id: Address, text: String, direction: MessageDirection) -> (message: Message<O>)
        ensures
            message@ == (MessageModel { id, text: text@, direction, acknowledged: false }),
            message.observer_set().unused(),
    {
        Message { id, text, direction, acknowledged: false, observers: ObserverSet::new() }
    }

    /// A message written here.
    pub fn sent(id: Address, text: String) -> (message: Message<O>)
        ensures
            message@ == (MessageModel {
                id,
                text: text@,
                direction: MessageDirection::Sent,
                acknowledged: false,
            }),
            message.observer_set().unused(),
    {
        Self::new(id, text, MessageDirection::Sent)
    }

    /// A message that came from the other side.
    pub fn received(id: Address, text: String) -> (message: Message<O>)
        ensures
            message@ == (MessageModel {
                id,
                text: text@,
                direction: MessageDirection::Received,
                acknowledged: false,
            }),
            message.observer_set().unused(),
    {
        Self::new(id, text, MessageDirection::Received)
    }

    pub fn id(&self) -> (id: Address)
        ensures
            id == self@.id,
    {
        self.id
    }

    pub fn acknowledged(&self) -> (acknowledged: bool)
        ensures
            acknowledged == self@.acknowledged,
    {
        self.acknowledged
    }

    pub fn text(&self) -> (text: &str)
        ensures
            text@ == self@.text,
    {
        self.text.as_str()
    }

    pub fn was_sent(&self) -> (sent: bool)
        ensures
            sent == (self@.direction == MessageDirection::Sent),
    {
        self.direction == MessageDirection::Sent
    }

    pub fn was_received(&self) -> (received: bool)
        ensures
            received == (self@.direction == MessageDirection::Received),
    {
        self.direction == MessageDirection::Received
    }

    /// Takes note that the recipient has acknowledged the message. The
    /// subscribers are to be told the first time only: the result says what.
    pub fn receive_acknowledgement(&mut self) -> (notice: Option<MessageNotice>)
        ensures
            final(self)@ == old(self)@.acknowledge(),
            notice == old(self)@.acknowledge_notice(),
            final(self).observer_set() == old(self).observer_set(),
    {
        if self.acknowledged {
            None
        } else {
            self.acknowledged = true;
            Some(MessageNotice::Acknowledged)
        }
    }

    /// Acknowledging is idempotent: a second acknowledgement leaves the
    /// message as the first one left it, and only the first one, on a message
    /// not yet acknowledged, gives the subscribers anything to hear.
    pub proof fn lemma_acknowledge_twice(message: MessageModel)
        ensures
            message.acknowledge().acknowledged,
            message.acknowledge().acknowledge() == message.acknowledge(),
            message.acknowledge().acknowledge_notice() is None,
            !message.acknowledged ==> message.acknowledge_notice() == Some(
                MessageNotice::Acknowledged,
            ),
            message.acknowledged ==> message.acknowledge_notice() is None,
    {
    }
}

} // verus!
