//! A thread of messages with one peer.

use crate::address::{bytes_of_text, is_address_text, text_of_bytes, Address, ADDRESS_TEXT_LENGTH};
use crate::connection::{Connection, ConnectionState};
use crate::message::{Message, MessageDirection, MessageModel};
use crate::network::{Task, TaskModel, TextMessage, TextMessageModel};
use crate::notice::{ConversationNotice, ConversationNoticeModel};
use crate::registry::{Observable, ObserverSet};
use vstd::prelude::*;

verus! {

/// What a conversation holds, apart from its subscribers and those of its
/// messages: the peer, once known, the draft that the user is writing, and
/// the messages exchanged so far, oldest first.
pub struct ConversationModel {
    pub recipient: Option<Address>,
    pub pending_message: Seq<char>,
    pub messages: Seq<MessageModel>,
}

/// The positions in `messages` of those with identity `id` that are not
/// acknowledged yet, in rising order.
pub open spec fn unacknowledged(messages: Seq<MessageModel>, id: Address) -> Seq<int>
    decreases messages.len(),
{
    if messages.len() == 0 {
        Seq::empty()
    } else {
        let before = unacknowledged(messages.drop_last(), id);
        if messages.last().id == id && !messages.last().acknowledged {
            before.push(messages.len() - 1)
        } else {
            before
        }
    }
}

/// The positions as numbers.
pub open spec fn places(positions: Seq<usize>) -> Seq<int> {
    positions.map_values(|position: usize| position as int)
}

impl ConversationModel {
    /// A conversation with nobody yet, in which nothing was said or written.
    pub open spec fn fresh() -> ConversationModel {
        ConversationModel { recipient: None, pending_message: Seq::empty(), messages: Seq::empty() }
    }

    pub open spec fn set_recipient(self, recipient: Option<Address>) -> ConversationModel {
        ConversationModel { recipient, ..self }
    }

    pub open spec fn set_pending_message(self, text: Seq<char>) -> ConversationModel {
        ConversationModel { pending_message: text, ..self }
    }

    /// The conversation with `message` at the end of its history.
    pub open spec fn receive_message(self, message: MessageModel) -> ConversationModel {
        ConversationModel { messages: self.messages.push(message), ..self }
    }

    /// The message that sending the draft under identity `id` adds to the
    /// history.
    pub open spec fn sent(self, id: Address) -> MessageModel {
        MessageModel {
            id,
            text: self.pending_message,
            direction: MessageDirection::Sent,
            acknowledged: false,
        }
    }

    /// The conversation after the draft was sent under identity `id`: the
    /// draft is empty and the history one message longer. Without a
    /// recipient nothing is sent.
    pub open spec fn send_message(self, id: Address) -> ConversationModel {
        if self.recipient is None {
            self
        } else {
            ConversationModel {
                recipient: self.recipient,
                pending_message: Seq::empty(),
                messages: self.messages.push(self.sent(id)),
            }
        }
    }

    /// What the subscribers are told when the draft is sent: that the draft
    /// is empty now, then that a message was sent, once each. Without a
    /// recipient they are told nothing.
    pub open spec fn send_notices(self) -> Seq<ConversationNoticeModel> {
        if self.recipient is None {
            Seq::empty()
        } else {
            seq![
                ConversationNoticeModel::PendingMessageChanged(Seq::empty()),
                ConversationNoticeModel::MessageSent(self.messages.len() as int),
            ]
        }
    }

    /// The command by which the draft goes to the recipient, from `sender`
    /// and under identity `id`.
    pub open spec fn delivery(self, id: Address, sender: Address) -> TaskModel {
        TaskModel::ScheduleMessageDelivery(
            self.recipient->0,
            TextMessageModel { id, text: self.pending_message, sender },
        )
    }

    /// The conversation once the acknowledgement of `id` has come in: every
    /// message with that identity is acknowledged, the others are as before.
    pub open spec fn acknowledge(self, id: Address) -> ConversationModel {
        ConversationModel {
            messages: self.messages.map_values(
                |message: MessageModel|
                    if message.id == id {
                        message.acknowledge()
                    } else {
                        message
                    },
            ),
            ..self
        }
    }
}

/// A conversation: the peer, the draft, the history, and those who want to
/// hear of changes to them.
pub struct Conversation<O> {
    recipient: Option<Address>,
    pending_message: String,
    messages: Vec<Message<O>>,
    observers: ObserverSet<O>,
}

impl<O> View for Conversation<O> {
    type V = ConversationModel;

    closed spec fn view(&self) -> ConversationModel {
        ConversationModel {
            recipient: self.recipient,
            pending_message: self.pending_message@,
            messages: self.messages.deep_view(),
        }
    }
}

impl<O> DeepView for Conversation<O> {
    type V = ConversationModel;

    open spec fn deep_view(&self) -> ConversationModel {
        self@
    }
}

impl<O> Observable<O> for Conversation<O> {
    closed spec fn observer_set(&self) -> ObserverSet<O> {
        self.observers
    }

    open spec fn same_state(&self, other: &Self) -> bool {
        self.history() == other.history() && self@ == other@
    }

    fn observers(&mut self) -> (set: &mut ObserverSet<O>) {
        &mut self.observers
    }
}

impl<O> Conversation<O> {
    /// Those who have subscribed, to tell them something.
    pub fn subscribers(&self) -> (set: &ObserverSet<O>)
        ensures
            *set == self.observer_set(),
    {
        &self.observers
    }

    /// The messages of the conversation, oldest first, each with its
    /// subscribers.
    pub closed spec fn history(&self) -> Seq<Message<O>> {
        self.messages@
    }

    /// Nobody has ever subscribed to the conversation or to one of its
    /// messages.
    pub open spec fn unobserved(&self) -> bool {
        &&& self.observer_set().unused()
        &&& forall|i: int|
            0 <= i < self.history().len() ==> (#[trigger] self.history()[i]).observer_set().unused()
    }

    /// Whether `self` has the subscribers that it had as `before`, and no
    /// others: those of the conversation and, message by message, those of
    /// the history, to which messages without subscribers may have been
    /// added at the end.
    pub open spec fn keeps_subscribers(&self, before: &Self) -> bool {
        &&& self.observer_set() == before.observer_set()
        &&& before.history().len() <= self.history().len()
        &&& forall|i: int|
            0 <= i < before.history().len() ==> (#[trigger] self.history()[i]).observer_set()
                == before.history()[i].observer_set()
        &&& forall|i: int|
            before.history().len() <= i < self.history().len() ==> (
            #[trigger] self.history()[i]).observer_set().unused()
    }

    /// The view of a conversation shows its history message by message.
    pub proof fn lemma_history(&self)
        ensures
            self@.messages.len() == self.history().len(),
            forall|i: int|
                0 <= i < self.history().len() ==> (#[trigger] self@.messages[i])
                    == self.history()[i]@,
    {
    }

    /// A conversation with nobody yet, in which nothing was said or written
    /// and to which nobody has subscribed.
    pub fn new() -> (conversation: Conversation<O>)
        ensures
            conversation@ == ConversationModel::fresh(),
            conversation.history() == Seq::<Message<O>>::empty(),
            conversation.observer_set().unused(),
    {
        let conversation = Conversation {
            recipient: None,
            pending_message: String::new(),
            messages: Vec::new(),
            observers: ObserverSet::new(),
        };
        assert(conversation@.messages =~= Seq::<MessageModel>::empty());
        conversation
    }

    /// Whether anything was said in the conversation yet.
    pub fn has_started(&self) -> (started: bool)
        ensures
            started == (self@.messages.len() > 0),
    {
        !self.messages.is_empty()
    }

    pub fn messages(&self) -> (messages: &Vec<Message<O>>)
        ensures
            messages@ == self.history(),
            messages.deep_view() == self@.messages,
    {
        &self.messages
    }

    /// The message at `position` in the history, to subscribe to it or to
    /// acknowledge it.
    pub fn message_mut(&mut self, position: usize) -> (message: Option<&mut Message<O>>)
        ensures
            match message {
                Some(message) => {
                    &&& position < old(self).history().len()
                    &&& *message == old(self).history()[position as int]
                    &&& final(self).history() == old(self).history().update(
                        position as int,
                        *final(message),
                    )
                    &&& final(self)@.recipient == old(self)@.recipient
                    &&& final(self)@.pending_message == old(self)@.pending_message
                    &&& final(self).observer_set() == old(self).observer_set()
                },
                None => position >= old(self).history().len() && *final(self) == *old(self),
            },
    {
        if position < self.messages.len() {
            Some(&mut self.messages[position])
        } else {
            None
        }
    }

    pub fn pending_message(&self) -> (text: &str)
        ensures
            text@ == self@.pending_message,
    {
        self.pending_message.as_str()
    }

    pub fn recipient(&self) -> (recipient: Option<Address>)
        ensures
            recipient == self@.recipient,
    {
        self.recipient
    }

    /// Replaces the draft. The result is what the subscribers are to be
    /// told: the new draft.
    pub fn set_pending_message(&mut self, text: String) -> (notice: ConversationNotice)
        ensures
            final(self)@ == old(self)@.set_pending_message(text@),
            notice@ == ConversationNoticeModel::PendingMessageChanged(text@),
            final(self).history() == old(self).history(),
            final(self).observer_set() == old(self).observer_set(),
    {
        self.pending_message = text.clone();
        ConversationNotice::PendingMessageChanged(text)
    }

    /// Replaces the recipient, possibly by none. The result is what the
    /// subscribers are to be told: the new recipient.
    pub fn set_recipient(&mut self, recipient: Option<Address>) -> (notice: ConversationNotice)
        ensures
            final(self)@ == old(self)@.set_recipient(recipient),
            notice@ == ConversationNoticeModel::RecipientChanged(recipient),
            final(self).history() == old(self).history(),
            final(self).observer_set() == old(self).observer_set(),
    {
        self.recipient = recipient;
        ConversationNotice::RecipientChanged(recipient)
    }

    /// Takes note of what the user has typed for the recipient. As long as
    /// it has not the length of an address, nothing happens. Once it has,
    /// the recipient is the address that it names, or none if it names no
    /// address, and the result is what the subscribers are to be told.
    pub fn enter_recipient(&mut self, text: &str) -> (notice: Option<ConversationNotice>)
        ensures
            final(self).history() == old(self).history(),
            final(self).observer_set() == old(self).observer_set(),
            text.len() != ADDRESS_TEXT_LENGTH ==> notice is None && final(self)@ == old(self)@,
            text.len() == ADDRESS_TEXT_LENGTH ==> {
                let recipient = final(self)@.recipient;
                &&& match recipient {
                    Some(address) => is_address_text(text@) && address@ == bytes_of_text(text@),
                    None => !is_address_text(text@),
                }
                &&& final(self)@ == old(self)@.set_recipient(recipient)
                &&& notice is Some
                &&& notice->0@ == ConversationNoticeModel::RecipientChanged(recipient)
            },
    {
        if text.len() == ADDRESS_TEXT_LENGTH {
            Some(self.set_recipient(Address::from_str(text)))
        } else {
            None
        }
    }

    /// The name under which the conversation is shown: the recipient's
    /// address in writing, or that the conversation is new.
    pub fn title(&self) -> (title: String)
        ensures
            title@ == match self@.recipient {
                Some(address) => text_of_bytes(address@),
                None => "New Conversation"@,
            },
    {
        match self.recipient {
            Some(address) => address.to_str(),
            None => "New Conversation".to_owned(),
        }
    }

    /// Puts `message` at the end of the history, whoever it is from. The
    /// result is what the subscribers are to be told: where the message
    /// stands.
    pub fn receive_message(&mut self, message: Message<O>) -> (notice: ConversationNotice)
        ensures
            final(self)@ == old(self)@.receive_message(message@),
            notice@ == ConversationNoticeModel::MessageReceived(old(self)@.messages.len() as int),
            final(self).history() == old(self).history().push(message),
            final(self).observer_set() == old(self).observer_set(),
    {
        let position = self.messages.len();
        self.messages.push(message);
        assert(self@.messages =~= old(self)@.messages.push(message@));
        ConversationNotice::MessageReceived(position)
    }

    /// Sends the draft to the recipient, if there is one; if not, nothing
    /// happens at all.
    ///
    /// The message gets its identity from `make_id`, which is given the
    /// user's address and the draft. The command to deliver it goes into the
    /// channel of `connection`, the draft becomes empty, and the message
    /// stands at the end of the history as sent and not acknowledged. The
    /// result is what the subscribers are to be told, in this order: that the
    /// draft is empty, and that a message was sent.
    pub fn send_message<F: Fn(Address, &str) -> Address>(
        &mut self,
        connection: &mut Connection<O>,
        make_id: F,
    ) -> (notices: Vec<ConversationNotice>)
        requires
            old(self)@.recipient is Some ==> {
                &&& old(connection)@.state != ConnectionState::Stopped
                &&& forall|text: &str|
                    text@ == old(self)@.pending_message ==> call_requires(
                        make_id,
                        (old(connection)@.self_address->0, text),
                    )
            },
        ensures
            final(self).observer_set() == old(self).observer_set(),
            final(connection).observer_set() == old(connection).observer_set(),
            notices.deep_view() == old(self)@.send_notices(),
            old(self)@.recipient is None ==> {
                &&& final(self)@ == old(self)@
                &&& final(self).history() == old(self).history()
                &&& final(connection)@ == old(connection)@
            },
            old(self)@.recipient is Some ==> {
                let message = final(self).history().last();
                let sender = old(connection)@.self_address->0;
                &&& exists|text: &str|
                    text@ == old(self)@.pending_message && call_ensures(
                        make_id,
                        (sender, text),
                        message@.id,
                    )
                &&& final(self)@ == old(self)@.send_message(message@.id)
                &&& final(self).history() == old(self).history().push(message)
                &&& message.observer_set().unused()
                &&& final(connection)@ == old(connection)@.submit(
                    old(self)@.delivery(message@.id, sender),
                )
            },
    {
        let mut notices: Vec<ConversationNotice> = Vec::new();
        if let Some(recipient) = self.recipient {
            let sender = connection.self_address();
            let id = make_id(sender, self.pending_message.as_str());
            let outgoing = TextMessage::new(id, self.pending_message.clone(), sender);
            let text = self.pending_message.clone();
            connection.submit(Task::ScheduleMessageDelivery(recipient, outgoing));

            let cleared = self.set_pending_message(String::new());
            notices.push(cleared);

            let position = self.messages.len();
            let message = Message::sent(id, text);
            self.messages.push(message);
            notices.push(ConversationNotice::MessageSent(position));
            assert(self@.messages =~= old(self)@.messages.push(old(self)@.sent(id)));
        }
        notices
    }

    /// Takes note that the acknowledgement of `message_id` has come in:
    /// every message of that identity is acknowledged from now on. The
    /// result names, by position and in rising order, the messages whose
    /// subscribers are to be told: those that were not acknowledged before.
    pub fn acknowledge(&mut self, message_id: Address) -> (positions: Vec<usize>)
        ensures
            final(self)@ == old(self)@.acknowledge(message_id),
            places(positions@) == unacknowledged(old(self)@.messages, message_id),
            final(self).keeps_subscribers(old(self)),
    {
        let mut positions: Vec<usize> = Vec::new();
        let n = self.messages.len();
        let mut i: usize = 0;
        while i < n
            invariant
                i <= n,
                n == self.messages.len(),
                n == old(self).messages.len(),
                self.recipient == old(self).recipient,
                self.pending_message == old(self).pending_message,
                self.observers == old(self).observers,
                forall|j: int|
                    0 <= j < i ==> (#[trigger] self.messages[j])@ == (if old(self).messages[j]@.id
                        == message_id {
                        old(self).messages[j]@.acknowledge()
                    } else {
                        old(self).messages[j]@
                    }),
                forall|j: int| i <= j < n ==> (#[trigger] self.messages[j]) == old(self).messages[j],
                forall|j: int|
                    0 <= j < n ==> (#[trigger] self.messages[j]).observer_set() == old(
                        self,
                    ).messages[j].observer_set(),
                places(positions@) == unacknowledged(
                    old(self)@.messages.take(i as int),
                    message_id,
                ),
            decreases n - i,
        {
            proof {
                let before = old(self)@.messages;
                assert(before.take(i + 1).drop_last() =~= before.take(i as int));
            }
            if self.messages[i].id() == message_id {
                let notice = self.messages[i].receive_acknowledgement();
                if notice.is_some() {
                    positions.push(i);
                }
            }
            i = i + 1;
        }
        proof {
            assert(old(self)@.messages.take(n as int) =~= old(self)@.messages);
            assert(self@.messages =~= old(self)@.acknowledge(message_id).messages);
        }
        positions
    }
}

} // verus!
