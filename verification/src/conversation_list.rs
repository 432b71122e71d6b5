//! The conversations of the user, newest first, and the routing of what the
//! network client reports to the conversation, message or connection that it
//! is about.

use crate::address::Address;
use crate::connection::{Connection, ConnectionModel, ConnectionState};
use crate::conversation::{places, unacknowledged, Conversation, ConversationModel};
use crate::message::{Message, MessageDirection, MessageModel};
use crate::network::{Event, EventModel, TextMessage, TextMessageModel};
use crate::notice::{
    ConnectionNotice, ConversationListNotice, ConversationNotice, ConversationNoticeModel,
    MessageNotice, Notice, NoticeModel,
};
use crate::registry::{Observable, ObserverSet};
use vstd::prelude::*;

verus! {

/// What a conversation list holds, apart from all subscribers: the
/// connection and the conversations, newest first.
pub struct ListModel {
    pub connection: ConnectionModel,
    pub conversations: Seq<ConversationModel>,
}

/// The message that a text from the network is kept as.
pub open spec fn incoming(text: TextMessageModel) -> MessageModel {
    MessageModel {
        id: text.id,
        text: text.text,
        direction: MessageDirection::Received,
        acknowledged: false,
    }
}

/// The notices for the subscribers of the messages at `positions` in the
/// conversation at position `conversation`: that they are acknowledged.
pub open spec fn acknowledged_at(conversation: int, positions: Seq<int>) -> Seq<NoticeModel> {
    positions.map_values(
        |position: int|
            NoticeModel::Message {
                conversation,
                message: position,
                notice: MessageNotice::Acknowledged,
            },
    )
}

/// What subscribers are told when the acknowledgement of `id` comes in: one
/// notice for each message of that identity that was not acknowledged
/// before, conversation by conversation and, within one, message by message.
pub open spec fn acknowledgement_notices(conversations: Seq<ConversationModel>, id: Address) -> Seq<
    NoticeModel,
>
    decreases conversations.len(),
{
    if conversations.len() == 0 {
        Seq::empty()
    } else {
        acknowledgement_notices(conversations.drop_last(), id) + acknowledged_at(
            conversations.len() - 1,
            unacknowledged(conversations.last().messages, id),
        )
    }
}

/// The notices for the subscribers of the conversation at position
/// `conversation`.
pub open spec fn at_conversation(conversation: int, notices: Seq<ConversationNoticeModel>) -> Seq<
    NoticeModel,
> {
    notices.map_values(
        |notice: ConversationNoticeModel| NoticeModel::Conversation { conversation, notice },
    )
}

/// The notice for the connection's subscribers, if there is one.
pub open spec fn connection_notices(notice: Option<ConnectionNotice>) -> Seq<NoticeModel> {
    match notice {
        Some(notice) => seq![NoticeModel::Connection(notice)],
        None => Seq::empty(),
    }
}

impl ListModel {
    /// Whether some conversation is with `peer`.
    pub open spec fn knows(self, peer: Address) -> bool {
        exists|i: int|
            0 <= i < self.conversations.len() && (#[trigger] self.conversations[i]).recipient
                == Some(peer)
    }

    /// Whether the conversation at `i` is with `peer` and none before it is.
    pub open spec fn is_first_with(self, peer: Address, i: int) -> bool {
        &&& 0 <= i < self.conversations.len()
        &&& self.conversations[i].recipient == Some(peer)
        &&& forall|j: int| 0 <= j < i ==> (#[trigger] self.conversations[j]).recipient != Some(peer)
    }

    /// The position of the first conversation with `peer`, if there is one.
    pub open spec fn first_with(self, peer: Address) -> int {
        choose|i: int| self.is_first_with(peer, i)
    }

    /// No two conversations are with the same peer.
    pub open spec fn one_conversation_each(self) -> bool {
        forall|i: int, j: int|
            0 <= i < self.conversations.len() && 0 <= j < self.conversations.len() && (
            #[trigger] self.conversations[i]).recipient is Some && self.conversations[i].recipient
                == (#[trigger] self.conversations[j]).recipient ==> i == j
    }

    /// The conversation that a first message from `peer` opens.
    pub open spec fn opened_by(text: TextMessageModel) -> ConversationModel {
        ConversationModel::fresh().set_recipient(Some(text.sender)).receive_message(incoming(text))
    }

    /// The number of conversations that are older than the one at
    /// `position`, and, the other way round, the position of the
    /// conversation than which so many are older. Conversations are only
    /// ever added in front, so this number names a conversation for good,
    /// while its position moves.
    pub open spec fn mirror(self, position: int) -> Option<int> {
        if 0 <= position < self.conversations.len() {
            Some(self.conversations.len() - 1 - position)
        } else {
            None
        }
    }

    /// The list with `conversation` added in front.
    pub open spec fn add_conversation(self, conversation: ConversationModel) -> ListModel {
        ListModel { conversations: seq![conversation] + self.conversations, ..self }
    }

    /// The list after a text has come in: it stands at the end of the first
    /// conversation with its sender, or, if there is none, alone in a new
    /// conversation with the sender at the front of the list.
    pub open spec fn receive_text(self, text: TextMessageModel) -> ListModel {
        if self.knows(text.sender) {
            let i = self.first_with(text.sender);
            ListModel {
                conversations: self.conversations.update(
                    i,
                    self.conversations[i].receive_message(incoming(text)),
                ),
                ..self
            }
        } else {
            self.add_conversation(Self::opened_by(text))
        }
    }

    /// What subscribers are told when a text comes in. Of a new conversation
    /// they hear first that it has a recipient, then that it was added, and
    /// only then of the message.
    pub open spec fn receive_text_notices(self, text: TextMessageModel) -> Seq<NoticeModel> {
        if self.knows(text.sender) {
            let i = self.first_with(text.sender);
            seq![
                NoticeModel::Conversation {
                    conversation: i,
                    notice: ConversationNoticeModel::MessageReceived(
                        self.conversations[i].messages.len() as int,
                    ),
                },
            ]
        } else {
            seq![
                NoticeModel::Conversation {
                    conversation: 0,
                    notice: ConversationNoticeModel::RecipientChanged(Some(text.sender)),
                },
                NoticeModel::List(ConversationListNotice::ConversationAdded(0)),
                NoticeModel::Conversation {
                    conversation: 0,
                    notice: ConversationNoticeModel::MessageReceived(0),
                },
            ]
        }
    }

    /// The list after the draft of the conversation at `index` was sent
    /// under identity `id`: the command to deliver it waits in the
    /// connection's channel.
    pub open spec fn send_message(self, index: int, id: Address) -> ListModel {
        let conversation = self.conversations[index];
        if conversation.recipient is None {
            self
        } else {
            ListModel {
                connection: self.connection.submit(
                    conversation.delivery(id, self.connection.self_address->0),
                ),
                conversations: self.conversations.update(index, conversation.send_message(id)),
            }
        }
    }

    /// The list after the user asked for a new conversation: it stands in
    /// front, with nobody yet.
    pub open spec fn open_conversation(self) -> ListModel {
        self.add_conversation(ConversationModel::fresh())
    }

    /// The list once the acknowledgement of `id` has come in: in every
    /// conversation, every message of that identity is acknowledged.
    pub open spec fn acknowledge(self, id: Address) -> ListModel {
        ListModel {
            conversations: self.conversations.map_values(
                |conversation: ConversationModel| conversation.acknowledge(id),
            ),
            ..self
        }
    }

    /// The list after `event` was taken note of.
    pub open spec fn step(self, event: EventModel) -> ListModel {
        match event {
            EventModel::ReceivedTextMessage(text) => self.receive_text(text),
            EventModel::ReceivedMessageAcknowledgement(ack) => self.acknowledge(ack.message_id),
            EventModel::SentTextMessage(_) => self,
            EventModel::Shutdown => ListModel {
                connection: self.connection.handle_shutdown(),
                ..self
            },
            EventModel::Started => ListModel {
                connection: self.connection.handle_started(),
                ..self
            },
        }
    }

    /// What subscribers are told when `event` is taken note of, in order.
    pub open spec fn notices(self, event: EventModel) -> Seq<NoticeModel> {
        match event {
            EventModel::ReceivedTextMessage(text) => self.receive_text_notices(text),
            EventModel::ReceivedMessageAcknowledgement(ack) => acknowledgement_notices(
                self.conversations,
                ack.message_id,
            ),
            EventModel::SentTextMessage(_) => Seq::empty(),
            EventModel::Shutdown => connection_notices(self.connection.shutdown_notice()),
            EventModel::Started => connection_notices(self.connection.started_notice()),
        }
    }
}

/// The conversations of the user, newest first, with the connection that
/// they send through and those who want to hear of changes to the list.
pub struct ConversationList<O> {
    connection: Connection<O>,
    conversations: Vec<Conversation<O>>,
    observers: ObserverSet<O>,
}

impl<O> View for ConversationList<O> {
    type V = ListModel;

    closed spec fn view(&self) -> ListModel {
        ListModel {
            connection: self.connection@,
            conversations: self.conversations.deep_view(),
        }
    }
}

impl<O> Observable<O> for ConversationList<O> {
    closed spec fn observer_set(&self) -> ObserverSet<O> {
        self.observers
    }

    open spec fn same_state(&self, other: &Self) -> bool {
        &&& self.link() == other.link()
        &&& self.entries() == other.entries()
        &&& self@ == other@
    }

    fn observers(&mut self) -> (set: &mut ObserverSet<O>) {
        &mut self.observers
    }
}

impl<O> ConversationList<O> {
    /// Those who have subscribed, to tell them something.
    pub fn subscribers(&self) -> (set: &ObserverSet<O>)
        ensures
            *set == self.observer_set(),
    {
        &self.observers
    }

    /// The connection, with its subscribers.
    pub closed spec fn link(&self) -> Connection<O> {
        self.connection
    }

    /// The conversations, newest first, each with its subscribers.
    pub closed spec fn entries(&self) -> Seq<Conversation<O>> {
        self.conversations@
    }

    /// Whether `self` has the subscribers that it had as `before`, and no
    /// others: those of the list and of the connection, and, conversation by
    /// conversation, those that `before` had. Conversations may have been
    /// added in front, to which nobody has subscribed.
    pub open spec fn keeps_subscribers(&self, before: &Self) -> bool {
        let added = self.entries().len() - before.entries().len();
        &&& self.observer_set() == before.observer_set()
        &&& self.link().observer_set() == before.link().observer_set()
        &&& added >= 0
        &&& forall|i: int|
            0 <= i < before.entries().len() ==> (#[trigger] self.entries()[i + added]).keeps_subscribers(
                &before.entries()[i],
            )
        &&& forall|i: int| 0 <= i < added ==> (#[trigger] self.entries()[i]).unobserved()
    }

    /// Those whom `notice` is for: the subscribers of the connection, of the
    /// list, or of the conversation or message that it names. A notice that
    /// names what is not there is for nobody.
    pub open spec fn audience(&self, notice: NoticeModel) -> Map<usize, O> {
        match notice {
            NoticeModel::Connection(_) => self.link().observer_set().entries(),
            NoticeModel::List(_) => self.observer_set().entries(),
            NoticeModel::Conversation { conversation, .. } => {
                if 0 <= conversation < self.entries().len() {
                    self.entries()[conversation].observer_set().entries()
                } else {
                    Map::empty()
                }
            },
            NoticeModel::Message { conversation, message, .. } => {
                if 0 <= conversation < self.entries().len() && 0 <= message
                    < self.entries()[conversation].history().len() {
                    self.entries()[conversation].history()[message].observer_set().entries()
                } else {
                    Map::empty()
                }
            },
        }
    }

    /// A list that is left alone keeps its subscribers.
    pub proof fn lemma_keeps_own_subscribers(&self)
        ensures
            self.keeps_subscribers(self),
    {
        assert forall|i: int| 0 <= i < self.entries().len() implies (
        #[trigger] self.entries()[i + 0]).keeps_subscribers(&self.entries()[i]) by {}
    }

    /// The view of a list shows its connection, and its conversations one
    /// by one.
    pub proof fn lemma_entries(&self)
        ensures
            self@.connection == self.link()@,
            self@.conversations.len() == self.entries().len(),
            forall|i: int|
                0 <= i < self.entries().len() ==> (#[trigger] self@.conversations[i])
                    == self.entries()[i]@,
    {
    }

    /// A list without conversations or subscribers, around `connection`.
    pub fn new(connection: Connection<O>) -> (list: ConversationList<O>)
        ensures
            list@ == (ListModel { connection: connection@, conversations: Seq::empty() }),
            list.link() == connection,
            list.entries() == Seq::<Conversation<O>>::empty(),
            list.observer_set().unused(),
    {
        let list = ConversationList {
            connection,
            conversations: Vec::new(),
            observers: ObserverSet::new(),
        };
        assert(list@.conversations =~= Seq::<ConversationModel>::empty());
        list
    }

    pub fn connection(&self) -> (connection: &Connection<O>)
        ensures
            *connection == self.link(),
    {
        &self.connection
    }

    /// The number of conversations.
    pub fn len(&self) -> (len: usize)
        ensures
            len == self.entries().len(),
            len == self@.conversations.len(),
    {
        self.conversations.len()
    }

    /// The number of conversations that are older than the one at
    /// `position`: a name for it that stays good when conversations are
    /// added.
    pub fn age_at(&self, position: usize) -> (age: Option<usize>)
        ensures
            match age {
                Some(age) => self@.mirror(position as int) == Some(age as int),
                None => self@.mirror(position as int) is None,
            },
    {
        let len = self.conversations.len();
        if position < len {
            Some(len - 1 - position)
        } else {
            None
        }
    }

    /// The position of the conversation than which `age` conversations are
    /// older.
    pub fn position_of(&self, age: usize) -> (position: Option<usize>)
        ensures
            match position {
                Some(position) => self@.mirror(age as int) == Some(position as int),
                None => self@.mirror(age as int) is None,
            },
    {
        let len = self.conversations.len();
        if age < len {
            Some(len - 1 - age)
        } else {
            None
        }
    }

    /// Puts `conversation` at the front of the list. The result is what the
    /// subscribers are to be told: where the new conversation stands.
    pub fn add_conversation(&mut self, conversation: Conversation<O>) -> (notice:
        ConversationListNotice)
        ensures
            final(self)@ == old(self)@.add_conversation(conversation@),
            notice == ConversationListNotice::ConversationAdded(0),
            final(self).entries() == seq![conversation] + old(self).entries(),
            final(self).link() == old(self).link(),
            final(self).observer_set() == old(self).observer_set(),
    {
        self.conversations.insert(0, conversation);
        assert(self@.conversations =~= seq![conversation@] + old(self)@.conversations);
        ConversationListNotice::ConversationAdded(0)
    }

    /// The conversation at `index`, counted from the newest.
    pub fn get(&self, index: usize) -> (conversation: Option<&Conversation<O>>)
        ensures
            match conversation {
                Some(conversation) => index < self.entries().len() && *conversation
                    == self.entries()[index as int],
                None => index >= self.entries().len(),
            },
    {
        if index < self.conversations.len() {
            Some(&self.conversations[index])
        } else {
            None
        }
    }

    /// Makes the conversation at `index` the one that the user looks at:
    /// the list stays as it is, and the result is what the subscribers are
    /// to be told.
    pub fn select_conversation(&mut self, index: usize) -> (notice: ConversationListNotice)
        requires
            index < old(self).entries().len(),
        ensures
            *final(self) == *old(self),
            notice == ConversationListNotice::ConversationSelected(index),
    {
        ConversationListNotice::ConversationSelected(index)
    }

    /// The position of the first conversation with `peer`.
    pub fn find(&self, peer: Address) -> (found: Option<usize>)
        ensures
            match found {
                Some(i) => self@.is_first_with(peer, i as int),
                None => !self@.knows(peer),
            },
    {
        let n = self.conversations.len();
        let mut i: usize = 0;
        while i < n
            invariant
                i <= n,
                n == self.conversations.len(),
                forall|j: int| 0 <= j < i ==> (#[trigger] self@.conversations[j]).recipient != Some(peer),
            decreases n - i,
        {
            if self.conversations[i].recipient() == Some(peer) {
                return Some(i);
            }
            i = i + 1;
        }
        None
    }

    /// Takes note of a text from the network: it goes to the end of the
    /// first conversation with its sender. If there is none, one is made
    /// for the sender, added at the front, and given the message. The
    /// result is what subscribers are to be told, in order.
    pub fn receive_text_message(&mut self, text: TextMessage) -> (notices: Vec<Notice>)
        ensures
            final(self)@ == old(self)@.receive_text(text@),
            notices.deep_view() == old(self)@.receive_text_notices(text@),
            final(self).keeps_subscribers(old(self)),
    {
        let sender = text.sender;
        let message: Message<O> = Message::received(text.id, text.text);
        let mut notices: Vec<Notice> = Vec::new();
        match self.find(sender) {
            Some(i) => {
                let notice = self.conversations[i].receive_message(message);
                notices.push(Notice::Conversation { conversation: i, notice });
                assert(self@.conversations =~= old(self)@.receive_text(text@).conversations);
            },
            None => {
                let mut conversation: Conversation<O> = Conversation::new();
                let changed = conversation.set_recipient(Some(sender));
                notices.push(Notice::Conversation { conversation: 0, notice: changed });
                let added = self.add_conversation(conversation);
                notices.push(Notice::List(added));
                let received = self.conversations[0].receive_message(message);
                notices.push(Notice::Conversation { conversation: 0, notice: received });
                assert(self@.conversations =~= old(self)@.receive_text(text@).conversations);
            },
        }
        notices
    }

    /// Takes note that the acknowledgement of `message_id` has come in:
    /// every message of that identity, in whatever conversation, is
    /// acknowledged from now on. The result is what subscribers are to be
    /// told: one notice for each message that was not acknowledged before.
    pub fn receive_acknowledgement(&mut self, message_id: Address) -> (notices: Vec<Notice>)
        ensures
            final(self)@ == old(self)@.acknowledge(message_id),
            notices.deep_view() == acknowledgement_notices(old(self)@.conversations, message_id),
            final(self).keeps_subscribers(old(self)),
    {
        let mut notices: Vec<Notice> = Vec::new();
        let n = self.conversations.len();
        let mut i: usize = 0;
        while i < n
            invariant
                i <= n,
                n == self.conversations.len(),
                n == old(self).conversations.len(),
                self.connection == old(self).connection,
                self.observers == old(self).observers,
                forall|j: int|
                    0 <= j < i ==> (#[trigger] self.conversations[j])@ == old(
                        self,
                    ).conversations[j]@.acknowledge(message_id),
                forall|j: int|
                    i <= j < n ==> (#[trigger] self.conversations[j]) == old(self).conversations[j],
                forall|j: int|
                    0 <= j < n ==> (#[trigger] self.conversations[j]).keeps_subscribers(
                        &old(self).conversations[j],
                    ),
                notices.deep_view() == acknowledgement_notices(
                    old(self)@.conversations.take(i as int),
                    message_id,
                ),
            decreases n - i,
        {
            proof {
                let before = old(self)@.conversations;
                assert(before.take(i + 1).drop_last() =~= before.take(i as int));
            }
            let positions = self.conversations[i].acknowledge(message_id);
            let ghost so_far = notices.deep_view();
            let m = positions.len();
            let mut k: usize = 0;
            while k < m
                invariant
                    k <= m,
                    m == positions.len(),
                    notices.deep_view() == so_far + acknowledged_at(
                        i as int,
                        places(positions@).take(k as int),
                    ),
                decreases m - k,
            {
                let ghost told = notices.deep_view();
                let notice = Notice::Message {
                    conversation: i,
                    message: positions[k],
                    notice: MessageNotice::Acknowledged,
                };
                notices.push(notice);
                proof {
                    assert(notices.deep_view() =~= told.push(notice@));
                    let found = places(positions@);
                    assert(found.take(k + 1) =~= found.take(k as int).push(positions[k as int] as int));
                    assert(acknowledged_at(i as int, found.take(k + 1)) =~= acknowledged_at(
                        i as int,
                        found.take(k as int),
                    ).push(notice@));
                    assert(notices.deep_view() =~= so_far + acknowledged_at(
                        i as int,
                        found.take(k + 1),
                    ));
                }
                k = k + 1;
            }
            i = i + 1;
        }
        proof {
            assert(old(self)@.conversations.take(n as int) =~= old(self)@.conversations);
            assert(self@.conversations =~= old(self)@.acknowledge(message_id).conversations);
        }
        notices
    }

    /// Takes note of what the network client reports and says what
    /// subscribers are to be told, in order.
    ///
    /// A text goes to the conversation with its sender, which is made if
    /// need be. An acknowledgement marks every message of its identity. That
    /// a message has left changes nothing. That the client has started or
    /// shut down is passed on to the connection.
    pub fn handle_event(&mut self, event: Event) -> (notices: Vec<Notice>)
        ensures
            final(self)@ == old(self)@.step(event@),
            notices.deep_view() == old(self)@.notices(event@),
            final(self).keeps_subscribers(old(self)),
    {
        match event {
            Event::ReceivedTextMessage(text) => self.receive_text_message(text),
            Event::ReceivedMessageAcknowledgement(ack) => self.receive_acknowledgement(
                ack.message_id,
            ),
            Event::SentTextMessage(_) => Vec::new(),
            Event::Shutdown => {
                let notice = self.connection.handle_shutdown();
                Self::for_connection(notice)
            },
            Event::Started => {
                let notice = self.connection.handle_started();
                Self::for_connection(notice)
            },
        }
    }

    /// The connection, to start it or shut it down, or to take out the
    /// commands that wait.
    pub fn connection_mut(&mut self) -> (connection: &mut Connection<O>)
        ensures
            *connection == old(self).link(),
            final(self).link() == *final(connection),
            final(self).entries() == old(self).entries(),
            final(self).observer_set() == old(self).observer_set(),
    {
        &mut self.connection
    }

    /// The conversation at `index`, counted from the newest, to change it.
    pub fn get_mut(&mut self, index: usize) -> (conversation: Option<&mut Conversation<O>>)
        ensures
            match conversation {
                Some(conversation) => {
                    &&& index < old(self).entries().len()
                    &&& *conversation == old(self).entries()[index as int]
                    &&& final(self).entries() == old(self).entries().update(
                        index as int,
                        *final(conversation),
                    )
                    &&& final(self).link() == old(self).link()
                    &&& final(self).observer_set() == old(self).observer_set()
                },
                None => index >= old(self).entries().len() && *final(self) == *old(self),
            },
    {
        if index < self.conversations.len() {
            Some(&mut self.conversations[index])
        } else {
            None
        }
    }

    /// Opens a new conversation, with nobody yet, at the front of the list
    /// and makes it the one that the user looks at. The result is what the
    /// subscribers are to be told, in order.
    pub fn open_conversation(&mut self) -> (notices: Vec<ConversationListNotice>)
        ensures
            final(self)@ == old(self)@.open_conversation(),
            notices@ == seq![
                ConversationListNotice::ConversationAdded(0),
                ConversationListNotice::ConversationSelected(0),
            ],
            final(self).keeps_subscribers(old(self)),
    {
        let mut notices: Vec<ConversationListNotice> = Vec::new();
        let added = self.add_conversation(Conversation::new());
        notices.push(added);
        let selected = self.select_conversation(0);
        notices.push(selected);
        assert(notices@ =~= seq![
            ConversationListNotice::ConversationAdded(0),
            ConversationListNotice::ConversationSelected(0),
        ]);
        notices
    }

    /// Sends the draft of the conversation at `index` to its recipient,
    /// through the connection of the list. Without a recipient nothing
    /// happens. The result is what the subscribers of that conversation are
    /// to be told, in order.
    pub fn send_message<F: Fn(Address, &str) -> Address>(&mut self, index: usize, make_id: F) -> (notices:
        Vec<Notice>)
        requires
            index < old(self)@.conversations.len(),
            old(self)@.conversations[index as int].recipient is Some ==> {
                &&& old(self)@.connection.state != ConnectionState::Stopped
                &&& forall|text: &str|
                    text@ == old(self)@.conversations[index as int].pending_message
                        ==> call_requires(make_id, (old(self)@.connection.self_address->0, text))
            },
        ensures
            notices.deep_view() == at_conversation(
                index as int,
                old(self)@.conversations[index as int].send_notices(),
            ),
            final(self).keeps_subscribers(old(self)),
            old(self)@.conversations[index as int].recipient is None ==> final(self)@ == old(self)@,
            old(self)@.conversations[index as int].recipient is Some ==> {
                let id = final(self)@.conversations[index as int].messages.last().id;
                &&& exists|text: &str|
                    text@ == old(self)@.conversations[index as int].pending_message
                        && call_ensures(make_id, (old(self)@.connection.self_address->0, text), id)
                &&& final(self)@ == old(self)@.send_message(index as int, id)
            },
    {
        let told = self.conversations[index].send_message(&mut self.connection, make_id);
        proof {
            let before = old(self).conversations[index as int];
            let after = self.conversations[index as int];
            if before@.recipient is Some {
                let id = after.history().last()@.id;
                assert(after@.messages.last().id == id) by {
                    after.lemma_history();
                }
                assert(self@.conversations =~= old(self)@.send_message(index as int, id).conversations);
            } else {
                assert(self@.conversations =~= old(self)@.conversations);
            }
            assert forall|i: int| 0 <= i < old(self).entries().len() implies (
            #[trigger] self.entries()[i + 0]).keeps_subscribers(&old(self).entries()[i]) by {}
        }
        Self::for_conversation(index, told)
    }

    /// Hands `notice` to everyone it is for, by calling `deliver` on each of
    /// them, in no particular order.
    pub fn broadcast<F: Fn(&O, &Notice)>(&self, notice: &Notice, deliver: F)
        requires
            forall|id: usize| #[trigger]
                self.audience(notice@).contains_key(id) ==> call_requires(
                    deliver,
                    (&self.audience(notice@)[id], notice),
                ),
        ensures
            forall|id: usize| #[trigger]
                self.audience(notice@).contains_key(id) ==> call_ensures(
                    deliver,
                    (&self.audience(notice@)[id], notice),
                    (),
                ),
    {
        let deliver = &deliver;
        let hand_over = |observer: &O|
            requires
                call_requires(deliver, (observer, notice)),
            ensures
                call_ensures(deliver, (observer, notice), ()),
            { deliver(observer, notice) };
        match notice {
            Notice::Connection(_) => {
                self.connection.subscribers().notify(hand_over);
            },
            Notice::List(_) => {
                self.subscribers().notify(hand_over);
            },
            Notice::Conversation { conversation, .. } => {
                if *conversation < self.conversations.len() {
                    self.conversations[*conversation].subscribers().notify(hand_over);
                }
            },
            Notice::Message { conversation, message, .. } => {
                if *conversation < self.conversations.len() {
                    let messages = self.conversations[*conversation].messages();
                    if *message < messages.len() {
                        messages[*message].subscribers().notify(hand_over);
                    }
                }
            },
        }
    }

    fn for_conversation(conversation: usize, notices: Vec<ConversationNotice>) -> (wrapped: Vec<
        Notice,
    >)
        ensures
            wrapped.deep_view() == at_conversation(conversation as int, notices.deep_view()),
    {
        let mut wrapped: Vec<Notice> = Vec::new();
        for notice in it: notices.into_iter()
            invariant
                it.seq() == notices@,
                wrapped.deep_view() == at_conversation(
                    conversation as int,
                    notices.deep_view().take(it.index()),
                ),
        {
            let ghost told = wrapped.deep_view();
            let ghost k = it.index();
            let entry = Notice::Conversation { conversation, notice };
            wrapped.push(entry);
            proof {
                assert(wrapped.deep_view() =~= told.push(entry@));
                assert(notices.deep_view().take(k + 1) =~= notices.deep_view().take(k).push(
                    notice@,
                ));
                assert(wrapped.deep_view() =~= at_conversation(
                    conversation as int,
                    notices.deep_view().take(k + 1),
                ));
            }
        }
        wrapped
    }

    fn for_connection(notice: Option<ConnectionNotice>) -> (notices: Vec<Notice>)
        ensures
            notices.deep_view() == connection_notices(notice),
    {
        let mut notices: Vec<Notice> = Vec::new();
        if let Some(notice) = notice {
            notices.push(Notice::Connection(notice));
        }
        notices
    }
}

} // verus!
